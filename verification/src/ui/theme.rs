//! The colour theme. The colours and styles themselves belong to the terminal
//! library; what is decided here is which status a locker is shown in.

use vstd::prelude::*;

verus! {

/// Theme colors and styles for the application.
#[derive(Debug, Clone, Copy, Default)]
pub struct Theme;

/// The status a locker is shown in; each has its own colour.
#[derive(Debug, Clone, Copy, PartialEq, Eq, Structural)]
pub enum LockerStatus {
    /// Nobody rents it.
    Free,
    /// Rented and paid up.
    Occupied,
    /// Rented and past its end date.
    Overdue,
    /// Damaged, whoever rents it.
    Damaged,
}

/// Which status wins: damage first, then being overdue, then being rented.
pub open spec fn spec_locker_status(is_occupied: bool, is_damaged: bool, is_overdue: bool) -> LockerStatus {
    if is_damaged {
        LockerStatus::Damaged
    } else if is_overdue {
        LockerStatus::Overdue
    } else if is_occupied {
        LockerStatus::Occupied
    } else {
        LockerStatus::Free
    }
}

impl Theme {
    /// The status whose colour a locker is drawn in.
    pub fn locker_status(is_occupied: bool, is_damaged: bool, is_overdue: bool) -> (r: LockerStatus)
        ensures
            r == spec_locker_status(is_occupied, is_damaged, is_overdue),
    {
        if is_damaged {
            LockerStatus::Damaged
        } else if is_overdue {
            LockerStatus::Overdue
        } else if is_occupied {
            LockerStatus::Occupied
        } else {
            LockerStatus::Free
        }
    }
}

} // verus!
