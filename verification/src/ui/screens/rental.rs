//! State of the rental management screen, and what its list of lockers shows: each
//! locker with its active rental, if it has one, and the status it is shown in.

use crate::calendar::Date;
use crate::models::{Locker, RentalWithLocker};
use crate::text::{i64_text, int_text, nat_text, u64_text};
use crate::ui::state::{rental_management_tab_at, rental_management_tab_index, InputMode, RentalManagementTab};
use vstd::prelude::*;

verus! {

/// Days before its end from which a rental counts as running out.
pub const EXPIRING_DAYS: i64 = 30;

/// State for rental management screens.
#[derive(Debug)]
pub struct RentalState {
    /// The tab shown.
    pub selected_tab: RentalManagementTab,
    /// Index of the selected row of the list.
    pub list_selected: usize,
    /// The search query typed.
    pub search_query: String,
    /// Whether keys edit the query.
    pub input_mode: InputMode,
    /// Indices of the rows that match the query.
    pub filtered_indices: Vec<usize>,
}

impl RentalState {
    /// The search tab with an empty query, in normal mode.
    pub fn new() -> (r: Self)
        ensures
            r.selected_tab == RentalManagementTab::Search,
            r.list_selected == 0,
            r.search_query@ == Seq::<char>::empty(),
            r.input_mode == InputMode::Normal,
            r.filtered_indices@.len() == 0,
    {
        RentalState {
            selected_tab: RentalManagementTab::Search,
            list_selected: 0,
            search_query: String::new(),
            input_mode: InputMode::Normal,
            filtered_indices: Vec::new(),
        }
    }

    /// Shows the next tab, wrapping around.
    pub fn next_tab(&mut self)
        ensures
            final(self).selected_tab == rental_management_tab_at(
                ((rental_management_tab_index(old(self).selected_tab) + 1) % 5) as int,
            )->0,
            final(self).list_selected == old(self).list_selected,
            final(self).search_query == old(self).search_query,
            final(self).input_mode == old(self).input_mode,
            final(self).filtered_indices == old(self).filtered_indices,
    {
        let idx = self.selected_tab.index();
        let count = RentalManagementTab::all().len();
        self.selected_tab = match RentalManagementTab::from_index((idx + 1) % count) {
            Some(t) => t,
            None => RentalManagementTab::List,
        };
    }

    /// Shows the previous tab, wrapping around.
    pub fn prev_tab(&mut self)
        ensures
            final(self).selected_tab == rental_management_tab_at(
                if rental_management_tab_index(old(self).selected_tab) == 0 {
                    4int
                } else {
                    rental_management_tab_index(old(self).selected_tab) - 1
                },
            )->0,
            final(self).list_selected == old(self).list_selected,
            final(self).search_query == old(self).search_query,
            final(self).input_mode == old(self).input_mode,
            final(self).filtered_indices == old(self).filtered_indices,
    {
        let idx = self.selected_tab.index();
        let prev = if idx == 0 { RentalManagementTab::all().len() - 1 } else { idx - 1 };
        self.selected_tab = match RentalManagementTab::from_index(prev) {
            Some(t) => t,
            None => RentalManagementTab::List,
        };
    }
}

impl Default for RentalState {
    fn default() -> (r: Self)
        ensures
            r.selected_tab == RentalManagementTab::Search,
            r.list_selected == 0,
            r.input_mode == InputMode::Normal,
    {
        Self::new()
    }
}

/// A row of the locker list: which locker it shows, which active rental holds it and
/// the days until that rental ends.
#[derive(Debug, Clone, Copy, PartialEq, Eq, Structural)]
pub struct LockerView {
    /// Index of the locker in the list of lockers.
    pub locker_index: usize,
    /// Index of the first active rental of the locker, if it has one.
    pub rental_index: Option<usize>,
    /// Days from today until the rental ends, if it has one.
    pub days_until_expiration: Option<i64>,
}

/// Index of the first rental of the locker with id `id`, if any.
pub open spec fn first_rental_of(rentals: Seq<RentalWithLocker>, id: i64) -> Option<int> {
    if exists|j: int| 0 <= j < rentals.len() && rentals[j].locker.id == id {
        Some(choose|j: int| 0 <= j < rentals.len() && rentals[j].locker.id == id
            && forall|k: int| 0 <= k < j ==> rentals[k].locker.id != id)
    } else {
        None
    }
}

/// The row of the list for locker `i`.
pub open spec fn locker_view_of(lockers: Seq<Locker>, rentals: Seq<RentalWithLocker>, today: Date, i: int) -> LockerView {
    match first_rental_of(rentals, lockers[i].id) {
        Some(j) => LockerView {
            locker_index: i as usize,
            rental_index: Some(j as usize),
            days_until_expiration: Some((rentals[j].rental.rental_end_date@ - today@) as i64),
        },
        None => LockerView { locker_index: i as usize, rental_index: None, days_until_expiration: None },
    }
}

/// Index of the first rental of the locker with id `id`.
fn find_rental(rentals: &Vec<RentalWithLocker>, id: i64) -> (r: Option<usize>)
    ensures
        r matches Some(j) ==> first_rental_of(rentals@, id) == Some(j as int) && j < rentals.len(),
        r is None ==> first_rental_of(rentals@, id) is None,
{
    let mut j: usize = 0;
    while j < rentals.len()
        invariant
            j <= rentals.len(),
            forall|k: int| 0 <= k < j ==> rentals@[k].locker.id != id,
        decreases rentals.len() - j,
    {
        if rentals[j].locker.id == id {
            let ghost jj = j as int;
            assert(0 <= jj < rentals.len() && rentals@[jj].locker.id == id
                && forall|k: int| 0 <= k < jj ==> rentals@[k].locker.id != id);
            proof {
                let c = choose|c: int| 0 <= c < rentals@.len() && rentals@[c].locker.id == id
                    && forall|k: int| 0 <= k < c ==> rentals@[k].locker.id != id;
                assert(c == jj) by {
                    if c < jj {
                        assert(rentals@[c].locker.id != id);
                    } else if c > jj {
                        assert(rentals@[jj].locker.id != id);
                    }
                }
            }
            return Some(j);
        }
        j = j + 1;
    }
    None
}

/// The rows of the locker list, one per locker in order, each with the first active
/// rental of its locker and the days from `today` until that rental ends.
pub fn locker_views(lockers: &Vec<Locker>, rentals: &Vec<RentalWithLocker>, today: Date) -> (r: Vec<LockerView>)
    ensures
        r.len() == lockers.len(),
        forall|i: int| 0 <= i < lockers.len() ==> #[trigger] r@[i] == locker_view_of(lockers@, rentals@, today, i),
{
    let mut out: Vec<LockerView> = Vec::new();
    let mut i: usize = 0;
    while i < lockers.len()
        invariant
            i <= lockers.len(),
            out.len() == i,
            forall|k: int| 0 <= k < i ==> #[trigger] out@[k] == locker_view_of(lockers@, rentals@, today, k),
        decreases lockers.len() - i,
    {
        let view = match find_rental(rentals, lockers[i].id) {
            Some(j) => LockerView {
                locker_index: i,
                rental_index: Some(j),
                days_until_expiration: Some(rentals[j].rental.days_until_expiration_on(today)),
            },
            None => LockerView { locker_index: i, rental_index: None, days_until_expiration: None },
        };
        out.push(view);
        i = i + 1;
    }
    out
}

/// The status a row of the list is shown in.
#[derive(Debug, Clone, Copy, PartialEq, Eq, Structural)]
pub enum RowStatus {
    /// Rented, past its end date.
    Overdue,
    /// Rented, ending within 30 days.
    Expiring,
    /// Rented.
    Occupied,
    /// Not rented and damaged.
    Damaged,
    /// Not rented.
    Free,
}

/// The status of a row: a rented locker by the days until its rental ends, a free one
/// by whether it is damaged.
pub open spec fn spec_row_status(days: Option<i64>, damaged: bool) -> RowStatus {
    match days {
        Some(d) => if d < 0 {
            RowStatus::Overdue
        } else if d < EXPIRING_DAYS {
            RowStatus::Expiring
        } else {
            RowStatus::Occupied
        },
        None => if damaged { RowStatus::Damaged } else { RowStatus::Free },
    }
}

/// The status text of a row: "Überfällig (nT)", "Läuft aus (nT)", "Belegt", "Defekt"
/// or "Frei".
pub open spec fn row_status_text(days: Option<i64>, damaged: bool) -> Seq<char> {
    match days {
        Some(d) => if d < 0 {
            "Überfällig ("@ + nat_text((-d) as nat) + "T)"@
        } else if d < EXPIRING_DAYS {
            "Läuft aus ("@ + int_text(d as int) + "T)"@
        } else {
            "Belegt"@
        },
        None => if damaged { "Defekt"@ } else { "Frei"@ },
    }
}

/// The status line of the details of a rented locker.
pub open spec fn rental_detail_text(days: i64) -> Seq<char> {
    if days < 0 {
        "Überfällig seit "@ + nat_text((-days) as nat) + " Tagen"@
    } else if days < EXPIRING_DAYS {
        "Läuft aus in "@ + int_text(days as int) + " Tagen"@
    } else {
        "Noch "@ + int_text(days as int) + " Tage"@
    }
}

/// The status of a row of the list (see `spec_row_status`).
pub fn row_status(days: Option<i64>, damaged: bool) -> (r: RowStatus)
    ensures
        r == spec_row_status(days, damaged),
{
    match days {
        Some(d) => if d < 0 {
            RowStatus::Overdue
        } else if d < EXPIRING_DAYS {
            RowStatus::Expiring
        } else {
            RowStatus::Occupied
        },
        None => if damaged { RowStatus::Damaged } else { RowStatus::Free },
    }
}

/// The status text of a row of the list (see `row_status_text`).
pub fn row_status_label(days: Option<i64>, damaged: bool) -> (r: String)
    requires
        days matches Some(d) ==> d > i64::MIN,
    ensures
        r@ == row_status_text(days, damaged),
{
    match days {
        Some(d) => if d < 0 {
            let mut out = "Überfällig (".to_owned();
            out.append(u64_text((0 - d) as u64).as_str());
            out.append("T)");
            out
        } else if d < EXPIRING_DAYS {
            let mut out = "Läuft aus (".to_owned();
            out.append(i64_text(d).as_str());
            out.append("T)");
            out
        } else {
            "Belegt".to_owned()
        },
        None => if damaged { "Defekt".to_owned() } else { "Frei".to_owned() },
    }
}

/// The status line of the details of a rented locker (see `rental_detail_text`).
pub fn rental_detail_label(days: i64) -> (r: String)
    requires
        days > i64::MIN,
    ensures
        r@ == rental_detail_text(days),
{
    if days < 0 {
        let mut out = "Überfällig seit ".to_owned();
        out.append(u64_text((0 - days) as u64).as_str());
        out.append(" Tagen");
        out
    } else if days < EXPIRING_DAYS {
        let mut out = "Läuft aus in ".to_owned();
        out.append(i64_text(days).as_str());
        out.append(" Tagen");
        out
    } else {
        let mut out = "Noch ".to_owned();
        out.append(i64_text(days).as_str());
        out.append(" Tage");
        out
    }
}

} // verus!
