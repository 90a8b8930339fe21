//! State of the user interface that outlives a single frame: activity tracking, the
//! window switcher and the tabs of the finance and rental screens.

use crate::calendar::clock_millis;
use crate::text::{display_width, spec_display_width};
use vstd::prelude::*;

verus! {

/// Milliseconds from `start` to `now`; a reading of `now` before `start` counts as
/// no time passed.
pub open spec fn millis_between(start: u64, now: u64) -> u64 {
    if now >= start { (now - start) as u64 } else { 0 }
}

/// UI state management for the application.
#[derive(Debug, Clone)]
pub struct UiState {
    /// Whether the window switcher is currently active.
    pub window_switcher_active: bool,
    /// Index of the selected window in the switcher.
    pub selected_window_index: usize,
    /// Clock reading in milliseconds of the last user activity.
    pub last_activity: u64,
    /// Whether the screensaver is currently active.
    pub screensaver_active: bool,
}

impl UiState {
    /// A state with nothing active and the last activity at `now`.
    pub fn new_at(now: u64) -> (r: Self)
        ensures
            !r.window_switcher_active,
            r.selected_window_index == 0,
            r.last_activity == now,
            !r.screensaver_active,
    {
        UiState {
            window_switcher_active: false,
            selected_window_index: 0,
            last_activity: now,
            screensaver_active: false,
        }
    }

    /// A state with nothing active and the last activity now.
    pub fn new() -> (r: Self)
        ensures
            !r.window_switcher_active,
            r.selected_window_index == 0,
            !r.screensaver_active,
    {
        Self::new_at(clock_millis())
    }

    /// Records user activity at `now`.
    pub fn update_activity_at(&mut self, now: u64)
        ensures
            *final(self) == (UiState { last_activity: now, ..*old(self) }),
    {
        self.last_activity = now;
    }

    /// Records user activity at the current time.
    pub fn update_activity(&mut self)
        ensures
            *final(self) == (UiState { last_activity: final(self).last_activity, ..*old(self) }),
    {
        self.update_activity_at(clock_millis());
    }

    /// Milliseconds since the last activity, as seen at `now`.
    pub fn time_since_activity_at(&self, now: u64) -> (r: u64)
        ensures
            r == millis_between(self.last_activity, now),
    {
        if now >= self.last_activity {
            now - self.last_activity
        } else {
            0
        }
    }

    /// Milliseconds since the last activity.
    pub fn time_since_activity(&self) -> (r: u64)
        ensures
            exists|now: u64| r == millis_between(self.last_activity, now),
    {
        let now = clock_millis();
        self.time_since_activity_at(now)
    }

    /// Activates the window switcher.
    pub fn activate_window_switcher(&mut self)
        ensures
            *final(self) == (UiState { window_switcher_active: true, ..*old(self) }),
    {
        self.window_switcher_active = true;
    }

    /// Deactivates the window switcher.
    pub fn deactivate_window_switcher(&mut self)
        ensures
            *final(self) == (UiState { window_switcher_active: false, ..*old(self) }),
    {
        self.window_switcher_active = false;
    }

    /// Activates the screensaver.
    pub fn activate_screensaver(&mut self)
        ensures
            *final(self) == (UiState { screensaver_active: true, ..*old(self) }),
    {
        self.screensaver_active = true;
    }

    /// Deactivates the screensaver at `now`, which counts as activity.
    pub fn deactivate_screensaver_at(&mut self, now: u64)
        ensures
            *final(self) == (UiState { screensaver_active: false, last_activity: now, ..*old(self) }),
    {
        self.screensaver_active = false;
        self.update_activity_at(now);
    }

    /// Deactivates the screensaver, which counts as activity.
    pub fn deactivate_screensaver(&mut self)
        ensures
            *final(self) == (UiState {
                screensaver_active: false,
                last_activity: final(self).last_activity,
                ..*old(self)
            }),
    {
        self.deactivate_screensaver_at(clock_millis());
    }
}

impl Default for UiState {
    fn default() -> (r: Self)
        ensures
            !r.window_switcher_active,
            r.selected_window_index == 0,
            !r.screensaver_active,
    {
        Self::new()
    }
}

/// Inactivity state for the screensaver.
#[derive(Debug, Clone, Copy, PartialEq, Eq, Structural)]
pub enum InactivityState {
    /// The user is active.
    Active,
    /// Countdown to the screensaver (remaining seconds).
    Countdown(u64),
    /// The screensaver is active.
    ScreensaverActive,
}

/// The input mode of the rental screen.
#[derive(Debug, Clone, Copy, PartialEq, Eq, Structural)]
pub enum InputMode {
    /// Keys navigate.
    Normal,
    /// Keys edit the search query.
    Searching,
}

impl Default for InputMode {
    fn default() -> (r: Self)
        ensures
            r == InputMode::Normal,
    {
        InputMode::Normal
    }
}

/// The prompt of the search bar.
pub open spec fn search_prompt_text() -> Seq<char> {
    "Suche (/ zum Start, ENTER zum Bestätigen, ESC zum Abbrechen)"@
}

/// The mode label of the search bar followed by a space and the prompt.
pub open spec fn search_prefix_text(mode: InputMode) -> Seq<char> {
    (match mode {
        InputMode::Normal => " NORMAL "@,
        InputMode::Searching => " SEARCH "@,
    }) + " "@ + search_prompt_text()
}

/// The columns the mode label and the prompt of the search bar take in the terminal
/// (see `search_prefix_text`), cut to 16 bits as the cursor position is.
pub fn search_prefix_width(mode: InputMode) -> (r: u16)
    ensures
        r == spec_display_width(search_prefix_text(mode)) as u16,
{
    let label = match mode {
        InputMode::Normal => " NORMAL ",
        InputMode::Searching => " SEARCH ",
    };
    let mut prefix = label.to_owned();
    prefix.append(" ");
    prefix.append("Suche (/ zum Start, ENTER zum Bestätigen, ESC zum Abbrechen)");
    assert(prefix@ =~= search_prefix_text(mode));
    display_width(prefix.as_str()) as u16
}

/// Tabs of the finance screen.
#[derive(Debug, Clone, Copy, PartialEq, Eq, Structural)]
pub enum FinanceTab {
    /// Totals of the payments.
    Overview,
    /// Tenants who owe money.
    Debtors,
}

/// Position of a finance tab in the tab bar.
pub open spec fn finance_tab_index(t: FinanceTab) -> nat {
    match t {
        FinanceTab::Overview => 0,
        FinanceTab::Debtors => 1,
    }
}

/// The finance tab at a position of the tab bar, if there is one.
pub open spec fn finance_tab_at(i: int) -> Option<FinanceTab> {
    if i == 0 {
        Some(FinanceTab::Overview)
    } else if i == 1 {
        Some(FinanceTab::Debtors)
    } else {
        None
    }
}

impl FinanceTab {
    /// All finance tabs in the order of the tab bar.
    pub fn all() -> (r: Vec<FinanceTab>)
        ensures
            r@ == seq![FinanceTab::Overview, FinanceTab::Debtors],
    {
        vec![FinanceTab::Overview, FinanceTab::Debtors]
    }

    /// Position of the tab in the tab bar.
    pub fn index(&self) -> (r: usize)
        ensures
            r == finance_tab_index(*self),
    {
        match self {
            FinanceTab::Overview => 0,
            FinanceTab::Debtors => 1,
        }
    }

    /// The tab at position `i` of the tab bar, if there is one.
    pub fn from_index(i: usize) -> (r: Option<FinanceTab>)
        ensures
            r == finance_tab_at(i as int),
    {
        if i == 0 {
            Some(FinanceTab::Overview)
        } else if i == 1 {
            Some(FinanceTab::Debtors)
        } else {
            None
        }
    }

    /// Title of the tab.
    pub fn label(&self) -> (r: &'static str)
        ensures
            r@ == (match *self {
                FinanceTab::Overview => "Übersicht"@,
                FinanceTab::Debtors => "Schuldner"@,
            }),
    {
        match self {
            FinanceTab::Overview => "Übersicht",
            FinanceTab::Debtors => "Schuldner",
        }
    }
}

impl Default for FinanceTab {
    fn default() -> (r: Self)
        ensures
            r == FinanceTab::Overview,
    {
        FinanceTab::Overview
    }
}

/// Tabs of the rental management screen.
#[derive(Debug, Clone, Copy, PartialEq, Eq, Structural)]
pub enum RentalManagementTab {
    /// Search for a free locker and rent it.
    Search,
    /// All active rentals.
    List,
    /// Extend a rental.
    Extend,
    /// Return a locker.
    Return,
    /// Report damage.
    Damage,
}

/// Position of a rental management tab in the tab bar.
pub open spec fn rental_management_tab_index(t: RentalManagementTab) -> nat {
    match t {
        RentalManagementTab::Search => 0,
        RentalManagementTab::List => 1,
        RentalManagementTab::Extend => 2,
        RentalManagementTab::Return => 3,
        RentalManagementTab::Damage => 4,
    }
}

/// The rental management tab at a position of the tab bar, if there is one.
pub open spec fn rental_management_tab_at(i: int) -> Option<RentalManagementTab> {
    if i == 0 {
        Some(RentalManagementTab::Search)
    } else if i == 1 {
        Some(RentalManagementTab::List)
    } else if i == 2 {
        Some(RentalManagementTab::Extend)
    } else if i == 3 {
        Some(RentalManagementTab::Return)
    } else if i == 4 {
        Some(RentalManagementTab::Damage)
    } else {
        None
    }
}

impl RentalManagementTab {
    /// All rental management tabs in the order of the tab bar.
    pub fn all() -> (r: Vec<RentalManagementTab>)
        ensures
            r@ == seq![
                RentalManagementTab::Search,
                RentalManagementTab::List,
                RentalManagementTab::Extend,
                RentalManagementTab::Return,
                RentalManagementTab::Damage,
            ],
    {
        vec![
            RentalManagementTab::Search,
            RentalManagementTab::List,
            RentalManagementTab::Extend,
            RentalManagementTab::Return,
            RentalManagementTab::Damage,
        ]
    }

    /// Position of the tab in the tab bar.
    pub fn index(&self) -> (r: usize)
        ensures
            r == rental_management_tab_index(*self),
    {
        match self {
            RentalManagementTab::Search => 0,
            RentalManagementTab::List => 1,
            RentalManagementTab::Extend => 2,
            RentalManagementTab::Return => 3,
            RentalManagementTab::Damage => 4,
        }
    }

    /// The tab at position `i` of the tab bar, if there is one.
    pub fn from_index(i: usize) -> (r: Option<RentalManagementTab>)
        ensures
            r == rental_management_tab_at(i as int),
    {
        if i == 0 {
            Some(RentalManagementTab::Search)
        } else if i == 1 {
            Some(RentalManagementTab::List)
        } else if i == 2 {
            Some(RentalManagementTab::Extend)
        } else if i == 3 {
            Some(RentalManagementTab::Return)
        } else if i == 4 {
            Some(RentalManagementTab::Damage)
        } else {
            None
        }
    }

    /// Title of the tab.
    pub fn label(&self) -> (r: &'static str)
        ensures
            r@ == (match *self {
                RentalManagementTab::Search => "Suche"@,
                RentalManagementTab::List => "Liste"@,
                RentalManagementTab::Extend => "Verlängern"@,
                RentalManagementTab::Return => "Rückgabe"@,
                RentalManagementTab::Damage => "Schaden"@,
            }),
    {
        match self {
            RentalManagementTab::Search => "Suche",
            RentalManagementTab::List => "Liste",
            RentalManagementTab::Extend => "Verlängern",
            RentalManagementTab::Return => "Rückgabe",
            RentalManagementTab::Damage => "Schaden",
        }
    }
}

impl Default for RentalManagementTab {
    fn default() -> (r: Self)
        ensures
            r == RentalManagementTab::Search,
    {
        RentalManagementTab::Search
    }
}

/// Reading a tab's position and going back to the tab at that position gives the tab.
pub proof fn tab_index_roundtrip(f: FinanceTab, r: RentalManagementTab)
    ensures
        finance_tab_at(finance_tab_index(f) as int) == Some(f),
        rental_management_tab_at(rental_management_tab_index(r) as int) == Some(r),
{
}

} // verus!
