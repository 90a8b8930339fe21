//! The rental management screen with its five tabs: search, list, extend, return and
//! damage.

use crate::app::{rental_tab_index, rental_tabs, RentalTab};
use vstd::prelude::*;

verus! {

/// Rental management screen with five tabs.
#[derive(Debug)]
pub struct RentalManagementScreen {
    current_tab: RentalTab,
}

impl RentalManagementScreen {
    /// The tab shown.
    pub closed spec fn spec_tab(&self) -> RentalTab {
        self.current_tab
    }

    /// A screen showing `tab`.
    pub fn new(tab: RentalTab) -> (r: Self)
        ensures
            r.spec_tab() == tab,
    {
        RentalManagementScreen { current_tab: tab }
    }

    /// The tab shown.
    pub fn current_tab(&self) -> (r: RentalTab)
        ensures
            r == self.spec_tab(),
    {
        self.current_tab
    }

    /// Shows `tab`.
    pub fn set_tab(&mut self, tab: RentalTab)
        ensures
            final(self).spec_tab() == tab,
    {
        self.current_tab = tab;
    }

    /// Shows the next tab, the first after the last.
    pub fn next_tab(&mut self)
        ensures
            final(self).spec_tab() == rental_tabs()[(rental_tab_index(old(self).spec_tab()) + 1) % 5],
    {
        self.current_tab = match self.current_tab {
            RentalTab::Search => RentalTab::List,
            RentalTab::List => RentalTab::Extend,
            RentalTab::Extend => RentalTab::Return,
            RentalTab::Return => RentalTab::Damage,
            RentalTab::Damage => RentalTab::Search,
        };
    }

    /// Shows the previous tab, the last before the first.
    pub fn previous_tab(&mut self)
        ensures
            final(self).spec_tab() == rental_tabs()[(rental_tab_index(old(self).spec_tab()) + 4) % 5],
    {
        self.current_tab = match self.current_tab {
            RentalTab::Search => RentalTab::Damage,
            RentalTab::List => RentalTab::Search,
            RentalTab::Extend => RentalTab::List,
            RentalTab::Return => RentalTab::Extend,
            RentalTab::Damage => RentalTab::Return,
        };
    }

    /// Position of the shown tab in the tab bar.
    pub fn selected_index(&self) -> (r: usize)
        ensures
            r == rental_tab_index(self.spec_tab()),
    {
        match self.current_tab {
            RentalTab::Search => 0,
            RentalTab::List => 1,
            RentalTab::Extend => 2,
            RentalTab::Return => 3,
            RentalTab::Damage => 4,
        }
    }
}

} // verus!
