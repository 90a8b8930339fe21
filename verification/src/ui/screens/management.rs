//! The management screen with its four tabs: lockers, locations, settings and the
//! audit log.

use crate::app::{management_tab_index, management_tabs, ManagementTab};
use vstd::prelude::*;

verus! {

/// Management screen with four tabs.
#[derive(Debug)]
pub struct ManagementScreen {
    current_tab: ManagementTab,
}

impl ManagementScreen {
    /// The tab shown.
    pub closed spec fn spec_tab(&self) -> ManagementTab {
        self.current_tab
    }

    /// A screen showing `tab`.
    pub fn new(tab: ManagementTab) -> (r: Self)
        ensures
            r.spec_tab() == tab,
    {
        ManagementScreen { current_tab: tab }
    }

    /// The tab shown.
    pub fn current_tab(&self) -> (r: ManagementTab)
        ensures
            r == self.spec_tab(),
    {
        self.current_tab
    }

    /// Shows `tab`.
    pub fn set_tab(&mut self, tab: ManagementTab)
        ensures
            final(self).spec_tab() == tab,
    {
        self.current_tab = tab;
    }

    /// Shows the next tab, the first after the last.
    pub fn next_tab(&mut self)
        ensures
            final(self).spec_tab() == management_tabs()[(management_tab_index(old(self).spec_tab()) + 1) % 4],
    {
        self.current_tab = match self.current_tab {
            ManagementTab::Lockers => ManagementTab::Locations,
            ManagementTab::Locations => ManagementTab::Settings,
            ManagementTab::Settings => ManagementTab::AuditLog,
            ManagementTab::AuditLog => ManagementTab::Lockers,
        };
    }

    /// Shows the previous tab, the last before the first.
    pub fn previous_tab(&mut self)
        ensures
            final(self).spec_tab() == management_tabs()[(management_tab_index(old(self).spec_tab()) + 3) % 4],
    {
        self.current_tab = match self.current_tab {
            ManagementTab::Lockers => ManagementTab::AuditLog,
            ManagementTab::Locations => ManagementTab::Lockers,
            ManagementTab::Settings => ManagementTab::Locations,
            ManagementTab::AuditLog => ManagementTab::Settings,
        };
    }

    /// Position of the shown tab in the tab bar.
    pub fn selected_index(&self) -> (r: usize)
        ensures
            r == management_tab_index(self.spec_tab()),
    {
        match self.current_tab {
            ManagementTab::Lockers => 0,
            ManagementTab::Locations => 1,
            ManagementTab::Settings => 2,
            ManagementTab::AuditLog => 3,
        }
    }
}

} // verus!
