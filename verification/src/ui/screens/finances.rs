//! The finances screen, which shows an overview of the financial features.

use vstd::prelude::*;

verus! {

/// Finances screen showing payments, revenue, and financial reports.
#[derive(Debug, Clone, Copy)]
pub struct FinancesScreen;

impl FinancesScreen {
    /// Creates the screen.
    pub fn new() -> (r: Self) {
        FinancesScreen
    }
}

} // verus!
