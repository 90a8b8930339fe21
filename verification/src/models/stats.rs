//! Statistics shown on the dashboard and in the finance screens.

use super::{Locker, Payment, Rental, TenantType};
use crate::calendar::Timestamp;
use crate::text::{euro_string, euro_text};
use vstd::prelude::*;

verus! {

/// Overall numbers shown on the dashboard.
#[derive(Debug, Clone)]
pub struct DashboardStats {
    /// Number of lockers.
    pub total_lockers: i32,
    /// Number of lockers with an active rental.
    pub occupied_lockers: i32,
    /// Number of damaged lockers.
    pub damaged_lockers: i32,
    /// Number of damaged lockers with an active rental.
    pub damaged_and_occupied: i32,
    /// Numbers per location.
    pub locations: Vec<LocationStats>,
    /// Active rentals ending within 30 days.
    pub expiring_soon: Vec<RentalWithLocker>,
    /// Active rentals past their end date.
    pub overdue_rentals: Vec<RentalWithLocker>,
    /// Sum of all payments in cents.
    pub total_revenue_cents: i32,
    /// Sum of the debts of overdue rentals in cents.
    pub outstanding_payments_cents: i32,
}

impl DashboardStats {
    /// Number of lockers without an active rental.
    pub fn free_lockers(&self) -> (r: i32)
        requires
            i32::MIN <= self.total_lockers - self.occupied_lockers <= i32::MAX,
        ensures
            r == self.total_lockers - self.occupied_lockers,
    {
        self.total_lockers - self.occupied_lockers
    }
}

/// Numbers for one location.
#[derive(Debug, Clone)]
pub struct LocationStats {
    /// Where the locker stands.
    pub location: String,
    /// Number of lockers.
    pub total: i32,
    /// Number of rented lockers.
    pub occupied: i32,
    /// Number of damaged lockers.
    pub damaged: i32,
}

impl LocationStats {
    /// Number of lockers at this location without an active rental.
    pub fn free(&self) -> (r: i32)
        requires
            i32::MIN <= self.total - self.occupied <= i32::MAX,
        ensures
            r == self.total - self.occupied,
    {
        self.total - self.occupied
    }
}

/// A rental together with its locker.
#[derive(Debug, Clone)]
pub struct RentalWithLocker {
    /// The rental.
    pub rental: Rental,
    /// The rented locker.
    pub locker: Locker,
}

/// A tenant with overdue rentals.
#[derive(Debug, Clone)]
pub struct DebtorInfo {
    /// Who did it.
    pub username: String,
    /// E-mail address of the tenant.
    pub email: String,
    /// Debt in cents over all overdue rentals.
    pub total_debt_cents: i32,
    /// Kind of tenant.
    pub tenant_type: TenantType,
    /// Days since the end of the longest overdue rental.
    pub days_overdue: i64,
}

impl DebtorInfo {
    /// The debt formatted as euros with two decimals, e.g. `20.00 €`.
    pub fn format_debt(&self) -> (r: String)
        ensures
            r@ == euro_text(self.total_debt_cents as int),
    {
        euro_string(self.total_debt_cents as i64)
    }
}

/// Payment totals per payment type over a period.
#[derive(Debug, Clone, Copy, PartialEq, Eq, Structural)]
pub struct PaymentSummary {
    /// Sum of the deposits in cents.
    pub deposits_cents: i32,
    /// Sum of the extension fees in cents.
    pub extensions_cents: i32,
    /// Sum of the refunded deposits in cents.
    pub deposit_returns_cents: i32,
    /// Sum of all payments in cents.
    pub total_cents: i32,
    /// Net income in cents.
    pub net_cents: i32,
    /// Number of deposits.
    pub deposit_count: i32,
    /// Number of extension fees.
    pub extension_count: i32,
    /// Number of refunded deposits.
    pub deposit_return_count: i32,
}

impl PaymentSummary {
    /// Formats an amount of cents as euros with two decimals, e.g. `10.00 €`.
    pub fn format_cents(cents: i32) -> (r: String)
        ensures
            r@ == euro_text(cents as int),
    {
        euro_string(cents as i64)
    }
}

/// A location with an optional description.
#[derive(Debug, Clone)]
pub struct Location {
    /// Identifier in the database (0 before it is stored).
    pub id: i64,
    /// Name of the location.
    pub name: String,
    /// Description, if any.
    pub description: Option<String>,
    /// When the record was created.
    pub created_at: Timestamp,
}

impl Location {
    /// Creates a location with id 0, stamped with the current time.
    pub fn new(name: &str, description: Option<String>) -> (r: Self)
        ensures
            r.id == 0,
            r.name@ == name@,
            r.description == description,
    {
        Location { id: 0, name: name.to_owned(), description, created_at: Timestamp::now() }
    }
}

/// An entry of the audit log.
#[derive(Debug, Clone)]
pub struct AuditLogEntry {
    /// Identifier in the database (0 before it is stored).
    pub id: i64,
    /// When it happened.
    pub timestamp: Timestamp,
    /// What was done.
    pub action: String,
    /// Kind of record it was done to.
    pub entity_type: String,
    /// Identifier of that record, if any.
    pub entity_id: Option<i64>,
    /// Details of the change.
    pub details: Option<String>,
    /// Who did it.
    pub username: Option<String>,
}

/// Everything a full backup holds.
#[derive(Debug, Clone)]
pub struct FullBackup {
    /// Version of the backup format.
    pub version: String,
    /// When the backup was made.
    pub exported_at: Timestamp,
    /// The lockers.
    pub lockers: Vec<Locker>,
    /// The rentals.
    pub rentals: Vec<Rental>,
    /// The payments.
    pub payments: Vec<Payment>,
    /// Numbers per location.
    pub locations: Vec<Location>,
}

} // verus!
