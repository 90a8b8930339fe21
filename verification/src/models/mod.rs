//! Domain models: lockers, rentals, payments, tenants and the statistics built
//! from them.

pub mod locker;
pub mod payment;
pub mod rental;
pub mod stats;

pub use locker::Locker;
pub use payment::{Payment, PaymentType};
pub use rental::{Rental, TenantType};
pub use stats::{DashboardStats, DebtorInfo, LocationStats, PaymentSummary, RentalWithLocker};
