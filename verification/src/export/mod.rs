//! Export of the stored data: what goes into the CSV files and the Markdown report.
//! Writing the files is left to the caller.

pub mod csv;
pub mod markdown;

use crate::model::{Location, Locker, Payment, Rental};
use vstd::prelude::*;

verus! {

/// Facts about an export.
#[derive(Debug, Clone)]
pub struct ExportMetadata {
    /// Version of the application.
    pub version: String,
    /// When the export was made.
    pub export_date: String,
    /// Version of the database schema.
    pub database_version: String,
}

/// Everything that is exported.
#[derive(Debug, Clone)]
pub struct ExportData {
    /// Facts about the export.
    pub metadata: ExportMetadata,
    /// The lockers.
    pub lockers: Vec<Locker>,
    /// The rentals.
    pub rentals: Vec<Rental>,
    /// The payments.
    pub payments: Vec<Payment>,
    /// The locations.
    pub locations: Vec<Location>,
}

} // verus!
