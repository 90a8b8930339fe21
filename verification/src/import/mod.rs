//! Import of backups and spreadsheet data.

pub mod json;
pub mod csv;
