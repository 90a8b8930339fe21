//! Screens of the user interface: their state and what they decide.

pub mod finance;
pub mod finances;
pub mod management;
pub mod rental_management;
pub mod rental;
pub mod screensaver;
pub mod dashboard;
