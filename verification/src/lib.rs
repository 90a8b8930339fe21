//! Locker management: domain model, finance rules, import/export formats and
//! the state machines of the terminal user interface.

pub mod text;
pub mod calendar;
pub mod model;
pub mod models;
pub mod screensaver;
pub mod ui;
pub mod app;
pub mod import;
pub mod export;
pub mod db;
