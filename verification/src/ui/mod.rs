//! Terminal user interface: state, theme, widgets and screens. Only what the
//! widgets and screens decide lives here; drawing them is left to the binary.

pub mod state;
pub mod theme;
pub mod widgets;
pub mod screens;
