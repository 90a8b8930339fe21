//! Widgets of the user interface: their state and what they decide.

pub mod status_bar;
pub mod header;
pub mod keybind_bar;
pub mod chat_dialog;
pub mod wizard;
pub mod message_box;
