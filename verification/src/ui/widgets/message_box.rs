//! Simple message box for confirmations and alerts: a framed, centred message.

use vstd::prelude::*;

verus! {

/// Simple message box widget for confirmations and alerts.
pub struct MessageBox<'a> {
    /// Title of the frame.
    pub title: &'a str,
    /// The message inside the frame.
    pub message: &'a str,
}

} // verus!
