//! The dialogs that can lie over the panels.

use vstd::prelude::*;

verus! {

/// A dialog. At most one is open at a time.
#[derive(Debug, Clone, PartialEq)]
pub enum PopupType {
    /// The key bindings.
    Help,
    /// The question whether to quit.
    ConfirmQuit,
    /// The details of the event with this identifier.
    EventInfo(String),
    /// The login form.
    Login,
    /// The profile of the signed-in user.
    UserProfile,
    /// The order form.
    Trade,
}

} // verus!
