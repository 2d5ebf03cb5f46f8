//! Toast notifications; this platform has no notification service, so showing
//! one only records it.

use vstd::prelude::*;

verus! {

/// A notification to show to the user.
#[derive(Debug, PartialEq, Eq)]
pub struct ToastNotification {
    pub title: String,
    pub message: String,
}

/// Shows a notification: always succeeds, without a notification service.
pub fn show_notif(notif: ToastNotification) -> (r: Result<(), String>)
    ensures
        r is Ok,
{
    Ok(())
}

} // verus!
