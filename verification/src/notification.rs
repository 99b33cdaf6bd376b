//! The notification command: a title/body pair forwarded once to the
//! operating system's notification center.
//!
//! The notification center belongs to the host framework; this module holds
//! the command's request shape and how the one fire-and-forget attempt's
//! outcome becomes the command's result.

use vstd::prelude::*;
use vstd::string::StringExecFns;

verus! {

/// The transient parameters of one notification call.
pub struct NotificationRequest {
    pub title: String,
    pub body: String,
}

impl NotificationRequest {
    /// Builds the request, keeping title and body verbatim.
    pub fn new(title: String, body: String) -> (r: NotificationRequest)
        ensures
            r.title@ == title@,
            r.body@ == body@,
    {
        NotificationRequest { title, body }
    }
}

/// The error reported when the notification center refuses the request,
/// carrying its own error text.
pub open spec fn notification_failed_message(err: Seq<char>) -> Seq<char> {
    "Failed to show notification: "@ + err
}

/// Turns the outcome of the one notification attempt into the command's
/// result: plain success, or the failure carrying the notification center's
/// error text. Nothing is retried or queued.
pub fn finish_notification(show_error: Option<String>) -> (r: Result<(), String>)
    ensures
        show_error is None ==> r is Ok,
        show_error matches Some(e) ==> (r matches Err(m) && m@ == notification_failed_message(
            e@,
        )),
{
    match show_error {
        None => Ok(()),
        Some(err) => {
            let mut message = String::from_str("Failed to show notification: ");
            message.append(err.as_str());
            Err(message)
        },
    }
}

} // verus!
