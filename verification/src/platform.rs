//! The portable face of the platform integration: the notification and dock
//! hooks as no-op implementations, and the well-known socket file name.
//!
//! Desktop-specific implementations (a real notification center, hiding the
//! process from a dock) belong to the shell around the library; the
//! coordinator and listener logic never calls a platform API directly.

use vstd::prelude::*;

verus! {

/// Shows an advisory notification. Notifications are best-effort and carry no
/// result; this portable implementation does nothing, and a desktop shell
/// substitutes its own display at the point where it consumes a
/// [`crate::dispatch::CallReport`].
pub fn show_notification(_title: &str, _message: &str) {
}

/// Withdraws the process from the platform's dock or task bar so a silently
/// handled `tel:` URI does not raise a window. Advisory like the
/// notification hook; this portable implementation does nothing.
pub fn hide_app_from_dock() {
}

/// The well-known file name of the local coordination socket, placed in the
/// per-user runtime (or temporary) directory by the shell.
pub fn socket_file_name() -> (r: String)
    ensures
        r@ == "click-to-call.sock"@,
{
    "click-to-call.sock".to_owned()
}

} // verus!
