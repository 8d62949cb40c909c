use vstd::prelude::*;

verus! {

/// The local desktop channel. It needs no settings.
pub struct DesktopNotifier;

/// The title of every desktop notification.
pub open spec fn desktop_summary() -> Seq<char> {
    "Command Completed"@
}

} // verus!
