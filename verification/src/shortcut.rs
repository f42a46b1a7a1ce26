use crate::error::CommandError;
use vstd::prelude::*;

verus! {

/// Answers a request to bind the global shortcut `shortcut` to `action`.
///
/// Shortcuts are bound by the frontend together with the platform, so
/// nothing is left to do here and every request succeeds.
pub fn register_shortcut(shortcut: &str, action: &str) -> (result: Result<(), CommandError>)
    ensures
        result is Ok,
{
    Ok(())
}

} // verus!
