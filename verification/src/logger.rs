//! Logging initialization.

use vstd::prelude::*;

verus! {

/// The error surfaced when logging cannot be set up.
#[derive(Debug, Clone, Copy, PartialEq, Eq, Structural)]
pub enum LogError {
    Init,
}

/// Sets up logging for one invocation. The library itself keeps no log
/// state - writing a log is a collaborator's concern - so there is nothing
/// to do here and initialization always succeeds.
pub fn init_logger() -> (r: Result<(), LogError>)
    ensures
        r is Ok,
{
    Ok(())
}

} // verus!
