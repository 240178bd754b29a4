//! The privilege keep-alive's decision core.
//!
//! A background loop revalidates the elevated session at a fixed
//! interval. The loop body, the sleep and the validation command run in
//! the embedding binary; the library holds the loop's state and its one
//! rule: stop permanently on the first failed validation.

use vstd::prelude::*;

use crate::commands::CommandStatus;
use crate::error::AppResult;

verus! {

/// What one validation round does to the keep-alive's running flag: it
/// keeps running only if it was running and the round succeeded.
pub open spec fn keepalive_step(active: bool, failed: bool) -> bool {
    active && !failed
}

/// The keep-alive loop's state: whether it may issue another
/// validation call.
#[derive(Debug)]
pub struct SudoLoop {
    active: bool,
}

impl SudoLoop {
    pub closed spec fn is_active(&self) -> bool {
        self.active
    }

    /// A freshly started keep-alive is running.
    pub fn new() -> (s: Self)
        ensures
            s.is_active(),
    {
        SudoLoop { active: true }
    }

    /// Whether the loop may issue another validation call.
    pub fn should_prompt(&self) -> (b: bool)
        ensures
            b == self.is_active(),
    {
        self.active
    }

    /// Records the outcome of one validation round.
    pub fn record_validation(&mut self, failed: bool)
        ensures
            final(self).is_active() == keepalive_step(old(self).is_active(), failed),
    {
        self.active = self.active && !failed;
    }
}

/// Decides from the outcome of running the elevation-check command
/// whether revalidation failed: failing to spawn and exiting non-zero
/// both count as failure.
pub fn prompt_sudo(outcome: &AppResult<CommandStatus>) -> (failed: bool)
    ensures
        failed == !(outcome matches Ok(s) && s.success),
{
    match outcome {
        Ok(s) => !s.success,
        Err(_) => true,
    }
}

/// The keep-alive terminates, it does not restart: once it is no
/// longer active, no later validation outcome — success or failure —
/// makes it active again, so no further validation call is issued.
pub proof fn lemma_keepalive_never_restarts(active: bool, failed: bool)
    requires
        !active,
    ensures
        !keepalive_step(active, failed),
{
}

} // verus!
