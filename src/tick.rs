//! Rate limiting of game steps. The host calls a game on every frame, which may
//! come much faster than the game's own pace; a game steps only once its
//! period has run out since its last step.

use vstd::prelude::*;

verus! {

/// Whether a period of `period_ms` milliseconds has run out after
/// `elapsed_ms`.
pub open spec fn tick_due_of(elapsed_ms: u128, period_ms: u128) -> bool {
    elapsed_ms >= period_ms
}

/// Whether a game that steps every `period_ms` milliseconds, and last stepped
/// `elapsed_ms` ago, steps on this frame.
pub fn tick_due(elapsed_ms: u128, period_ms: u128) -> (r: bool)
    ensures
        r == tick_due_of(elapsed_ms, period_ms),
{
    elapsed_ms >= period_ms
}

} // verus!
