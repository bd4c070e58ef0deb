//! The cancel window: when a running attack may be interrupted.

use vstd::prelude::*;
use crate::fighter::FighterState;

verus! {

impl FighterState {
    /// The cancel window in its usual form: the timer runs, an attack has
    /// landed (or was shielded, where `allow_block` admits that), the
    /// fighter is not in hitlag and no collision is resolving.
    pub open spec fn window_open(&self, allow_block: bool) -> bool {
        &&& self.timer_running
        &&& (self.hit_confirmed || (self.block_confirmed && allow_block))
        &&& !self.locked
        &&& !self.any_infliction
    }

    /// The window that chained moves go by. It takes a shielded attack like
    /// a landed one and stays open while a collision is resolving, so that a
    /// chain runs on through overlapping collisions.
    pub open spec fn chain_window_open(&self) -> bool {
        &&& self.timer_running
        &&& (self.hit_confirmed || self.block_confirmed)
        &&& !self.locked
    }
}

/// Whether the cancel window is open. Reads the snapshot, changes nothing.
pub fn cancel_window(state: &FighterState, allow_block: bool) -> (open: bool)
    ensures
        open == state.window_open(allow_block),
{
    (state.hit_confirmed || (state.block_confirmed && allow_block))
        && !state.any_infliction
        && !state.locked
        && state.timer_running
}

/// Whether the window for chained moves is open.
pub fn chain_window(state: &FighterState) -> (open: bool)
    ensures
        open == state.chain_window_open(),
{
    (state.hit_confirmed || state.block_confirmed) && !state.locked && state.timer_running
}

} // verus!
