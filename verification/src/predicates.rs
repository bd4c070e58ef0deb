//! The cancel predicates: jump, dash, free-form and chain cancels, and the
//! wall jump.
//!
//! Each predicate reads a snapshot and says what the caller is to ask of
//! the engine. None of them touches the engine itself.

use vstd::prelude::*;
use crate::direction::get_command_stick_direction;
use crate::fighter::{EngineIds, FighterState};
use crate::window::{cancel_window, chain_window};

verus! {

/// What a predicate decided.
#[derive(Clone, Copy, PartialEq, Eq, Structural, Debug)]
pub enum CancelOutcome {
    /// The fighter stays in its current action.
    NoCancel,
    /// The engine is to change to `status` at once.
    Transition { status: i32 },
    /// The engine's jump helper is to pick the jump for `situation`: a
    /// jump from the ground and one in the air start differently.
    Jump { situation: i32 },
}

impl FighterState {
    /// The input category and the status that a dash cancel goes by:
    /// forward dash, or the turn dash when `reverse` is set.
    pub open spec fn dash_flag(ids: &EngineIds, reverse: bool) -> i32 {
        if reverse {
            ids.flag_turn_dash
        } else {
            ids.flag_dash
        }
    }

    /// The status that a dash cancel leads to.
    pub open spec fn dash_status(ids: &EngineIds, reverse: bool) -> i32 {
        if reverse {
            ids.status_turn_dash
        } else {
            ids.status_dash
        }
    }

    /// A dash cancel fires when the window is open, the input holds the
    /// dash category and the stick, read relative to the facing, points
    /// forward (6) for a dash or back (4) for a turn dash.
    pub open spec fn dash_cancels(&self, ids: &EngineIds, dash_on_block: bool, reverse: bool) -> bool {
        &&& self.window_open(dash_on_block)
        &&& self.command_flags & Self::dash_flag(ids, reverse) != 0
        &&& self.stick_direction(ids, true) == (if reverse {
            4int
        } else {
            6int
        })
    }

    /// A free-form cancel fires when the input holds one of the categories
    /// in `cat1_compare` and, if it is tied to a hit, the window is open; a
    /// shielded attack opens it like a landed one.
    pub open spec fn exception_cancels(&self, cat1_compare: i32, on_hit: bool) -> bool {
        &&& !on_hit || self.window_open(true)
        &&& self.command_flags & cat1_compare != 0
    }

    /// A chained move goes on when the input holds one of the categories in
    /// `cat1_compare`, the repetition about to start is within `max`, and,
    /// if the chain is tied to a hit, the chain window is open.
    pub open spec fn chain_continues(
        &self,
        cat1_compare: i32,
        on_hit: bool,
        counter: i32,
        max: i32,
    ) -> bool {
        &&& !on_hit || self.chain_window_open()
        &&& self.command_flags & cat1_compare != 0
        &&& counter + 1 <= max
    }

    /// A wall jump is asked for when the fighter touches a wall on one side
    /// and the input jumps away from it. The right side is looked at first;
    /// a fighter that touches both walls only jumps to the left.
    pub open spec fn wall_jumps(&self, ids: &EngineIds, right_side: bool, left_side: bool) -> bool {
        if right_side {
            self.command_flags & ids.flag_wall_jump_left != 0
        } else if left_side {
            self.command_flags & ids.flag_wall_jump_right != 0
        } else {
            false
        }
    }
}

/// Jump cancel on hit, or on hit and block where `jump_on_block` is set.
///
/// Once the window is open nothing more is asked: the jump helper is handed
/// the situation as it stands.
pub fn jump_cancel_check_hit(state: &FighterState, jump_on_block: bool) -> (outcome: CancelOutcome)
    ensures
        outcome == (if state.window_open(jump_on_block) {
            CancelOutcome::Jump { situation: state.situation }
        } else {
            CancelOutcome::NoCancel
        }),
{
    if cancel_window(state, jump_on_block) {
        CancelOutcome::Jump { situation: state.situation }
    } else {
        CancelOutcome::NoCancel
    }
}

/// Jump cancel for moves that may always be jumped out of: no window is
/// asked for.
pub fn jump_cancel_check_exception(state: &FighterState) -> (outcome: CancelOutcome)
    ensures
        outcome == (CancelOutcome::Jump { situation: state.situation }),
{
    CancelOutcome::Jump { situation: state.situation }
}

/// Dash cancel: into a forward dash, or into a turn dash when `reverse` is
/// set.
pub fn dash_cancel_check(
    state: &FighterState,
    ids: &EngineIds,
    dash_on_block: bool,
    reverse: bool,
) -> (outcome: CancelOutcome)
    ensures
        outcome == (if state.dash_cancels(ids, dash_on_block, reverse) {
            CancelOutcome::Transition { status: FighterState::dash_status(ids, reverse) }
        } else {
            CancelOutcome::NoCancel
        }),
{
    let dir: i32;
    let cat: i32;
    let status: i32;
    if reverse {
        dir = 4;
        cat = ids.flag_turn_dash;
        status = ids.status_turn_dash;
    } else {
        dir = 6;
        cat = ids.flag_dash;
        status = ids.status_dash;
    }
    if cancel_window(state, dash_on_block) && state.command_flags & cat != 0
        && get_command_stick_direction(state, ids, true) == dir {
        return CancelOutcome::Transition { status };
    }
    CancelOutcome::NoCancel
}

/// A cancel into any status on any input category, for cancel routes that
/// the dispatcher cannot express.
///
/// With `on_hit` unset the window is not looked at.
pub fn cancel_exceptions(
    state: &FighterState,
    next_status: i32,
    cat1_compare: i32,
    on_hit: bool,
) -> (outcome: CancelOutcome)
    ensures
        outcome == (if state.exception_cancels(cat1_compare, on_hit) {
            CancelOutcome::Transition { status: next_status }
        } else {
            CancelOutcome::NoCancel
        }),
{
    if !on_hit || cancel_window(state, true) {
        if (state.command_flags & cat1_compare) != 0 {
            return CancelOutcome::Transition { status: next_status };
        }
    }
    CancelOutcome::NoCancel
}

/// A move that cancels into itself, at most `max` times.
///
/// Returns 1 when the chain goes on and 0 when it stops. When it goes on
/// the repetition counter is raised by one and the caller starts the
/// attack over; when it stops the counter is left alone. The counter only
/// ever goes up here: it is for the caller to zero it when the status is
/// entered.
pub fn chain_cancels(
    state: &FighterState,
    cat1_compare: i32,
    on_hit: bool,
    counter: &mut i32,
    max: i32,
) -> (verdict: i32)
    ensures
        verdict == (if state.chain_continues(cat1_compare, on_hit, *old(counter), max) {
            1i32
        } else {
            0i32
        }),
        *final(counter) == *old(counter) + verdict,
{
    if !on_hit || chain_window(state) {
        if (state.command_flags & cat1_compare) != 0 && *counter < max {
            *counter = *counter + 1;
            return 1;
        }
    }
    0
}

/// Wall jump off the wall that the fighter touches.
pub fn wall_jump_check(
    state: &FighterState,
    ids: &EngineIds,
    right_side: bool,
    left_side: bool,
) -> (outcome: CancelOutcome)
    ensures
        outcome == (if state.wall_jumps(ids, right_side, left_side) {
            CancelOutcome::Transition { status: ids.status_wall_jump }
        } else {
            CancelOutcome::NoCancel
        }),
{
    if right_side {
        if state.command_flags & ids.flag_wall_jump_left != 0 {
            return CancelOutcome::Transition { status: ids.status_wall_jump };
        }
    } else if left_side {
        if state.command_flags & ids.flag_wall_jump_right != 0 {
            return CancelOutcome::Transition { status: ids.status_wall_jump };
        }
    }
    CancelOutcome::NoCancel
}

/// A dash cancel needs the window, the input category and the stick
/// direction all at once: take any one of the three away and it does not
/// fire.
pub proof fn lemma_dash_needs_all(
    state: FighterState,
    ids: EngineIds,
    dash_on_block: bool,
    reverse: bool,
)
    ensures
        !state.window_open(dash_on_block) ==> !state.dash_cancels(&ids, dash_on_block, reverse),
        state.command_flags & FighterState::dash_flag(&ids, reverse) == 0 ==> !state.dash_cancels(
            &ids,
            dash_on_block,
            reverse,
        ),
        state.stick_direction(&ids, true) != (if reverse {
            4int
        } else {
            6int
        }) ==> !state.dash_cancels(&ids, dash_on_block, reverse),
        state.stick.in_deadzone ==> !state.dash_cancels(&ids, dash_on_block, reverse),
{
}

/// A cancel that is not tied to a hit does not look at the window: two
/// snapshots with the same input decide alike.
pub proof fn lemma_exception_ignores_window(a: FighterState, b: FighterState, cat1_compare: i32)
    requires
        a.command_flags == b.command_flags,
    ensures
        a.exception_cancels(cat1_compare, false) == b.exception_cancels(cat1_compare, false),
{
}

/// The chain window is the wider one: where a cancel on hit or block may
/// start, a chain may go on, and a collision that is resolving shuts the
/// one but not the other.
pub proof fn lemma_chain_window_wider(state: FighterState, allow_block: bool)
    ensures
        state.window_open(allow_block) ==> state.chain_window_open(),
        state.chain_window_open() && !state.any_infliction ==> state.window_open(true),
{
}

/// The limit of a chain is inclusive: a chain whose input and window hold
/// goes on exactly while the counter is under `max`, so a counter that
/// starts at zero is raised `max` times and no further. A limit of zero or
/// less never lets it go on.
pub proof fn lemma_chain_limit(
    state: FighterState,
    cat1_compare: i32,
    on_hit: bool,
    counter: i32,
    max: i32,
)
    ensures
        state.chain_continues(cat1_compare, on_hit, counter, max) ==> counter < max,
        counter >= max ==> !state.chain_continues(cat1_compare, on_hit, counter, max),
        state.chain_continues(cat1_compare, on_hit, counter, max) && counter + 1 < max
            ==> state.chain_continues(cat1_compare, on_hit, (counter + 1) as i32, max),
        (counter >= 0 && max <= 0) ==> !state.chain_continues(cat1_compare, on_hit, counter, max),
{
}

/// The repetition counter after `calls` calls in a row on a snapshot that
/// stands still, the counter of each call being what the call before left.
pub open spec fn counter_after(
    state: FighterState,
    cat1_compare: i32,
    on_hit: bool,
    counter: int,
    max: i32,
    calls: nat,
) -> int
    decreases calls,
{
    if calls == 0 {
        counter
    } else if i32::MIN <= counter <= i32::MAX && state.chain_continues(
        cat1_compare,
        on_hit,
        counter as i32,
        max,
    ) {
        counter_after(state, cat1_compare, on_hit, counter + 1, max, (calls - 1) as nat)
    } else {
        counter
    }
}

/// A chain whose input is held and whose window stays open goes on until
/// the counter has reached `max` and then stops for good: after any number
/// of calls the counter stands at the smaller of `max` and the number of
/// calls added to where it began.
pub proof fn lemma_chain_runs_to_limit(
    state: FighterState,
    cat1_compare: i32,
    on_hit: bool,
    counter: i32,
    max: i32,
    calls: nat,
)
    requires
        !on_hit || state.chain_window_open(),
        state.command_flags & cat1_compare != 0,
        counter <= max,
    ensures
        counter_after(state, cat1_compare, on_hit, counter as int, max, calls) == (if counter
            + calls <= max {
            counter + calls
        } else {
            max as int
        }),
    decreases calls,
{
    if calls > 0 && counter < max {
        lemma_chain_runs_to_limit(
            state,
            cat1_compare,
            on_hit,
            (counter + 1) as i32,
            max,
            (calls - 1) as nat,
        );
    }
}

} // verus!
