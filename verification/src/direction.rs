//! The stick direction classifier: nine directions in numpad notation.
//!
//! ```text
//!   7 8 9
//!   4 5 6
//!   1 2 3
//! ```
//!
//! 5 is neutral, 6 points the way the horizontal axis counts up.

use vstd::prelude::*;
use crate::fighter::{AngleBand, EngineIds, Facing, FighterState, Sign, StickReading};

verus! {

/// Puts a stick reading together from the outcome of the six comparisons
/// that are made on the two axes.
///
/// `left` and `right` say whether the horizontal axis is under or over
/// zero, `up` whether the vertical axis is over zero, `short` whether the
/// vector is shorter than the deadzone radius, `flat` whether the absolute
/// angle is at most 15 degrees and `steep` whether it is at least 70. The
/// flat band is looked at first, then the steep one; what is in neither is
/// diagonal.
pub fn read_stick(left: bool, right: bool, up: bool, short: bool, flat: bool, steep: bool) -> (stick:
    StickReading)
    ensures
        stick.horizontal == (if right {
            Sign::Positive
        } else if left {
            Sign::Negative
        } else {
            Sign::Zero
        }),
        stick.up == up,
        stick.in_deadzone == short,
        stick.band == (if flat {
            AngleBand::Flat
        } else if steep {
            AngleBand::Steep
        } else {
            AngleBand::Diagonal
        }),
{
    let horizontal = if right {
        Sign::Positive
    } else if left {
        Sign::Negative
    } else {
        Sign::Zero
    };
    let band = if flat {
        AngleBand::Flat
    } else if steep {
        AngleBand::Steep
    } else {
        AngleBand::Diagonal
    };
    StickReading { horizontal, up, in_deadzone: short, band }
}

/// The sign of a horizontal axis that has been negated.
pub open spec fn mirrored(sign: Sign) -> Sign {
    match sign {
        Sign::Negative => Sign::Positive,
        Sign::Zero => Sign::Zero,
        Sign::Positive => Sign::Negative,
    }
}

/// The direction of a stick whose horizontal axis has the sign `horizontal`.
///
/// Inside the deadzone the stick is neutral, whatever its angle. Outside,
/// a flat angle gives a pure horizontal, a steep one a pure vertical, and
/// the rest a diagonal picked by the two signs. An axis at zero counts as
/// not positive.
pub open spec fn direction_of(stick: StickReading, horizontal: Sign) -> int {
    let right = horizontal == Sign::Positive;
    if stick.in_deadzone {
        5
    } else {
        match stick.band {
            AngleBand::Flat => if right { 6 } else { 4 },
            AngleBand::Steep => if stick.up { 8 } else { 2 },
            AngleBand::Diagonal => if right {
                if stick.up { 9 } else { 3 }
            } else {
                if stick.up { 7 } else { 1 }
            },
        }
    }
}

impl FighterState {
    /// Whether a facing-relative reading negates the horizontal axis.
    ///
    /// Facing left negates it once; a turning run negates it once more,
    /// since turning inverts what counts as forward.
    pub open spec fn stick_mirrored(&self, ids: &EngineIds) -> bool {
        (self.facing == Facing::Left) != (self.status == ids.status_turn_run)
    }

    /// The sign of the horizontal axis as the classifier sees it.
    pub open spec fn horizontal_sign(&self, ids: &EngineIds, command: bool) -> Sign {
        if command && self.stick_mirrored(ids) {
            mirrored(self.stick.horizontal)
        } else {
            self.stick.horizontal
        }
    }

    /// The direction the stick is held in; see [`get_command_stick_direction`].
    pub open spec fn stick_direction(&self, ids: &EngineIds, command: bool) -> int {
        direction_of(self.stick, self.horizontal_sign(ids, command))
    }
}

/// Classifies the stick into one of the nine numpad directions.
///
/// With `command` set the reading is relative to the fighter's facing, as
/// if the fighter looked to the right: 6 is then forward and 4 back.
pub fn get_command_stick_direction(state: &FighterState, ids: &EngineIds, command: bool) -> (dir: i32)
    ensures
        dir == state.stick_direction(ids, command),
        1 <= dir <= 9,
        state.stick.in_deadzone ==> dir == 5,
{
    let mut horizontal = state.stick.horizontal;
    if command {
        if state.facing == Facing::Left {
            horizontal = flip(horizontal);
        }
        if state.status == ids.status_turn_run {
            horizontal = flip(horizontal);
        }
    }
    if state.stick.in_deadzone {
        return 5;
    }
    let right = horizontal == Sign::Positive;
    match state.stick.band {
        AngleBand::Flat => {
            if right {
                return 6;
            }
            4
        },
        AngleBand::Steep => {
            if state.stick.up {
                return 8;
            }
            2
        },
        AngleBand::Diagonal => {
            if right {
                if state.stick.up {
                    return 9;
                }
                return 3;
            }
            if state.stick.up {
                return 7;
            }
            1
        },
    }
}

/// Negates the sign of an axis.
pub fn flip(sign: Sign) -> (out: Sign)
    ensures
        out == mirrored(sign),
{
    match sign {
        Sign::Negative => Sign::Positive,
        Sign::Zero => Sign::Zero,
        Sign::Positive => Sign::Negative,
    }
}

/// Inside the deadzone every stick is neutral: neither the angle, nor the
/// signs of the axes, nor the fighter's facing change that.
pub proof fn lemma_deadzone_is_neutral(state: FighterState, ids: EngineIds, command: bool)
    requires
        state.stick.in_deadzone,
    ensures
        state.stick_direction(&ids, command) == 5,
{
}

/// Outside the deadzone the band of the angle alone decides between the
/// horizontals, the verticals and the diagonals, and the signs of the axes
/// pick the direction within the band. The three bands share no direction,
/// and neutral belongs to none of them.
pub proof fn lemma_bands_partition(stick: StickReading, horizontal: Sign)
    requires
        !stick.in_deadzone,
    ensures
        stick.band == AngleBand::Flat ==> direction_of(stick, horizontal) == (if horizontal
            == Sign::Positive {
            6int
        } else {
            4int
        }),
        stick.band == AngleBand::Steep ==> direction_of(stick, horizontal) == (if stick.up {
            8int
        } else {
            2int
        }),
        stick.band == AngleBand::Flat <==> (direction_of(stick, horizontal) == 4 || direction_of(
            stick,
            horizontal,
        ) == 6),
        stick.band == AngleBand::Steep <==> (direction_of(stick, horizontal) == 2 || direction_of(
            stick,
            horizontal,
        ) == 8),
        stick.band == AngleBand::Diagonal <==> (direction_of(stick, horizontal) == 1
            || direction_of(stick, horizontal) == 3 || direction_of(stick, horizontal) == 7
            || direction_of(stick, horizontal) == 9),
        direction_of(stick, horizontal) != 5,
{
}

/// The direction that lies across the vertical axis from `dir`.
pub open spec fn across(dir: int) -> int {
    if dir == 1 {
        3
    } else if dir == 3 {
        1
    } else if dir == 4 {
        6
    } else if dir == 6 {
        4
    } else if dir == 7 {
        9
    } else if dir == 9 {
        7
    } else {
        dir
    }
}

/// Negating the horizontal axis of a stick that is off centre swaps left
/// and right and leaves up and down alone.
pub proof fn lemma_mirror_swaps_sides(stick: StickReading, horizontal: Sign)
    requires
        horizontal != Sign::Zero,
    ensures
        direction_of(stick, mirrored(horizontal)) == across(direction_of(stick, horizontal)),
{
}

} // verus!
