//! The per-frame snapshot of a fighter that every rule reads.

use vstd::prelude::*;

verus! {

/// Sign of the horizontal stick axis.
#[derive(Clone, Copy, PartialEq, Eq, Structural, Debug)]
pub enum Sign {
    Negative,
    Zero,
    Positive,
}

/// Which way the fighter faces.
#[derive(Clone, Copy, PartialEq, Eq, Structural, Debug)]
pub enum Facing {
    Right,
    Left,
}

/// The band that the stick's angle against the horizontal axis falls in.
///
/// The absolute angle lies between 0 and 90 degrees. `Flat` is the band up
/// to and including 15 degrees, `Steep` the band from 70 degrees on, and
/// `Diagonal` everything strictly between the two. Every angle is in
/// exactly one band.
#[derive(Clone, Copy, PartialEq, Eq, Structural, Debug)]
pub enum AngleBand {
    Flat,
    Diagonal,
    Steep,
}

/// What the rules need to know of the analog stick.
///
/// The two axes are measured by the caller; the library only sees the
/// outcome of the measurements.
#[derive(Clone, Copy, PartialEq, Eq, Structural, Debug)]
pub struct StickReading {
    /// Sign of the raw horizontal axis, before any facing correction.
    pub horizontal: Sign,
    /// The vertical axis is above zero.
    pub up: bool,
    /// The stick vector is shorter than the deadzone radius of 0.25.
    pub in_deadzone: bool,
    /// Band of the absolute angle; meaningless inside the deadzone.
    pub band: AngleBand,
}

/// One fighter's registers as they stand at the moment of a call.
///
/// The engine owns the registers. A snapshot is taken fresh for every call
/// and never kept across calls, so a rule always sees what the rules before
/// it wrote.
#[derive(Clone, Copy, PartialEq, Eq, Structural, Debug)]
pub struct FighterState {
    /// The cancel countdown timer is above zero.
    pub timer_running: bool,
    /// An attack of this fighter has landed.
    pub hit_confirmed: bool,
    /// An attack of this fighter has been shielded.
    pub block_confirmed: bool,
    /// A collision of any kind is resolving against the fighter right now.
    pub any_infliction: bool,
    /// The fighter is frozen in hitlag.
    pub locked: bool,
    /// Situation discriminant (ground, air, ...), in the engine's numbering.
    pub situation: i32,
    /// Status discriminant, in the engine's numbering.
    pub status: i32,
    /// Input-category bitmask of this frame.
    pub command_flags: i32,
    /// The analog stick.
    pub stick: StickReading,
    /// Orientation of the fighter.
    pub facing: Facing,
    /// The engine's own cancel window is open.
    pub cancel_enabled: bool,
    /// The current motion has played to its end.
    pub motion_ended: bool,
    /// The fighter has the normal-cancel capability.
    pub normal_cancel: bool,
    /// Which aerial the input asks for; 1 to 5, anything else is none.
    pub attack_air_kind: i32,
    /// Ground normals used in the current string.
    pub used_ground_normals: i32,
    /// Aerials used in the current string.
    pub used_aerials: i32,
    /// Aerials that the current status allows to cancel into.
    pub enabled_aerials: i32,
}

/// Discriminants and flags whose numbers the engine defines.
pub struct EngineIds {
    pub situation_ground: i32,
    pub situation_air: i32,
    pub status_dash: i32,
    pub status_turn_dash: i32,
    pub status_turn_run: i32,
    pub status_wall_jump: i32,
    pub flag_dash: i32,
    pub flag_turn_dash: i32,
    pub flag_wall_jump_left: i32,
    pub flag_wall_jump_right: i32,
    /// The statuses that belong to a ground attack string.
    pub string_statuses: Vec<i32>,
}

} // verus!
