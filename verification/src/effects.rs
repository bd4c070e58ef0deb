//! The critical-hit effect: what is shown and when.

use vstd::prelude::*;

verus! {

/// The parts of the critical-hit effect that depend on the circumstances.
/// The background flash and the sound are always part of it.
#[derive(Clone, Copy, PartialEq, Eq, Structural, Debug)]
pub struct CriticalZoom {
    /// The whole game is slowed down.
    pub slow: bool,
    /// The camera zooms in on the fighter.
    pub zoom_in: bool,
}

/// Decides whether the critical-hit effect is played, and which parts.
///
/// Nothing is played while the finishing-hit sound is playing. Otherwise
/// the game is slowed if a rate is given, and the camera zooms in if the
/// fighter has fewer than two opponents.
pub fn critical_zoom(finish_sound_playing: bool, rate: u8, opponents: i32) -> (plan: Option<
    CriticalZoom,
>)
    ensures
        plan == (if finish_sound_playing {
            None
        } else {
            Some(CriticalZoom { slow: rate != 0, zoom_in: opponents < 2 })
        }),
{
    if !finish_sound_playing {
        return Some(CriticalZoom { slow: rate != 0, zoom_in: opponents < 2 });
    }
    None
}

} // verus!
