//! Classification of statuses by ranges of the status discriminant.

use vstd::prelude::*;

verus! {

/// A run of consecutive status discriminants, both ends included.
#[derive(Clone, Copy, PartialEq, Eq, Structural, Debug)]
pub struct StatusRange {
    pub first: i32,
    pub last: i32,
}

/// Flags of the fighter that mark it as taking damage whatever its status.
#[derive(Clone, Copy, PartialEq, Eq, Structural, Debug)]
pub struct DamageFlags {
    /// The fighter is frozen by a hit it took.
    pub damage_stop: bool,
    /// The fighter is held inside an egg.
    pub capture_yoshi: bool,
    /// The fighter falls from a side-special grab that ended on the ground.
    pub ganon_fall_ground: bool,
    /// The fighter falls from a side-special grab that ended in the air.
    pub ganon_fall_air: bool,
}

impl StatusRange {
    /// Whether `status` lies in the range.
    pub open spec fn covers(&self, status: i32) -> bool {
        self.first <= status <= self.last
    }
}

/// Whether one of `ranges` covers `status`.
pub open spec fn covered(ranges: Seq<StatusRange>, status: i32) -> bool {
    exists|i: int| 0 <= i < ranges.len() && (#[trigger] ranges[i]).covers(status)
}

/// The status that a check looks at: the one before the current, if
/// `is_prev` is set.
pub open spec fn checked_status(status: i32, prev_status: i32, is_prev: bool) -> i32 {
    if is_prev {
        prev_status
    } else {
        status
    }
}

/// Whether one of `ranges` covers `status`.
pub fn status_in_ranges(ranges: &Vec<StatusRange>, status: i32) -> (found: bool)
    ensures
        found == covered(ranges@, status),
{
    let mut i: usize = 0;
    while i < ranges.len()
        invariant
            i <= ranges.len(),
            forall|j: int| 0 <= j < i ==> !(#[trigger] ranges@[j]).covers(status),
        decreases ranges.len() - i,
    {
        if ranges[i].first <= status && status <= ranges[i].last {
            return true;
        }
        i += 1;
    }
    false
}

/// Whether the fighter is being damaged: one of the damage flags is up, or
/// the status looked at lies in one of the damage ranges.
pub fn is_damage_check(
    flags: &DamageFlags,
    status: i32,
    prev_status: i32,
    is_prev: bool,
    ranges: &Vec<StatusRange>,
) -> (damaged: bool)
    ensures
        damaged == (flags.damage_stop || flags.capture_yoshi || flags.ganon_fall_ground
            || flags.ganon_fall_air || covered(
            ranges@,
            checked_status(status, prev_status, is_prev),
        )),
{
    let looked_at: i32 = if is_prev {
        prev_status
    } else {
        status
    };
    if flags.damage_stop || flags.capture_yoshi || flags.ganon_fall_ground || flags.ganon_fall_air
        || status_in_ranges(ranges, looked_at) {
        return true;
    }
    false
}

/// Whether the fighter is in a status in which it is held, thrown or
/// otherwise not its own master: the capture flag is up, or the status
/// looked at lies in one of the ranges.
pub fn is_illegal_status(
    capture_yoshi: bool,
    status: i32,
    prev_status: i32,
    is_prev: bool,
    ranges: &Vec<StatusRange>,
) -> (illegal: bool)
    ensures
        illegal == (capture_yoshi || covered(
            ranges@,
            checked_status(status, prev_status, is_prev),
        )),
{
    let looked_at: i32 = if is_prev {
        prev_status
    } else {
        status
    };
    if capture_yoshi || status_in_ranges(ranges, looked_at) {
        return true;
    }
    false
}

} // verus!
