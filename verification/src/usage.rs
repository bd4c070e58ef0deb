//! The move-usage masks: which moves a cancel string has already spent.
//!
//! A fighter carries two masks, one for ground normals and one for aerials.
//! A set bit means that the move of that bucket has been used in the
//! current string and cannot be picked again until the mask is reset.

use vstd::prelude::*;
use crate::fighter::{EngineIds, FighterState};

verus! {

/// Bucket of the neutral attack.
pub const ATTACK_N_MASK: i32 = 0b0000001;

/// Bucket of the side tilt.
pub const ATTACK_S3_MASK: i32 = 0b0000010;

/// Bucket of the up tilt.
pub const ATTACK_HI3_MASK: i32 = 0b0000100;

/// Bucket of the down tilt.
pub const ATTACK_LW3_MASK: i32 = 0b0001000;

/// Bucket of the side smash.
pub const ATTACK_S4_MASK: i32 = 0b0010000;

/// Bucket of the up smash.
pub const ATTACK_HI4_MASK: i32 = 0b0100000;

/// Bucket of the down smash.
pub const ATTACK_LW4_MASK: i32 = 0b1000000;

/// Bucket of the neutral aerial.
pub const ATTACK_AIR_N_MASK: i32 = 0b00001;

/// Bucket of the forward aerial.
pub const ATTACK_AIR_F_MASK: i32 = 0b00010;

/// Bucket of the back aerial.
pub const ATTACK_AIR_B_MASK: i32 = 0b00100;

/// Bucket of the up aerial.
pub const ATTACK_AIR_HI_MASK: i32 = 0b01000;

/// Bucket of the down aerial.
pub const ATTACK_AIR_LW_MASK: i32 = 0b10000;

/// A follow-up transition that the engine can be told to refuse.
#[derive(Clone, Copy, PartialEq, Eq, Structural, Debug)]
pub enum TransitionTerm {
    Attack,
    ItemSwing,
    ItemShoot,
    AttackS3,
    ItemSwingS3,
    ItemShootS3,
    AttackHi3,
    AttackLw3,
    AttackS4Start,
    ItemSwingS4,
    ItemShootS4,
    AttackHi4Start,
    AttackLw4Start,
}

/// A usage mask after `mask` has been marked as used: the bitwise union of
/// the two while the engine's cancel window is shut, the mask as it was
/// while it is open.
pub open spec fn mask_after_disable(used: i32, mask: i32, cancel_enabled: bool) -> i32 {
    if cancel_enabled {
        used
    } else {
        used | mask
    }
}

/// `terms` if the bucket `bucket` is spent in `used`, nothing otherwise.
pub open spec fn bucket_terms(used: i32, bucket: i32, terms: Seq<TransitionTerm>) -> Seq<
    TransitionTerm,
> {
    if used & bucket != 0 {
        terms
    } else {
        Seq::empty()
    }
}

/// The follow-ups that a ground mask rules out, bucket by bucket. An attack
/// shares its bucket with the item swing and the item shot of its size.
pub open spec fn spent_terms(used: i32) -> Seq<TransitionTerm> {
    bucket_terms(
        used,
        ATTACK_N_MASK,
        seq![TransitionTerm::Attack, TransitionTerm::ItemSwing, TransitionTerm::ItemShoot],
    ) + bucket_terms(
        used,
        ATTACK_S3_MASK,
        seq![TransitionTerm::AttackS3, TransitionTerm::ItemSwingS3, TransitionTerm::ItemShootS3],
    ) + bucket_terms(used, ATTACK_HI3_MASK, seq![TransitionTerm::AttackHi3]) + bucket_terms(
        used,
        ATTACK_LW3_MASK,
        seq![TransitionTerm::AttackLw3],
    ) + bucket_terms(
        used,
        ATTACK_S4_MASK,
        seq![
            TransitionTerm::AttackS4Start,
            TransitionTerm::ItemSwingS4,
            TransitionTerm::ItemShootS4,
        ],
    ) + bucket_terms(used, ATTACK_HI4_MASK, seq![TransitionTerm::AttackHi4Start]) + bucket_terms(
        used,
        ATTACK_LW4_MASK,
        seq![TransitionTerm::AttackLw4Start],
    )
}

/// The bucket that a follow-up belongs to.
pub open spec fn bucket_of(term: TransitionTerm) -> i32 {
    match term {
        TransitionTerm::Attack
        | TransitionTerm::ItemSwing
        | TransitionTerm::ItemShoot => ATTACK_N_MASK,
        TransitionTerm::AttackS3
        | TransitionTerm::ItemSwingS3
        | TransitionTerm::ItemShootS3 => ATTACK_S3_MASK,
        TransitionTerm::AttackHi3 => ATTACK_HI3_MASK,
        TransitionTerm::AttackLw3 => ATTACK_LW3_MASK,
        TransitionTerm::AttackS4Start
        | TransitionTerm::ItemSwingS4
        | TransitionTerm::ItemShootS4 => ATTACK_S4_MASK,
        TransitionTerm::AttackHi4Start => ATTACK_HI4_MASK,
        TransitionTerm::AttackLw4Start => ATTACK_LW4_MASK,
    }
}

/// The bucket that an aerial kind belongs to; zero for a kind that names no
/// aerial.
pub open spec fn aerial_bucket(attack_air_kind: i32) -> i32 {
    if attack_air_kind == 1 {
        ATTACK_AIR_N_MASK
    } else if attack_air_kind == 2 {
        ATTACK_AIR_F_MASK
    } else if attack_air_kind == 3 {
        ATTACK_AIR_B_MASK
    } else if attack_air_kind == 4 {
        ATTACK_AIR_HI_MASK
    } else if attack_air_kind == 5 {
        ATTACK_AIR_LW_MASK
    } else {
        0
    }
}

impl FighterState {
    /// The fighter is in the middle of a ground string: its status is one of
    /// the string statuses, the engine's cancel window is shut and the
    /// motion has not played out.
    pub open spec fn mid_string(&self, ids: &EngineIds) -> bool {
        &&& ids.string_statuses@.contains(self.status)
        &&& !self.cancel_enabled
        &&& !self.motion_ended
    }

    /// The ground mask after a reset: zero when `ignore` is set or the
    /// fighter is not in the middle of a string, untouched otherwise.
    pub open spec fn ground_mask_after_reset(&self, ids: &EngineIds, ignore: bool) -> i32 {
        if ignore || !self.mid_string(ids) {
            0
        } else {
            self.used_ground_normals
        }
    }

    /// Whether the aerial that the input asks for may be used.
    pub open spec fn aerial_enabled(&self) -> bool {
        if self.normal_cancel && !self.cancel_enabled {
            let bucket = aerial_bucket(self.attack_air_kind);
            self.enabled_aerials & bucket != 0 && self.used_aerials & bucket == 0
        } else {
            true
        }
    }
}

/// Marks the ground normals in `ground_normal_mask` as used.
///
/// Does nothing while the engine's cancel window is open. A bucket that is
/// already marked stays marked.
pub fn disable_ground_normal(state: &mut FighterState, ground_normal_mask: i32)
    ensures
        *final(state) == (FighterState {
            used_ground_normals: mask_after_disable(
                old(state).used_ground_normals,
                ground_normal_mask,
                old(state).cancel_enabled,
            ),
            ..*old(state)
        }),
{
    if !state.cancel_enabled {
        state.used_ground_normals = state.used_ground_normals | ground_normal_mask;
    }
}

/// Lists the follow-up transitions that the engine is to refuse because
/// their bucket is spent, in the order of the buckets.
///
/// While the engine's cancel window is open nothing is refused.
pub fn set_used_ground_normal_transition_terms(state: &FighterState) -> (terms: Vec<TransitionTerm>)
    ensures
        terms@ == (if state.cancel_enabled {
            Seq::<TransitionTerm>::empty()
        } else {
            spent_terms(state.used_ground_normals)
        }),
{
    let mut terms: Vec<TransitionTerm> = Vec::new();
    if !state.cancel_enabled {
        let used = state.used_ground_normals;
        if used & ATTACK_N_MASK != 0 {
            terms.push(TransitionTerm::Attack);
            terms.push(TransitionTerm::ItemSwing);
            terms.push(TransitionTerm::ItemShoot);
        }
        let ghost n = terms@;
        assert(n =~= bucket_terms(
            used,
            ATTACK_N_MASK,
            seq![TransitionTerm::Attack, TransitionTerm::ItemSwing, TransitionTerm::ItemShoot],
        ));
        if used & ATTACK_S3_MASK != 0 {
            terms.push(TransitionTerm::AttackS3);
            terms.push(TransitionTerm::ItemSwingS3);
            terms.push(TransitionTerm::ItemShootS3);
        }
        let ghost s3 = terms@;
        assert(s3 =~= n + bucket_terms(
            used,
            ATTACK_S3_MASK,
            seq![
                TransitionTerm::AttackS3,
                TransitionTerm::ItemSwingS3,
                TransitionTerm::ItemShootS3,
            ],
        ));
        if used & ATTACK_HI3_MASK != 0 {
            terms.push(TransitionTerm::AttackHi3);
        }
        let ghost hi3 = terms@;
        assert(hi3 =~= s3 + bucket_terms(used, ATTACK_HI3_MASK, seq![TransitionTerm::AttackHi3]));
        if used & ATTACK_LW3_MASK != 0 {
            terms.push(TransitionTerm::AttackLw3);
        }
        let ghost lw3 = terms@;
        assert(lw3 =~= hi3 + bucket_terms(used, ATTACK_LW3_MASK, seq![TransitionTerm::AttackLw3]));
        if used & ATTACK_S4_MASK != 0 {
            terms.push(TransitionTerm::AttackS4Start);
            terms.push(TransitionTerm::ItemSwingS4);
            terms.push(TransitionTerm::ItemShootS4);
        }
        let ghost s4 = terms@;
        assert(s4 =~= lw3 + bucket_terms(
            used,
            ATTACK_S4_MASK,
            seq![
                TransitionTerm::AttackS4Start,
                TransitionTerm::ItemSwingS4,
                TransitionTerm::ItemShootS4,
            ],
        ));
        if used & ATTACK_HI4_MASK != 0 {
            terms.push(TransitionTerm::AttackHi4Start);
        }
        let ghost hi4 = terms@;
        assert(hi4 =~= s4 + bucket_terms(
            used,
            ATTACK_HI4_MASK,
            seq![TransitionTerm::AttackHi4Start],
        ));
        if used & ATTACK_LW4_MASK != 0 {
            terms.push(TransitionTerm::AttackLw4Start);
        }
        assert(terms@ =~= hi4 + bucket_terms(
            used,
            ATTACK_LW4_MASK,
            seq![TransitionTerm::AttackLw4Start],
        ));
    }
    terms
}

/// Whether `status` is one of `statuses`.
pub fn status_among(statuses: &Vec<i32>, status: i32) -> (found: bool)
    ensures
        found == statuses@.contains(status),
{
    let mut i: usize = 0;
    while i < statuses.len()
        invariant
            i <= statuses.len(),
            forall|j: int| 0 <= j < i ==> statuses@[j] != status,
        decreases statuses.len() - i,
    {
        if statuses[i] == status {
            return true;
        }
        i += 1;
    }
    false
}

/// Ends the ground string unless the fighter is in the middle of one.
///
/// The mask is cleared when `ignore` is set, when the engine's cancel
/// window is open, when the motion has played out, or when the status is
/// not a string status. In every other case it stays as it is.
pub fn reset_used_ground_normals(state: &mut FighterState, ids: &EngineIds, ignore: bool)
    ensures
        *final(state) == (FighterState {
            used_ground_normals: old(state).ground_mask_after_reset(ids, ignore),
            ..*old(state)
        }),
{
    if ignore || (state.cancel_enabled || state.motion_ended) || !status_among(
        &ids.string_statuses,
        state.status,
    ) {
        state.used_ground_normals = 0;
    }
}

/// Marks the aerials in `aerial_mask` as used.
///
/// Does nothing while the engine's cancel window is open. A bucket that is
/// already marked stays marked.
pub fn disable_aerial(state: &mut FighterState, aerial_mask: i32)
    ensures
        *final(state) == (FighterState {
            used_aerials: mask_after_disable(
                old(state).used_aerials,
                aerial_mask,
                old(state).cancel_enabled,
            ),
            ..*old(state)
        }),
{
    if !state.cancel_enabled {
        state.used_aerials = state.used_aerials | aerial_mask;
    }
}

/// Whether the aerial that the input asks for may be used.
///
/// A fighter without the normal-cancel capability, or one whose engine
/// cancel window is open, may use any. Otherwise the aerial's bucket has to
/// be enabled for the current status and not yet spent in the string.
pub fn check_enabled_aerial(state: &FighterState) -> (enabled: bool)
    ensures
        enabled == state.aerial_enabled(),
{
    if state.normal_cancel && !state.cancel_enabled {
        let aerial_flag: i32 = match state.attack_air_kind {
            1 => ATTACK_AIR_N_MASK,
            2 => ATTACK_AIR_F_MASK,
            3 => ATTACK_AIR_B_MASK,
            4 => ATTACK_AIR_HI_MASK,
            5 => ATTACK_AIR_LW_MASK,
            _ => 0b00000,
        };
        return state.enabled_aerials & aerial_flag != 0 && state.used_aerials & aerial_flag == 0;
    }
    true
}

/// Ends the aerial string: every aerial may be used again.
pub fn reset_used_aerials(state: &mut FighterState)
    ensures
        *final(state) == (FighterState { used_aerials: 0, ..*old(state) }),
{
    state.used_aerials = 0;
}

/// Marking the same buckets twice leaves the mask as marking them once.
pub proof fn lemma_disable_idempotent(used: i32, mask: i32, cancel_enabled: bool)
    ensures
        mask_after_disable(mask_after_disable(used, mask, cancel_enabled), mask, cancel_enabled)
            == mask_after_disable(used, mask, cancel_enabled),
{
    assert((used | mask) | mask == used | mask) by (bit_vector);
}

/// Marking never clears a bit: whatever was used before is used after, and
/// the marked buckets are used after unless the engine's cancel window was
/// open.
pub proof fn lemma_disable_keeps_bits(used: i32, mask: i32, cancel_enabled: bool)
    ensures
        mask_after_disable(used, mask, cancel_enabled) & used == used,
        !cancel_enabled ==> mask_after_disable(used, mask, cancel_enabled) & mask == mask,
{
    assert((used | mask) & used == used) by (bit_vector);
    assert((used | mask) & mask == mask) by (bit_vector);
    assert(used & used == used) by (bit_vector);
}

/// Marking is a union, so the order of two markings does not matter.
pub proof fn lemma_disable_commutes(used: i32, first: i32, second: i32)
    ensures
        mask_after_disable(mask_after_disable(used, first, false), second, false)
            == mask_after_disable(mask_after_disable(used, second, false), first, false),
{
    assert((used | first) | second == (used | second) | first) by (bit_vector);
}

/// The ground mask is cleared when `ignore` is set, the engine's cancel
/// window is open, the motion has played out, or the status is not a string
/// status; in every other case the reset leaves it as it was. So a mask that
/// held anything is zero afterwards if and only if one of the four holds.
pub proof fn lemma_reset_clears_iff(state: FighterState, ids: EngineIds, ignore: bool)
    ensures
        (ignore || state.cancel_enabled || state.motion_ended || !ids.string_statuses@.contains(
            state.status,
        )) ==> state.ground_mask_after_reset(&ids, ignore) == 0,
        !(ignore || state.cancel_enabled || state.motion_ended || !ids.string_statuses@.contains(
            state.status,
        )) ==> state.ground_mask_after_reset(&ids, ignore) == state.used_ground_normals,
        state.used_ground_normals != 0 ==> (state.ground_mask_after_reset(&ids, ignore) == 0 <==> (
        ignore || state.cancel_enabled || state.motion_ended || !ids.string_statuses@.contains(
            state.status,
        ))),
{
}

/// A reset is idempotent, and it never sets a bit.
pub proof fn lemma_reset_settles(state: FighterState, ids: EngineIds, ignore: bool)
    ensures
        (FighterState {
            used_ground_normals: state.ground_mask_after_reset(&ids, ignore),
            ..state
        }).ground_mask_after_reset(&ids, ignore) == state.ground_mask_after_reset(&ids, ignore),
        state.ground_mask_after_reset(&ids, ignore) == 0 || state.ground_mask_after_reset(
            &ids,
            ignore,
        ) == state.used_ground_normals,
{
}

/// A follow-up is ruled out exactly when the bit of its bucket is set.
pub proof fn lemma_spent_iff_bucket_set(used: i32, term: TransitionTerm)
    ensures
        spent_terms(used).contains(term) <==> used & bucket_of(term) != 0,
{
    let n = bucket_terms(
        used,
        ATTACK_N_MASK,
        seq![TransitionTerm::Attack, TransitionTerm::ItemSwing, TransitionTerm::ItemShoot],
    );
    let s3 = bucket_terms(
        used,
        ATTACK_S3_MASK,
        seq![TransitionTerm::AttackS3, TransitionTerm::ItemSwingS3, TransitionTerm::ItemShootS3],
    );
    let hi3 = bucket_terms(used, ATTACK_HI3_MASK, seq![TransitionTerm::AttackHi3]);
    let lw3 = bucket_terms(used, ATTACK_LW3_MASK, seq![TransitionTerm::AttackLw3]);
    let s4 = bucket_terms(
        used,
        ATTACK_S4_MASK,
        seq![
            TransitionTerm::AttackS4Start,
            TransitionTerm::ItemSwingS4,
            TransitionTerm::ItemShootS4,
        ],
    );
    let hi4 = bucket_terms(used, ATTACK_HI4_MASK, seq![TransitionTerm::AttackHi4Start]);
    let lw4 = bucket_terms(used, ATTACK_LW4_MASK, seq![TransitionTerm::AttackLw4Start]);
    lemma_bucket_membership(
        used,
        ATTACK_N_MASK,
        TransitionTerm::Attack,
        TransitionTerm::ItemSwing,
        TransitionTerm::ItemShoot,
        term,
    );
    lemma_bucket_membership(
        used,
        ATTACK_S3_MASK,
        TransitionTerm::AttackS3,
        TransitionTerm::ItemSwingS3,
        TransitionTerm::ItemShootS3,
        term,
    );
    lemma_bucket_membership(
        used,
        ATTACK_HI3_MASK,
        TransitionTerm::AttackHi3,
        TransitionTerm::AttackHi3,
        TransitionTerm::AttackHi3,
        term,
    );
    lemma_bucket_membership(
        used,
        ATTACK_LW3_MASK,
        TransitionTerm::AttackLw3,
        TransitionTerm::AttackLw3,
        TransitionTerm::AttackLw3,
        term,
    );
    lemma_bucket_membership(
        used,
        ATTACK_S4_MASK,
        TransitionTerm::AttackS4Start,
        TransitionTerm::ItemSwingS4,
        TransitionTerm::ItemShootS4,
        term,
    );
    lemma_bucket_membership(
        used,
        ATTACK_HI4_MASK,
        TransitionTerm::AttackHi4Start,
        TransitionTerm::AttackHi4Start,
        TransitionTerm::AttackHi4Start,
        term,
    );
    lemma_bucket_membership(
        used,
        ATTACK_LW4_MASK,
        TransitionTerm::AttackLw4Start,
        TransitionTerm::AttackLw4Start,
        TransitionTerm::AttackLw4Start,
        term,
    );
    lemma_contains_split(n, s3, term);
    lemma_contains_split(n + s3, hi3, term);
    lemma_contains_split(n + s3 + hi3, lw3, term);
    lemma_contains_split(n + s3 + hi3 + lw3, s4, term);
    lemma_contains_split(n + s3 + hi3 + lw3 + s4, hi4, term);
    lemma_contains_split(n + s3 + hi3 + lw3 + s4 + hi4, lw4, term);
}

/// A ground normal that has been marked is ruled out from then on: with the
/// engine's cancel window shut, marking the bucket of a follow-up puts the
/// follow-up among the spent ones, and what was spent before stays spent.
pub proof fn lemma_marked_is_spent(used: i32, term: TransitionTerm, earlier: TransitionTerm)
    ensures
        spent_terms(mask_after_disable(used, bucket_of(term), false)).contains(term),
        spent_terms(used).contains(earlier) ==> spent_terms(
            mask_after_disable(used, bucket_of(term), false),
        ).contains(earlier),
{
    let bucket = bucket_of(term);
    let before = bucket_of(earlier);
    assert(bucket != 0);
    assert(bucket != 0 ==> (used | bucket) & bucket != 0) by (bit_vector);
    assert(used & before != 0 ==> (used | bucket) & before != 0) by (bit_vector);
    lemma_spent_iff_bucket_set(used | bucket, term);
    lemma_spent_iff_bucket_set(used | bucket, earlier);
    lemma_spent_iff_bucket_set(used, earlier);
}

/// After a reset that clears the mask no follow-up is ruled out.
pub proof fn lemma_cleared_mask_spends_nothing(term: TransitionTerm)
    ensures
        !spent_terms(0).contains(term),
{
    let bucket = bucket_of(term);
    assert(0i32 & bucket == 0) by (bit_vector);
    lemma_spent_iff_bucket_set(0, term);
}

/// An aerial that has been marked cannot be picked again in the string:
/// for a fighter with the normal-cancel capability and the engine's cancel
/// window shut, marking the bucket of the aerial asked for disables it.
pub proof fn lemma_marked_aerial_is_disabled(state: FighterState)
    requires
        state.normal_cancel,
        !state.cancel_enabled,
    ensures
        !(FighterState {
            used_aerials: mask_after_disable(
                state.used_aerials,
                aerial_bucket(state.attack_air_kind),
                false,
            ),
            ..state
        }).aerial_enabled(),
{
    let bucket = aerial_bucket(state.attack_air_kind);
    let used = state.used_aerials;
    let enabled = state.enabled_aerials;
    assert(bucket != 0 ==> (used | bucket) & bucket != 0) by (bit_vector);
    assert(bucket == 0 ==> enabled & bucket == 0) by (bit_vector);
}

/// After the aerial string has ended, an aerial may be picked exactly when
/// the status allows it.
pub proof fn lemma_reset_aerials_reenables(state: FighterState)
    requires
        state.normal_cancel,
        !state.cancel_enabled,
    ensures
        (FighterState { used_aerials: 0, ..state }).aerial_enabled() == (state.enabled_aerials
            & aerial_bucket(state.attack_air_kind) != 0),
{
    let bucket = aerial_bucket(state.attack_air_kind);
    assert(0i32 & bucket == 0) by (bit_vector);
}

/// Membership in the terms of one bucket, of up to three distinct terms.
proof fn lemma_bucket_membership(
    used: i32,
    bucket: i32,
    a: TransitionTerm,
    b: TransitionTerm,
    c: TransitionTerm,
    term: TransitionTerm,
)
    ensures
        bucket_terms(used, bucket, seq![a, b, c]).contains(term) <==> (used & bucket != 0 && (term
            == a || term == b || term == c)),
        bucket_terms(used, bucket, seq![a]).contains(term) <==> (used & bucket != 0 && term == a),
{
    let three = seq![a, b, c];
    let one = seq![a];
    assert(three[0] == a && three[1] == b && three[2] == c);
    assert(one[0] == a);
}

/// An element is in a concatenation exactly when it is in one of the parts.
proof fn lemma_contains_split(
    left: Seq<TransitionTerm>,
    right: Seq<TransitionTerm>,
    term: TransitionTerm,
)
    ensures
        (left + right).contains(term) <==> (left.contains(term) || right.contains(term)),
{
    let both = left + right;
    if left.contains(term) {
        let i = choose|i: int| 0 <= i < left.len() && left[i] == term;
        assert(both[i] == term);
    }
    if right.contains(term) {
        let i = choose|i: int| 0 <= i < right.len() && right[i] == term;
        assert(both[left.len() + i] == term);
    }
    if both.contains(term) {
        let i = choose|i: int| 0 <= i < both.len() && both[i] == term;
        if i < left.len() {
            assert(left[i] == term);
        } else {
            assert(right[i - left.len()] == term);
        }
    }
}

} // verus!
