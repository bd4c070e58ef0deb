use cancel_core::appeal::{set_appeal_loop, AppealMode, AppealRegisters};
use cancel_core::direction::{flip, get_command_stick_direction, read_stick};
use cancel_core::fighter::{AngleBand, EngineIds, Facing, FighterState, Sign, StickReading};
use cancel_core::status::{is_damage_check, is_illegal_status, status_in_ranges, DamageFlags, StatusRange};
use cancel_core::usage::{
    check_enabled_aerial, disable_aerial, disable_ground_normal, reset_used_aerials,
    reset_used_ground_normals, set_used_ground_normal_transition_terms, status_among,
    TransitionTerm, ATTACK_AIR_B_MASK, ATTACK_AIR_F_MASK, ATTACK_AIR_HI_MASK, ATTACK_AIR_LW_MASK,
    ATTACK_AIR_N_MASK, ATTACK_HI3_MASK, ATTACK_HI4_MASK, ATTACK_LW3_MASK, ATTACK_LW4_MASK,
    ATTACK_N_MASK, ATTACK_S3_MASK, ATTACK_S4_MASK,
};

const TURN_RUN: i32 = 7;
const JAB: i32 = 39;
const TILT: i32 = 42;
const WAIT: i32 = 0;

fn ids() -> EngineIds {
    EngineIds {
        situation_ground: 0,
        situation_air: 2,
        status_dash: 3,
        status_turn_dash: 5,
        status_turn_run: TURN_RUN,
        status_wall_jump: 20,
        flag_dash: 0x400,
        flag_turn_dash: 0x800,
        flag_wall_jump_left: 0x2000,
        flag_wall_jump_right: 0x4000,
        string_statuses: vec![JAB, 40, 41, TILT, 43, 44],
    }
}

fn stick(horizontal: Sign, up: bool, in_deadzone: bool, band: AngleBand) -> StickReading {
    StickReading { horizontal, up, in_deadzone, band }
}

fn fighter() -> FighterState {
    FighterState {
        timer_running: false,
        hit_confirmed: false,
        block_confirmed: false,
        any_infliction: false,
        locked: false,
        situation: 0,
        status: JAB,
        command_flags: 0,
        stick: stick(Sign::Zero, false, true, AngleBand::Flat),
        facing: Facing::Right,
        cancel_enabled: false,
        motion_ended: false,
        normal_cancel: false,
        attack_air_kind: 0,
        used_ground_normals: 0,
        used_aerials: 0,
        enabled_aerials: 0,
    }
}

fn direction(s: StickReading, facing: Facing, status: i32, command: bool) -> i32 {
    let state = FighterState { stick: s, facing, status, ..fighter() };
    get_command_stick_direction(&state, &ids(), command)
}

#[test]
fn deadzone_is_neutral_for_every_reading() {
    for horizontal in [Sign::Negative, Sign::Zero, Sign::Positive] {
        for up in [false, true] {
            for band in [AngleBand::Flat, AngleBand::Diagonal, AngleBand::Steep] {
                for facing in [Facing::Right, Facing::Left] {
                    for command in [false, true] {
                        let s = stick(horizontal, up, true, band);
                        assert_eq!(direction(s, facing, JAB, command), 5);
                        assert_eq!(direction(s, facing, TURN_RUN, command), 5);
                    }
                }
            }
        }
    }
}

#[test]
fn flat_band_is_horizontal() {
    assert_eq!(direction(stick(Sign::Positive, true, false, AngleBand::Flat), Facing::Right, JAB, false), 6);
    assert_eq!(direction(stick(Sign::Positive, false, false, AngleBand::Flat), Facing::Right, JAB, false), 6);
    assert_eq!(direction(stick(Sign::Negative, true, false, AngleBand::Flat), Facing::Right, JAB, false), 4);
    assert_eq!(direction(stick(Sign::Negative, false, false, AngleBand::Flat), Facing::Right, JAB, false), 4);
}

#[test]
fn steep_band_is_vertical() {
    assert_eq!(direction(stick(Sign::Positive, true, false, AngleBand::Steep), Facing::Right, JAB, false), 8);
    assert_eq!(direction(stick(Sign::Negative, true, false, AngleBand::Steep), Facing::Right, JAB, false), 8);
    assert_eq!(direction(stick(Sign::Zero, true, false, AngleBand::Steep), Facing::Right, JAB, false), 8);
    assert_eq!(direction(stick(Sign::Positive, false, false, AngleBand::Steep), Facing::Right, JAB, false), 2);
    assert_eq!(direction(stick(Sign::Zero, false, false, AngleBand::Steep), Facing::Right, JAB, false), 2);
}

#[test]
fn diagonal_band_goes_by_both_signs() {
    assert_eq!(direction(stick(Sign::Positive, true, false, AngleBand::Diagonal), Facing::Right, JAB, false), 9);
    assert_eq!(direction(stick(Sign::Positive, false, false, AngleBand::Diagonal), Facing::Right, JAB, false), 3);
    assert_eq!(direction(stick(Sign::Negative, true, false, AngleBand::Diagonal), Facing::Right, JAB, false), 7);
    assert_eq!(direction(stick(Sign::Negative, false, false, AngleBand::Diagonal), Facing::Right, JAB, false), 1);
}

#[test]
fn zero_axis_counts_as_not_positive() {
    assert_eq!(direction(stick(Sign::Zero, false, false, AngleBand::Flat), Facing::Right, JAB, false), 4);
    assert_eq!(direction(stick(Sign::Zero, true, false, AngleBand::Diagonal), Facing::Right, JAB, false), 7);
    assert_eq!(direction(stick(Sign::Zero, false, false, AngleBand::Flat), Facing::Left, JAB, true), 4);
}

#[test]
fn facing_left_mirrors_a_command_reading() {
    let right = stick(Sign::Positive, false, false, AngleBand::Flat);
    assert_eq!(direction(right, Facing::Left, JAB, true), 4);
    assert_eq!(direction(right, Facing::Left, JAB, false), 6);
    assert_eq!(direction(right, Facing::Right, JAB, true), 6);
    let up_left = stick(Sign::Negative, true, false, AngleBand::Diagonal);
    assert_eq!(direction(up_left, Facing::Left, JAB, true), 9);
    assert_eq!(direction(up_left, Facing::Right, JAB, true), 7);
}

#[test]
fn turning_run_mirrors_once_more() {
    let right = stick(Sign::Positive, false, false, AngleBand::Flat);
    assert_eq!(direction(right, Facing::Right, TURN_RUN, true), 4);
    assert_eq!(direction(right, Facing::Left, TURN_RUN, true), 6);
    assert_eq!(direction(right, Facing::Right, TURN_RUN, false), 6);
    assert_eq!(direction(right, Facing::Left, TURN_RUN, false), 6);
}

#[test]
fn flip_negates_the_sign() {
    assert_eq!(flip(Sign::Positive), Sign::Negative);
    assert_eq!(flip(Sign::Negative), Sign::Positive);
    assert_eq!(flip(Sign::Zero), Sign::Zero);
}

#[test]
fn bucket_masks_are_single_distinct_bits() {
    let ground = [
        ATTACK_N_MASK,
        ATTACK_S3_MASK,
        ATTACK_HI3_MASK,
        ATTACK_LW3_MASK,
        ATTACK_S4_MASK,
        ATTACK_HI4_MASK,
        ATTACK_LW4_MASK,
    ];
    let mut seen = 0;
    for mask in ground {
        assert_eq!(mask.count_ones(), 1);
        assert_eq!(seen & mask, 0);
        seen |= mask;
    }
    assert_eq!(seen, 0b1111111);
    let air = [
        ATTACK_AIR_N_MASK,
        ATTACK_AIR_F_MASK,
        ATTACK_AIR_B_MASK,
        ATTACK_AIR_HI_MASK,
        ATTACK_AIR_LW_MASK,
    ];
    let mut seen_air = 0;
    for mask in air {
        assert_eq!(mask.count_ones(), 1);
        assert_eq!(seen_air & mask, 0);
        seen_air |= mask;
    }
    assert_eq!(seen_air, 0b11111);
}

#[test]
fn disable_ground_normal_unions_the_mask() {
    let mut state = FighterState { used_ground_normals: ATTACK_N_MASK, ..fighter() };
    disable_ground_normal(&mut state, ATTACK_LW3_MASK);
    assert_eq!(state.used_ground_normals, 0b0001001);
    assert_eq!(state, FighterState { used_ground_normals: 0b0001001, ..fighter() });
}

#[test]
fn disable_ground_normal_twice_is_as_once() {
    let mut once = fighter();
    disable_ground_normal(&mut once, ATTACK_S3_MASK);
    let mut twice = fighter();
    disable_ground_normal(&mut twice, ATTACK_S3_MASK);
    disable_ground_normal(&mut twice, ATTACK_S3_MASK);
    assert_eq!(once.used_ground_normals, 0b0000010);
    assert_eq!(twice, once);
}

#[test]
fn disable_ground_normal_with_overlapping_mask_is_a_union() {
    let mut state = FighterState { used_ground_normals: 0b0000011, ..fighter() };
    disable_ground_normal(&mut state, 0b0000110);
    assert_eq!(state.used_ground_normals, 0b0000111);
}

#[test]
fn disable_ground_normal_waits_while_cancel_is_enabled() {
    let mut state = FighterState { cancel_enabled: true, used_ground_normals: 0b100, ..fighter() };
    disable_ground_normal(&mut state, ATTACK_N_MASK);
    assert_eq!(state.used_ground_normals, 0b100);
}

#[test]
fn spent_buckets_list_their_terms_in_order() {
    let state = FighterState { used_ground_normals: 0b1111111, ..fighter() };
    assert_eq!(
        set_used_ground_normal_transition_terms(&state),
        vec![
            TransitionTerm::Attack,
            TransitionTerm::ItemSwing,
            TransitionTerm::ItemShoot,
            TransitionTerm::AttackS3,
            TransitionTerm::ItemSwingS3,
            TransitionTerm::ItemShootS3,
            TransitionTerm::AttackHi3,
            TransitionTerm::AttackLw3,
            TransitionTerm::AttackS4Start,
            TransitionTerm::ItemSwingS4,
            TransitionTerm::ItemShootS4,
            TransitionTerm::AttackHi4Start,
            TransitionTerm::AttackLw4Start,
        ]
    );
}

#[test]
fn each_bucket_has_its_own_terms() {
    let terms = |used: i32| {
        set_used_ground_normal_transition_terms(&FighterState { used_ground_normals: used, ..fighter() })
    };
    assert_eq!(terms(0), vec![]);
    assert_eq!(
        terms(ATTACK_N_MASK),
        vec![TransitionTerm::Attack, TransitionTerm::ItemSwing, TransitionTerm::ItemShoot]
    );
    assert_eq!(
        terms(ATTACK_S3_MASK),
        vec![TransitionTerm::AttackS3, TransitionTerm::ItemSwingS3, TransitionTerm::ItemShootS3]
    );
    assert_eq!(terms(ATTACK_HI3_MASK), vec![TransitionTerm::AttackHi3]);
    assert_eq!(terms(ATTACK_LW3_MASK), vec![TransitionTerm::AttackLw3]);
    assert_eq!(
        terms(ATTACK_S4_MASK),
        vec![TransitionTerm::AttackS4Start, TransitionTerm::ItemSwingS4, TransitionTerm::ItemShootS4]
    );
    assert_eq!(terms(ATTACK_HI4_MASK), vec![TransitionTerm::AttackHi4Start]);
    assert_eq!(terms(ATTACK_LW4_MASK), vec![TransitionTerm::AttackLw4Start]);
    assert_eq!(
        terms(ATTACK_HI3_MASK | ATTACK_LW4_MASK),
        vec![TransitionTerm::AttackHi3, TransitionTerm::AttackLw4Start]
    );
}

#[test]
fn no_term_is_refused_while_cancel_is_enabled() {
    let state = FighterState { cancel_enabled: true, used_ground_normals: 0b1111111, ..fighter() };
    assert_eq!(set_used_ground_normal_transition_terms(&state), vec![]);
}

#[test]
fn status_among_finds_members_only() {
    let list = vec![4, 8, 15];
    assert!(status_among(&list, 4));
    assert!(status_among(&list, 15));
    assert!(!status_among(&list, 16));
    assert!(!status_among(&vec![], 4));
}

#[test]
fn reset_keeps_the_mask_in_mid_string() {
    let mut state = FighterState { status: TILT, used_ground_normals: 0b101, ..fighter() };
    reset_used_ground_normals(&mut state, &ids(), false);
    assert_eq!(state.used_ground_normals, 0b101);
}

#[test]
fn reset_clears_on_each_of_its_four_grounds() {
    let mid = FighterState { status: TILT, used_ground_normals: 0b101, ..fighter() };

    let mut ignored = mid;
    reset_used_ground_normals(&mut ignored, &ids(), true);
    assert_eq!(ignored, FighterState { used_ground_normals: 0, ..mid });

    let mut enabled = FighterState { cancel_enabled: true, ..mid };
    reset_used_ground_normals(&mut enabled, &ids(), false);
    assert_eq!(enabled.used_ground_normals, 0);

    let mut ended = FighterState { motion_ended: true, ..mid };
    reset_used_ground_normals(&mut ended, &ids(), false);
    assert_eq!(ended.used_ground_normals, 0);

    let mut outside = FighterState { status: WAIT, ..mid };
    reset_used_ground_normals(&mut outside, &ids(), false);
    assert_eq!(outside.used_ground_normals, 0);
}

#[test]
fn disable_aerial_unions_and_is_idempotent() {
    let mut state = FighterState { used_aerials: ATTACK_AIR_N_MASK, ..fighter() };
    disable_aerial(&mut state, ATTACK_AIR_B_MASK);
    assert_eq!(state.used_aerials, 0b00101);
    disable_aerial(&mut state, ATTACK_AIR_B_MASK);
    assert_eq!(state.used_aerials, 0b00101);
    assert_eq!(state.used_ground_normals, 0);
}

#[test]
fn disable_aerial_waits_while_cancel_is_enabled() {
    let mut state = FighterState { cancel_enabled: true, ..fighter() };
    disable_aerial(&mut state, ATTACK_AIR_F_MASK);
    assert_eq!(state.used_aerials, 0);
}

#[test]
fn reset_used_aerials_is_unconditional() {
    let mut state = FighterState { used_aerials: 0b11111, used_ground_normals: 0b11, ..fighter() };
    reset_used_aerials(&mut state);
    assert_eq!(state.used_aerials, 0);
    assert_eq!(state.used_ground_normals, 0b11);
}

#[test]
fn aerial_is_enabled_without_the_capability() {
    let state = FighterState { normal_cancel: false, attack_air_kind: 2, ..fighter() };
    assert!(check_enabled_aerial(&state));
    let open = FighterState { normal_cancel: true, cancel_enabled: true, attack_air_kind: 2, ..fighter() };
    assert!(check_enabled_aerial(&open));
}

#[test]
fn aerial_needs_its_bucket_enabled_and_unused() {
    let base = FighterState { normal_cancel: true, enabled_aerials: 0b01010, ..fighter() };
    assert!(check_enabled_aerial(&FighterState { attack_air_kind: 2, ..base }));
    assert!(check_enabled_aerial(&FighterState { attack_air_kind: 4, ..base }));
    assert!(!check_enabled_aerial(&FighterState { attack_air_kind: 1, ..base }));
    assert!(!check_enabled_aerial(&FighterState { attack_air_kind: 3, ..base }));
    assert!(!check_enabled_aerial(&FighterState { attack_air_kind: 5, ..base }));
    assert!(!check_enabled_aerial(&FighterState { attack_air_kind: 2, used_aerials: 0b00010, ..base }));
    assert!(check_enabled_aerial(&FighterState { attack_air_kind: 2, used_aerials: 0b01000, ..base }));
}

#[test]
fn unknown_aerial_kind_is_never_enabled_under_the_capability() {
    let base = FighterState { normal_cancel: true, enabled_aerials: 0b11111, ..fighter() };
    assert!(!check_enabled_aerial(&FighterState { attack_air_kind: 0, ..base }));
    assert!(!check_enabled_aerial(&FighterState { attack_air_kind: 6, ..base }));
    assert!(!check_enabled_aerial(&FighterState { attack_air_kind: -1, ..base }));
}

#[test]
fn ranges_include_both_ends() {
    let ranges = vec![StatusRange { first: 10, last: 20 }, StatusRange { first: 30, last: 30 }];
    assert!(status_in_ranges(&ranges, 10));
    assert!(status_in_ranges(&ranges, 20));
    assert!(status_in_ranges(&ranges, 30));
    assert!(!status_in_ranges(&ranges, 9));
    assert!(!status_in_ranges(&ranges, 21));
    assert!(!status_in_ranges(&ranges, 31));
    assert!(!status_in_ranges(&vec![], 10));
    assert!(!status_in_ranges(&vec![StatusRange { first: 5, last: 4 }], 4));
}

#[test]
fn damage_check_goes_by_flags_or_ranges() {
    let none = DamageFlags { damage_stop: false, capture_yoshi: false, ganon_fall_ground: false, ganon_fall_air: false };
    let ranges = vec![StatusRange { first: 70, last: 80 }];
    assert!(!is_damage_check(&none, 0, 0, false, &ranges));
    assert!(is_damage_check(&none, 75, 0, false, &ranges));
    assert!(!is_damage_check(&none, 75, 0, true, &ranges));
    assert!(is_damage_check(&none, 0, 75, true, &ranges));
    assert!(is_damage_check(&DamageFlags { damage_stop: true, ..none }, 0, 0, false, &ranges));
    assert!(is_damage_check(&DamageFlags { capture_yoshi: true, ..none }, 0, 0, false, &ranges));
    assert!(is_damage_check(&DamageFlags { ganon_fall_ground: true, ..none }, 0, 0, false, &ranges));
    assert!(is_damage_check(&DamageFlags { ganon_fall_air: true, ..none }, 0, 0, true, &ranges));
}

#[test]
fn illegal_status_goes_by_capture_or_ranges() {
    let ranges = vec![StatusRange { first: 70, last: 80 }, StatusRange { first: 90, last: 90 }];
    assert!(!is_illegal_status(false, 0, 90, false, &ranges));
    assert!(is_illegal_status(false, 0, 90, true, &ranges));
    assert!(is_illegal_status(false, 80, 0, false, &ranges));
    assert!(is_illegal_status(true, 0, 0, false, &ranges));
    assert!(!is_illegal_status(false, 81, 89, true, &ranges));
}

#[test]
fn appeal_loop_raises_the_loop_flag() {
    let registers = set_appeal_loop(true, 0x0a_1234_5678, 0x07_15fe_6b18, 12, 3);
    assert_eq!(
        registers,
        AppealRegisters {
            held_button: 3,
            restart_frame: 12,
            loop_mot: 0x0a_1234_5678,
            action_mot: 0x07_15fe_6b18,
            mode: AppealMode::Loop,
        }
    );
}

#[test]
fn appeal_hold_raises_the_hold_flag() {
    let registers = set_appeal_loop(false, 1, 2, 0, 0);
    assert_eq!(registers.mode, AppealMode::Hold);
    assert_eq!(registers.loop_mot, 1);
    assert_eq!(registers.action_mot, 2);
}

#[test]
fn appeal_hash_with_the_top_bit_set_keeps_its_bits() {
    let registers = set_appeal_loop(true, u64::MAX, 0x8000_0000_0000_0000, 0, 0);
    assert_eq!(registers.loop_mot, -1);
    assert_eq!(registers.action_mot, i64::MIN);
    assert_eq!(registers.loop_mot as u64, u64::MAX);
}

#[test]
fn read_stick_looks_at_the_flat_band_first() {
    let both = read_stick(false, true, true, false, true, true);
    assert_eq!(both, stick(Sign::Positive, true, false, AngleBand::Flat));
    let steep = read_stick(true, false, false, false, false, true);
    assert_eq!(steep, stick(Sign::Negative, false, false, AngleBand::Steep));
    let neither = read_stick(false, false, true, true, false, false);
    assert_eq!(neither, stick(Sign::Zero, true, true, AngleBand::Diagonal));
}
