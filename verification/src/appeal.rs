//! The registers behind a held or looping taunt.

use vstd::prelude::*;

verus! {

/// How a taunt carries on while its button is held.
#[derive(Clone, Copy, PartialEq, Eq, Structural, Debug)]
pub enum AppealMode {
    /// The motion starts over from the restart frame.
    Loop,
    /// The motion holds its last pose.
    Hold,
}

/// What is to be written to the fighter's taunt registers.
#[derive(Clone, Copy, PartialEq, Eq, Structural, Debug)]
pub struct AppealRegisters {
    /// The buttons that keep the taunt going.
    pub held_button: i32,
    /// The frame that a loop starts over from.
    pub restart_frame: i32,
    /// Hash of the motion to loop, as the 64-bit register holds it.
    pub loop_mot: i64,
    /// Hash of the follow-up motion; set to the hash that names no motion.
    pub action_mot: i64,
    /// Which of the two flags is raised.
    pub mode: AppealMode,
}

/// Works out the registers for a taunt that is held or looped.
///
/// The two motion hashes are unsigned; the registers are signed and take
/// them bit for bit. `invalid_mot` is the hash that names no motion.
pub fn set_appeal_loop(
    is_loop: bool,
    loop_mot: u64,
    invalid_mot: u64,
    restart_frame: i32,
    buttons: i32,
) -> (registers: AppealRegisters)
    ensures
        registers == (AppealRegisters {
            held_button: buttons,
            restart_frame,
            loop_mot: loop_mot as i64,
            action_mot: invalid_mot as i64,
            mode: if is_loop {
                AppealMode::Loop
            } else {
                AppealMode::Hold
            },
        }),
        registers.loop_mot as u64 == loop_mot,
        registers.action_mot as u64 == invalid_mot,
{
    proof {
        lemma_hash_survives(loop_mot);
        lemma_hash_survives(invalid_mot);
    }
    AppealRegisters {
        held_button: buttons,
        restart_frame,
        loop_mot: #[verifier::truncate]
        (loop_mot as i64),
        action_mot: #[verifier::truncate]
        (invalid_mot as i64),
        mode: if is_loop {
            AppealMode::Loop
        } else {
            AppealMode::Hold
        },
    }
}

/// A hash that is stored in a signed register comes back as it went in.
pub proof fn lemma_hash_survives(hash: u64)
    ensures
        (hash as i64) as u64 == hash,
{
    assert((hash as i64) as u64 == hash) by (bit_vector);
}

} // verus!
