//! The cancel dispatcher: one decision per frame, in a fixed order.
//!
//! The branches are tried in the order jump, special, aerial, normal, and
//! the first that succeeds ends the frame. Whether a branch succeeds is for
//! the engine to say, since its helpers read the input and change the
//! status. So the dispatcher is a step function: the caller tells it what
//! has been tried and how that went, and it names the branch to try next.

use vstd::prelude::*;
use crate::fighter::{EngineIds, FighterState};
use crate::window::cancel_window;

verus! {

/// What a move can be canceled into.
pub struct CancelConfig {
    /// Statuses of ground attacks, in the order they are to be tried.
    pub normal_cancels: Vec<i32>,
    /// Statuses of special moves, in the order they are to be tried.
    pub special_cancels: Vec<i32>,
    /// The move can be canceled into an aerial.
    pub aerial_cancel: bool,
    /// 0: no jump cancel; 2: on hit or block; anything else: on hit only.
    pub jump_cancel: i32,
}

/// A branch of the dispatcher.
#[derive(Clone, Copy, PartialEq, Eq, Structural, Debug)]
pub enum Branch {
    Jump,
    Special,
    Aerial,
    Normal,
}

/// How far the dispatch of this frame has come.
#[derive(Clone, Copy, PartialEq, Eq, Structural, Debug)]
pub enum Progress {
    /// Nothing has been tried yet.
    Start,
    /// `branch` was tried, and the engine said whether it took.
    Tried { branch: Branch, succeeded: bool },
}

/// What the caller is to do next.
#[derive(Clone, Copy, PartialEq, Eq, Structural, Debug)]
pub enum Step {
    /// The frame is decided; nothing more is tried.
    Finished,
    /// Try `branch`, with the situation as the snapshot has it.
    Try { branch: Branch, situation: i32 },
}

/// What the engine would say to each branch if it were tried.
#[derive(Clone, Copy, PartialEq, Eq, Structural, Debug)]
pub struct Answers {
    pub jump: bool,
    pub special: bool,
    pub aerial: bool,
    pub normal: bool,
}

impl Answers {
    /// The answer to `branch`.
    pub open spec fn to(&self, branch: Branch) -> bool {
        match branch {
            Branch::Jump => self.jump,
            Branch::Special => self.special,
            Branch::Aerial => self.aerial,
            Branch::Normal => self.normal,
        }
    }
}

/// Place of a branch in the order of priority; lower goes first.
pub open spec fn rank(branch: Branch) -> int {
    match branch {
        Branch::Jump => 0,
        Branch::Special => 1,
        Branch::Aerial => 2,
        Branch::Normal => 3,
    }
}

impl FighterState {
    /// Whether `branch` is configured and fits the snapshot.
    ///
    /// The jump branch asks for its own window, which a shielded attack
    /// opens only if the configuration says so. The aerial branch is for a
    /// fighter in the air, the normal branch for one on the ground. A branch
    /// with nothing to cancel into is switched off.
    pub open spec fn branch_ready(
        &self,
        ids: &EngineIds,
        config: &CancelConfig,
        branch: Branch,
    ) -> bool {
        match branch {
            Branch::Jump => config.jump_cancel != 0 && self.window_open(config.jump_cancel == 2),
            Branch::Special => config.special_cancels@.len() > 0,
            Branch::Aerial => config.aerial_cancel && self.situation == ids.situation_air,
            Branch::Normal => config.normal_cancels@.len() > 0 && self.situation
                == ids.situation_ground,
        }
    }

    /// The first ready branch whose rank is `from` or more.
    pub open spec fn first_ready(&self, ids: &EngineIds, config: &CancelConfig, from: int) -> Step {
        if from <= 0 && self.branch_ready(ids, config, Branch::Jump) {
            Step::Try { branch: Branch::Jump, situation: self.situation }
        } else if from <= 1 && self.branch_ready(ids, config, Branch::Special) {
            Step::Try { branch: Branch::Special, situation: self.situation }
        } else if from <= 2 && self.branch_ready(ids, config, Branch::Aerial) {
            Step::Try { branch: Branch::Aerial, situation: self.situation }
        } else if from <= 3 && self.branch_ready(ids, config, Branch::Normal) {
            Step::Try { branch: Branch::Normal, situation: self.situation }
        } else {
            Step::Finished
        }
    }

    /// The step that follows `progress`.
    ///
    /// At the start the window decides whether anything is tried at all; a
    /// shielded attack opens it like a landed one. A branch that took ends
    /// the frame. After one that did not, the next ready branch of lower
    /// priority is tried.
    pub open spec fn next_step(
        &self,
        ids: &EngineIds,
        config: &CancelConfig,
        progress: Progress,
    ) -> Step {
        match progress {
            Progress::Start => if self.window_open(true) {
                self.first_ready(ids, config, 0)
            } else {
                Step::Finished
            },
            Progress::Tried { branch, succeeded } => if succeeded {
                Step::Finished
            } else {
                self.first_ready(ids, config, rank(branch) + 1)
            },
        }
    }
}

impl FighterState {
    /// The branch that a whole frame ends on when the steps are carried out
    /// one after the other from `progress` on, the snapshot stands still and
    /// the engine answers as `answers` says; `None` if no branch takes.
    /// `tries` bounds the number of branches tried.
    pub open spec fn frame_from(
        &self,
        ids: &EngineIds,
        config: &CancelConfig,
        answers: Answers,
        progress: Progress,
        tries: nat,
    ) -> Option<Branch>
        decreases tries,
    {
        match self.next_step(ids, config, progress) {
            Step::Finished => None,
            Step::Try { branch, .. } => if answers.to(branch) {
                Some(branch)
            } else if tries == 0 {
                None
            } else {
                self.frame_from(
                    ids,
                    config,
                    answers,
                    Progress::Tried { branch, succeeded: false },
                    (tries - 1) as nat,
                )
            },
        }
    }

    /// The branch of highest priority that is ready and that the engine lets
    /// through, if the window is open and there is one.
    pub open spec fn selected(
        &self,
        ids: &EngineIds,
        config: &CancelConfig,
        answers: Answers,
    ) -> Option<Branch> {
        if !self.window_open(true) {
            None
        } else if self.branch_ready(ids, config, Branch::Jump) && answers.jump {
            Some(Branch::Jump)
        } else if self.branch_ready(ids, config, Branch::Special) && answers.special {
            Some(Branch::Special)
        } else if self.branch_ready(ids, config, Branch::Aerial) && answers.aerial {
            Some(Branch::Aerial)
        } else if self.branch_ready(ids, config, Branch::Normal) && answers.normal {
            Some(Branch::Normal)
        } else {
            None
        }
    }
}

/// The generic cancel system, one step at a time.
///
/// Call it with `Progress::Start`, carry out the step it returns, and call
/// it again with what came of that and a fresh snapshot, until it returns
/// `Step::Finished`.
pub fn cancel_system(
    state: &FighterState,
    ids: &EngineIds,
    config: &CancelConfig,
    progress: Progress,
) -> (step: Step)
    ensures
        step == state.next_step(ids, config, progress),
{
    let from: u8 = match progress {
        Progress::Start => {
            if !cancel_window(state, true) {
                return Step::Finished;
            }
            0
        },
        Progress::Tried { branch, succeeded } => {
            if succeeded {
                return Step::Finished;
            }
            match branch {
                Branch::Jump => 1,
                Branch::Special => 2,
                Branch::Aerial => 3,
                Branch::Normal => 4,
            }
        },
    };
    let sit: i32 = state.situation;
    if from <= 0 && config.jump_cancel != 0 && cancel_window(state, config.jump_cancel == 2) {
        return Step::Try { branch: Branch::Jump, situation: sit };
    }
    if from <= 1 && config.special_cancels.len() > 0 {
        return Step::Try { branch: Branch::Special, situation: sit };
    }
    if from <= 2 && config.aerial_cancel && sit == ids.situation_air {
        return Step::Try { branch: Branch::Aerial, situation: sit };
    }
    if from <= 3 && config.normal_cancels.len() > 0 && sit == ids.situation_ground {
        return Step::Try { branch: Branch::Normal, situation: sit };
    }
    Step::Finished
}

/// With the window shut no branch is tried, whatever is configured.
pub proof fn lemma_shut_window_tries_nothing(
    state: FighterState,
    ids: EngineIds,
    config: CancelConfig,
)
    requires
        !state.window_open(true),
    ensures
        state.next_step(&ids, &config, Progress::Start) == Step::Finished,
{
}

/// The first branch that takes ends the frame: nothing is tried after it,
/// so no branch of lower priority gets to act.
pub proof fn lemma_success_ends_frame(
    state: FighterState,
    ids: EngineIds,
    config: CancelConfig,
    branch: Branch,
)
    ensures
        state.next_step(&ids, &config, Progress::Tried { branch, succeeded: true })
            == Step::Finished,
{
}

/// Jump goes before special: where both are configured and the window is
/// open to both, the jump is what is tried first.
pub proof fn lemma_jump_before_special(state: FighterState, ids: EngineIds, config: CancelConfig)
    requires
        state.window_open(true),
        state.branch_ready(&ids, &config, Branch::Jump),
    ensures
        state.next_step(&ids, &config, Progress::Start) == (Step::Try {
            branch: Branch::Jump,
            situation: state.situation,
        }),
{
}

/// The order of priority is fixed. A branch is only tried if it is ready;
/// every ready branch between the one tried before and the one tried next
/// would have been tried instead, so none is skipped; and the next branch
/// always ranks after the one before, so none is tried twice and a frame
/// takes four tries at most.
pub proof fn lemma_priority_order(
    state: FighterState,
    ids: EngineIds,
    config: CancelConfig,
    progress: Progress,
    other: Branch,
)
    requires
        state.next_step(&ids, &config, progress) is Try,
    ensures
        state.branch_ready(&ids, &config, state.next_step(&ids, &config, progress)->branch),
        state.next_step(&ids, &config, progress)->situation == state.situation,
        progress matches Progress::Tried { branch, .. } ==> rank(branch) < rank(
            state.next_step(&ids, &config, progress)->branch,
        ),
        progress is Start ==> state.window_open(true),
        (rank(other) < rank(state.next_step(&ids, &config, progress)->branch) && (
        progress matches Progress::Tried { branch, .. } ==> rank(branch) < rank(other)))
            ==> !state.branch_ready(&ids, &config, other),
{
}

/// When the dispatcher finishes after a branch did not take, no branch of
/// lower priority was ready.
pub proof fn lemma_finished_means_none_ready(
    state: FighterState,
    ids: EngineIds,
    config: CancelConfig,
    branch: Branch,
    other: Branch,
)
    requires
        state.next_step(&ids, &config, Progress::Tried { branch, succeeded: false })
            == Step::Finished,
        rank(branch) < rank(other),
    ensures
        !state.branch_ready(&ids, &config, other),
{
}

/// Carried out step by step on a snapshot that stands still, the
/// dispatcher ends on the first branch, in the order jump, special, aerial,
/// normal, that is ready and that the engine lets through. Four tries are
/// always enough.
pub proof fn lemma_frame_selects_by_priority(
    state: FighterState,
    ids: EngineIds,
    config: CancelConfig,
    answers: Answers,
)
    ensures
        state.frame_from(&ids, &config, answers, Progress::Start, 3) == state.selected(
            &ids,
            &config,
            answers,
        ),
{
    reveal_with_fuel(FighterState::frame_from, 5);
}

} // verus!
