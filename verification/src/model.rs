//! The lifecycle protocol as mathematics: what a state is, and what each operation makes of it.

use crate::state::{
    AcceleratorProfile, LifecycleState, NextAction, TransitionOutcome, TransitionPhase,
};
use crate::text::{decimal_text, is_blank};
use vstd::prelude::*;

verus! {

/// A transition's identity: the generation it opened and the coordinator's token.
pub struct IdView {
    pub generation: u64,
    pub token: Seq<char>,
}

/// A transition in progress.
pub struct ActiveView {
    pub id: IdView,
    pub previous_profile: Option<AcceleratorProfile>,
    pub target_profile: AcceleratorProfile,
    pub phase: TransitionPhase,
    pub failure_reason: Option<Seq<char>>,
}

/// What is kept of the last finished transition.
pub struct ResultView {
    pub id: IdView,
    pub previous_profile: Option<AcceleratorProfile>,
    pub target_profile: AcceleratorProfile,
    pub outcome: TransitionOutcome,
    pub failure_reason: Option<Seq<char>>,
}

/// The durable lifecycle state.
pub struct StateView {
    pub schema_version: u32,
    pub generation: u64,
    pub committed_profile: Option<AcceleratorProfile>,
    pub active: Option<ActiveView>,
    pub last_result: Option<ResultView>,
}

/// The reasons for which an operation on the lifecycle state is refused.
#[allow(inconsistent_fields)]
pub enum ErrorView {
    ActiveTransitionExists { active_id: IdView },
    EmptyTransitionToken,
    EmptyFailureReason,
    GenerationExhausted,
    ProfileAlreadyCommitted { target_profile: AcceleratorProfile },
    NoActiveTransition,
    TransitionIdMismatch { expected: IdView, actual: IdView },
    TransitionTokenAlreadyUsed { token: Seq<char>, generation: u64, outcome: TransitionOutcome },
    StaleGeneration { expected: u64, actual: u64 },
    UnexpectedPhase { expected: TransitionPhase, actual: TransitionPhase },
    RestoreAlreadyRequested { phase: TransitionPhase },
}

/// The phases in which the previous profile is being brought back, or nobody can bring it back.
pub open spec fn is_restoring(phase: TransitionPhase) -> bool {
    ||| phase == TransitionPhase::RestorePending
    ||| phase == TransitionPhase::PreviousProfileRebootRequired
    ||| phase == TransitionPhase::PreviousProfileApplied
    ||| phase == TransitionPhase::PreviousDraValidated
    ||| phase == TransitionPhase::Blocked
}

/// The protocol's table: the phases from which an acknowledgement leads to `next`.
pub open spec fn leads_to(from: TransitionPhase, next: TransitionPhase) -> bool {
    match next {
        TransitionPhase::NodeDrained => from == TransitionPhase::IntentPersisted,
        TransitionPhase::AdvertisementWithdrawn => from == TransitionPhase::NodeDrained,
        TransitionPhase::TargetProfileRebootRequired => from
            == TransitionPhase::AdvertisementWithdrawn,
        TransitionPhase::TargetProfileApplied => {
            ||| from == TransitionPhase::AdvertisementWithdrawn
            ||| from == TransitionPhase::TargetProfileRebootRequired
        },
        TransitionPhase::TargetDraValidated => from == TransitionPhase::TargetProfileApplied,
        TransitionPhase::TargetQualified => from == TransitionPhase::TargetDraValidated,
        TransitionPhase::PreviousProfileRebootRequired => from == TransitionPhase::RestorePending,
        TransitionPhase::PreviousProfileApplied => {
            ||| from == TransitionPhase::RestorePending
            ||| from == TransitionPhase::PreviousProfileRebootRequired
        },
        TransitionPhase::PreviousDraValidated => from == TransitionPhase::PreviousProfileApplied,
        _ => false,
    }
}

/// The phase that a refused acknowledgement of `next` names as the expected one.
pub open spec fn usual_predecessor(next: TransitionPhase) -> TransitionPhase {
    match next {
        TransitionPhase::AdvertisementWithdrawn => TransitionPhase::NodeDrained,
        TransitionPhase::TargetProfileRebootRequired => TransitionPhase::AdvertisementWithdrawn,
        TransitionPhase::TargetProfileApplied => TransitionPhase::AdvertisementWithdrawn,
        TransitionPhase::TargetDraValidated => TransitionPhase::TargetProfileApplied,
        TransitionPhase::TargetQualified => TransitionPhase::TargetDraValidated,
        TransitionPhase::PreviousProfileRebootRequired => TransitionPhase::RestorePending,
        TransitionPhase::PreviousProfileApplied => TransitionPhase::RestorePending,
        TransitionPhase::PreviousDraValidated => TransitionPhase::PreviousProfileApplied,
        _ => TransitionPhase::IntentPersisted,
    }
}

/// The operation that a phase waits for.
pub open spec fn action_in(phase: TransitionPhase) -> NextAction {
    match phase {
        TransitionPhase::IntentPersisted => NextAction::CoordinatorDrainNode,
        TransitionPhase::NodeDrained => NextAction::NodeWithdrawAdvertisement,
        TransitionPhase::AdvertisementWithdrawn => NextAction::NodeApplyTargetProfile,
        TransitionPhase::TargetProfileRebootRequired => NextAction::NodeApplyTargetProfile,
        TransitionPhase::TargetProfileApplied => NextAction::NodeValidateTargetDra,
        TransitionPhase::TargetDraValidated => NextAction::CoordinatorRunQualification,
        TransitionPhase::TargetQualified => NextAction::NodeCommitTarget,
        TransitionPhase::RestorePending => NextAction::NodeApplyPreviousProfile,
        TransitionPhase::PreviousProfileRebootRequired => NextAction::NodeApplyPreviousProfile,
        TransitionPhase::PreviousProfileApplied => NextAction::NodeValidatePreviousDra,
        TransitionPhase::PreviousDraValidated => NextAction::NodeCommitRestore,
        TransitionPhase::Blocked => NextAction::ManualIntervention,
    }
}

impl IdView {
    /// The identity in writing: generation, colon, token.
    pub open spec fn text(self) -> Seq<char> {
        decimal_text(self.generation as nat) + ":"@ + self.token
    }
}

impl StateView {
    /// A node without transitions so far.
    pub open spec fn initial(committed_profile: Option<AcceleratorProfile>) -> StateView {
        StateView {
            schema_version: LifecycleState::SCHEMA_VERSION,
            generation: 0,
            committed_profile,
            active: None,
            last_result: None,
        }
    }

    /// What every state reached from an initial one satisfies.
    pub open spec fn consistent(self) -> bool {
        &&& self.schema_version == LifecycleState::SCHEMA_VERSION
        &&& match self.active {
            Some(t) => {
                &&& t.id.generation == self.generation
                &&& self.generation >= 1
                &&& !is_blank(t.id.token)
                &&& t.previous_profile == self.committed_profile
                &&& t.previous_profile != Some(t.target_profile)
                &&& is_restoring(t.phase) == (t.failure_reason is Some)
                &&& t.failure_reason is Some ==> !is_blank(t.failure_reason->0)
                &&& is_restoring(t.phase) ==> (t.phase == TransitionPhase::Blocked) == (
                t.previous_profile is None)
                &&& self.last_result is None ==> self.generation == 1
            },
            None => self.last_result is None ==> self.generation == 0,
        }
        &&& match self.last_result {
            Some(r) => {
                &&& r.id.generation >= 1
                &&& !is_blank(r.id.token)
                &&& r.id.generation + (if self.active is Some { 1int } else { 0int })
                    == self.generation
                &&& r.previous_profile != Some(r.target_profile)
                &&& match r.outcome {
                    TransitionOutcome::TargetCommitted => {
                        &&& self.committed_profile == Some(r.target_profile)
                        &&& r.failure_reason is None
                    },
                    TransitionOutcome::PreviousProfileRestored => {
                        &&& self.committed_profile == r.previous_profile
                        &&& r.previous_profile is Some
                        &&& r.failure_reason is Some
                        &&& !is_blank(r.failure_reason->0)
                    },
                }
            },
            None => true,
        }
    }

    /// The last finished transition is `id`, and it ended with `outcome`.
    pub open spec fn completed_with(self, id: IdView, outcome: TransitionOutcome) -> bool {
        self.last_result matches Some(r) && r.id == id && r.outcome == outcome
    }

    pub open spec fn next_action(self) -> Option<NextAction> {
        match self.active {
            Some(t) => Some(action_in(t.phase)),
            None => None,
        }
    }

    /// The request is the one that opened the active transition.
    pub open spec fn is_active_request(
        self,
        token: Seq<char>,
        target: AcceleratorProfile,
        expected_generation: u64,
    ) -> bool {
        self.active matches Some(t) && t.id.token == token && t.id.generation
            == expected_generation + 1 && t.target_profile == target
    }

    /// The request is the one that opened the last finished transition.
    pub open spec fn is_finished_request(
        self,
        token: Seq<char>,
        target: AcceleratorProfile,
        expected_generation: u64,
    ) -> bool {
        self.last_result matches Some(r) && r.id.token == token && r.id.generation
            == expected_generation + 1 && r.target_profile == target
    }

    /// How a request to begin a transition is answered.
    pub open spec fn begin_outcome(
        self,
        token: Seq<char>,
        target: AcceleratorProfile,
        expected_generation: u64,
    ) -> Result<IdView, ErrorView> {
        if is_blank(token) {
            Err(ErrorView::EmptyTransitionToken)
        } else if expected_generation == u64::MAX {
            Err(ErrorView::GenerationExhausted)
        } else if self.active is Some {
            if self.is_active_request(token, target, expected_generation) {
                Ok(self.active->0.id)
            } else {
                Err(ErrorView::ActiveTransitionExists { active_id: self.active->0.id })
            }
        } else if self.last_result is Some && self.last_result->0.id.token == token {
            if self.is_finished_request(token, target, expected_generation) {
                Ok(self.last_result->0.id)
            } else {
                Err(
                    ErrorView::TransitionTokenAlreadyUsed {
                        token,
                        generation: self.last_result->0.id.generation,
                        outcome: self.last_result->0.outcome,
                    },
                )
            }
        } else if expected_generation != self.generation {
            Err(
                ErrorView::StaleGeneration {
                    expected: self.generation,
                    actual: expected_generation,
                },
            )
        } else if self.committed_profile == Some(target) {
            Err(ErrorView::ProfileAlreadyCommitted { target_profile: target })
        } else {
            Ok(IdView { generation: (expected_generation + 1) as u64, token })
        }
    }

    /// The state once a transition has been opened.
    pub open spec fn opened(self, id: IdView, target: AcceleratorProfile) -> StateView {
        StateView {
            generation: id.generation,
            active: Some(
                ActiveView {
                    id,
                    previous_profile: self.committed_profile,
                    target_profile: target,
                    phase: TransitionPhase::IntentPersisted,
                    failure_reason: None,
                },
            ),
            ..self
        }
    }

    /// The state after a request to begin: a repeated request and a refused one change nothing.
    pub open spec fn begin(
        self,
        token: Seq<char>,
        target: AcceleratorProfile,
        expected_generation: u64,
    ) -> StateView {
        match self.begin_outcome(token, target, expected_generation) {
            Ok(id) if self.active is None && !self.is_finished_request(
                token,
                target,
                expected_generation,
            ) => self.opened(id, target),
            _ => self,
        }
    }

    /// How the acknowledgement that leads to `next` is answered.
    pub open spec fn record_outcome(self, id: IdView, next: TransitionPhase) -> Result<
        (),
        ErrorView,
    > {
        match self.active {
            None => Err(ErrorView::NoActiveTransition),
            Some(t) => if t.id != id {
                Err(ErrorView::TransitionIdMismatch { expected: t.id, actual: id })
            } else if t.phase == next || leads_to(t.phase, next) {
                Ok(())
            } else {
                Err(
                    ErrorView::UnexpectedPhase {
                        expected: usual_predecessor(next),
                        actual: t.phase,
                    },
                )
            },
        }
    }

    /// The active transition put into another phase.
    pub open spec fn in_phase(self, phase: TransitionPhase) -> StateView {
        match self.active {
            Some(t) => StateView { active: Some(ActiveView { phase, ..t }), ..self },
            None => self,
        }
    }

    /// The state after the acknowledgement that leads to `next`.
    pub open spec fn record(self, id: IdView, next: TransitionPhase) -> StateView {
        if self.record_outcome(id, next) is Ok {
            self.in_phase(next)
        } else {
            self
        }
    }

    /// How a commit is answered that ends a transition in `ready` with `outcome`.
    pub open spec fn commit_outcome(
        self,
        id: IdView,
        ready: TransitionPhase,
        outcome: TransitionOutcome,
    ) -> Result<(), ErrorView> {
        match self.active {
            None => if self.completed_with(id, outcome) {
                Ok(())
            } else {
                Err(ErrorView::NoActiveTransition)
            },
            Some(t) => if t.id != id {
                Err(ErrorView::TransitionIdMismatch { expected: t.id, actual: id })
            } else if t.phase != ready {
                Err(ErrorView::UnexpectedPhase { expected: ready, actual: t.phase })
            } else {
                Ok(())
            },
        }
    }

    pub open spec fn commit_target_outcome(self, id: IdView) -> Result<(), ErrorView> {
        self.commit_outcome(id, TransitionPhase::TargetQualified, TransitionOutcome::TargetCommitted)
    }

    /// The state after a request to commit the target profile.
    pub open spec fn commit_target(self, id: IdView) -> StateView {
        match self.active {
            Some(t) if self.commit_target_outcome(id) is Ok => StateView {
                committed_profile: Some(t.target_profile),
                active: None,
                last_result: Some(
                    ResultView {
                        id: t.id,
                        previous_profile: t.previous_profile,
                        target_profile: t.target_profile,
                        outcome: TransitionOutcome::TargetCommitted,
                        failure_reason: None,
                    },
                ),
                ..self
            },
            _ => self,
        }
    }

    pub open spec fn commit_restore_outcome(self, id: IdView) -> Result<(), ErrorView> {
        self.commit_outcome(
            id,
            TransitionPhase::PreviousDraValidated,
            TransitionOutcome::PreviousProfileRestored,
        )
    }

    /// The state after a request to commit the restored profile.
    pub open spec fn commit_restore(self, id: IdView) -> StateView {
        match self.active {
            Some(t) if self.commit_restore_outcome(id) is Ok => StateView {
                committed_profile: t.previous_profile,
                active: None,
                last_result: Some(
                    ResultView {
                        id: t.id,
                        previous_profile: t.previous_profile,
                        target_profile: t.target_profile,
                        outcome: TransitionOutcome::PreviousProfileRestored,
                        failure_reason: t.failure_reason,
                    },
                ),
                ..self
            },
            _ => self,
        }
    }

    /// How a request to restore the previous profile is answered.
    pub open spec fn restore_outcome(self, id: IdView, reason: Seq<char>) -> Result<(), ErrorView> {
        if is_blank(reason) {
            Err(ErrorView::EmptyFailureReason)
        } else {
            match self.active {
                None => if self.completed_with(id, TransitionOutcome::PreviousProfileRestored) {
                    Ok(())
                } else {
                    Err(ErrorView::NoActiveTransition)
                },
                Some(t) => if t.id != id {
                    Err(ErrorView::TransitionIdMismatch { expected: t.id, actual: id })
                } else if is_restoring(t.phase) && t.failure_reason != Some(reason) {
                    Err(ErrorView::RestoreAlreadyRequested { phase: t.phase })
                } else {
                    Ok(())
                },
            }
        }
    }

    /// The state after a request to restore the previous profile: without one to go back to, the
    /// transition is blocked.
    pub open spec fn request_restore(self, id: IdView, reason: Seq<char>) -> StateView {
        match self.active {
            Some(t) if self.restore_outcome(id, reason) is Ok && !is_restoring(t.phase) => StateView {
                active: Some(
                    ActiveView {
                        failure_reason: Some(reason),
                        phase: if t.previous_profile is Some {
                            TransitionPhase::RestorePending
                        } else {
                            TransitionPhase::Blocked
                        },
                        ..t
                    },
                ),
                ..self
            },
            _ => self,
        }
    }
}

/// The name of a profile, as error messages spell it.
pub open spec fn profile_label(profile: AcceleratorProfile) -> Seq<char> {
    match profile {
        AcceleratorProfile::SharedInference => "SharedInference"@,
        AcceleratorProfile::DistributedTraining => "DistributedTraining"@,
    }
}

/// The name of a phase, as error messages spell it.
pub open spec fn phase_label(phase: TransitionPhase) -> Seq<char> {
    match phase {
        TransitionPhase::IntentPersisted => "IntentPersisted"@,
        TransitionPhase::NodeDrained => "NodeDrained"@,
        TransitionPhase::AdvertisementWithdrawn => "AdvertisementWithdrawn"@,
        TransitionPhase::TargetProfileRebootRequired => "TargetProfileRebootRequired"@,
        TransitionPhase::TargetProfileApplied => "TargetProfileApplied"@,
        TransitionPhase::TargetDraValidated => "TargetDraValidated"@,
        TransitionPhase::TargetQualified => "TargetQualified"@,
        TransitionPhase::RestorePending => "RestorePending"@,
        TransitionPhase::PreviousProfileRebootRequired => "PreviousProfileRebootRequired"@,
        TransitionPhase::PreviousProfileApplied => "PreviousProfileApplied"@,
        TransitionPhase::PreviousDraValidated => "PreviousDraValidated"@,
        TransitionPhase::Blocked => "Blocked"@,
    }
}

/// The name of an outcome, as error messages spell it.
pub open spec fn outcome_label(outcome: TransitionOutcome) -> Seq<char> {
    match outcome {
        TransitionOutcome::TargetCommitted => "TargetCommitted"@,
        TransitionOutcome::PreviousProfileRestored => "PreviousProfileRestored"@,
    }
}

impl ErrorView {
    /// The message that a refusal is reported with.
    pub open spec fn message(self) -> Seq<char> {
        match self {
            ErrorView::ActiveTransitionExists { active_id } => {
                "accelerator profile transition '"@ + active_id.text() + "' is already active"@
            },
            ErrorView::EmptyTransitionToken => "transition token must not be empty"@,
            ErrorView::EmptyFailureReason => "failure reason must not be empty"@,
            ErrorView::GenerationExhausted => {
                "transition generation cannot advance beyond u64::MAX"@
            },
            ErrorView::ProfileAlreadyCommitted { target_profile } => {
                "accelerator profile '"@ + profile_label(target_profile) + "' is already committed"@
            },
            ErrorView::NoActiveTransition => "no accelerator profile transition is active"@,
            ErrorView::TransitionIdMismatch { expected, actual } => {
                "transition ID '"@ + actual.text() + "' does not match active transition '"@
                    + expected.text() + "'"@
            },
            ErrorView::TransitionTokenAlreadyUsed { token, generation, outcome } => {
                "transition token '"@ + token + "' was already used by generation "@
                    + decimal_text(generation as nat) + " with outcome '"@ + outcome_label(outcome)
                    + "'"@
            },
            ErrorView::StaleGeneration { expected, actual } => {
                "stale lifecycle generation "@ + decimal_text(actual as nat)
                    + "; current generation is "@ + decimal_text(expected as nat)
            },
            ErrorView::UnexpectedPhase { expected, actual } => {
                "expected transition phase '"@ + phase_label(expected) + "', found '"@
                    + phase_label(actual) + "'"@
            },
            ErrorView::RestoreAlreadyRequested { phase } => {
                "restore was already requested in phase '"@ + phase_label(phase) + "'"@
            },
        }
    }
}

} // verus!
