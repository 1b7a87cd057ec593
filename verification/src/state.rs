//! The durable transaction state of one accelerator node.

use crate::model::{
    outcome_label, phase_label, profile_label, ActiveView, ErrorView, IdView, ResultView, StateView,
};
use crate::text::{blank, decimal, is_blank, same_text};
use vstd::prelude::*;
use vstd::string::*;

verus! {

/// A complete accelerator configuration qualified for one workload class.
#[derive(Clone, Copy, Debug, Eq, PartialEq, Structural)]
pub enum AcceleratorProfile {
    /// MIG-partitioned GPUs allocated through Kubernetes DRA.
    SharedInference,
    /// Full GPUs allocated through Kubernetes DRA after NCCL/EFA qualification.
    DistributedTraining,
}

impl AcceleratorProfile {
    /// The profile's name, as error messages spell it.
    pub fn label(self) -> (label: &'static str)
        ensures
            label@ == profile_label(self),
    {
        match self {
            AcceleratorProfile::SharedInference => "SharedInference",
            AcceleratorProfile::DistributedTraining => "DistributedTraining",
        }
    }
}

/// The persisted step reached by an active profile transition.
#[derive(Clone, Copy, Debug, Eq, PartialEq, Structural)]
pub enum TransitionPhase {
    IntentPersisted,
    NodeDrained,
    AdvertisementWithdrawn,
    TargetProfileRebootRequired,
    TargetProfileApplied,
    TargetDraValidated,
    TargetQualified,
    RestorePending,
    PreviousProfileRebootRequired,
    PreviousProfileApplied,
    PreviousDraValidated,
    Blocked,
}

impl TransitionPhase {
    /// The phase's name, as error messages spell it.
    pub fn label(self) -> (label: &'static str)
        ensures
            label@ == phase_label(self),
    {
        match self {
            TransitionPhase::IntentPersisted => "IntentPersisted",
            TransitionPhase::NodeDrained => "NodeDrained",
            TransitionPhase::AdvertisementWithdrawn => "AdvertisementWithdrawn",
            TransitionPhase::TargetProfileRebootRequired => "TargetProfileRebootRequired",
            TransitionPhase::TargetProfileApplied => "TargetProfileApplied",
            TransitionPhase::TargetDraValidated => "TargetDraValidated",
            TransitionPhase::TargetQualified => "TargetQualified",
            TransitionPhase::RestorePending => "RestorePending",
            TransitionPhase::PreviousProfileRebootRequired => "PreviousProfileRebootRequired",
            TransitionPhase::PreviousProfileApplied => "PreviousProfileApplied",
            TransitionPhase::PreviousDraValidated => "PreviousDraValidated",
            TransitionPhase::Blocked => "Blocked",
        }
    }
}

/// The next operation owned by either the node service or cluster coordinator.
#[derive(Clone, Copy, Debug, Eq, PartialEq, Structural)]
pub enum NextAction {
    CoordinatorDrainNode,
    NodeWithdrawAdvertisement,
    NodeApplyTargetProfile,
    NodeValidateTargetDra,
    CoordinatorRunQualification,
    NodeCommitTarget,
    NodeApplyPreviousProfile,
    NodeValidatePreviousDra,
    NodeCommitRestore,
    ManualIntervention,
}

/// Final disposition of a completed transition.
#[derive(Clone, Copy, Debug, Eq, PartialEq, Structural)]
pub enum TransitionOutcome {
    TargetCommitted,
    PreviousProfileRestored,
}

impl TransitionOutcome {
    /// The outcome's name, as error messages spell it.
    pub fn label(self) -> (label: &'static str)
        ensures
            label@ == outcome_label(self),
    {
        match self {
            TransitionOutcome::TargetCommitted => "TargetCommitted",
            TransitionOutcome::PreviousProfileRestored => "PreviousProfileRestored",
        }
    }
}

/// Identifies one transition and prevents stale requests from replaying across generations.
#[derive(Debug, Eq, Hash, PartialEq)]
pub struct TransitionId {
    generation: u64,
    token: String,
}

impl View for TransitionId {
    type V = IdView;

    closed spec fn view(&self) -> IdView {
        IdView { generation: self.generation, token: self.token@ }
    }
}

impl Clone for TransitionId {
    fn clone(&self) -> (copy: Self)
        ensures
            copy@ == self@,
    {
        TransitionId { generation: self.generation, token: self.token.clone() }
    }
}

impl TransitionId {
    /// Names a transition.
    pub fn new(generation: u64, token: String) -> (id: Self)
        ensures
            id@ == (IdView { generation, token: token@ }),
    {
        TransitionId { generation, token }
    }

    pub fn generation(&self) -> (generation: u64)
        ensures
            generation == self@.generation,
    {
        self.generation
    }

    pub fn token(&self) -> (token: &str)
        ensures
            token@ == self@.token,
    {
        self.token.as_str()
    }

    /// The identity in writing: generation, colon, token.
    pub fn text(&self) -> (text: String)
        ensures
            text@ == self@.text(),
    {
        decimal(self.generation).concat(":").concat(self.token.as_str())
    }

    /// Tells whether two identities are the same.
    pub fn same(&self, other: &TransitionId) -> (same: bool)
        ensures
            same == (self@ == other@),
    {
        self.generation == other.generation && same_text(self.token.as_str(), other.token.as_str())
    }
}

/// What a failure reason holds, if there is one.
pub open spec fn reason_view(reason: Option<String>) -> Option<Seq<char>> {
    match reason {
        Some(text) => Some(text@),
        None => None,
    }
}

/// What a borrowed text holds, if there is one.
pub open spec fn text_view(text: Option<&str>) -> Option<Seq<char>> {
    match text {
        Some(text) => Some(text@),
        None => None,
    }
}

/// A transition in progress.
#[derive(Debug, Eq, PartialEq)]
pub struct ActiveTransition {
    id: TransitionId,
    previous_profile: Option<AcceleratorProfile>,
    target_profile: AcceleratorProfile,
    phase: TransitionPhase,
    failure_reason: Option<String>,
}

impl View for ActiveTransition {
    type V = ActiveView;

    closed spec fn view(&self) -> ActiveView {
        ActiveView {
            id: self.id@,
            previous_profile: self.previous_profile,
            target_profile: self.target_profile,
            phase: self.phase,
            failure_reason: reason_view(self.failure_reason),
        }
    }
}

impl Clone for ActiveTransition {
    fn clone(&self) -> (copy: Self)
        ensures
            copy@ == self@,
    {
        ActiveTransition {
            id: self.id.clone(),
            previous_profile: self.previous_profile,
            target_profile: self.target_profile,
            phase: self.phase,
            failure_reason: self.failure_reason.clone(),
        }
    }
}

impl ActiveTransition {
    /// A transition as a state file describes it.
    pub fn new(
        id: TransitionId,
        previous_profile: Option<AcceleratorProfile>,
        target_profile: AcceleratorProfile,
        phase: TransitionPhase,
        failure_reason: Option<String>,
    ) -> (transition: Self)
        ensures
            transition@ == (ActiveView {
                id: id@,
                previous_profile,
                target_profile,
                phase,
                failure_reason: reason_view(failure_reason),
            }),
    {
        ActiveTransition { id, previous_profile, target_profile, phase, failure_reason }
    }
}

/// The result retained after an active transition is committed or restored.
#[derive(Debug, Eq, PartialEq)]
pub struct TransitionResult {
    id: TransitionId,
    previous_profile: Option<AcceleratorProfile>,
    target_profile: AcceleratorProfile,
    outcome: TransitionOutcome,
    failure_reason: Option<String>,
}

impl View for TransitionResult {
    type V = ResultView;

    closed spec fn view(&self) -> ResultView {
        ResultView {
            id: self.id@,
            previous_profile: self.previous_profile,
            target_profile: self.target_profile,
            outcome: self.outcome,
            failure_reason: reason_view(self.failure_reason),
        }
    }
}

impl Clone for TransitionResult {
    fn clone(&self) -> (copy: Self)
        ensures
            copy@ == self@,
    {
        TransitionResult {
            id: self.id.clone(),
            previous_profile: self.previous_profile,
            target_profile: self.target_profile,
            outcome: self.outcome,
            failure_reason: self.failure_reason.clone(),
        }
    }
}

impl TransitionResult {
    /// A result as a state file describes it.
    pub fn new(
        id: TransitionId,
        previous_profile: Option<AcceleratorProfile>,
        target_profile: AcceleratorProfile,
        outcome: TransitionOutcome,
        failure_reason: Option<String>,
    ) -> (result: Self)
        ensures
            result@ == (ResultView {
                id: id@,
                previous_profile,
                target_profile,
                outcome,
                failure_reason: reason_view(failure_reason),
            }),
    {
        TransitionResult { id, previous_profile, target_profile, outcome, failure_reason }
    }

    pub fn id(&self) -> (id: &TransitionId)
        ensures
            id@ == self@.id,
    {
        &self.id
    }

    pub fn previous_profile(&self) -> (profile: Option<AcceleratorProfile>)
        ensures
            profile == self@.previous_profile,
    {
        self.previous_profile
    }

    pub fn target_profile(&self) -> (profile: AcceleratorProfile)
        ensures
            profile == self@.target_profile,
    {
        self.target_profile
    }

    pub fn outcome(&self) -> (outcome: TransitionOutcome)
        ensures
            outcome == self@.outcome,
    {
        self.outcome
    }

    pub fn failure_reason(&self) -> (reason: Option<&str>)
        ensures
            text_view(reason) == self@.failure_reason,
    {
        match &self.failure_reason {
            Some(reason) => Some(reason.as_str()),
            None => None,
        }
    }
}

/// Durable state owned by the accelerator node lifecycle service.
#[derive(Debug, Eq, PartialEq)]
pub struct LifecycleState {
    schema_version: u32,
    generation: u64,
    committed_profile: Option<AcceleratorProfile>,
    active_transition: Option<ActiveTransition>,
    last_result: Option<TransitionResult>,
}

impl View for LifecycleState {
    type V = StateView;

    closed spec fn view(&self) -> StateView {
        StateView {
            schema_version: self.schema_version,
            generation: self.generation,
            committed_profile: self.committed_profile,
            active: match self.active_transition {
                Some(transition) => Some(transition@),
                None => None,
            },
            last_result: match self.last_result {
                Some(result) => Some(result@),
                None => None,
            },
        }
    }
}

impl Clone for LifecycleState {
    fn clone(&self) -> (copy: Self)
        ensures
            copy@ == self@,
    {
        LifecycleState {
            schema_version: self.schema_version,
            generation: self.generation,
            committed_profile: self.committed_profile,
            active_transition: match &self.active_transition {
                Some(transition) => Some(transition.clone()),
                None => None,
            },
            last_result: match &self.last_result {
                Some(result) => Some(result.clone()),
                None => None,
            },
        }
    }
}

impl Default for LifecycleState {
    fn default() -> (state: Self)
        ensures
            state@ == StateView::initial(None),
    {
        Self::new(None)
    }
}

impl LifecycleState {
    pub const SCHEMA_VERSION: u32 = 1;

    pub fn new(committed_profile: Option<AcceleratorProfile>) -> (state: Self)
        ensures
            state@ == StateView::initial(committed_profile),
    {
        LifecycleState {
            schema_version: Self::SCHEMA_VERSION,
            generation: 0,
            committed_profile,
            active_transition: None,
            last_result: None,
        }
    }

    /// A state as a state file describes it. Whatever the file says is taken as it is: only states
    /// that come from `new` and the operations are known to be consistent.
    pub fn from_parts(
        schema_version: u32,
        generation: u64,
        committed_profile: Option<AcceleratorProfile>,
        active_transition: Option<ActiveTransition>,
        last_result: Option<TransitionResult>,
    ) -> (state: Self)
        ensures
            state@ == (StateView {
                schema_version,
                generation,
                committed_profile,
                active: match active_transition {
                    Some(transition) => Some(transition@),
                    None => None,
                },
                last_result: match last_result {
                    Some(result) => Some(result@),
                    None => None,
                },
            }),
    {
        LifecycleState {
            schema_version,
            generation,
            committed_profile,
            active_transition,
            last_result,
        }
    }

    pub fn schema_version(&self) -> (version: u32)
        ensures
            version == self@.schema_version,
    {
        self.schema_version
    }

    pub fn generation(&self) -> (generation: u64)
        ensures
            generation == self@.generation,
    {
        self.generation
    }

    pub fn committed_profile(&self) -> (profile: Option<AcceleratorProfile>)
        ensures
            profile == self@.committed_profile,
    {
        self.committed_profile
    }

    pub fn active_transition_id(&self) -> (id: Option<&TransitionId>)
        ensures
            match id {
                Some(id) => self@.active is Some && id@ == self@.active->0.id,
                None => self@.active is None,
            },
    {
        match &self.active_transition {
            Some(transition) => Some(&transition.id),
            None => None,
        }
    }

    pub fn target_profile(&self) -> (profile: Option<AcceleratorProfile>)
        ensures
            profile == match self@.active {
                Some(t) => Some(t.target_profile),
                None => None,
            },
    {
        match &self.active_transition {
            Some(transition) => Some(transition.target_profile),
            None => None,
        }
    }

    pub fn previous_profile(&self) -> (profile: Option<AcceleratorProfile>)
        ensures
            profile == match self@.active {
                Some(t) => t.previous_profile,
                None => None,
            },
    {
        match &self.active_transition {
            Some(transition) => transition.previous_profile,
            None => None,
        }
    }

    pub fn phase(&self) -> (phase: Option<TransitionPhase>)
        ensures
            phase == match self@.active {
                Some(t) => Some(t.phase),
                None => None,
            },
    {
        match &self.active_transition {
            Some(transition) => Some(transition.phase),
            None => None,
        }
    }

    pub fn failure_reason(&self) -> (reason: Option<&str>)
        ensures
            text_view(reason) == match self@.active {
                Some(t) => t.failure_reason,
                None => None,
            },
    {
        match &self.active_transition {
            Some(transition) => match &transition.failure_reason {
                Some(reason) => Some(reason.as_str()),
                None => None,
            },
            None => None,
        }
    }

    pub fn last_result(&self) -> (result: Option<&TransitionResult>)
        ensures
            match result {
                Some(result) => self@.last_result == Some(result@),
                None => self@.last_result is None,
            },
    {
        match &self.last_result {
            Some(result) => Some(result),
            None => None,
        }
    }

    /// Starts a transition only if the caller observed the current generation.
    ///
    /// Retrying the same token, target, and observed generation returns the original ID. Once a
    /// newer generation exists, the old request is rejected instead of replayed.
    pub fn begin(
        &mut self,
        token: &str,
        target_profile: AcceleratorProfile,
        expected_generation: u64,
    ) -> (result: Result<TransitionId, LifecycleError>)
        ensures
            id_answer(result) == old(self)@.begin_outcome(
                token@,
                target_profile,
                expected_generation,
            ),
            final(self)@ == old(self)@.begin(token@, target_profile, expected_generation),
    {
        validate_transition_token(token)?;
        if expected_generation == u64::MAX {
            return Err(LifecycleError::GenerationExhausted);
        }
        let requested_generation: u64 = expected_generation + 1;

        if let Some(transition) = &self.active_transition {
            if same_text(transition.id.token(), token) && transition.id.generation
                == requested_generation && transition.target_profile == target_profile {
                return Ok(transition.id.clone());
            }
            return Err(
                LifecycleError::ActiveTransitionExists { active_id: transition.id.clone() },
            );
        }
        if let Some(result) = &self.last_result {
            if same_text(result.id.token(), token) {
                if result.id.generation == requested_generation && result.target_profile
                    == target_profile {
                    return Ok(result.id.clone());
                }
                return Err(
                    LifecycleError::TransitionTokenAlreadyUsed {
                        token: token.to_string(),
                        generation: result.id.generation,
                        outcome: result.outcome,
                    },
                );
            }
        }
        if expected_generation != self.generation {
            return Err(
                LifecycleError::StaleGeneration {
                    expected: self.generation,
                    actual: expected_generation,
                },
            );
        }
        if let Some(committed) = self.committed_profile {
            if committed == target_profile {
                return Err(LifecycleError::ProfileAlreadyCommitted { target_profile });
            }
        }
        let id = TransitionId { generation: requested_generation, token: token.to_string() };
        self.generation = requested_generation;
        self.active_transition =
        Some(
            ActiveTransition {
                id: id.clone(),
                previous_profile: self.committed_profile,
                target_profile,
                phase: TransitionPhase::IntentPersisted,
                failure_reason: None,
            },
        );
        Ok(id)
    }

    /// Records that the coordinator has drained the node.
    pub fn record_node_drained(&mut self, id: &TransitionId) -> (result: Result<
        (),
        LifecycleError,
    >)
        ensures
            answer(result) == old(self)@.record_outcome(id@, TransitionPhase::NodeDrained),
            final(self)@ == old(self)@.record(id@, TransitionPhase::NodeDrained),
    {
        self.advance(id, TransitionPhase::IntentPersisted, TransitionPhase::NodeDrained)
    }

    /// Records that the node no longer advertises accelerators.
    pub fn record_advertisement_withdrawn(&mut self, id: &TransitionId) -> (result: Result<
        (),
        LifecycleError,
    >)
        ensures
            answer(result) == old(self)@.record_outcome(
                id@,
                TransitionPhase::AdvertisementWithdrawn,
            ),
            final(self)@ == old(self)@.record(id@, TransitionPhase::AdvertisementWithdrawn),
    {
        self.advance(id, TransitionPhase::NodeDrained, TransitionPhase::AdvertisementWithdrawn)
    }

    /// Records that the target profile takes effect only after a reboot.
    pub fn record_target_profile_reboot_required(&mut self, id: &TransitionId) -> (result: Result<
        (),
        LifecycleError,
    >)
        ensures
            answer(result) == old(self)@.record_outcome(
                id@,
                TransitionPhase::TargetProfileRebootRequired,
            ),
            final(self)@ == old(self)@.record(id@, TransitionPhase::TargetProfileRebootRequired),
    {
        self.advance(
            id,
            TransitionPhase::AdvertisementWithdrawn,
            TransitionPhase::TargetProfileRebootRequired,
        )
    }

    /// Records that the target profile has been applied, with or without a reboot.
    pub fn record_target_profile_applied(&mut self, id: &TransitionId) -> (result: Result<
        (),
        LifecycleError,
    >)
        ensures
            answer(result) == old(self)@.record_outcome(id@, TransitionPhase::TargetProfileApplied),
            final(self)@ == old(self)@.record(id@, TransitionPhase::TargetProfileApplied),
    {
        let expected = [
            TransitionPhase::AdvertisementWithdrawn,
            TransitionPhase::TargetProfileRebootRequired,
        ];
        assert(expected@ =~= seq![
            TransitionPhase::AdvertisementWithdrawn,
            TransitionPhase::TargetProfileRebootRequired,
        ]);
        assert(forall|phase: TransitionPhase|
            expected@.contains(phase) <==> phase == expected@[0] || phase == expected@[1]);
        self.advance_from(id, &expected, TransitionPhase::TargetProfileApplied)
    }

    /// Records that the target profile's DRA provider has been validated.
    pub fn record_target_dra_validated(&mut self, id: &TransitionId) -> (result: Result<
        (),
        LifecycleError,
    >)
        ensures
            answer(result) == old(self)@.record_outcome(id@, TransitionPhase::TargetDraValidated),
            final(self)@ == old(self)@.record(id@, TransitionPhase::TargetDraValidated),
    {
        self.advance(id, TransitionPhase::TargetProfileApplied, TransitionPhase::TargetDraValidated)
    }

    /// Records that the coordinator has qualified the target profile.
    pub fn record_target_qualified(&mut self, id: &TransitionId) -> (result: Result<
        (),
        LifecycleError,
    >)
        ensures
            answer(result) == old(self)@.record_outcome(id@, TransitionPhase::TargetQualified),
            final(self)@ == old(self)@.record(id@, TransitionPhase::TargetQualified),
    {
        self.advance(id, TransitionPhase::TargetDraValidated, TransitionPhase::TargetQualified)
    }

    /// Records that the previous profile takes effect only after a reboot.
    pub fn record_previous_profile_reboot_required(&mut self, id: &TransitionId) -> (result: Result<
        (),
        LifecycleError,
    >)
        ensures
            answer(result) == old(self)@.record_outcome(
                id@,
                TransitionPhase::PreviousProfileRebootRequired,
            ),
            final(self)@ == old(self)@.record(id@, TransitionPhase::PreviousProfileRebootRequired),
    {
        self.advance(
            id,
            TransitionPhase::RestorePending,
            TransitionPhase::PreviousProfileRebootRequired,
        )
    }

    /// Records that the previous profile has been applied, with or without a reboot.
    pub fn record_previous_profile_applied(&mut self, id: &TransitionId) -> (result: Result<
        (),
        LifecycleError,
    >)
        ensures
            answer(result) == old(self)@.record_outcome(
                id@,
                TransitionPhase::PreviousProfileApplied,
            ),
            final(self)@ == old(self)@.record(id@, TransitionPhase::PreviousProfileApplied),
    {
        let expected = [
            TransitionPhase::RestorePending,
            TransitionPhase::PreviousProfileRebootRequired,
        ];
        assert(expected@ =~= seq![
            TransitionPhase::RestorePending,
            TransitionPhase::PreviousProfileRebootRequired,
        ]);
        assert(forall|phase: TransitionPhase|
            expected@.contains(phase) <==> phase == expected@[0] || phase == expected@[1]);
        self.advance_from(id, &expected, TransitionPhase::PreviousProfileApplied)
    }

    /// Records that the previous profile's DRA provider has been validated.
    pub fn record_previous_dra_validated(&mut self, id: &TransitionId) -> (result: Result<
        (),
        LifecycleError,
    >)
        ensures
            answer(result) == old(self)@.record_outcome(id@, TransitionPhase::PreviousDraValidated),
            final(self)@ == old(self)@.record(id@, TransitionPhase::PreviousDraValidated),
    {
        self.advance(
            id,
            TransitionPhase::PreviousProfileApplied,
            TransitionPhase::PreviousDraValidated,
        )
    }

    /// Makes the target profile the committed one, and keeps the transition's result.
    pub fn commit_target(&mut self, id: &TransitionId) -> (result: Result<(), LifecycleError>)
        ensures
            answer(result) == old(self)@.commit_target_outcome(id@),
            final(self)@ == old(self)@.commit_target(id@),
    {
        if self.active_transition.is_none() {
            if self.completed_with(id, TransitionOutcome::TargetCommitted) {
                return Ok(());
            }
            return Err(LifecycleError::NoActiveTransition);
        }
        self.ensure_phase(id, TransitionPhase::TargetQualified)?;
        if let Some(transition) = self.active_transition.take() {
            self.committed_profile = Some(transition.target_profile);
            self.last_result =
            Some(
                TransitionResult {
                    id: transition.id,
                    previous_profile: transition.previous_profile,
                    target_profile: transition.target_profile,
                    outcome: TransitionOutcome::TargetCommitted,
                    failure_reason: None,
                },
            );
        }
        Ok(())
    }

    /// Gives up the target profile and turns back to the previous one.
    pub fn request_restore(&mut self, id: &TransitionId, failure_reason: &str) -> (result: Result<
        (),
        LifecycleError,
    >)
        ensures
            answer(result) == old(self)@.restore_outcome(id@, failure_reason@),
            final(self)@ == old(self)@.request_restore(id@, failure_reason@),
    {
        if blank(failure_reason) {
            return Err(LifecycleError::EmptyFailureReason);
        }
        if self.active_transition.is_none() {
            if self.completed_with(id, TransitionOutcome::PreviousProfileRestored) {
                return Ok(());
            }
            return Err(LifecycleError::NoActiveTransition);
        }
        let transition = self.transition_mut(id)?;
        match transition.phase {
            TransitionPhase::RestorePending
            | TransitionPhase::PreviousProfileRebootRequired
            | TransitionPhase::PreviousProfileApplied
            | TransitionPhase::PreviousDraValidated
            | TransitionPhase::Blocked => {
                let repeated = match &transition.failure_reason {
                    Some(reason) => same_text(reason.as_str(), failure_reason),
                    None => false,
                };
                if repeated {
                    return Ok(());
                }
                return Err(LifecycleError::RestoreAlreadyRequested { phase: transition.phase });
            },
            _ => {},
        }
        transition.failure_reason = Some(failure_reason.to_string());
        transition.phase =
        if transition.previous_profile.is_some() {
            TransitionPhase::RestorePending
        } else {
            TransitionPhase::Blocked
        };
        Ok(())
    }

    /// Makes the restored profile the committed one, and keeps the transition's result.
    pub fn commit_restore(&mut self, id: &TransitionId) -> (result: Result<(), LifecycleError>)
        ensures
            answer(result) == old(self)@.commit_restore_outcome(id@),
            final(self)@ == old(self)@.commit_restore(id@),
    {
        if self.active_transition.is_none() {
            if self.completed_with(id, TransitionOutcome::PreviousProfileRestored) {
                return Ok(());
            }
            return Err(LifecycleError::NoActiveTransition);
        }
        self.ensure_phase(id, TransitionPhase::PreviousDraValidated)?;
        if let Some(transition) = self.active_transition.take() {
            self.committed_profile = transition.previous_profile;
            self.last_result =
            Some(
                TransitionResult {
                    id: transition.id,
                    previous_profile: transition.previous_profile,
                    target_profile: transition.target_profile,
                    outcome: TransitionOutcome::PreviousProfileRestored,
                    failure_reason: transition.failure_reason,
                },
            );
        }
        Ok(())
    }

    /// The operation that the active transition waits for.
    pub fn next_action(&self) -> (action: Option<NextAction>)
        ensures
            action == self@.next_action(),
    {
        let phase = match &self.active_transition {
            Some(transition) => transition.phase,
            None => return None,
        };
        Some(
            match phase {
                TransitionPhase::IntentPersisted => NextAction::CoordinatorDrainNode,
                TransitionPhase::NodeDrained => NextAction::NodeWithdrawAdvertisement,
                TransitionPhase::AdvertisementWithdrawn => NextAction::NodeApplyTargetProfile,
                TransitionPhase::TargetProfileRebootRequired => NextAction::NodeApplyTargetProfile,
                TransitionPhase::TargetProfileApplied => NextAction::NodeValidateTargetDra,
                TransitionPhase::TargetDraValidated => NextAction::CoordinatorRunQualification,
                TransitionPhase::TargetQualified => NextAction::NodeCommitTarget,
                TransitionPhase::RestorePending => NextAction::NodeApplyPreviousProfile,
                TransitionPhase::PreviousProfileRebootRequired => {
                    NextAction::NodeApplyPreviousProfile
                },
                TransitionPhase::PreviousProfileApplied => NextAction::NodeValidatePreviousDra,
                TransitionPhase::PreviousDraValidated => NextAction::NodeCommitRestore,
                TransitionPhase::Blocked => NextAction::ManualIntervention,
            },
        )
    }

    /// Tells whether the last finished transition is `id` and ended with `outcome`.
    fn completed_with(&self, id: &TransitionId, outcome: TransitionOutcome) -> (completed: bool)
        ensures
            completed == self@.completed_with(id@, outcome),
    {
        match &self.last_result {
            Some(result) => result.id.same(id) && result.outcome == outcome,
            None => false,
        }
    }

    /// The active transition, if it is the one that `id` names.
    fn transition_mut(&mut self, id: &TransitionId) -> (result: Result<
        &mut ActiveTransition,
        LifecycleError,
    >)
        ensures
            match result {
                Ok(transition) => {
                    &&& old(self).active_transition == Some(*transition)
                    &&& transition@.id == id@
                    &&& *final(self) == (LifecycleState {
                        active_transition: Some(*final(transition)),
                        ..*old(self)
                    })
                },
                Err(error) => {
                    &&& *final(self) == *old(self)
                    &&& match old(self)@.active {
                        None => error@ == ErrorView::NoActiveTransition,
                        Some(t) => t.id != id@ && error@ == (ErrorView::TransitionIdMismatch {
                            expected: t.id,
                            actual: id@,
                        }),
                    }
                },
            },
    {
        match &mut self.active_transition {
            None => Err(LifecycleError::NoActiveTransition),
            Some(transition) => {
                if !transition.id.same(id) {
                    return Err(
                        LifecycleError::TransitionIdMismatch {
                            expected: transition.id.clone(),
                            actual: id.clone(),
                        },
                    );
                }
                Ok(transition)
            },
        }
    }

    /// Accepts the active transition if `id` names it and it is in the expected phase.
    fn ensure_phase(&self, id: &TransitionId, expected: TransitionPhase) -> (result: Result<
        (),
        LifecycleError,
    >)
        ensures
            answer(result) == match self@.active {
                None => Err(ErrorView::NoActiveTransition),
                Some(t) => if t.id != id@ {
                    Err(ErrorView::TransitionIdMismatch { expected: t.id, actual: id@ })
                } else if t.phase != expected {
                    Err(ErrorView::UnexpectedPhase { expected, actual: t.phase })
                } else {
                    Ok(())
                },
            },
    {
        let transition = match &self.active_transition {
            Some(transition) => transition,
            None => return Err(LifecycleError::NoActiveTransition),
        };
        if !transition.id.same(id) {
            return Err(
                LifecycleError::TransitionIdMismatch {
                    expected: transition.id.clone(),
                    actual: id.clone(),
                },
            );
        }
        if transition.phase != expected {
            return Err(LifecycleError::UnexpectedPhase { expected, actual: transition.phase });
        }
        Ok(())
    }

    /// Moves the active transition from `expected` to `next`, or leaves it in `next`.
    fn advance(
        &mut self,
        id: &TransitionId,
        expected: TransitionPhase,
        next: TransitionPhase,
    ) -> (result: Result<(), LifecycleError>)
        ensures
            answer(result) == match old(self)@.active {
                None => Err(ErrorView::NoActiveTransition),
                Some(t) => if t.id != id@ {
                    Err(ErrorView::TransitionIdMismatch { expected: t.id, actual: id@ })
                } else if t.phase != next && t.phase != expected {
                    Err(ErrorView::UnexpectedPhase { expected, actual: t.phase })
                } else {
                    Ok(())
                },
            },
            final(self)@ == if result is Ok {
                old(self)@.in_phase(next)
            } else {
                old(self)@
            },
    {
        let transition = self.transition_mut(id)?;
        if transition.phase == next {
            return Ok(());
        }
        if transition.phase != expected {
            return Err(LifecycleError::UnexpectedPhase { expected, actual: transition.phase });
        }
        transition.phase = next;
        Ok(())
    }

    /// Moves the active transition from one of the `expected` phases to `next`, or leaves it in
    /// `next`.
    fn advance_from(
        &mut self,
        id: &TransitionId,
        expected: &[TransitionPhase],
        next: TransitionPhase,
    ) -> (result: Result<(), LifecycleError>)
        requires
            expected@.len() > 0,
        ensures
            answer(result) == match old(self)@.active {
                None => Err(ErrorView::NoActiveTransition),
                Some(t) => if t.id != id@ {
                    Err(ErrorView::TransitionIdMismatch { expected: t.id, actual: id@ })
                } else if t.phase != next && !expected@.contains(t.phase) {
                    Err(ErrorView::UnexpectedPhase { expected: expected@[0], actual: t.phase })
                } else {
                    Ok(())
                },
            },
            final(self)@ == if result is Ok {
                old(self)@.in_phase(next)
            } else {
                old(self)@
            },
    {
        let transition = self.transition_mut(id)?;
        if transition.phase == next {
            return Ok(());
        }
        if !has_phase(expected, transition.phase) {
            return Err(
                LifecycleError::UnexpectedPhase { expected: expected[0], actual: transition.phase },
            );
        }
        transition.phase = next;
        Ok(())
    }
}

/// Tells whether a list of phases holds `phase`.
fn has_phase(phases: &[TransitionPhase], phase: TransitionPhase) -> (found: bool)
    ensures
        found == phases@.contains(phase),
{
    let mut i: usize = 0;
    while i < phases.len()
        invariant
            i <= phases@.len(),
            forall|j: int| 0 <= j < i ==> phases@[j] != phase,
        decreases phases@.len() - i,
    {
        if phases[i] == phase {
            return true;
        }
        i = i + 1;
    }
    false
}

/// Accepts every token that holds a visible character.
fn validate_transition_token(token: &str) -> (result: Result<(), LifecycleError>)
    ensures
        answer(result) == if is_blank(token@) {
            Err(ErrorView::EmptyTransitionToken)
        } else {
            Ok(())
        },
{
    if blank(token) {
        return Err(LifecycleError::EmptyTransitionToken);
    }
    Ok(())
}

/// Why an operation on the lifecycle state was refused.
#[allow(inconsistent_fields)]
#[derive(Debug)]
pub enum LifecycleError {
    ActiveTransitionExists { active_id: TransitionId },
    EmptyTransitionToken,
    EmptyFailureReason,
    GenerationExhausted,
    ProfileAlreadyCommitted { target_profile: AcceleratorProfile },
    NoActiveTransition,
    TransitionIdMismatch { expected: TransitionId, actual: TransitionId },
    TransitionTokenAlreadyUsed { token: String, generation: u64, outcome: TransitionOutcome },
    StaleGeneration { expected: u64, actual: u64 },
    UnexpectedPhase { expected: TransitionPhase, actual: TransitionPhase },
    RestoreAlreadyRequested { phase: TransitionPhase },
}

impl View for LifecycleError {
    type V = ErrorView;

    open spec fn view(&self) -> ErrorView {
        match self {
            LifecycleError::ActiveTransitionExists { active_id } => {
                ErrorView::ActiveTransitionExists { active_id: active_id@ }
            },
            LifecycleError::EmptyTransitionToken => ErrorView::EmptyTransitionToken,
            LifecycleError::EmptyFailureReason => ErrorView::EmptyFailureReason,
            LifecycleError::GenerationExhausted => ErrorView::GenerationExhausted,
            LifecycleError::ProfileAlreadyCommitted { target_profile } => {
                ErrorView::ProfileAlreadyCommitted { target_profile: *target_profile }
            },
            LifecycleError::NoActiveTransition => ErrorView::NoActiveTransition,
            LifecycleError::TransitionIdMismatch { expected, actual } => {
                ErrorView::TransitionIdMismatch { expected: expected@, actual: actual@ }
            },
            LifecycleError::TransitionTokenAlreadyUsed { token, generation, outcome } => {
                ErrorView::TransitionTokenAlreadyUsed {
                    token: token@,
                    generation: *generation,
                    outcome: *outcome,
                }
            },
            LifecycleError::StaleGeneration { expected, actual } => {
                ErrorView::StaleGeneration { expected: *expected, actual: *actual }
            },
            LifecycleError::UnexpectedPhase { expected, actual } => {
                ErrorView::UnexpectedPhase { expected: *expected, actual: *actual }
            },
            LifecycleError::RestoreAlreadyRequested { phase } => {
                ErrorView::RestoreAlreadyRequested { phase: *phase }
            },
        }
    }
}

impl LifecycleError {
    /// The message that the refusal is reported with.
    pub fn message(&self) -> (message: String)
        ensures
            message@ == self@.message(),
    {
        match self {
            LifecycleError::ActiveTransitionExists { active_id } => {
                "accelerator profile transition '".to_string().concat(
                    active_id.text().as_str(),
                ).concat("' is already active")
            },
            LifecycleError::EmptyTransitionToken => {
                "transition token must not be empty".to_string()
            },
            LifecycleError::EmptyFailureReason => "failure reason must not be empty".to_string(),
            LifecycleError::GenerationExhausted => {
                "transition generation cannot advance beyond u64::MAX".to_string()
            },
            LifecycleError::ProfileAlreadyCommitted { target_profile } => {
                "accelerator profile '".to_string().concat(target_profile.label()).concat(
                    "' is already committed",
                )
            },
            LifecycleError::NoActiveTransition => {
                "no accelerator profile transition is active".to_string()
            },
            LifecycleError::TransitionIdMismatch { expected, actual } => {
                "transition ID '".to_string().concat(actual.text().as_str()).concat(
                    "' does not match active transition '",
                ).concat(expected.text().as_str()).concat("'")
            },
            LifecycleError::TransitionTokenAlreadyUsed { token, generation, outcome } => {
                "transition token '".to_string().concat(token.as_str()).concat(
                    "' was already used by generation ",
                ).concat(decimal(*generation).as_str()).concat(" with outcome '").concat(
                    outcome.label(),
                ).concat("'")
            },
            LifecycleError::StaleGeneration { expected, actual } => {
                "stale lifecycle generation ".to_string().concat(decimal(*actual).as_str()).concat(
                    "; current generation is ",
                ).concat(decimal(*expected).as_str())
            },
            LifecycleError::UnexpectedPhase { expected, actual } => {
                "expected transition phase '".to_string().concat(expected.label()).concat(
                    "', found '",
                ).concat(actual.label()).concat("'")
            },
            LifecycleError::RestoreAlreadyRequested { phase } => {
                "restore was already requested in phase '".to_string().concat(
                    phase.label(),
                ).concat("'")
            },
        }
    }
}

/// An answer without content, as mathematics.
pub open spec fn answer(result: Result<(), LifecycleError>) -> Result<(), ErrorView> {
    match result {
        Ok(_) => Ok(()),
        Err(error) => Err(error@),
    }
}

/// An answer that names a transition, as mathematics.
pub open spec fn id_answer(result: Result<TransitionId, LifecycleError>) -> Result<
    IdView,
    ErrorView,
> {
    match result {
        Ok(id) => Ok(id@),
        Err(error) => Err(error@),
    }
}

} // verus!
