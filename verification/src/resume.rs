//! Selection and completion of the node's own steps in a transition.

use crate::model::{action_in, ErrorView, StateView};
use crate::state::{
    AcceleratorProfile, LifecycleError, LifecycleState, NextAction, TransitionId, TransitionPhase,
};
use vstd::prelude::*;
use vstd::string::*;

verus! {

/// A node-local operation selected from durable lifecycle state.
#[derive(Clone, Copy, Debug, Eq, PartialEq, Structural)]
pub enum NodeAction {
    WithdrawAdvertisement,
    ApplyProfile(AcceleratorProfile),
    ValidateDra(AcceleratorProfile),
    CommitTarget,
    CommitRestore,
}

/// The result of one resume-engine decision.
#[allow(inconsistent_fields)]
#[derive(Clone, Copy, Debug, Eq, PartialEq, Structural)]
pub enum ResumeStatus {
    Idle,
    WaitingForCoordinator { action: NextAction },
    ManualIntervention,
    ActionCompleted { action: NodeAction },
}

/// Executes idempotent node operations without owning coordinator work.
///
/// Each operation comes with a relation between the executor before the call, the executor after
/// it and the answer. The relation is the implementer's own and may hold of everything: it
/// promises nothing, and only gives contracts a way to say which operation was called, with which
/// profile, and what it answered.
pub trait NodeActionExecutor: Sized {
    type Error;

    open spec fn withdraws(before: Self, after: Self, result: Result<(), Self::Error>) -> bool {
        true
    }

    open spec fn applies(
        before: Self,
        profile: AcceleratorProfile,
        after: Self,
        result: Result<(), Self::Error>,
    ) -> bool {
        true
    }

    open spec fn validates(
        before: Self,
        profile: AcceleratorProfile,
        after: Self,
        result: Result<(), Self::Error>,
    ) -> bool {
        true
    }

    fn withdraw_advertisement(&mut self) -> (result: Result<(), Self::Error>)
        ensures
            Self::withdraws(*old(self), *final(self), result),
    ;

    fn apply_profile(&mut self, profile: AcceleratorProfile) -> (result: Result<(), Self::Error>)
        ensures
            Self::applies(*old(self), profile, *final(self), result),
    ;

    fn validate_dra(&mut self, profile: AcceleratorProfile) -> (result: Result<(), Self::Error>)
        ensures
            Self::validates(*old(self), profile, *final(self), result),
    ;
}

/// Why a resume step could not be taken.
#[derive(Debug)]
pub enum ResumeError<E> {
    Executor(E),
    Lifecycle(LifecycleError),
    InconsistentState(&'static str),
}

/// The failures of a resume step, as mathematics.
pub enum ResumeErrorView<E> {
    Executor(E),
    Lifecycle(ErrorView),
    InconsistentState(Seq<char>),
}

/// The answer of a resume step, as mathematics.
pub open spec fn resume_answer<E>(result: Result<ResumeStatus, ResumeError<E>>) -> Result<
    ResumeStatus,
    ResumeErrorView<E>,
> {
    match result {
        Ok(status) => Ok(status),
        Err(error) => Err(error.model()),
    }
}

/// The step that the node itself owes, if it is known which profile the step is about.
pub open spec fn due_action(state: StateView) -> Option<NodeAction> {
    match state.active {
        None => None,
        Some(t) => match action_in(t.phase) {
            NextAction::NodeWithdrawAdvertisement => Some(NodeAction::WithdrawAdvertisement),
            NextAction::NodeApplyTargetProfile => Some(NodeAction::ApplyProfile(t.target_profile)),
            NextAction::NodeValidateTargetDra => Some(NodeAction::ValidateDra(t.target_profile)),
            NextAction::NodeCommitTarget => Some(NodeAction::CommitTarget),
            NextAction::NodeApplyPreviousProfile => match t.previous_profile {
                Some(profile) => Some(NodeAction::ApplyProfile(profile)),
                None => None,
            },
            NextAction::NodeValidatePreviousDra => match t.previous_profile {
                Some(profile) => Some(NodeAction::ValidateDra(profile)),
                None => None,
            },
            NextAction::NodeCommitRestore => Some(NodeAction::CommitRestore),
            _ => None,
        },
    }
}

/// The steps that an executor carries out; the others only touch the lifecycle state.
pub open spec fn needs_executor(action: NodeAction) -> bool {
    action != NodeAction::CommitTarget && action != NodeAction::CommitRestore
}

/// The answer where the node owes no step, or cannot tell which profile to use.
pub open spec fn standstill<E>(state: StateView) -> Result<ResumeStatus, ResumeErrorView<E>> {
    match state.next_action() {
        None => Ok(ResumeStatus::Idle),
        Some(NextAction::ManualIntervention) => Ok(ResumeStatus::ManualIntervention),
        Some(NextAction::CoordinatorDrainNode) => Ok(
            ResumeStatus::WaitingForCoordinator { action: NextAction::CoordinatorDrainNode },
        ),
        Some(NextAction::CoordinatorRunQualification) => Ok(
            ResumeStatus::WaitingForCoordinator { action: NextAction::CoordinatorRunQualification },
        ),
        _ => Err(
            ResumeErrorView::InconsistentState("previous profile is missing during restoration"@),
        ),
    }
}

/// The answer of a resume step whose operation, if one is due, ended with `outcome`.
pub open spec fn concluded_answer<E>(state: StateView, outcome: Result<(), E>) -> Result<
    ResumeStatus,
    ResumeErrorView<E>,
> {
    match due_action(state) {
        None => standstill(state),
        Some(action) => match outcome {
            Err(error) if needs_executor(action) => Err(ResumeErrorView::Executor(error)),
            _ => Ok(ResumeStatus::ActionCompleted { action }),
        },
    }
}

/// The state once the step that is due has been taken.
pub open spec fn after_action(state: StateView) -> StateView {
    match state.next_action() {
        Some(NextAction::NodeWithdrawAdvertisement) => state.in_phase(
            TransitionPhase::AdvertisementWithdrawn,
        ),
        Some(NextAction::NodeApplyTargetProfile) => state.in_phase(
            TransitionPhase::TargetProfileApplied,
        ),
        Some(NextAction::NodeValidateTargetDra) => state.in_phase(
            TransitionPhase::TargetDraValidated,
        ),
        Some(NextAction::NodeCommitTarget) => state.commit_target(state.active->0.id),
        Some(NextAction::NodeApplyPreviousProfile) => state.in_phase(
            TransitionPhase::PreviousProfileApplied,
        ),
        Some(NextAction::NodeValidatePreviousDra) => state.in_phase(
            TransitionPhase::PreviousDraValidated,
        ),
        Some(NextAction::NodeCommitRestore) => state.commit_restore(state.active->0.id),
        _ => state,
    }
}

/// The state after a resume step: it moves only with a step that is completed.
pub open spec fn concluded<E>(state: StateView, outcome: Result<(), E>) -> StateView {
    if concluded_answer(state, outcome) matches Ok(ResumeStatus::ActionCompleted { action: _ }) {
        after_action(state)
    } else {
        state
    }
}

/// What the executor answered, as far as the answer of the resume step tells: without an
/// executor failure, it agreed or was not asked.
pub open spec fn executor_outcome<E>(result: Result<ResumeStatus, ResumeError<E>>) -> Result<
    (),
    E,
> {
    match result {
        Err(ResumeError::Executor(error)) => Err(error),
        _ => Ok(()),
    }
}

/// The executor went from `before` to `after` by the operation that belongs to `action`, and by
/// nothing else.
pub open spec fn performed<E: NodeActionExecutor>(
    action: Option<NodeAction>,
    before: E,
    after: E,
    outcome: Result<(), E::Error>,
) -> bool {
    match action {
        Some(NodeAction::WithdrawAdvertisement) => E::withdraws(before, after, outcome),
        Some(NodeAction::ApplyProfile(profile)) => E::applies(before, profile, after, outcome),
        Some(NodeAction::ValidateDra(profile)) => E::validates(before, profile, after, outcome),
        _ => after == before,
    }
}

/// Executes at most one node-owned action and advances state only after it succeeds.
pub fn execute_next_node_action<E: NodeActionExecutor>(
    state: &mut LifecycleState,
    executor: &mut E,
) -> (result: Result<ResumeStatus, ResumeError<E::Error>>)
    ensures
        performed(
            due_action(old(state)@),
            *old(executor),
            *final(executor),
            executor_outcome(result),
        ),
        resume_answer(result) == concluded_answer(old(state)@, executor_outcome(result)),
        final(state)@ == concluded(old(state)@, executor_outcome(result)),
{
    let outcome = match due_node_action(state) {
        Some(NodeAction::WithdrawAdvertisement) => executor.withdraw_advertisement(),
        Some(NodeAction::ApplyProfile(profile)) => executor.apply_profile(profile),
        Some(NodeAction::ValidateDra(profile)) => executor.validate_dra(profile),
        _ => Ok(()),
    };
    let ghost answered = outcome;
    let result = conclude_node_action(state, outcome);
    assert(answered is Ok ==> answered->Ok_0 == ());
    result
}

/// The step that the node owes next.
pub fn due_node_action(state: &LifecycleState) -> (action: Option<NodeAction>)
    ensures
        action == due_action(state@),
{
    match state.next_action()? {
        NextAction::NodeWithdrawAdvertisement => Some(NodeAction::WithdrawAdvertisement),
        NextAction::NodeApplyTargetProfile => match state.target_profile() {
            Some(profile) => Some(NodeAction::ApplyProfile(profile)),
            None => None,
        },
        NextAction::NodeValidateTargetDra => match state.target_profile() {
            Some(profile) => Some(NodeAction::ValidateDra(profile)),
            None => None,
        },
        NextAction::NodeCommitTarget => Some(NodeAction::CommitTarget),
        NextAction::NodeApplyPreviousProfile => match state.previous_profile() {
            Some(profile) => Some(NodeAction::ApplyProfile(profile)),
            None => None,
        },
        NextAction::NodeValidatePreviousDra => match state.previous_profile() {
            Some(profile) => Some(NodeAction::ValidateDra(profile)),
            None => None,
        },
        NextAction::NodeCommitRestore => Some(NodeAction::CommitRestore),
        NextAction::CoordinatorDrainNode
        | NextAction::CoordinatorRunQualification
        | NextAction::ManualIntervention => None,
    }
}

/// Advances the state by the step that is due, unless its operation failed.
pub fn conclude_node_action<E>(state: &mut LifecycleState, outcome: Result<(), E>) -> (result:
    Result<ResumeStatus, ResumeError<E>>)
    ensures
        resume_answer(result) == concluded_answer(old(state)@, outcome),
        final(state)@ == concluded(old(state)@, outcome),
{
    let next_action = match state.next_action() {
        Some(next_action) => next_action,
        None => return Ok(ResumeStatus::Idle),
    };
    let due = due_node_action(state);
    let recorded = match next_action {
        NextAction::CoordinatorDrainNode | NextAction::CoordinatorRunQualification => {
            return Ok(ResumeStatus::WaitingForCoordinator { action: next_action });
        },
        NextAction::ManualIntervention => return Ok(ResumeStatus::ManualIntervention),
        NextAction::NodeWithdrawAdvertisement => {
            let id = active_id(state)?;
            succeeded(outcome)?;
            state.record_advertisement_withdrawn(&id)
        },
        NextAction::NodeApplyTargetProfile => {
            let id = active_id(state)?;
            succeeded(outcome)?;
            state.record_target_profile_applied(&id)
        },
        NextAction::NodeValidateTargetDra => {
            let id = active_id(state)?;
            succeeded(outcome)?;
            state.record_target_dra_validated(&id)
        },
        NextAction::NodeCommitTarget => {
            let id = active_id(state)?;
            state.commit_target(&id)
        },
        NextAction::NodeApplyPreviousProfile => {
            let id = active_id(state)?;
            previous_profile(state)?;
            succeeded(outcome)?;
            state.record_previous_profile_applied(&id)
        },
        NextAction::NodeValidatePreviousDra => {
            let id = active_id(state)?;
            previous_profile(state)?;
            succeeded(outcome)?;
            state.record_previous_dra_validated(&id)
        },
        NextAction::NodeCommitRestore => {
            let id = active_id(state)?;
            state.commit_restore(&id)
        },
    };
    match recorded {
        Err(error) => Err(ResumeError::Lifecycle(error)),
        Ok(()) => match due {
            Some(action) => completed(action),
            None => Err(ResumeError::InconsistentState("target profile is missing")),
        },
    }
}

/// The identity of the active transition.
fn active_id<E>(state: &LifecycleState) -> (result: Result<TransitionId, ResumeError<E>>)
    ensures
        match result {
            Ok(id) => state@.active is Some && id@ == state@.active->0.id,
            Err(ResumeError::InconsistentState(reason)) => state@.active is None && reason@
                == "next action exists without an active transition"@,
            Err(_) => false,
        },
{
    match state.active_transition_id() {
        Some(id) => Ok(id.clone()),
        None => Err(
            ResumeError::InconsistentState("next action exists without an active transition"),
        ),
    }
}

/// The profile to go back to.
fn previous_profile<E>(state: &LifecycleState) -> (result: Result<
    AcceleratorProfile,
    ResumeError<E>,
>)
    ensures
        match result {
            Ok(profile) => state@.active is Some && state@.active->0.previous_profile == Some(
                profile,
            ),
            Err(ResumeError::InconsistentState(reason)) => {
                &&& state@.active is Some ==> state@.active->0.previous_profile is None
                &&& reason@ == "previous profile is missing during restoration"@
            },
            Err(_) => false,
        },
{
    match state.previous_profile() {
        Some(profile) => Ok(profile),
        None => Err(
            ResumeError::InconsistentState("previous profile is missing during restoration"),
        ),
    }
}

/// Passes an executor's failure on as the failure of the resume step.
fn succeeded<E>(outcome: Result<(), E>) -> (result: Result<(), ResumeError<E>>)
    ensures
        result == match outcome {
            Ok(_) => Ok::<(), ResumeError<E>>(()),
            Err(error) => Err(ResumeError::Executor(error)),
        },
{
    match outcome {
        Ok(()) => Ok(()),
        Err(error) => Err(ResumeError::Executor(error)),
    }
}

/// The answer of a completed step.
fn completed<E>(action: NodeAction) -> (result: Result<ResumeStatus, ResumeError<E>>)
    ensures
        result == Ok::<ResumeStatus, ResumeError<E>>(ResumeStatus::ActionCompleted { action }),
{
    Ok(ResumeStatus::ActionCompleted { action })
}

/// The message of a failed resume step; `executor_text` is what an executor's error says.
pub open spec fn resume_message<E>(error: ResumeErrorView<E>, executor_text: Seq<char>) -> Seq<
    char,
> {
    match error {
        ResumeErrorView::Executor(_) => "node action failed: "@ + executor_text,
        ResumeErrorView::Lifecycle(error) => "failed to advance lifecycle state: "@
            + error.message(),
        ResumeErrorView::InconsistentState(reason) => "inconsistent lifecycle state: "@ + reason,
    }
}

impl<E> ResumeError<E> {
    /// The failure, as mathematics.
    pub open spec fn model(self) -> ResumeErrorView<E> {
        match self {
            ResumeError::Executor(error) => ResumeErrorView::Executor(error),
            ResumeError::Lifecycle(error) => ResumeErrorView::Lifecycle(error@),
            ResumeError::InconsistentState(reason) => ResumeErrorView::InconsistentState(reason@),
        }
    }

    /// The message that the failure is reported with; `executor_text` is what the executor's
    /// error says, where there is one.
    pub fn message(&self, executor_text: &str) -> (message: String)
        ensures
            message@ == resume_message(self.model(), executor_text@),
    {
        match self {
            ResumeError::Executor(_) => "node action failed: ".to_string().concat(executor_text),
            ResumeError::Lifecycle(error) => {
                "failed to advance lifecycle state: ".to_string().concat(error.message().as_str())
            },
            ResumeError::InconsistentState(reason) => {
                "inconsistent lifecycle state: ".to_string().concat(reason)
            },
        }
    }
}

} // verus!
