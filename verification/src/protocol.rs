//! What each request to the lifecycle does, told by the fields of the state and by how one request
//! relates to another.

use crate::laws::{after_request, is_accepted, Request};
use crate::model::{is_restoring, ActiveView, ErrorView, IdView, ResultView, StateView};
use crate::resume::{
    after_action, concluded, concluded_answer, due_action, executor_outcome, performed,
    resume_answer, NodeAction, NodeActionExecutor, ResumeError, ResumeErrorView, ResumeStatus,
};
use crate::state::{
    answer, id_answer, AcceleratorProfile, LifecycleError, LifecycleState, NextAction,
    TransitionId, TransitionOutcome, TransitionPhase,
};
use crate::text::is_blank;
use vstd::prelude::*;

verus! {

/// The two ways of a transition: towards its target, and back to the previous profile.
pub enum Way {
    Forth,
    Back,
}

/// How far along its way a phase is, in half stages: the whole stages are those that every
/// transition passes, and a reboot lies halfway between two of them. A blocked transition is on no
/// way.
pub open spec fn stage(phase: TransitionPhase) -> Option<(Way, int)> {
    match phase {
        TransitionPhase::IntentPersisted => Some((Way::Forth, 0)),
        TransitionPhase::NodeDrained => Some((Way::Forth, 2)),
        TransitionPhase::AdvertisementWithdrawn => Some((Way::Forth, 4)),
        TransitionPhase::TargetProfileRebootRequired => Some((Way::Forth, 5)),
        TransitionPhase::TargetProfileApplied => Some((Way::Forth, 6)),
        TransitionPhase::TargetDraValidated => Some((Way::Forth, 8)),
        TransitionPhase::TargetQualified => Some((Way::Forth, 10)),
        TransitionPhase::RestorePending => Some((Way::Back, 0)),
        TransitionPhase::PreviousProfileRebootRequired => Some((Way::Back, 1)),
        TransitionPhase::PreviousProfileApplied => Some((Way::Back, 2)),
        TransitionPhase::PreviousDraValidated => Some((Way::Back, 4)),
        TransitionPhase::Blocked => None,
    }
}

/// The phase is on the way towards the target.
pub open spec fn goes_forth(phase: TransitionPhase) -> bool {
    stage(phase) matches Some((Way::Forth, _))
}

/// One acknowledgement leads from `from` to `to`: a whole stage further, half a stage to a reboot,
/// or the other half after it.
pub open spec fn is_next_stage(from: TransitionPhase, to: TransitionPhase) -> bool {
    match (stage(from), stage(to)) {
        (Some((from_way, from_stage)), Some((to_way, to_stage))) => {
            &&& from_way == to_way
            &&& to_stage > from_stage
            &&& to_stage / 2 <= from_stage / 2 + 1
            &&& to_stage % 2 == 1 ==> to_stage == from_stage + 1
        },
        _ => false,
    }
}

/// Nothing but the phase of the active transition tells two states apart.
pub open spec fn same_but_for_the_phase(left: StateView, right: StateView) -> bool {
    &&& left.schema_version == right.schema_version
    &&& left.generation == right.generation
    &&& left.committed_profile == right.committed_profile
    &&& left.last_result == right.last_result
    &&& match (left.active, right.active) {
        (Some(l), Some(r)) => {
            &&& l.id == r.id
            &&& l.previous_profile == r.previous_profile
            &&& l.target_profile == r.target_profile
            &&& l.failure_reason == r.failure_reason
        },
        (None, None) => true,
        _ => false,
    }
}

/// The target of the transition that a state knows under an identity: the active one, or the last
/// that was finished.
pub open spec fn known_target(state: StateView, id: IdView) -> Option<AcceleratorProfile> {
    if state.active is Some && state.active->0.id == id {
        Some(state.active->0.target_profile)
    } else if state.last_result is Some && state.last_result->0.id == id {
        Some(state.last_result->0.target_profile)
    } else {
        None
    }
}

/// An accepted request to begin is answered with the identity that was asked for: its token, and
/// the generation after the observed one. From then on the state knows a transition under this
/// identity, and it has the target that was asked for. So nobody is told that a transition was
/// accepted while another one runs.
pub proof fn accepted_begins_get_what_they_asked_for(
    state: StateView,
    token: Seq<char>,
    target: AcceleratorProfile,
    expected_generation: u64,
)
    requires
        state.begin_outcome(token, target, expected_generation) is Ok,
    ensures
        ({
            let id = state.begin_outcome(token, target, expected_generation)->Ok_0;
            let after = state.begin(token, target, expected_generation);
            &&& id.token == token
            &&& id.generation == expected_generation + 1
            &&& !is_blank(token)
            &&& state.active matches Some(t) ==> {
                &&& t.id == id
                &&& t.target_profile == target
                &&& after == state
            }
            &&& match after.active {
                Some(t) => t.id == id && t.target_profile == target,
                None => after.last_result is Some && after.last_result->0.id == id
                    && after.last_result->0.target_profile == target,
            }
            &&& known_target(after, id) == Some(target)
        }),
{
}

/// Every generation belongs to one request: once a request to begin was accepted, any other with
/// the same observed generation that is accepted right after it is the same request.
pub proof fn a_transition_has_one_request(
    state: StateView,
    token: Seq<char>,
    target: AcceleratorProfile,
    other_token: Seq<char>,
    other_target: AcceleratorProfile,
    expected_generation: u64,
)
    requires
        state.consistent(),
        state.begin_outcome(token, target, expected_generation) is Ok,
    ensures
        state.begin(token, target, expected_generation).begin_outcome(
            other_token,
            other_target,
            expected_generation,
        ) is Ok ==> other_token == token && other_target == target,
{
    let after = state.begin(token, target, expected_generation);
    if after.begin_outcome(other_token, other_target, expected_generation) is Ok {
        accepted_begins_get_what_they_asked_for(state, token, target, expected_generation);
        accepted_begins_get_what_they_asked_for(
            after,
            other_token,
            other_target,
            expected_generation,
        );
    }
}

/// A request to begin is accepted in two situations only. Either it is the request of the
/// transition that is active or, with none active, ended last; then nothing changes. Or no
/// transition is active, the caller observed the current generation, the token is not that of the
/// last transition, and the target is not the committed profile; then the transition is opened.
pub proof fn begins_are_accepted_exactly_when_owed(
    state: StateView,
    token: Seq<char>,
    target: AcceleratorProfile,
    expected_generation: u64,
)
    ensures
        ({
            let asked = IdView { generation: (expected_generation + 1) as u64, token };
            let retried = match state.active {
                Some(t) => t.id == asked && t.target_profile == target,
                None => state.last_result is Some && state.last_result->0.id == asked
                    && state.last_result->0.target_profile == target,
            };
            let fresh = {
                &&& state.active is None
                &&& state.generation == expected_generation
                &&& state.committed_profile != Some(target)
                &&& state.last_result matches Some(r) ==> r.id.token != token
            };
            let answer = state.begin_outcome(token, target, expected_generation);
            let after = state.begin(token, target, expected_generation);
            &&& answer is Ok <==> {
                &&& expected_generation < u64::MAX
                &&& !is_blank(token)
                &&& retried || fresh
            }
            &&& answer is Ok && retried ==> after == state
            &&& answer is Ok && fresh ==> {
                &&& after.schema_version == state.schema_version
                &&& after.generation == state.generation + 1
                &&& after.committed_profile == state.committed_profile
                &&& after.last_result == state.last_result
                &&& after.active == Some(
                    ActiveView {
                        id: asked,
                        previous_profile: state.committed_profile,
                        target_profile: target,
                        phase: TransitionPhase::IntentPersisted,
                        failure_reason: None,
                    },
                )
            }
            &&& answer is Err ==> after == state
        }),
{
}

/// A refused request to begin is told why, by the first of these that holds: a blank token, no
/// generation left, another transition active, a token that was used by the last transition, a
/// generation that is not the current one, a profile that is committed already.
pub proof fn refused_begins_are_told_why(
    state: StateView,
    token: Seq<char>,
    target: AcceleratorProfile,
    expected_generation: u64,
)
    requires
        state.begin_outcome(token, target, expected_generation) is Err,
    ensures
        match state.begin_outcome(token, target, expected_generation)->Err_0 {
            ErrorView::EmptyTransitionToken => is_blank(token),
            ErrorView::GenerationExhausted => expected_generation == u64::MAX && !is_blank(token),
            ErrorView::ActiveTransitionExists { active_id } => {
                &&& state.active is Some
                &&& state.active->0.id == active_id
                &&& expected_generation < u64::MAX
                &&& !is_blank(token)
            },
            ErrorView::TransitionTokenAlreadyUsed { token: used, generation, outcome } => {
                &&& used == token
                &&& state.active is None
                &&& state.last_result is Some
                &&& state.last_result->0.id == (IdView { generation, token })
                &&& state.last_result->0.outcome == outcome
                &&& expected_generation < u64::MAX
                &&& !is_blank(token)
            },
            ErrorView::StaleGeneration { expected, actual } => {
                &&& expected == state.generation
                &&& actual == expected_generation
                &&& expected != actual
                &&& state.active is None
                &&& state.last_result matches Some(r) ==> r.id.token != token
                &&& expected_generation < u64::MAX
                &&& !is_blank(token)
            },
            ErrorView::ProfileAlreadyCommitted { target_profile } => {
                &&& target_profile == target
                &&& state.committed_profile == Some(target)
                &&& state.generation == expected_generation
                &&& state.active is None
                &&& state.last_result matches Some(r) ==> r.id.token != token
            },
            _ => false,
        },
{
}

/// An acknowledgement is accepted exactly from the active transition, in the phase that it
/// acknowledges or one stage before. It changes the phase and nothing else. A refused one is told
/// why, and which phase comes right before.
pub proof fn acknowledgements_go_stage_by_stage(
    state: StateView,
    id: IdView,
    next: TransitionPhase,
)
    requires
        next != TransitionPhase::IntentPersisted,
        next != TransitionPhase::RestorePending,
        next != TransitionPhase::Blocked,
    ensures
        state.record_outcome(id, next) is Ok <==> {
            &&& state.active is Some
            &&& state.active->0.id == id
            &&& state.active->0.phase == next || is_next_stage(state.active->0.phase, next)
        },
        state.record_outcome(id, next) is Ok ==> {
            &&& same_but_for_the_phase(state, state.record(id, next))
            &&& state.record(id, next).active->0.phase == next
        },
        state.record_outcome(id, next) is Err ==> state.record(id, next) == state,
        match state.record_outcome(id, next) {
            Ok(_) => true,
            Err(ErrorView::NoActiveTransition) => state.active is None,
            Err(ErrorView::TransitionIdMismatch { expected, actual }) => {
                &&& state.active is Some
                &&& state.active->0.id == expected
                &&& actual == id
                &&& expected != id
            },
            Err(ErrorView::UnexpectedPhase { expected, actual }) => {
                &&& state.active is Some
                &&& state.active->0.id == id
                &&& state.active->0.phase == actual
                &&& is_next_stage(expected, next)
                &&& stage(expected)->Some_0.1 % 2 == 0
            },
            Err(_) => false,
        },
{
}

/// What a commit keeps of the transition that it ends.
pub open spec fn kept_result(
    transition: ActiveView,
    outcome: TransitionOutcome,
    failure_reason: Option<Seq<char>>,
) -> ResultView {
    ResultView {
        id: transition.id,
        previous_profile: transition.previous_profile,
        target_profile: transition.target_profile,
        outcome,
        failure_reason,
    }
}

/// A commit of the target is accepted for the active transition at the end of its way forth, and
/// for the transition that was committed last. The first makes its target the committed profile,
/// ends the transition and keeps its result; the second changes nothing. A refused one is told why.
pub proof fn targets_are_committed_at_the_end_of_the_way(state: StateView, id: IdView)
    ensures
        state.commit_target_outcome(id) is Ok <==> match state.active {
            Some(t) => t.id == id && stage(t.phase) == Some((Way::Forth, 10int)),
            None => state.last_result matches Some(r) && r.id == id && r.outcome
                == TransitionOutcome::TargetCommitted,
        },
        state.commit_target_outcome(id) is Ok && state.active is Some ==> {
            let t = state.active->0;
            let after = state.commit_target(id);
            &&& after.committed_profile == Some(t.target_profile)
            &&& after.active is None
            &&& after.last_result == Some(
                kept_result(t, TransitionOutcome::TargetCommitted, None),
            )
            &&& after.generation == state.generation
            &&& after.schema_version == state.schema_version
        },
        state.commit_target_outcome(id) is Err || state.active is None ==> state.commit_target(id)
            == state,
        match state.commit_target_outcome(id) {
            Ok(_) => true,
            Err(ErrorView::NoActiveTransition) => state.active is None,
            Err(ErrorView::TransitionIdMismatch { expected, actual }) => {
                &&& state.active is Some
                &&& state.active->0.id == expected
                &&& actual == id
                &&& expected != id
            },
            Err(ErrorView::UnexpectedPhase { expected, actual }) => {
                &&& state.active is Some
                &&& state.active->0.id == id
                &&& state.active->0.phase == actual
                &&& stage(expected) == Some((Way::Forth, 10int))
            },
            Err(_) => false,
        },
{
}

/// A commit of the restoration is accepted for the active transition at the end of its way back,
/// and for the transition that was restored last. The first leaves the previous profile committed,
/// ends the transition and keeps its result with the reason of the failure; the second changes
/// nothing. A refused one is told why.
pub proof fn restorations_are_committed_at_the_end_of_the_way(state: StateView, id: IdView)
    ensures
        state.commit_restore_outcome(id) is Ok <==> match state.active {
            Some(t) => t.id == id && stage(t.phase) == Some((Way::Back, 4int)),
            None => state.last_result matches Some(r) && r.id == id && r.outcome
                == TransitionOutcome::PreviousProfileRestored,
        },
        state.commit_restore_outcome(id) is Ok && state.active is Some ==> {
            let t = state.active->0;
            let after = state.commit_restore(id);
            &&& after.committed_profile == t.previous_profile
            &&& after.active is None
            &&& after.last_result == Some(
                kept_result(t, TransitionOutcome::PreviousProfileRestored, t.failure_reason),
            )
            &&& after.generation == state.generation
            &&& after.schema_version == state.schema_version
        },
        state.commit_restore_outcome(id) is Err || state.active is None ==> state.commit_restore(id)
            == state,
        match state.commit_restore_outcome(id) {
            Ok(_) => true,
            Err(ErrorView::NoActiveTransition) => state.active is None,
            Err(ErrorView::TransitionIdMismatch { expected, actual }) => {
                &&& state.active is Some
                &&& state.active->0.id == expected
                &&& actual == id
                &&& expected != id
            },
            Err(ErrorView::UnexpectedPhase { expected, actual }) => {
                &&& state.active is Some
                &&& state.active->0.id == id
                &&& state.active->0.phase == actual
                &&& stage(expected) == Some((Way::Back, 4int))
            },
            Err(_) => false,
        },
{
}

/// A request to restore with a reason is accepted for the active transition on its way forth, for
/// one that turned back for the very same reason, and for the transition that was restored last.
/// Only the first changes anything: the reason is kept, and the transition turns to the beginning
/// of its way back, or is blocked where there is no profile to go back to.
pub proof fn restorations_turn_a_transition_back(state: StateView, id: IdView, reason: Seq<char>)
    ensures
        state.restore_outcome(id, reason) is Ok <==> {
            &&& !is_blank(reason)
            &&& match state.active {
                Some(t) => t.id == id && (goes_forth(t.phase) || t.failure_reason == Some(reason)),
                None => state.last_result matches Some(r) && r.id == id && r.outcome
                    == TransitionOutcome::PreviousProfileRestored,
            }
        },
        state.restore_outcome(id, reason) is Ok && state.active is Some && goes_forth(
            state.active->0.phase,
        ) ==> {
            let t = state.active->0;
            let after = state.request_restore(id, reason);
            &&& after.active is Some
            &&& after.active->0.id == t.id
            &&& after.active->0.previous_profile == t.previous_profile
            &&& after.active->0.target_profile == t.target_profile
            &&& after.active->0.failure_reason == Some(reason)
            &&& stage(after.active->0.phase) == if t.previous_profile is Some {
                Some((Way::Back, 0int))
            } else {
                None
            }
            &&& after.committed_profile == state.committed_profile
            &&& after.last_result == state.last_result
            &&& after.generation == state.generation
            &&& after.schema_version == state.schema_version
        },
        state.restore_outcome(id, reason) is Err || state.active is None || !goes_forth(
            state.active->0.phase,
        ) ==> state.request_restore(id, reason) == state,
        match state.restore_outcome(id, reason) {
            Ok(_) => true,
            Err(ErrorView::EmptyFailureReason) => is_blank(reason),
            Err(ErrorView::NoActiveTransition) => state.active is None && !is_blank(reason),
            Err(ErrorView::TransitionIdMismatch { expected, actual }) => {
                &&& state.active is Some
                &&& state.active->0.id == expected
                &&& actual == id
                &&& expected != id
                &&& !is_blank(reason)
            },
            Err(ErrorView::RestoreAlreadyRequested { phase }) => {
                &&& state.active is Some
                &&& state.active->0.id == id
                &&& state.active->0.phase == phase
                &&& !goes_forth(phase)
                &&& state.active->0.failure_reason != Some(reason)
                &&& !is_blank(reason)
            },
            Err(_) => false,
        },
        state.active is Some ==> is_restoring(state.active->0.phase) == !goes_forth(
            state.active->0.phase,
        ),
{
}

/// The request with which the party that owes an action reports it as done.
pub open spec fn report(action: NextAction, id: IdView) -> Option<Request> {
    match action {
        NextAction::CoordinatorDrainNode => Some(
            Request::Record { id, next: TransitionPhase::NodeDrained },
        ),
        NextAction::NodeWithdrawAdvertisement => Some(
            Request::Record { id, next: TransitionPhase::AdvertisementWithdrawn },
        ),
        NextAction::NodeApplyTargetProfile => Some(
            Request::Record { id, next: TransitionPhase::TargetProfileApplied },
        ),
        NextAction::NodeValidateTargetDra => Some(
            Request::Record { id, next: TransitionPhase::TargetDraValidated },
        ),
        NextAction::CoordinatorRunQualification => Some(
            Request::Record { id, next: TransitionPhase::TargetQualified },
        ),
        NextAction::NodeCommitTarget => Some(Request::CommitTarget { id }),
        NextAction::NodeApplyPreviousProfile => Some(
            Request::Record { id, next: TransitionPhase::PreviousProfileApplied },
        ),
        NextAction::NodeValidatePreviousDra => Some(
            Request::Record { id, next: TransitionPhase::PreviousDraValidated },
        ),
        NextAction::NodeCommitRestore => Some(Request::CommitRestore { id }),
        NextAction::ManualIntervention => None,
    }
}

/// The action that a state asks for is the one whose report it accepts and moves on with, and no
/// other. Only where no report at all would move it, manual intervention is asked for.
pub proof fn the_next_action_is_the_one_that_moves_on(state: StateView, action: NextAction)
    ensures
        state.next_action() is None <==> state.active is None,
        state.active is Some && action != NextAction::ManualIntervention ==> (state.next_action()
            == Some(action) <==> {
            let request = report(action, state.active->0.id)->Some_0;
            &&& is_accepted(state, request)
            &&& after_request(state, request) != state
        }),
        state.next_action() == Some(NextAction::ManualIntervention) <==> state.active is Some
            && state.active->0.phase == TransitionPhase::Blocked,
{
    if state.active is Some && action != NextAction::ManualIntervention {
        let request = report(action, state.active->0.id)->Some_0;
        let after = after_request(state, request);
        if is_accepted(state, request) {
            match request {
                Request::Record { id, next } => {
                    assert(after.active->0.phase == next);
                    if state.active->0.phase != next {
                        assert(after != state);
                    }
                },
                _ => {
                    assert(after.active is None);
                },
            }
        }
    }
}

/// A fresh state is idle, of the current schema, without history, and holds the profile that it was
/// made with.
pub proof fn fresh_states_have_no_history(committed_profile: Option<AcceleratorProfile>)
    ensures
        ({
            let state = StateView::initial(committed_profile);
            &&& state.schema_version == LifecycleState::SCHEMA_VERSION
            &&& state.generation == 0
            &&& state.committed_profile == committed_profile
            &&& state.active is None
            &&& state.last_result is None
            &&& state.next_action() is None
        }),
{
}

/// The profile that the node's own steps are about: the target on the way forth, the previous
/// profile on the way back.
pub open spec fn profile_in_play(transition: ActiveView) -> Option<AcceleratorProfile> {
    if goes_forth(transition.phase) {
        Some(transition.target_profile)
    } else {
        transition.previous_profile
    }
}

/// The step that the node owes is known by what it leads to: a withdrawal to a withdrawn
/// advertisement, an application to an applied profile, a validation to a validated one, a commit
/// to the end. A profile that is applied or validated is the target on the way forth and the
/// previous profile on the way back. The node owes a step unless there is no transition, the
/// coordinator or a person has to act, or the profile to go back to is unknown.
pub proof fn node_steps_are_about_the_right_profile(state: StateView)
    ensures
        match due_action(state) {
            None => state.active matches Some(t) ==> {
                ||| state.next_action() == Some(NextAction::CoordinatorDrainNode)
                ||| state.next_action() == Some(NextAction::CoordinatorRunQualification)
                ||| state.next_action() == Some(NextAction::ManualIntervention)
                ||| t.previous_profile is None && !goes_forth(t.phase) && t.phase
                    != TransitionPhase::PreviousDraValidated
            },
            Some(action) => {
                let t = state.active->0;
                let after = after_action(state);
                &&& state.active is Some
                &&& after == after_request(
                    state,
                    report(state.next_action()->Some_0, t.id)->Some_0,
                )
                &&& match action {
                    NodeAction::WithdrawAdvertisement => {
                        &&& after.active is Some
                        &&& after.active->0.phase == TransitionPhase::AdvertisementWithdrawn
                    },
                    NodeAction::ApplyProfile(profile) => {
                        &&& profile_in_play(t) == Some(profile)
                        &&& after.active is Some
                        &&& after.active->0.phase == if goes_forth(t.phase) {
                            TransitionPhase::TargetProfileApplied
                        } else {
                            TransitionPhase::PreviousProfileApplied
                        }
                    },
                    NodeAction::ValidateDra(profile) => {
                        &&& profile_in_play(t) == Some(profile)
                        &&& after.active is Some
                        &&& after.active->0.phase == if goes_forth(t.phase) {
                            TransitionPhase::TargetDraValidated
                        } else {
                            TransitionPhase::PreviousDraValidated
                        }
                    },
                    NodeAction::CommitTarget => {
                        &&& t.phase == TransitionPhase::TargetQualified
                        &&& after.active is None
                        &&& after.committed_profile == Some(t.target_profile)
                        &&& after.last_result->0.outcome == TransitionOutcome::TargetCommitted
                    },
                    NodeAction::CommitRestore => {
                        &&& t.phase == TransitionPhase::PreviousDraValidated
                        &&& after.active is None
                        &&& after.committed_profile == t.previous_profile
                        &&& after.last_result->0.outcome
                            == TransitionOutcome::PreviousProfileRestored
                    },
                }
            },
        },
{
    if state.active is Some {
        the_next_action_is_the_one_that_moves_on(state, state.next_action()->Some_0);
    }
}

/// What the executor is asked for, told by the phase alone: it withdraws from a drained node,
/// applies and validates the target on the way forth, applies and validates the previous profile on
/// the way back, and is left alone in every other phase.
pub proof fn the_executor_serves_the_phase<E: NodeActionExecutor>(
    state: StateView,
    before: E,
    after: E,
    outcome: Result<(), E::Error>,
)
    requires
        state.active is Some,
        performed(due_action(state), before, after, outcome),
    ensures
        ({
            let t = state.active->0;
            match t.phase {
                TransitionPhase::NodeDrained => E::withdraws(before, after, outcome),
                TransitionPhase::AdvertisementWithdrawn
                | TransitionPhase::TargetProfileRebootRequired => E::applies(
                    before,
                    t.target_profile,
                    after,
                    outcome,
                ),
                TransitionPhase::TargetProfileApplied => E::validates(
                    before,
                    t.target_profile,
                    after,
                    outcome,
                ),
                TransitionPhase::RestorePending
                | TransitionPhase::PreviousProfileRebootRequired => match t.previous_profile {
                    Some(profile) => E::applies(before, profile, after, outcome),
                    None => after == before,
                },
                TransitionPhase::PreviousProfileApplied => match t.previous_profile {
                    Some(profile) => E::validates(before, profile, after, outcome),
                    None => after == before,
                },
                _ => after == before,
            }
        }),
{
}

/// Without an active transition the executor is left alone.
pub proof fn an_idle_node_leaves_the_executor_alone<E: NodeActionExecutor>(
    state: StateView,
    before: E,
    after: E,
    outcome: Result<(), E::Error>,
)
    requires
        state.active is None,
        performed(due_action(state), before, after, outcome),
    ensures
        after == before,
{
}

/// A restoration ends with the profile that was applied and validated for it: the node is asked to
/// apply some profile, then to validate the same one, then to commit, and that profile is the
/// committed one afterwards, as it was before the transition.
pub proof fn the_restored_profile_is_the_one_applied(state: StateView)
    requires
        state.consistent(),
        state.active is Some,
        state.active->0.phase == TransitionPhase::RestorePending || state.active->0.phase
            == TransitionPhase::PreviousProfileRebootRequired,
    ensures
        ({
            let profile = due_action(state)->Some_0->ApplyProfile_0;
            let applied = after_action(state);
            let validated = after_action(applied);
            let restored = after_action(validated);
            &&& due_action(state) == Some(NodeAction::ApplyProfile(profile))
            &&& due_action(applied) == Some(NodeAction::ValidateDra(profile))
            &&& due_action(validated) == Some(NodeAction::CommitRestore)
            &&& restored.committed_profile == Some(profile)
            &&& restored.committed_profile == state.committed_profile
            &&& restored.active is None
        }),
{
}

/// A target that is committed is the profile that was applied and validated for it: the node is
/// asked to apply some profile, then to validate the same one, and once the coordinator has
/// qualified it, that profile is committed.
pub proof fn the_committed_profile_is_the_one_applied(state: StateView)
    requires
        state.active is Some,
        state.active->0.phase == TransitionPhase::AdvertisementWithdrawn || state.active->0.phase
            == TransitionPhase::TargetProfileRebootRequired,
    ensures
        ({
            let profile = due_action(state)->Some_0->ApplyProfile_0;
            let applied = after_action(state);
            let validated = after_action(applied);
            let qualified = validated.record(
                state.active->0.id,
                TransitionPhase::TargetQualified,
            );
            let committed = after_action(qualified);
            &&& due_action(state) == Some(NodeAction::ApplyProfile(profile))
            &&& due_action(applied) == Some(NodeAction::ValidateDra(profile))
            &&& due_action(validated) is None
            &&& due_action(qualified) == Some(NodeAction::CommitTarget)
            &&& committed.committed_profile == Some(profile)
            &&& committed.active is None
        }),
{
}

/// What a resume step answers: an operation that failed is reported with its failure, and only
/// then; a step that was taken is named and moves the state; otherwise the answer says who has to
/// act, and nothing moves.
pub proof fn resume_answers_say_who_acts<E>(state: StateView, outcome: Result<(), E>)
    ensures
        match concluded_answer(state, outcome) {
            Ok(ResumeStatus::Idle) => state.active is None && concluded(state, outcome) == state,
            Ok(ResumeStatus::WaitingForCoordinator { action }) => {
                &&& state.active is Some
                &&& state.next_action() == Some(action)
                &&& state.active->0.phase == TransitionPhase::IntentPersisted
                    || state.active->0.phase == TransitionPhase::TargetDraValidated
                &&& concluded(state, outcome) == state
            },
            Ok(ResumeStatus::ManualIntervention) => {
                &&& state.active is Some
                &&& state.active->0.phase == TransitionPhase::Blocked
                &&& concluded(state, outcome) == state
            },
            Ok(ResumeStatus::ActionCompleted { action }) => {
                &&& due_action(state) == Some(action)
                &&& concluded(state, outcome) == after_action(state)
                &&& outcome is Ok || action == NodeAction::CommitTarget || action
                    == NodeAction::CommitRestore
            },
            Err(ResumeErrorView::Executor(error)) => {
                &&& outcome == Err::<(), E>(error)
                &&& due_action(state) is Some
                &&& concluded(state, outcome) == state
            },
            Err(ResumeErrorView::InconsistentState(_)) => {
                &&& state.active is Some
                &&& state.active->0.previous_profile is None
                &&& stage(state.active->0.phase) matches Some((Way::Back, stage)) && stage < 4
                &&& concluded(state, outcome) == state
            },
            Err(ResumeErrorView::Lifecycle(_)) => false,
        },
        due_action(state) is Some && outcome is Ok ==> concluded_answer(state, outcome) == Ok::<
            ResumeStatus,
            ResumeErrorView<E>,
        >(ResumeStatus::ActionCompleted { action: due_action(state)->Some_0 }),
        due_action(state) == Some(NodeAction::CommitTarget) || due_action(state) == Some(
            NodeAction::CommitRestore,
        ) ==> concluded_answer(state, outcome) is Ok,
{
}

/// An answer is told as it was given: success as success, and each refusal as itself.
pub proof fn answers_are_told_as_given<E>(
    plain: Result<(), LifecycleError>,
    named: Result<TransitionId, LifecycleError>,
    resumed: Result<ResumeStatus, ResumeError<E>>,
)
    ensures
        match plain {
            Ok(_) => answer(plain) is Ok,
            Err(error) => answer(plain) == Err::<(), ErrorView>(error@),
        },
        match named {
            Ok(id) => id_answer(named) == Ok::<IdView, ErrorView>(id@),
            Err(error) => id_answer(named) == Err::<IdView, ErrorView>(error@),
        },
        match resumed {
            Ok(status) => resume_answer(resumed) == Ok::<ResumeStatus, ResumeErrorView<E>>(status),
            Err(error) => resume_answer(resumed) == Err::<ResumeStatus, ResumeErrorView<E>>(
                error.model(),
            ),
        },
        resumed matches Err(ResumeError::Executor(error)) ==> executor_outcome(resumed) == Err::<
            (),
            E,
        >(error),
        !(resumed is Err && resumed->Err_0 is Executor) ==> executor_outcome(resumed) is Ok,
{
}

} // verus!
