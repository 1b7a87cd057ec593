//! What holds of the lifecycle protocol as a whole.

use crate::model::{is_restoring, leads_to, ErrorView, IdView, StateView};
use crate::resume::{
    after_action, concluded, concluded_answer, due_action, needs_executor, ResumeErrorView,
    ResumeStatus,
};
use crate::state::{AcceleratorProfile, NextAction, TransitionOutcome, TransitionPhase};
use crate::text::is_blank;
use vstd::prelude::*;

verus! {

/// One request to the lifecycle state.
pub enum Request {
    Begin { token: Seq<char>, target: AcceleratorProfile, expected_generation: u64 },
    Record { id: IdView, next: TransitionPhase },
    CommitTarget { id: IdView },
    RequestRestore { id: IdView, reason: Seq<char> },
    CommitRestore { id: IdView },
}

/// The state after one request.
pub open spec fn after_request(state: StateView, request: Request) -> StateView {
    match request {
        Request::Begin { token, target, expected_generation } => state.begin(
            token,
            target,
            expected_generation,
        ),
        Request::Record { id, next } => state.record(id, next),
        Request::CommitTarget { id } => state.commit_target(id),
        Request::RequestRestore { id, reason } => state.request_restore(id, reason),
        Request::CommitRestore { id } => state.commit_restore(id),
    }
}

/// The request is accepted.
pub open spec fn is_accepted(state: StateView, request: Request) -> bool {
    match request {
        Request::Begin { token, target, expected_generation } => state.begin_outcome(
            token,
            target,
            expected_generation,
        ) is Ok,
        Request::Record { id, next } => state.record_outcome(id, next) is Ok,
        Request::CommitTarget { id } => state.commit_target_outcome(id) is Ok,
        Request::RequestRestore { id, reason } => state.restore_outcome(id, reason) is Ok,
        Request::CommitRestore { id } => state.commit_restore_outcome(id) is Ok,
    }
}

/// The state after a series of requests.
pub open spec fn after_requests(state: StateView, requests: Seq<Request>) -> StateView
    decreases requests.len(),
{
    if requests.len() == 0 {
        state
    } else {
        after_request(after_requests(state, requests.drop_last()), requests.last())
    }
}

/// A request keeps a consistent state consistent, whether it is accepted or not.
pub proof fn requests_keep_consistency(state: StateView, request: Request)
    requires
        state.consistent(),
    ensures
        after_request(state, request).consistent(),
{
}

/// Whatever a coordinator and a node ask for, in whatever order, the state stays consistent.
pub proof fn reachable_states_are_consistent(
    committed_profile: Option<AcceleratorProfile>,
    requests: Seq<Request>,
)
    ensures
        after_requests(StateView::initial(committed_profile), requests).consistent(),
    decreases requests.len(),
{
    if requests.len() > 0 {
        reachable_states_are_consistent(committed_profile, requests.drop_last());
        requests_keep_consistency(
            after_requests(StateView::initial(committed_profile), requests.drop_last()),
            requests.last(),
        );
    }
}

/// A refused request changes nothing.
pub proof fn refused_requests_change_nothing(state: StateView, request: Request)
    requires
        !is_accepted(state, request),
    ensures
        after_request(state, request) == state,
{
}

/// Repeating an accepted request is accepted again and changes nothing more: a caller that never
/// saw the first answer may simply ask again.
pub proof fn repeated_requests_are_idempotent(state: StateView, request: Request)
    requires
        is_accepted(state, request),
    ensures
        is_accepted(after_request(state, request), request),
        after_request(after_request(state, request), request) == after_request(state, request),
{
}

/// Repeating an accepted request to begin gives the original identity.
pub proof fn repeated_begin_returns_the_original_id(
    state: StateView,
    token: Seq<char>,
    target: AcceleratorProfile,
    expected_generation: u64,
)
    requires
        state.begin_outcome(token, target, expected_generation) is Ok,
    ensures
        state.begin(token, target, expected_generation).begin_outcome(
            token,
            target,
            expected_generation,
        ) == state.begin_outcome(token, target, expected_generation),
{
}

/// The request that opened a transition is answered with the original identity and changes nothing,
/// while the transition is active and after it has ended, whether its target was committed or the
/// previous profile restored. It is so until a newer transition begins.
pub proof fn begin_can_be_retried_until_superseded(state: StateView)
    requires
        state.consistent(),
    ensures
        state.active matches Some(t) ==> {
            let observed = (t.id.generation - 1) as u64;
            &&& state.begin_outcome(t.id.token, t.target_profile, observed) == Ok::<
                IdView,
                ErrorView,
            >(t.id)
            &&& state.begin(t.id.token, t.target_profile, observed) == state
        },
        state.active is None ==> (state.last_result matches Some(r) ==> {
            let observed = (r.id.generation - 1) as u64;
            &&& state.begin_outcome(r.id.token, r.target_profile, observed) == Ok::<
                IdView,
                ErrorView,
            >(r.id)
            &&& state.begin(r.id.token, r.target_profile, observed) == state
        }),
{
}

/// The token of the last finished transition opens no other one: with another target or another
/// observed generation it is refused.
pub proof fn a_token_is_used_once(
    state: StateView,
    target: AcceleratorProfile,
    expected_generation: u64,
)
    requires
        state.consistent(),
        state.active is None,
        state.last_result is Some,
        expected_generation < u64::MAX,
        state.last_result->0.id.generation != expected_generation + 1
            || state.last_result->0.target_profile != target,
    ensures
        state.begin_outcome(state.last_result->0.id.token, target, expected_generation) == Err::<
            IdView,
            ErrorView,
        >(
            ErrorView::TransitionTokenAlreadyUsed {
                token: state.last_result->0.id.token,
                generation: state.last_result->0.id.generation,
                outcome: state.last_result->0.outcome,
            },
        ),
{
}

/// A transition is opened only for a caller that observed the current generation, and it opens
/// the next one.
pub proof fn only_the_current_generation_opens_a_transition(
    state: StateView,
    token: Seq<char>,
    target: AcceleratorProfile,
    expected_generation: u64,
)
    requires
        state.begin(token, target, expected_generation) != state,
    ensures
        expected_generation == state.generation,
        state.begin(token, target, expected_generation).generation == state.generation + 1,
        state.begin_outcome(token, target, expected_generation) == Ok::<IdView, ErrorView>(
            IdView { generation: (state.generation + 1) as u64, token },
        ),
{
}

/// Once a newer generation exists than the one a request asked for, the request is rejected
/// instead of replayed.
pub proof fn old_requests_are_rejected(
    state: StateView,
    token: Seq<char>,
    target: AcceleratorProfile,
    expected_generation: u64,
)
    requires
        state.consistent(),
        expected_generation + 1 < state.generation,
    ensures
        state.begin_outcome(token, target, expected_generation) is Err,
        state.begin(token, target, expected_generation) == state,
{
}

/// Generations only grow, one at a time.
pub proof fn generations_only_grow(state: StateView, request: Request)
    ensures
        state.generation <= after_request(state, request).generation <= state.generation + 1,
{
}

/// Generations never fall, over any series of requests.
pub proof fn generations_never_fall(state: StateView, requests: Seq<Request>)
    ensures
        state.generation <= after_requests(state, requests).generation,
    decreases requests.len(),
{
    if requests.len() > 0 {
        generations_never_fall(state, requests.drop_last());
        generations_only_grow(after_requests(state, requests.drop_last()), requests.last());
    }
}

/// An accepted request to begin that was overtaken by a newer generation is rejected from then
/// on, whatever else happened.
pub proof fn overtaken_begin_is_never_replayed(
    state: StateView,
    token: Seq<char>,
    target: AcceleratorProfile,
    expected_generation: u64,
    before: Seq<Request>,
    after: Seq<Request>,
)
    requires
        state.consistent(),
        expected_generation + 1 < after_requests(state, before).generation,
    ensures
        after_requests(after_requests(state, before), after).begin_outcome(
            token,
            target,
            expected_generation,
        ) is Err,
{
    requests_keep_consistency_throughout(state, before);
    requests_keep_consistency_throughout(after_requests(state, before), after);
    generations_never_fall(after_requests(state, before), after);
    old_requests_are_rejected(
        after_requests(after_requests(state, before), after),
        token,
        target,
        expected_generation,
    );
}

/// A series of requests keeps a consistent state consistent.
pub proof fn requests_keep_consistency_throughout(state: StateView, requests: Seq<Request>)
    requires
        state.consistent(),
    ensures
        after_requests(state, requests).consistent(),
    decreases requests.len(),
{
    if requests.len() > 0 {
        requests_keep_consistency_throughout(state, requests.drop_last());
        requests_keep_consistency(
            after_requests(state, requests.drop_last()),
            requests.last(),
        );
    }
}

/// While a transition is active, a request under any other identity is refused.
pub proof fn stale_ids_are_rejected(state: StateView, request: Request)
    requires
        state.active is Some,
        match request {
            Request::Begin { .. } => false,
            Request::Record { id, .. } => id != state.active->0.id,
            Request::CommitTarget { id } => id != state.active->0.id,
            Request::RequestRestore { id, .. } => id != state.active->0.id,
            Request::CommitRestore { id } => id != state.active->0.id,
        },
    ensures
        !is_accepted(state, request),
        after_request(state, request) == state,
{
}

/// The committed profile changes in one way only: a qualified transition commits its target.
pub proof fn only_a_qualified_target_is_committed(state: StateView, request: Request)
    requires
        state.consistent(),
        after_request(state, request).committed_profile != state.committed_profile,
    ensures
        state.active is Some,
        request == (Request::CommitTarget { id: state.active->0.id }),
        state.active->0.phase == TransitionPhase::TargetQualified,
        after_request(state, request).committed_profile == Some(state.active->0.target_profile),
{
}

/// A restored transition leaves the node with the profile that it had when the transition began.
pub proof fn restoring_keeps_the_committed_profile(state: StateView, id: IdView)
    requires
        state.consistent(),
        state.active is Some,
        state.commit_restore_outcome(id) is Ok,
    ensures
        state.commit_restore(id).committed_profile == state.committed_profile,
        state.commit_restore(id).active is None,
        state.commit_restore(id).completed_with(id, TransitionOutcome::PreviousProfileRestored),
        state.commit_restore(id).last_result->0.failure_reason
            == state.active->0.failure_reason,
{
}

/// How far a phase is from the beginning of a transition.
pub open spec fn progress(phase: TransitionPhase) -> nat {
    match phase {
        TransitionPhase::IntentPersisted => 0,
        TransitionPhase::NodeDrained => 1,
        TransitionPhase::AdvertisementWithdrawn => 2,
        TransitionPhase::TargetProfileRebootRequired => 3,
        TransitionPhase::TargetProfileApplied => 4,
        TransitionPhase::TargetDraValidated => 5,
        TransitionPhase::TargetQualified => 6,
        TransitionPhase::RestorePending => 7,
        TransitionPhase::PreviousProfileRebootRequired => 8,
        TransitionPhase::PreviousProfileApplied => 9,
        TransitionPhase::PreviousDraValidated => 10,
        TransitionPhase::Blocked => 7,
    }
}

/// A transition moves along the protocol's table or turns to its restoration, and never back.
pub proof fn transitions_only_move_forward(state: StateView, request: Request)
    requires
        state.active is Some,
        after_request(state, request).active is Some,
    ensures
        ({
            let before = state.active->0;
            let after = after_request(state, request).active->0;
            &&& after.id == before.id
            &&& after.previous_profile == before.previous_profile
            &&& after.target_profile == before.target_profile
            &&& after.phase != before.phase ==> {
                &&& progress(before.phase) < progress(after.phase)
                &&& {
                    ||| leads_to(before.phase, after.phase)
                    ||| !is_restoring(before.phase) && after.phase == (
                    if before.previous_profile is Some {
                        TransitionPhase::RestorePending
                    } else {
                        TransitionPhase::Blocked
                    })
                }
            }
        }),
{
}

/// A transition whose restoration was requested can only be restored: its target is never
/// committed.
pub proof fn a_failed_transition_is_never_committed(state: StateView, request: Request)
    requires
        state.consistent(),
        state.active is Some,
        is_restoring(state.active->0.phase),
    ensures
        after_request(state, request).committed_profile == state.committed_profile,
        match after_request(state, request).active {
            Some(t) => t.id == state.active->0.id && is_restoring(t.phase) && t.failure_reason
                == state.active->0.failure_reason,
            None => after_request(state, request).completed_with(
                state.active->0.id,
                TransitionOutcome::PreviousProfileRestored,
            ),
        },
{
}

/// Nothing but manual intervention leads out of a blocked transition.
pub proof fn a_blocked_transition_stays_blocked(state: StateView, request: Request)
    requires
        state.active is Some,
        state.active->0.phase == TransitionPhase::Blocked,
    ensures
        after_request(state, request) == state,
{
}

/// In a consistent state the node's own steps fail only with their operation.
pub proof fn consistent_states_can_resume<E>(state: StateView, outcome: Result<(), E>)
    requires
        state.consistent(),
    ensures
        match concluded_answer(state, outcome) {
            Ok(_) => true,
            Err(error) => outcome is Err && error == ResumeErrorView::Executor(outcome->Err_0),
        },
{
}

/// The state moves only with a step that is completed: an operation that fails leaves it as it was
/// and is answered with its failure, and without a step to take nothing moves at all.
pub proof fn unfinished_steps_change_nothing<E>(state: StateView, outcome: Result<(), E>)
    ensures
        due_action(state) is None ==> concluded(state, outcome) == state,
        due_action(state) matches Some(action) && needs_executor(action) && outcome is Err ==> {
            &&& concluded(state, outcome) == state
            &&& concluded_answer(state, outcome) == Err::<ResumeStatus, ResumeErrorView<E>>(
                ResumeErrorView::Executor(outcome->Err_0),
            )
        },
{
}

/// A completed step of the node is one of the requests above, under the active identity.
pub proof fn node_steps_are_requests(state: StateView)
    requires
        due_action(state) is Some,
    ensures
        exists|request: Request|
            #[trigger] is_accepted(state, request) && after_request(state, request) == after_action(
                state,
            ),
{
    let id = state.active->0.id;
    let request = match state.active->0.phase {
        TransitionPhase::NodeDrained => Request::Record {
            id,
            next: TransitionPhase::AdvertisementWithdrawn,
        },
        TransitionPhase::AdvertisementWithdrawn => Request::Record {
            id,
            next: TransitionPhase::TargetProfileApplied,
        },
        TransitionPhase::TargetProfileRebootRequired => Request::Record {
            id,
            next: TransitionPhase::TargetProfileApplied,
        },
        TransitionPhase::TargetProfileApplied => Request::Record {
            id,
            next: TransitionPhase::TargetDraValidated,
        },
        TransitionPhase::TargetQualified => Request::CommitTarget { id },
        TransitionPhase::RestorePending => Request::Record {
            id,
            next: TransitionPhase::PreviousProfileApplied,
        },
        TransitionPhase::PreviousProfileRebootRequired => Request::Record {
            id,
            next: TransitionPhase::PreviousProfileApplied,
        },
        TransitionPhase::PreviousProfileApplied => Request::Record {
            id,
            next: TransitionPhase::PreviousDraValidated,
        },
        _ => Request::CommitRestore { id },
    };
    assert(is_accepted(state, request));
    assert(after_request(state, request) == after_action(state));
}

/// The node's own steps keep a consistent state consistent.
pub proof fn node_steps_keep_consistency(state: StateView)
    requires
        state.consistent(),
        due_action(state) is Some,
    ensures
        after_action(state).consistent(),
{
    node_steps_are_requests(state);
    let request = choose|request: Request|
        #[trigger] is_accepted(state, request) && after_request(state, request) == after_action(
            state,
        );
    requests_keep_consistency(state, request);
}

/// How many steps the node can take in a row before somebody else has to act.
pub open spec fn steps_ahead(state: StateView) -> nat {
    if due_action(state) is None {
        0
    } else {
        match state.active->0.phase {
            TransitionPhase::NodeDrained => 3,
            TransitionPhase::AdvertisementWithdrawn => 2,
            TransitionPhase::TargetProfileRebootRequired => 2,
            TransitionPhase::TargetProfileApplied => 1,
            TransitionPhase::TargetQualified => 1,
            TransitionPhase::RestorePending => 3,
            TransitionPhase::PreviousProfileRebootRequired => 3,
            TransitionPhase::PreviousProfileApplied => 2,
            _ => 1,
        }
    }
}

/// The node takes at most three steps in a row, and each brings it one closer to the last.
pub proof fn node_steps_run_out(state: StateView)
    ensures
        steps_ahead(state) <= 3,
        steps_ahead(state) > 0 <==> due_action(state) is Some,
        due_action(state) is Some ==> steps_ahead(after_action(state)) == steps_ahead(state) - 1,
{
}

/// The requests that drive a new transition to its commit.
pub open spec fn commit_requests(
    token: Seq<char>,
    target: AcceleratorProfile,
    expected_generation: u64,
) -> Seq<Request> {
    let id = IdView { generation: (expected_generation + 1) as u64, token };
    seq![
        Request::Begin { token, target, expected_generation },
        Request::Record { id, next: TransitionPhase::NodeDrained },
        Request::Record { id, next: TransitionPhase::AdvertisementWithdrawn },
        Request::Record { id, next: TransitionPhase::TargetProfileApplied },
        Request::Record { id, next: TransitionPhase::TargetDraValidated },
        Request::Record { id, next: TransitionPhase::TargetQualified },
        Request::CommitTarget { id },
    ]
}

/// The requests that drive a transition that failed back to the previous profile.
pub open spec fn restore_requests(id: IdView, reason: Seq<char>) -> Seq<Request> {
    seq![
        Request::RequestRestore { id, reason },
        Request::Record { id, next: TransitionPhase::PreviousProfileApplied },
        Request::Record { id, next: TransitionPhase::PreviousDraValidated },
        Request::CommitRestore { id },
    ]
}

/// Every request of a series is accepted in its turn.
pub open spec fn all_accepted(state: StateView, requests: Seq<Request>) -> bool
    decreases requests.len(),
{
    requests.len() == 0 || {
        &&& is_accepted(state, requests.first())
        &&& all_accepted(after_request(state, requests.first()), requests.drop_first())
    }
}

/// The first of a series of requests, then the rest.
proof fn lemma_requests_from_the_front(state: StateView, requests: Seq<Request>)
    requires
        requests.len() > 0,
    ensures
        after_requests(state, requests) == after_requests(
            after_request(state, requests.first()),
            requests.drop_first(),
        ),
    decreases requests.len(),
{
    if requests.len() == 1 {
        assert(after_requests(state, requests.drop_last()) == state);
        assert(requests.drop_first().len() == 0);
    } else {
        lemma_requests_from_the_front(state, requests.drop_last());
        assert(requests.drop_last().drop_first() =~= requests.drop_first().drop_last());
        assert(requests.drop_last().first() == requests.first());
        assert(requests.drop_first().last() == requests.last());
    }
}

/// From any state without an active transition, a new request with a fresh token for another
/// profile can be driven step by step to its commit.
pub proof fn a_transition_can_be_committed(
    state: StateView,
    token: Seq<char>,
    target: AcceleratorProfile,
)
    requires
        state.active is None,
        state.generation < u64::MAX,
        !is_blank(token),
        state.last_result matches Some(r) ==> r.id.token != token,
        state.committed_profile != Some(target),
    ensures
        all_accepted(state, commit_requests(token, target, state.generation)),
        ({
            let id = IdView { generation: (state.generation + 1) as u64, token };
            let end = after_requests(state, commit_requests(token, target, state.generation));
            &&& end.active is None
            &&& end.committed_profile == Some(target)
            &&& end.generation == state.generation + 1
            &&& end.completed_with(id, TransitionOutcome::TargetCommitted)
            &&& end.last_result->0.previous_profile == state.committed_profile
        }),
{
    let requests = commit_requests(token, target, state.generation);
    let s1 = after_request(state, requests[0]);
    let s2 = after_request(s1, requests[1]);
    let s3 = after_request(s2, requests[2]);
    let s4 = after_request(s3, requests[3]);
    let s5 = after_request(s4, requests[4]);
    let s6 = after_request(s5, requests[5]);
    let s7 = after_request(s6, requests[6]);
    let r1 = requests.drop_first();
    let r2 = r1.drop_first();
    let r3 = r2.drop_first();
    let r4 = r3.drop_first();
    let r5 = r4.drop_first();
    let r6 = r5.drop_first();
    lemma_requests_from_the_front(state, requests);
    lemma_requests_from_the_front(s1, r1);
    lemma_requests_from_the_front(s2, r2);
    lemma_requests_from_the_front(s3, r3);
    lemma_requests_from_the_front(s4, r4);
    lemma_requests_from_the_front(s5, r5);
    lemma_requests_from_the_front(s6, r6);
    assert(all_accepted(s7, r6.drop_first()));
    assert(all_accepted(s6, r6));
    assert(all_accepted(s5, r5));
    assert(all_accepted(s4, r4));
    assert(all_accepted(s3, r3));
    assert(all_accepted(s2, r2));
    assert(all_accepted(s1, r1));
    assert(after_requests(s7, r6.drop_first()) == s7);
}

/// A transition that has a profile to go back to can be driven back to it from every phase in
/// which it has not failed yet.
pub proof fn a_failed_transition_can_be_restored(state: StateView, reason: Seq<char>)
    requires
        state.consistent(),
        state.active is Some,
        state.active->0.previous_profile is Some,
        !is_restoring(state.active->0.phase),
        !is_blank(reason),
    ensures
        all_accepted(state, restore_requests(state.active->0.id, reason)),
        ({
            let end = after_requests(state, restore_requests(state.active->0.id, reason));
            &&& end.active is None
            &&& end.committed_profile == state.committed_profile
            &&& end.generation == state.generation
            &&& end.completed_with(
                state.active->0.id,
                TransitionOutcome::PreviousProfileRestored,
            )
            &&& end.last_result->0.failure_reason == Some(reason)
        }),
{
    let requests = restore_requests(state.active->0.id, reason);
    let s1 = after_request(state, requests[0]);
    let s2 = after_request(s1, requests[1]);
    let s3 = after_request(s2, requests[2]);
    let s4 = after_request(s3, requests[3]);
    let r1 = requests.drop_first();
    let r2 = r1.drop_first();
    let r3 = r2.drop_first();
    lemma_requests_from_the_front(state, requests);
    lemma_requests_from_the_front(s1, r1);
    lemma_requests_from_the_front(s2, r2);
    lemma_requests_from_the_front(s3, r3);
    assert(all_accepted(s4, r3.drop_first()));
    assert(all_accepted(s3, r3));
    assert(all_accepted(s2, r2));
    assert(all_accepted(s1, r1));
    assert(after_requests(s4, r3.drop_first()) == s4);
}

/// A first transition that fails has no profile to go back to: it is blocked.
pub proof fn a_failed_first_transition_is_blocked(state: StateView, reason: Seq<char>)
    requires
        state.consistent(),
        state.active is Some,
        state.active->0.previous_profile is None,
        !is_restoring(state.active->0.phase),
        !is_blank(reason),
    ensures
        state.restore_outcome(state.active->0.id, reason) is Ok,
        state.request_restore(state.active->0.id, reason).active->0.phase
            == TransitionPhase::Blocked,
        state.request_restore(state.active->0.id, reason).next_action() == Some(
            NextAction::ManualIntervention,
        ),
{
}

/// A profile that takes effect only after a reboot is applied again after it: recording the reboot
/// requirement leaves the node with the step that it owed before.
pub proof fn a_reboot_repeats_the_step(state: StateView, id: IdView, next: TransitionPhase)
    requires
        next == TransitionPhase::TargetProfileRebootRequired || next
            == TransitionPhase::PreviousProfileRebootRequired,
        state.record_outcome(id, next) is Ok,
    ensures
        state.record(id, next).active->0.phase == next,
        due_action(state.record(id, next)) == due_action(state),
        state.record(id, next).next_action() == state.next_action(),
{
}

/// A transition that failed has not been committed: it is still being restored, it was restored, or
/// it is older than the last finished one.
pub open spec fn is_given_up(state: StateView, id: IdView) -> bool {
    ||| state.active matches Some(t) && t.id == id && is_restoring(t.phase)
    ||| state.completed_with(id, TransitionOutcome::PreviousProfileRestored)
    ||| state.last_result matches Some(r) && r.id.generation > id.generation
}

/// A transition whose restoration was once accepted is never committed, whatever is asked for
/// afterwards: as long as it is active it is being restored.
pub proof fn a_restored_transition_is_never_committed_later(
    state: StateView,
    id: IdView,
    reason: Seq<char>,
    requests: Seq<Request>,
)
    requires
        state.consistent(),
        is_accepted(state, Request::RequestRestore { id, reason }),
    ensures
        ({
            let later = after_requests(
                after_request(state, Request::RequestRestore { id, reason }),
                requests,
            );
            &&& is_given_up(later, id)
            &&& !later.completed_with(id, TransitionOutcome::TargetCommitted)
            &&& later.active matches Some(t) ==> t.id == id ==> is_restoring(t.phase)
        }),
{
    let restoring = after_request(state, Request::RequestRestore { id, reason });
    requests_keep_consistency(state, Request::RequestRestore { id, reason });
    assert(is_given_up(restoring, id));
    lemma_given_up_for_good(restoring, id, requests);
}

proof fn lemma_given_up_for_good(state: StateView, id: IdView, requests: Seq<Request>)
    requires
        state.consistent(),
        is_given_up(state, id),
    ensures
        is_given_up(after_requests(state, requests), id),
        after_requests(state, requests).consistent(),
    decreases requests.len(),
{
    requests_keep_consistency_throughout(state, requests);
    if requests.len() > 0 {
        lemma_given_up_for_good(state, id, requests.drop_last());
    }
}

/// How many of the requests open a transition.
pub open spec fn openings(state: StateView, requests: Seq<Request>) -> nat
    decreases requests.len(),
{
    if requests.len() == 0 {
        0
    } else {
        openings(state, requests.drop_last()) + if opens(
            after_requests(state, requests.drop_last()),
            requests.last(),
        ) {
            1nat
        } else {
            0nat
        }
    }
}

/// The request opens a transition: there was none, and now there is.
pub open spec fn opens(state: StateView, request: Request) -> bool {
    state.active is None && after_request(state, request).active is Some
}

/// The generation counts the transitions that were opened.
pub proof fn the_generation_counts_transitions(state: StateView, requests: Seq<Request>)
    ensures
        after_requests(state, requests).generation == state.generation + openings(state, requests),
    decreases requests.len(),
{
    if requests.len() > 0 {
        the_generation_counts_transitions(state, requests.drop_last());
    }
}

/// The state before the request at `i`.
pub open spec fn before(state: StateView, requests: Seq<Request>, i: int) -> StateView {
    after_requests(state, requests.take(i))
}

/// The request at `i` opened the transition `id` for `target`.
pub open spec fn opened_at(
    state: StateView,
    requests: Seq<Request>,
    i: int,
    id: IdView,
    target: AcceleratorProfile,
) -> bool {
    &&& 0 <= i < requests.len()
    &&& id.generation >= 1
    &&& requests[i] == (Request::Begin {
        token: id.token,
        target,
        expected_generation: (id.generation - 1) as u64,
    })
    &&& is_accepted(before(state, requests, i), requests[i])
    &&& opens(before(state, requests, i), requests[i])
}

/// The request at `i` moved the transition `id` to `phase`, from a phase that leads there.
pub open spec fn moved_at(
    state: StateView,
    requests: Seq<Request>,
    i: int,
    id: IdView,
    phase: TransitionPhase,
) -> bool {
    &&& 0 <= i < requests.len()
    &&& requests[i] == (Request::Record { id, next: phase })
    &&& is_accepted(before(state, requests, i), requests[i])
    &&& before(state, requests, i).active matches Some(t) && t.id == id && leads_to(t.phase, phase)
}

/// A transition that has not failed came to its phase by one request: the one that opened it, or
/// the acknowledgement of that phase.
proof fn lemma_last_move(state: StateView, requests: Seq<Request>) -> (i: int)
    requires
        state.active is None,
        after_requests(state, requests).active is Some,
        !is_restoring(after_requests(state, requests).active->0.phase),
    ensures
        ({
            let t = after_requests(state, requests).active->0;
            if t.phase == TransitionPhase::IntentPersisted {
                opened_at(state, requests, i, t.id, t.target_profile)
            } else {
                &&& moved_at(state, requests, i, t.id, t.phase)
                &&& before(state, requests, i).active->0.target_profile == t.target_profile
            }
        }),
    decreases requests.len(),
{
    let shorter = requests.drop_last();
    let last = requests.last();
    let n = requests.len() - 1;
    assert(requests.len() > 0);
    assert(requests.take(n) =~= shorter);
    let was = after_requests(state, shorter);
    let now = after_requests(state, requests).active->0;
    if was.active is Some && was.active->0.phase == now.phase {
        transitions_only_move_forward(was, last);
        let i = lemma_last_move(state, shorter);
        assert(requests.take(i) =~= shorter.take(i));
        assert(requests[i] == shorter[i]);
        i
    } else {
        n
    }
}

/// A qualified transition was opened, drained, withdrawn, applied, validated and qualified, in this
/// order, each by a request of its own that was accepted, and no request to restore it was.
pub proof fn qualified_transitions_took_every_step(state: StateView, requests: Seq<Request>)
    requires
        state.consistent(),
        state.active is None,
        after_requests(state, requests).active is Some,
        after_requests(state, requests).active->0.phase == TransitionPhase::TargetQualified,
    ensures
        ({
            let t = after_requests(state, requests).active->0;
            exists|a: int, b: int, c: int, d: int, e: int, f: int|
                a < b < c < d < e < f && #[trigger] opened_at(
                    state,
                    requests,
                    a,
                    t.id,
                    t.target_profile,
                ) && #[trigger] moved_at(state, requests, b, t.id, TransitionPhase::NodeDrained)
                    && #[trigger] moved_at(
                    state,
                    requests,
                    c,
                    t.id,
                    TransitionPhase::AdvertisementWithdrawn,
                ) && #[trigger] moved_at(
                    state,
                    requests,
                    d,
                    t.id,
                    TransitionPhase::TargetProfileApplied,
                ) && #[trigger] moved_at(
                    state,
                    requests,
                    e,
                    t.id,
                    TransitionPhase::TargetDraValidated,
                ) && #[trigger] moved_at(
                    state,
                    requests,
                    f,
                    t.id,
                    TransitionPhase::TargetQualified,
                )
        }),
        forall|k: int|
            0 <= k < requests.len() && #[trigger] requests[k] is RequestRestore
                && requests[k]->RequestRestore_id == after_requests(state, requests).active->0.id
                ==> !is_accepted(before(state, requests, k), requests[k]),
{
    let t = after_requests(state, requests).active->0;
    let f = lemma_last_move(state, requests);
    let e = lemma_move_before(state, requests, f);
    let d = lemma_move_before(state, requests, e);
    let d_before = before(state, requests, d).active->0.phase;
    let c = if d_before == TransitionPhase::TargetProfileRebootRequired {
        let r = lemma_move_before(state, requests, d);
        lemma_move_before(state, requests, r)
    } else {
        lemma_move_before(state, requests, d)
    };
    let b = lemma_move_before(state, requests, c);
    let a = lemma_move_before(state, requests, b);
    assert(opened_at(state, requests, a, t.id, t.target_profile));
    assert(moved_at(state, requests, b, t.id, TransitionPhase::NodeDrained));
    assert(moved_at(state, requests, c, t.id, TransitionPhase::AdvertisementWithdrawn));
    assert(moved_at(state, requests, d, t.id, TransitionPhase::TargetProfileApplied));
    assert(moved_at(state, requests, e, t.id, TransitionPhase::TargetDraValidated));
    assert(moved_at(state, requests, f, t.id, TransitionPhase::TargetQualified));
    assert forall|k: int|
        0 <= k < requests.len() && #[trigger] requests[k] is RequestRestore
            && requests[k]->RequestRestore_id == t.id implies !is_accepted(
        before(state, requests, k),
        requests[k],
    ) by {
        if is_accepted(before(state, requests, k), requests[k]) {
            requests_keep_consistency_throughout(state, requests.take(k));
            a_restored_transition_is_never_committed_later(
                before(state, requests, k),
                t.id,
                requests[k]->reason,
                requests.skip(k + 1),
            );
            lemma_requests_in_two_parts(state, requests, k);
        }
    }
}

/// The move before the one at `i`.
proof fn lemma_move_before(state: StateView, requests: Seq<Request>, i: int) -> (j: int)
    requires
        state.active is None,
        0 <= i < requests.len(),
        before(state, requests, i).active is Some,
        !is_restoring(before(state, requests, i).active->0.phase),
    ensures
        j < i,
        ({
            let t = before(state, requests, i).active->0;
            if t.phase == TransitionPhase::IntentPersisted {
                opened_at(state, requests, j, t.id, t.target_profile)
            } else {
                &&& moved_at(state, requests, j, t.id, t.phase)
                &&& before(state, requests, j).active->0.target_profile == t.target_profile
            }
        }),
{
    let prefix = requests.take(i);
    let j = lemma_last_move(state, prefix);
    assert(prefix.take(j) =~= requests.take(j));
    assert(prefix[j] == requests[j]);
    j
}

/// A series of requests is what comes before the one at `k`, that one, and what follows.
proof fn lemma_requests_in_two_parts(state: StateView, requests: Seq<Request>, k: int)
    requires
        0 <= k < requests.len(),
    ensures
        after_requests(state, requests) == after_requests(
            after_request(before(state, requests, k), requests[k]),
            requests.skip(k + 1),
        ),
    decreases requests.len(),
{
    if k == requests.len() - 1 {
        assert(requests.take(k) =~= requests.drop_last());
        assert(requests.skip(k + 1).len() == 0);
    } else {
        let shorter = requests.drop_last();
        lemma_requests_in_two_parts(state, shorter, k);
        assert(shorter.take(k) =~= requests.take(k));
        assert(shorter.skip(k + 1) =~= requests.skip(k + 1).drop_last());
        assert(requests.skip(k + 1).last() == requests.last());
    }
}

/// A transition that was committed was qualified when the commit was asked for.
pub proof fn committed_transitions_were_qualified(
    state: StateView,
    requests: Seq<Request>,
    id: IdView,
)
    requires
        state.last_result is None,
        after_requests(state, requests).completed_with(id, TransitionOutcome::TargetCommitted),
    ensures
        exists|i: int|
            0 <= i < requests.len() && #[trigger] requests[i] == (Request::CommitTarget { id })
                && before(state, requests, i).active is Some && before(
                state,
                requests,
                i,
            ).active->0.id == id && before(state, requests, i).active->0.phase
                == TransitionPhase::TargetQualified,
    decreases requests.len(),
{
    let shorter = requests.drop_last();
    let n = requests.len() - 1;
    assert(requests.len() > 0);
    assert(requests.take(n) =~= shorter);
    if after_requests(state, shorter).completed_with(id, TransitionOutcome::TargetCommitted) {
        committed_transitions_were_qualified(state, shorter, id);
        let i = choose|i: int|
            0 <= i < shorter.len() && #[trigger] shorter[i] == (Request::CommitTarget { id })
                && before(state, shorter, i).active is Some && before(
                state,
                shorter,
                i,
            ).active->0.id == id && before(state, shorter, i).active->0.phase
                == TransitionPhase::TargetQualified;
        assert(requests.take(i) =~= shorter.take(i));
        assert(requests[i] == shorter[i]);
    } else {
        assert(requests[n] == requests.last());
    }
}

} // verus!
