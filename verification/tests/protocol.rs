use accelerator_node_lifecycle::resume::{conclude_node_action, due_node_action};
use accelerator_node_lifecycle::state::ActiveTransition;
use accelerator_node_lifecycle::{
    AcceleratorProfile, LifecycleError, LifecycleState, NextAction, NodeAction, ResumeError,
    ResumeStatus, TransitionId, TransitionOutcome, TransitionPhase,
};
use std::collections::HashSet;

const SHARED: AcceleratorProfile = AcceleratorProfile::SharedInference;
const TRAINING: AcceleratorProfile = AcceleratorProfile::DistributedTraining;

type Request = Box<dyn Fn(&mut LifecycleState) -> Result<(), LifecycleError>>;

type Record = fn(&mut LifecycleState, &TransitionId) -> Result<(), LifecycleError>;

const RECORDS: [Record; 10] = [
    LifecycleState::record_node_drained,
    LifecycleState::record_advertisement_withdrawn,
    LifecycleState::record_target_profile_reboot_required,
    LifecycleState::record_target_profile_applied,
    LifecycleState::record_target_dra_validated,
    LifecycleState::record_target_qualified,
    LifecycleState::record_previous_profile_reboot_required,
    LifecycleState::record_previous_profile_applied,
    LifecycleState::record_previous_dra_validated,
    LifecycleState::commit_restore,
];

/// Requests under two tokens and two generations.
fn requests() -> Vec<Request> {
    let mut all: Vec<Request> = Vec::new();
    for token in ["a", "b"] {
        for profile in [SHARED, TRAINING] {
            for generation in 0..2u64 {
                all.push(Box::new(move |state: &mut LifecycleState| {
                    state.begin(token, profile, generation).map(|_| ())
                }));
            }
        }
        for generation in 1..3u64 {
            let id = TransitionId::new(generation, token.to_string());
            for record in RECORDS {
                let id = id.clone();
                all.push(Box::new(move |state: &mut LifecycleState| {
                    record(state, &id)
                }));
            }
            let commit_id = id.clone();
            all.push(Box::new(move |state: &mut LifecycleState| {
                state.commit_target(&commit_id)
            }));
            for reason in ["slow", " "] {
                let id = id.clone();
                all.push(Box::new(move |state: &mut LifecycleState| {
                    state.request_restore(&id, reason)
                }));
            }
        }
    }
    all
}

/// Every state that the requests lead to.
fn reachable_states(requests: &[Request]) -> Vec<LifecycleState> {
    let mut seen: HashSet<String> = HashSet::new();
    let mut all = Vec::new();
    let mut pending = vec![
        LifecycleState::default(),
        LifecycleState::new(Some(SHARED)),
        LifecycleState::new(Some(TRAINING)),
    ];
    while let Some(state) = pending.pop() {
        if seen.insert(format!("{:?}", state)) {
            for request in requests {
                let mut next = state.clone();
                if request(&mut next).is_ok() {
                    pending.push(next);
                }
            }
            all.push(state);
        }
    }
    all
}

#[test]
fn requests_are_refused_without_a_change_and_repeated_without_another() {
    let requests = requests();
    let states = reachable_states(&requests);
    assert!(states.len() > 100);
    for state in &states {
        for request in &requests {
            let mut next = state.clone();
            match request(&mut next) {
                Err(_) => assert_eq!(&next, state),
                Ok(()) => {
                    let once = next.clone();
                    request(&mut next).unwrap();
                    assert_eq!(next, once);
                }
            }
            assert!(state.generation() <= next.generation());
            assert!(next.generation() <= state.generation() + 1);
            if next.committed_profile() != state.committed_profile() {
                assert_eq!(state.phase(), Some(TransitionPhase::TargetQualified));
                assert_eq!(next.committed_profile(), state.target_profile());
            }
            if state.phase() == Some(TransitionPhase::Blocked) {
                assert_eq!(&next, state);
            }
            if state.failure_reason().is_some() && next.active_transition_id().is_none() {
                assert_eq!(next.committed_profile(), state.committed_profile());
                assert_eq!(
                    next.last_result().unwrap().outcome(),
                    TransitionOutcome::PreviousProfileRestored
                );
            }
        }
    }
}

#[test]
fn the_node_takes_at_most_three_steps_in_a_row() {
    let mut longest = 0;
    for start in reachable_states(&requests()) {
        let mut state = start;
        let mut steps = 0;
        while due_node_action(&state).is_some() {
            let before = state.clone();
            let failed = conclude_node_action(&mut state, Err("failed"));
            if state == before {
                assert!(matches!(failed, Err(ResumeError::Executor("failed"))));
                assert!(matches!(
                    conclude_node_action::<&str>(&mut state, Ok(())),
                    Ok(ResumeStatus::ActionCompleted { .. })
                ));
            }
            steps += 1;
        }
        longest = longest.max(steps);
    }
    assert_eq!(longest, 3);
}

#[test]
fn a_pending_reboot_repeats_the_apply_step() {
    let mut state = LifecycleState::new(Some(SHARED));
    let id = state.begin("reboot", TRAINING, 0).unwrap();
    state.record_node_drained(&id).unwrap();
    state.record_advertisement_withdrawn(&id).unwrap();
    assert_eq!(
        due_node_action(&state),
        Some(NodeAction::ApplyProfile(TRAINING))
    );
    state.record_target_profile_reboot_required(&id).unwrap();
    assert_eq!(
        due_node_action(&state),
        Some(NodeAction::ApplyProfile(TRAINING))
    );
    state.request_restore(&id, "no reboot").unwrap();
    state.record_previous_profile_reboot_required(&id).unwrap();
    assert_eq!(
        due_node_action(&state),
        Some(NodeAction::ApplyProfile(SHARED))
    );
}

#[test]
fn restoration_needs_a_previous_profile() {
    let mut state = LifecycleState::from_parts(
        LifecycleState::SCHEMA_VERSION,
        1,
        None,
        Some(ActiveTransition::new(
            TransitionId::new(1, "torn".to_string()),
            None,
            SHARED,
            TransitionPhase::RestorePending,
            None,
        )),
        None,
    );
    let before = state.clone();
    assert_eq!(due_node_action(&state), None);
    let error = conclude_node_action::<&str>(&mut state, Ok(())).unwrap_err();
    assert_eq!(
        error.message(""),
        "inconsistent lifecycle state: previous profile is missing during restoration"
    );
    assert_eq!(state, before);
}

#[test]
fn resume_errors_have_their_messages() {
    assert_eq!(
        ResumeError::Executor("boom").message("boom"),
        "node action failed: boom"
    );
    assert_eq!(
        ResumeError::<&str>::Lifecycle(LifecycleError::NoActiveTransition).message(""),
        "failed to advance lifecycle state: no accelerator profile transition is active"
    );
}

#[test]
fn every_refusal_has_its_message() {
    let mut state = LifecycleState::default();
    let stale = TransitionId::new(7, "old".to_string());
    assert_eq!(stale.text(), "7:old");
    let message = |result: Result<(), LifecycleError>| result.unwrap_err().message();
    let begin = |state: &mut LifecycleState, token: &str, target, generation| {
        state.begin(token, target, generation).unwrap_err().message()
    };

    assert_eq!(
        begin(&mut state, "\u{2003}\n", SHARED, 0),
        "transition token must not be empty"
    );
    assert_eq!(
        begin(&mut state, "a", SHARED, u64::MAX),
        "transition generation cannot advance beyond u64::MAX"
    );
    assert_eq!(
        begin(&mut state, "a", SHARED, 3),
        "stale lifecycle generation 3; current generation is 0"
    );
    assert_eq!(
        message(state.record_node_drained(&stale)),
        "no accelerator profile transition is active"
    );

    let id = state.begin("a", SHARED, 0).unwrap();
    assert_eq!(
        begin(&mut state, "b", SHARED, 1),
        "accelerator profile transition '1:a' is already active"
    );
    assert_eq!(
        message(state.record_node_drained(&stale)),
        "transition ID '7:old' does not match active transition '1:a'"
    );
    assert_eq!(
        message(state.record_target_profile_applied(&id)),
        "expected transition phase 'AdvertisementWithdrawn', found 'IntentPersisted'"
    );
    assert_eq!(
        message(state.request_restore(&id, " ")),
        "failure reason must not be empty"
    );
    for record in [
        LifecycleState::record_node_drained as Record,
        LifecycleState::record_advertisement_withdrawn,
        LifecycleState::record_target_profile_applied,
        LifecycleState::record_target_dra_validated,
        LifecycleState::record_target_qualified,
        LifecycleState::commit_target,
    ] {
        record(&mut state, &id).unwrap();
    }
    assert_eq!(
        begin(&mut state, "a", TRAINING, 0),
        "transition token 'a' was already used by generation 1 with outcome 'TargetCommitted'"
    );
    assert_eq!(
        begin(&mut state, "b", SHARED, 1),
        "accelerator profile 'SharedInference' is already committed"
    );

    let id = state.begin("b", TRAINING, 1).unwrap();
    state.request_restore(&id, "slow").unwrap();
    assert_eq!(
        message(state.request_restore(&id, "other")),
        "restore was already requested in phase 'RestorePending'"
    );
    state.request_restore(&id, "slow").unwrap();
    assert_eq!(
        state.next_action(),
        Some(NextAction::NodeApplyPreviousProfile)
    );
    for record in [
        LifecycleState::record_previous_profile_applied as Record,
        LifecycleState::record_previous_dra_validated,
        LifecycleState::commit_restore,
    ] {
        record(&mut state, &id).unwrap();
    }
    assert_eq!(
        begin(&mut state, "b", TRAINING, 2),
        "transition token 'b' was already used by generation 2 with outcome \
         'PreviousProfileRestored'"
    );
    assert_eq!(
        begin(&mut state, "b", SHARED, 1),
        "transition token 'b' was already used by generation 2 with outcome \
         'PreviousProfileRestored'"
    );
}

#[test]
fn begin_is_retried_after_a_restoration() {
    let mut state = LifecycleState::new(Some(SHARED));
    let id = state.begin("retry", TRAINING, 0).unwrap();
    state.request_restore(&id, "slow").unwrap();
    state.record_previous_profile_applied(&id).unwrap();
    state.record_previous_dra_validated(&id).unwrap();
    state.commit_restore(&id).unwrap();
    let restored = state.clone();

    assert_eq!(state.begin("retry", TRAINING, 0).unwrap(), id);
    assert_eq!(state, restored);

    let newer = state.begin("newer", TRAINING, 1).unwrap();
    assert_eq!(newer.generation(), 2);
    assert!(matches!(
        state.begin("retry", TRAINING, 0),
        Err(LifecycleError::ActiveTransitionExists { .. })
    ));
}

#[test]
fn a_transition_that_failed_is_never_committed() {
    let mut state = LifecycleState::new(Some(SHARED));
    let id = state.begin("failing", TRAINING, 0).unwrap();
    state.record_node_drained(&id).unwrap();
    state.request_restore(&id, "slow").unwrap();
    let target_steps = [
        LifecycleState::record_advertisement_withdrawn as Record,
        LifecycleState::record_target_profile_applied,
        LifecycleState::record_target_dra_validated,
        LifecycleState::record_target_qualified,
        LifecycleState::commit_target,
    ];
    for record in target_steps {
        assert!(record(&mut state, &id).is_err());
    }
    state.record_previous_profile_applied(&id).unwrap();
    state.record_previous_dra_validated(&id).unwrap();
    state.commit_restore(&id).unwrap();
    for record in target_steps {
        assert!(record(&mut state, &id).is_err());
    }
    assert_eq!(state.committed_profile(), Some(SHARED));

    state.begin("second", TRAINING, 1).unwrap();
    state.begin("second", TRAINING, 1).unwrap();
    assert_eq!(state.generation(), 2);
}
