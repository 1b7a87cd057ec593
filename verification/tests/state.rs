use accelerator_node_lifecycle::{
    AcceleratorProfile, LifecycleError, LifecycleState, NextAction, TransitionId,
    TransitionOutcome, TransitionPhase,
};

const TOKEN: &str = "transition-1";

fn begin(state: &mut LifecycleState, target: AcceleratorProfile) -> TransitionId {
    let generation = state.generation();
    state.begin(TOKEN, target, generation).unwrap()
}

fn advance_to_qualification(state: &mut LifecycleState, id: &TransitionId) {
    state.record_node_drained(id).unwrap();
    state.record_advertisement_withdrawn(id).unwrap();
    state.record_target_profile_applied(id).unwrap();
    state.record_target_dra_validated(id).unwrap();
}

fn commit(state: &mut LifecycleState, token: &str, target: AcceleratorProfile) -> TransitionId {
    let generation = state.generation();
    let id = state.begin(token, target, generation).unwrap();
    advance_to_qualification(state, &id);
    state.record_target_qualified(&id).unwrap();
    state.commit_target(&id).unwrap();
    id
}

#[test]
fn default_state_uses_current_schema_and_zero_generation() {
    let state = LifecycleState::default();
    assert_eq!(state.schema_version(), LifecycleState::SCHEMA_VERSION);
    assert_eq!(state.generation(), 0);
}

#[test]
fn initial_profile_can_be_qualified_and_committed() {
    let mut state = LifecycleState::default();
    let id = begin(&mut state, AcceleratorProfile::SharedInference);

    assert_eq!(id.generation(), 1);
    assert_eq!(id.token(), TOKEN);
    assert_eq!(state.next_action(), Some(NextAction::CoordinatorDrainNode));
    advance_to_qualification(&mut state, &id);
    state.record_target_qualified(&id).unwrap();
    state.commit_target(&id).unwrap();

    assert_eq!(
        state.committed_profile(),
        Some(AcceleratorProfile::SharedInference)
    );
    assert_eq!(state.next_action(), None);
    let result = state.last_result().unwrap();
    assert_eq!(result.id(), &id);
    assert_eq!(result.previous_profile(), None);
    assert_eq!(result.target_profile(), AcceleratorProfile::SharedInference);
    assert_eq!(result.outcome(), TransitionOutcome::TargetCommitted);
    assert_eq!(result.failure_reason(), None);
}

#[test]
fn failed_transition_restores_previous_profile() {
    let mut state = LifecycleState::new(Some(AcceleratorProfile::SharedInference));
    let id = begin(&mut state, AcceleratorProfile::DistributedTraining);
    advance_to_qualification(&mut state, &id);

    state
        .request_restore(&id, "NCCL all-reduce bandwidth below threshold")
        .unwrap();
    assert_eq!(
        state.next_action(),
        Some(NextAction::NodeApplyPreviousProfile)
    );
    state.record_previous_profile_applied(&id).unwrap();
    state.record_previous_dra_validated(&id).unwrap();
    state.commit_restore(&id).unwrap();

    assert_eq!(
        state.committed_profile(),
        Some(AcceleratorProfile::SharedInference)
    );
    let result = state.last_result().unwrap();
    assert_eq!(result.outcome(), TransitionOutcome::PreviousProfileRestored);
    assert_eq!(
        result.failure_reason(),
        Some("NCCL all-reduce bandwidth below threshold")
    );
}

#[test]
fn failed_initial_provisioning_requires_manual_intervention() {
    let mut state = LifecycleState::default();
    let id = begin(&mut state, AcceleratorProfile::DistributedTraining);
    state.record_node_drained(&id).unwrap();
    state
        .request_restore(&id, "DRA ResourceSlice was not published")
        .unwrap();

    assert_eq!(state.phase(), Some(TransitionPhase::Blocked));
    assert_eq!(state.next_action(), Some(NextAction::ManualIntervention));
    assert_eq!(state.committed_profile(), None);
}

#[test]
fn repeated_begin_and_acknowledgement_are_idempotent() {
    let mut state = LifecycleState::default();
    let id = state
        .begin(TOKEN, AcceleratorProfile::SharedInference, 0)
        .unwrap();
    let repeated = state
        .begin(TOKEN, AcceleratorProfile::SharedInference, 0)
        .unwrap();
    state.record_node_drained(&id).unwrap();
    state.record_node_drained(&id).unwrap();

    assert_eq!(repeated, id);
    assert_eq!(state.phase(), Some(TransitionPhase::NodeDrained));
}

#[test]
fn repeated_commit_and_begin_after_lost_response_are_idempotent() {
    let mut state = LifecycleState::default();
    let id = commit(&mut state, TOKEN, AcceleratorProfile::SharedInference);

    state.commit_target(&id).unwrap();
    let repeated = state
        .begin(TOKEN, AcceleratorProfile::SharedInference, 0)
        .unwrap();

    assert_eq!(repeated, id);
    assert_eq!(
        state.committed_profile(),
        Some(AcceleratorProfile::SharedInference)
    );
}

#[test]
fn old_begin_cannot_replay_after_a_newer_generation() {
    let mut state = LifecycleState::default();
    commit(
        &mut state,
        "transition-1",
        AcceleratorProfile::SharedInference,
    );
    commit(
        &mut state,
        "transition-2",
        AcceleratorProfile::DistributedTraining,
    );

    assert!(matches!(
        state
            .begin("transition-1", AcceleratorProfile::SharedInference, 0)
            .unwrap_err(),
        LifecycleError::StaleGeneration {
            expected: 2,
            actual: 0,
        }
    ));
    assert_eq!(
        state.committed_profile(),
        Some(AcceleratorProfile::DistributedTraining)
    );
}

#[test]
fn stale_transition_event_is_rejected() {
    let mut state = LifecycleState::default();
    let id = begin(&mut state, AcceleratorProfile::SharedInference);
    let stale_id = TransitionId::new(id.generation(), "stale-transition".to_string());

    assert!(matches!(
        state.record_node_drained(&stale_id).unwrap_err(),
        LifecycleError::TransitionIdMismatch { .. }
    ));
    assert_eq!(state.phase(), Some(TransitionPhase::IntentPersisted));
}

#[test]
fn out_of_order_operation_is_rejected_without_losing_state() {
    let mut state = LifecycleState::new(Some(AcceleratorProfile::SharedInference));
    let id = begin(&mut state, AcceleratorProfile::DistributedTraining);

    let error = state.record_target_profile_applied(&id).unwrap_err();
    assert!(matches!(
        error,
        LifecycleError::UnexpectedPhase {
            expected: TransitionPhase::AdvertisementWithdrawn,
            actual: TransitionPhase::IntentPersisted,
        }
    ));
    assert_eq!(state.phase(), Some(TransitionPhase::IntentPersisted));
}

#[test]
fn transition_to_committed_profile_is_rejected() {
    let mut state = LifecycleState::new(Some(AcceleratorProfile::SharedInference));
    let generation = state.generation();
    assert!(matches!(
        state
            .begin(TOKEN, AcceleratorProfile::SharedInference, generation)
            .unwrap_err(),
        LifecycleError::ProfileAlreadyCommitted {
            target_profile: AcceleratorProfile::SharedInference,
        }
    ));
}

#[test]
fn next_action_identifies_component_ownership() {
    let mut state = LifecycleState::default();
    let id = begin(&mut state, AcceleratorProfile::SharedInference);
    assert_eq!(state.next_action(), Some(NextAction::CoordinatorDrainNode));
    state.record_node_drained(&id).unwrap();
    assert_eq!(
        state.next_action(),
        Some(NextAction::NodeWithdrawAdvertisement)
    );
    state.record_advertisement_withdrawn(&id).unwrap();
    assert_eq!(
        state.next_action(),
        Some(NextAction::NodeApplyTargetProfile)
    );
    state.record_target_profile_applied(&id).unwrap();
    assert_eq!(state.next_action(), Some(NextAction::NodeValidateTargetDra));
    state.record_target_dra_validated(&id).unwrap();
    assert_eq!(
        state.next_action(),
        Some(NextAction::CoordinatorRunQualification)
    );
}

#[test]
fn target_reboot_requirement_is_durable_and_resumable() {
    let mut state = LifecycleState::default();
    let id = begin(&mut state, AcceleratorProfile::SharedInference);
    state.record_node_drained(&id).unwrap();
    state.record_advertisement_withdrawn(&id).unwrap();

    state.record_target_profile_reboot_required(&id).unwrap();
    assert_eq!(
        state.phase(),
        Some(TransitionPhase::TargetProfileRebootRequired)
    );
    assert_eq!(
        state.next_action(),
        Some(NextAction::NodeApplyTargetProfile)
    );

    state.record_target_profile_applied(&id).unwrap();
    assert_eq!(state.phase(), Some(TransitionPhase::TargetProfileApplied));
}

#[test]
fn restore_reboot_requirement_is_durable_and_resumable() {
    let mut state = LifecycleState::new(Some(AcceleratorProfile::SharedInference));
    let id = begin(&mut state, AcceleratorProfile::DistributedTraining);
    state.record_node_drained(&id).unwrap();
    state.request_restore(&id, "qualification failed").unwrap();

    state.record_previous_profile_reboot_required(&id).unwrap();
    assert_eq!(
        state.next_action(),
        Some(NextAction::NodeApplyPreviousProfile)
    );

    state.record_previous_profile_applied(&id).unwrap();
    assert_eq!(state.phase(), Some(TransitionPhase::PreviousProfileApplied));
}
