use accelerator_node_lifecycle::{
    execute_next_node_action, AcceleratorProfile, LifecycleState, NextAction, NodeAction,
    NodeActionExecutor, ResumeError, ResumeStatus, TransitionId,
};
use std::io;

#[derive(Default)]
struct FakeExecutor {
    actions: Vec<NodeAction>,
    failure: Option<&'static str>,
}

impl NodeActionExecutor for FakeExecutor {
    type Error = io::Error;

    fn withdraw_advertisement(&mut self) -> Result<(), Self::Error> {
        self.execute(NodeAction::WithdrawAdvertisement)
    }

    fn apply_profile(&mut self, profile: AcceleratorProfile) -> Result<(), Self::Error> {
        self.execute(NodeAction::ApplyProfile(profile))
    }

    fn validate_dra(&mut self, profile: AcceleratorProfile) -> Result<(), Self::Error> {
        self.execute(NodeAction::ValidateDra(profile))
    }
}

impl FakeExecutor {
    fn execute(&mut self, action: NodeAction) -> Result<(), io::Error> {
        if let Some(message) = self.failure {
            return Err(io::Error::other(message));
        }
        self.actions.push(action);
        Ok(())
    }
}

fn begin(state: &mut LifecycleState, target: AcceleratorProfile) -> TransitionId {
    let generation = state.generation();
    state.begin("resume-test", target, generation).unwrap()
}

#[test]
fn coordinator_boundary_is_a_no_op() {
    let mut state = LifecycleState::default();
    begin(&mut state, AcceleratorProfile::SharedInference);
    let original = state.clone();

    let status = execute_next_node_action(&mut state, &mut FakeExecutor::default()).unwrap();

    assert_eq!(
        status,
        ResumeStatus::WaitingForCoordinator {
            action: NextAction::CoordinatorDrainNode
        }
    );
    assert_eq!(state, original);
}

#[test]
fn withdraw_advances_only_after_executor_success() {
    let mut state = LifecycleState::default();
    let id = begin(&mut state, AcceleratorProfile::SharedInference);
    state.record_node_drained(&id).unwrap();
    let mut executor = FakeExecutor::default();

    let status = execute_next_node_action(&mut state, &mut executor).unwrap();

    assert_eq!(
        status,
        ResumeStatus::ActionCompleted {
            action: NodeAction::WithdrawAdvertisement
        }
    );
    assert_eq!(
        state.next_action(),
        Some(NextAction::NodeApplyTargetProfile)
    );
    assert_eq!(executor.actions, vec![NodeAction::WithdrawAdvertisement]);
}

#[test]
fn target_profile_is_passed_to_apply_and_validate() {
    let mut state = LifecycleState::default();
    let id = begin(&mut state, AcceleratorProfile::DistributedTraining);
    state.record_node_drained(&id).unwrap();
    state.record_advertisement_withdrawn(&id).unwrap();
    let mut executor = FakeExecutor::default();

    execute_next_node_action(&mut state, &mut executor).unwrap();
    execute_next_node_action(&mut state, &mut executor).unwrap();

    assert_eq!(
        executor.actions,
        vec![
            NodeAction::ApplyProfile(AcceleratorProfile::DistributedTraining),
            NodeAction::ValidateDra(AcceleratorProfile::DistributedTraining),
        ]
    );
    assert_eq!(
        state.next_action(),
        Some(NextAction::CoordinatorRunQualification)
    );
}

#[test]
fn executor_failure_leaves_state_unchanged() {
    let mut state = LifecycleState::default();
    let id = begin(&mut state, AcceleratorProfile::SharedInference);
    state.record_node_drained(&id).unwrap();
    let original = state.clone();
    let mut executor = FakeExecutor {
        failure: Some("injected failure"),
        ..Default::default()
    };

    assert!(matches!(
        execute_next_node_action(&mut state, &mut executor),
        Err(ResumeError::Executor(_))
    ));
    assert_eq!(state, original);
}

#[test]
fn commit_target_needs_no_executor_operation() {
    let mut state = LifecycleState::default();
    let id = begin(&mut state, AcceleratorProfile::SharedInference);
    state.record_node_drained(&id).unwrap();
    state.record_advertisement_withdrawn(&id).unwrap();
    state.record_target_profile_applied(&id).unwrap();
    state.record_target_dra_validated(&id).unwrap();
    state.record_target_qualified(&id).unwrap();
    let mut executor = FakeExecutor::default();

    let status = execute_next_node_action(&mut state, &mut executor).unwrap();

    assert_eq!(
        status,
        ResumeStatus::ActionCompleted {
            action: NodeAction::CommitTarget
        }
    );
    assert!(executor.actions.is_empty());
    assert_eq!(
        state.committed_profile(),
        Some(AcceleratorProfile::SharedInference)
    );
}

#[test]
fn restoration_uses_the_previous_profile_and_commits() {
    let mut state = LifecycleState::new(Some(AcceleratorProfile::SharedInference));
    let id = begin(&mut state, AcceleratorProfile::DistributedTraining);
    state.record_node_drained(&id).unwrap();
    state.request_restore(&id, "qualification failed").unwrap();
    let mut executor = FakeExecutor::default();

    execute_next_node_action(&mut state, &mut executor).unwrap();
    execute_next_node_action(&mut state, &mut executor).unwrap();
    let status = execute_next_node_action(&mut state, &mut executor).unwrap();

    assert_eq!(
        executor.actions,
        vec![
            NodeAction::ApplyProfile(AcceleratorProfile::SharedInference),
            NodeAction::ValidateDra(AcceleratorProfile::SharedInference),
        ]
    );
    assert_eq!(
        status,
        ResumeStatus::ActionCompleted {
            action: NodeAction::CommitRestore
        }
    );
    assert_eq!(
        state.committed_profile(),
        Some(AcceleratorProfile::SharedInference)
    );
}

#[test]
fn manual_intervention_is_a_no_op() {
    let mut state = LifecycleState::default();
    let id = begin(&mut state, AcceleratorProfile::SharedInference);
    state.record_node_drained(&id).unwrap();
    state.request_restore(&id, "no previous profile").unwrap();
    let original = state.clone();

    let status = execute_next_node_action(&mut state, &mut FakeExecutor::default()).unwrap();

    assert_eq!(status, ResumeStatus::ManualIntervention);
    assert_eq!(state, original);
}
