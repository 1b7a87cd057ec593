use accelerator_node_lifecycle::run::{
    limit_message, ResumeRun, RunError, RunProgress, RunReply, RunReport, RunStep,
    MAX_ACTIONS_PER_RUN,
};
use accelerator_node_lifecycle::{
    execute_next_node_action, AcceleratorProfile, LifecycleState, NextAction, NodeAction,
    NodeActionExecutor, ResumeStatus,
};
use std::io;

#[derive(Default)]
struct FakeExecutor {
    actions: Vec<NodeAction>,
    fail_on: Option<NodeAction>,
}

impl FakeExecutor {
    fn run(&mut self, action: NodeAction) -> Result<(), io::Error> {
        if self.fail_on == Some(action) {
            return Err(io::Error::other("injected node action failure"));
        }
        self.actions.push(action);
        Ok(())
    }
}

impl NodeActionExecutor for FakeExecutor {
    type Error = io::Error;

    fn withdraw_advertisement(&mut self) -> Result<(), Self::Error> {
        self.run(NodeAction::WithdrawAdvertisement)
    }

    fn apply_profile(&mut self, profile: AcceleratorProfile) -> Result<(), Self::Error> {
        self.run(NodeAction::ApplyProfile(profile))
    }

    fn validate_dra(&mut self, profile: AcceleratorProfile) -> Result<(), Self::Error> {
        self.run(NodeAction::ValidateDra(profile))
    }
}

fn node_drained_state() -> LifecycleState {
    let mut state = LifecycleState::default();
    let id = state
        .begin("resume-binary-test", AcceleratorProfile::SharedInference, 0)
        .unwrap();
    state.record_node_drained(&id).unwrap();
    state
}

/// Runs from the state that was saved last, and saves where the run asks for it.
fn execute(
    saved: &mut LifecycleState,
    executor: &mut FakeExecutor,
) -> Result<RunReport, RunError<String>> {
    let mut state = saved.clone();
    let mut run = ResumeRun::new();
    loop {
        let reply = match run.step() {
            RunStep::Act => match execute_next_node_action(&mut state, executor) {
                Ok(status) => RunReply::Acted { status },
                Err(error) => RunReply::Failed {
                    error: error.message("injected node action failure"),
                },
            },
            RunStep::Save { .. } => {
                *saved = state.clone();
                RunReply::Saved
            }
        };
        match run.resume(reply) {
            RunProgress::Continue { run: next } => run = next,
            RunProgress::Finished { result } => return result,
        }
    }
}

#[test]
fn run_checkpoints_each_action_and_stops_at_coordinator_boundary() {
    let mut saved = node_drained_state();
    let mut executor = FakeExecutor::default();

    let report = execute(&mut saved, &mut executor).unwrap();

    assert_eq!(
        report.completed_actions,
        vec![
            NodeAction::WithdrawAdvertisement,
            NodeAction::ApplyProfile(AcceleratorProfile::SharedInference),
            NodeAction::ValidateDra(AcceleratorProfile::SharedInference),
        ]
    );
    assert_eq!(
        report.status,
        ResumeStatus::WaitingForCoordinator {
            action: NextAction::CoordinatorRunQualification
        }
    );
    assert_eq!(
        saved.next_action(),
        Some(NextAction::CoordinatorRunQualification)
    );
    assert_eq!(executor.actions, report.completed_actions);
}

#[test]
fn failed_action_keeps_the_last_successful_checkpoint() {
    let mut saved = node_drained_state();
    let mut executor = FakeExecutor {
        fail_on: Some(NodeAction::ValidateDra(AcceleratorProfile::SharedInference)),
        ..Default::default()
    };

    let result = execute(&mut saved, &mut executor);

    assert_eq!(
        result,
        Err(RunError::Step(
            "node action failed: injected node action failure".to_string()
        ))
    );
    assert_eq!(saved.next_action(), Some(NextAction::NodeValidateTargetDra));
}

#[test]
fn an_idle_node_reports_at_once() {
    let mut saved = LifecycleState::default();
    let report = execute(&mut saved, &mut FakeExecutor::default()).unwrap();
    assert_eq!(report.completed_actions, vec![]);
    assert_eq!(report.status, ResumeStatus::Idle);
}

#[test]
fn a_restoration_is_run_to_its_end() {
    let mut saved = LifecycleState::new(Some(AcceleratorProfile::SharedInference));
    let id = saved
        .begin("failing", AcceleratorProfile::DistributedTraining, 0)
        .unwrap();
    saved.request_restore(&id, "qualification failed").unwrap();
    let report = execute(&mut saved, &mut FakeExecutor::default()).unwrap();
    assert_eq!(
        report.completed_actions,
        vec![
            NodeAction::ApplyProfile(AcceleratorProfile::SharedInference),
            NodeAction::ValidateDra(AcceleratorProfile::SharedInference),
            NodeAction::CommitRestore,
        ]
    );
    assert_eq!(report.status, ResumeStatus::Idle);
    assert_eq!(
        saved.committed_profile(),
        Some(AcceleratorProfile::SharedInference)
    );
}

#[test]
fn a_run_gives_up_at_its_limit() {
    let mut run = ResumeRun::new();
    for round in 1..=MAX_ACTIONS_PER_RUN {
        let reply: RunReply<String> = RunReply::Acted {
            status: ResumeStatus::ActionCompleted {
                action: NodeAction::CommitTarget,
            },
        };
        run = match run.resume(reply) {
            RunProgress::Continue { run } => run,
            other => panic!("unexpected progress: {:?}", other),
        };
        assert_eq!(
            run.step(),
            RunStep::Save {
                action: NodeAction::CommitTarget
            }
        );
        match run.resume(RunReply::<String>::Saved) {
            RunProgress::Continue { run: next } => {
                assert!(round < 8);
                run = next;
            }
            RunProgress::Finished { result } => {
                assert_eq!(round, 8);
                assert_eq!(result, Err(RunError::LimitExceeded));
                break;
            }
        }
    }
    assert_eq!(
        limit_message(),
        "resume exceeded the safety limit of 8 node actions"
    );
}

#[test]
fn a_failed_save_ends_the_run() {
    let run = ResumeRun::new();
    let run = match run.resume(RunReply::<String>::Acted {
        status: ResumeStatus::ActionCompleted {
            action: NodeAction::WithdrawAdvertisement,
        },
    }) {
        RunProgress::Continue { run } => run,
        other => panic!("unexpected progress: {:?}", other),
    };
    assert_eq!(
        run.resume(RunReply::Failed {
            error: "disk full".to_string()
        }),
        RunProgress::Finished {
            result: Err(RunError::Step("disk full".to_string()))
        }
    );
}
