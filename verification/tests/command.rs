use accelerator_node_lifecycle::command::{
    execute, parse_event, parse_profile, resolve_transition_id, Command, CommandError,
    TransitionEvent,
};
use accelerator_node_lifecycle::store::StateFile;
use accelerator_node_lifecycle::{
    AcceleratorProfile, JsonFileStore, LifecycleError, LifecycleState, NextAction,
    TransitionOutcome,
};

/// A state file in memory.
struct StateOnDisk {
    store: JsonFileStore,
    saved: Option<LifecycleState>,
    saves: usize,
}

impl StateOnDisk {
    fn new() -> Self {
        Self {
            store: JsonFileStore::new(b"/var/state.json".to_vec()),
            saved: None,
            saves: 0,
        }
    }

    fn execute(&mut self, command: Command) -> Result<LifecycleState, CommandError> {
        let file = match &self.saved {
            Some(state) => StateFile::Parsed {
                state: state.clone(),
            },
            None => StateFile::Missing,
        };
        let mut state = self.store.load(file).unwrap();
        if execute(&mut state, &command)? {
            self.saved = Some(state.clone());
            self.saves += 1;
        }
        Ok(state)
    }
}

fn begin(token: &str, profile: &str, expected_generation: u64) -> Command {
    Command::Begin {
        token: token.to_string(),
        profile: parse_profile(profile).unwrap(),
        expected_generation,
    }
}

fn record(generation: u64, token: &str, event: &str) -> Command {
    Command::Record {
        generation,
        token: token.to_string(),
        event: parse_event(event).unwrap(),
    }
}

fn restore(generation: u64, token: &str, reason: &str) -> Command {
    Command::Restore {
        generation,
        token: token.to_string(),
        reason: reason.to_string(),
    }
}

#[test]
fn command_flow_persists_and_commits_a_transition() {
    let mut disk = StateOnDisk::new();

    let state = disk
        .execute(Command::Begin {
            token: "coordinator-request".to_string(),
            profile: AcceleratorProfile::SharedInference,
            expected_generation: 0,
        })
        .unwrap();
    let id = state.active_transition_id().unwrap().clone();

    for event in [
        TransitionEvent::NodeDrained,
        TransitionEvent::AdvertisementWithdrawn,
        TransitionEvent::TargetProfileApplied,
        TransitionEvent::TargetDraValidated,
        TransitionEvent::TargetQualified,
        TransitionEvent::TargetCommitted,
    ] {
        disk.execute(Command::Record {
            generation: id.generation(),
            token: id.token().to_string(),
            event,
        })
        .unwrap();
    }

    let state = disk.execute(Command::Status).unwrap();
    assert_eq!(
        state.committed_profile(),
        Some(AcceleratorProfile::SharedInference)
    );
    assert!(state.active_transition_id().is_none());
    assert_eq!(state.next_action(), None);
    assert_eq!(disk.saves, 7);
}

#[test]
fn stale_coordinator_id_does_not_modify_state() {
    let mut disk = StateOnDisk::new();
    disk.execute(Command::Begin {
        token: "current".to_string(),
        profile: AcceleratorProfile::DistributedTraining,
        expected_generation: 0,
    })
    .unwrap();

    let result = disk.execute(Command::Record {
        generation: 1,
        token: "stale".to_string(),
        event: TransitionEvent::NodeDrained,
    });

    assert!(result.is_err());
    let state = disk.execute(Command::Status).unwrap();
    assert_eq!(state.next_action(), Some(NextAction::CoordinatorDrainNode));
    assert_eq!(disk.saves, 1);
}

#[test]
fn packaged_cli_restores_the_previous_profile() {
    let mut disk = StateOnDisk::new();

    disk.execute(begin("initial", "shared-inference", 0))
        .unwrap();
    for event in [
        "node-drained",
        "advertisement-withdrawn",
        "target-profile-applied",
        "target-dra-validated",
        "target-qualified",
        "target-committed",
    ] {
        disk.execute(record(1, "initial", event)).unwrap();
    }

    disk.execute(begin("training", "distributed-training", 1))
        .unwrap();
    disk.execute(record(2, "training", "node-drained")).unwrap();
    disk.execute(restore(2, "training", "qualification failed"))
        .unwrap();
    for event in [
        "previous-profile-applied",
        "previous-dra-validated",
        "previous-profile-committed",
    ] {
        disk.execute(record(2, "training", event)).unwrap();
    }

    let status = disk.execute(Command::Status).unwrap();
    assert_eq!(
        status.committed_profile(),
        Some(parse_profile("shared-inference").unwrap())
    );
    assert_eq!(
        status.last_result().unwrap().outcome(),
        TransitionOutcome::PreviousProfileRestored
    );
    assert_eq!(
        status.last_result().unwrap().failure_reason(),
        Some("qualification failed")
    );
    assert!(status.next_action().is_none());
}

#[test]
fn packaged_cli_rejects_a_stale_transition_id() {
    let mut disk = StateOnDisk::new();
    disk.execute(begin("current", "shared-inference", 0))
        .unwrap();

    let error = disk
        .execute(record(1, "stale", "node-drained"))
        .unwrap_err();

    assert!(error.message().contains("transition ID mismatch"));
    assert_eq!(
        error.message(),
        "transition ID mismatch: requested 1:stale, current 1:current"
    );
    let status = disk.execute(Command::Status).unwrap();
    assert_eq!(status.next_action(), Some(NextAction::CoordinatorDrainNode));
}

#[test]
fn commands_need_a_transition() {
    let mut state = LifecycleState::default();
    let error = execute(&mut state, &record(1, "none", "node-drained")).unwrap_err();
    assert!(matches!(error, CommandError::NoTransition));
    assert_eq!(error.message(), "no active or completed transition exists");
    let error = execute(&mut state, &restore(1, "none", "reason")).unwrap_err();
    assert!(matches!(error, CommandError::NoTransition));
    assert_eq!(state, LifecycleState::default());
}

#[test]
fn the_last_transition_is_found_after_its_end() {
    let mut disk = StateOnDisk::new();
    disk.execute(begin("only", "shared-inference", 0)).unwrap();
    for event in [
        "node-drained",
        "advertisement-withdrawn",
        "target-profile-applied",
        "target-dra-validated",
        "target-qualified",
        "target-committed",
        "target-committed",
    ] {
        disk.execute(record(1, "only", event)).unwrap();
    }
    let state = disk.saved.clone().unwrap();
    let id = resolve_transition_id(&state, 1, "only").unwrap();
    assert_eq!((id.generation(), id.token()), (1, "only"));
    assert!(resolve_transition_id(&state, 2, "only").is_err());
    assert!(matches!(
        disk.execute(record(1, "only", "node-drained")),
        Err(CommandError::Lifecycle(LifecycleError::NoActiveTransition))
    ));
}

#[test]
fn refused_lifecycle_requests_are_passed_on() {
    let mut state = LifecycleState::new(Some(AcceleratorProfile::SharedInference));
    let before = state.clone();
    let error = execute(&mut state, &begin("again", "shared-inference", 0)).unwrap_err();
    assert_eq!(
        error.message(),
        "accelerator profile 'SharedInference' is already committed"
    );
    let error = execute(&mut state, &begin(" \t", "distributed-training", 0)).unwrap_err();
    assert_eq!(error.message(), "transition token must not be empty");
    assert_eq!(state, before);
}

#[test]
fn repeated_commands_are_saved_again_without_a_change() {
    let mut disk = StateOnDisk::new();
    disk.execute(begin("retry", "shared-inference", 0)).unwrap();
    let first = disk.saved.clone();
    disk.execute(begin("retry", "shared-inference", 0)).unwrap();
    assert_eq!(disk.saved, first);
    assert_eq!(disk.saves, 2);
}

#[test]
fn profiles_and_events_are_read_by_name() {
    assert_eq!(
        parse_profile("distributed-training"),
        Ok(AcceleratorProfile::DistributedTraining)
    );
    assert_eq!(
        parse_profile("training"),
        Err(
            "invalid profile 'training'; expected shared-inference or distributed-training"
                .to_string()
        )
    );
    for (name, event) in [
        ("node-drained", TransitionEvent::NodeDrained),
        (
            "advertisement-withdrawn",
            TransitionEvent::AdvertisementWithdrawn,
        ),
        (
            "target-profile-applied",
            TransitionEvent::TargetProfileApplied,
        ),
        ("target-dra-validated", TransitionEvent::TargetDraValidated),
        ("target-qualified", TransitionEvent::TargetQualified),
        ("target-committed", TransitionEvent::TargetCommitted),
        (
            "previous-profile-applied",
            TransitionEvent::PreviousProfileApplied,
        ),
        (
            "previous-dra-validated",
            TransitionEvent::PreviousDraValidated,
        ),
        (
            "previous-profile-committed",
            TransitionEvent::PreviousProfileCommitted,
        ),
    ] {
        assert_eq!(parse_event(name), Ok(event));
    }
    assert_eq!(
        parse_event("Node-Drained"),
        Err("invalid transition event 'Node-Drained'".to_string())
    );
}
