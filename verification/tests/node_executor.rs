use accelerator_node_lifecycle::node_executor::{
    command_succeeded, current_mode, current_mode_command, mode_for_profile, observed,
    provider_units, set_mode_command, unit_is_active, ModeProgress, ModeReply, ModeStep, ModeTask,
    ProviderState, CONVERGENCE_ATTEMPTS, DISABLED_MODE, DISTRIBUTED_TRAINING_MODE,
    SHARED_INFERENCE_MODE,
};
use accelerator_node_lifecycle::process::{unit_active_command, CommandLine, CommandOutput};
use accelerator_node_lifecycle::{AcceleratorProfile, NodeExecutorError};
use std::collections::VecDeque;

struct FakeSystem {
    mode: Option<String>,
    states: VecDeque<ProviderState>,
    set_modes: Vec<String>,
    observations: usize,
    sleeps: usize,
}

impl FakeSystem {
    fn new(mode: Option<&str>, states: impl IntoIterator<Item = ProviderState>) -> Self {
        Self {
            mode: mode.map(str::to_string),
            states: states.into_iter().collect(),
            set_modes: Vec::new(),
            observations: 0,
            sleeps: 0,
        }
    }

    fn answer(&mut self, task: &ModeTask) -> ModeReply {
        match task.step() {
            ModeStep::ReadMode => ModeReply::Mode {
                mode: self.mode.clone(),
            },
            ModeStep::WriteMode => {
                self.mode = Some(task.expected_mode().to_string());
                self.set_modes.push(task.expected_mode().to_string());
                ModeReply::Written
            }
            ModeStep::ObserveProviders { .. } => {
                self.observations += 1;
                ModeReply::Providers {
                    state: if self.states.len() > 1 {
                        self.states.pop_front().unwrap()
                    } else {
                        self.states.front().cloned().unwrap_or_default()
                    },
                }
            }
            ModeStep::Pause { .. } => {
                self.sleeps += 1;
                ModeReply::Paused
            }
        }
    }

    fn run(&mut self, task: ModeTask) -> Result<(), NodeExecutorError> {
        let mut task = task;
        loop {
            let reply = self.answer(&task);
            match task.resume(reply) {
                ModeProgress::Continue { task: next } => task = next,
                ModeProgress::Finished { result } => return result,
            }
        }
    }
}

fn dra_state() -> ProviderState {
    ProviderState {
        kubelet: true,
        dra: true,
        ..Default::default()
    }
}

fn disabled_state() -> ProviderState {
    ProviderState {
        kubelet: true,
        ..Default::default()
    }
}

fn output(success: bool, code: Option<i32>, stdout: &[u8], stderr: &[u8]) -> CommandOutput {
    CommandOutput {
        success,
        code,
        status: format!("exit status: {}", code.unwrap_or(-1)),
        stdout: stdout.to_vec(),
        stderr: stderr.to_vec(),
    }
}

#[test]
fn withdraw_sets_disabled_and_waits_for_legacy_providers_to_stop() {
    let legacy = ProviderState {
        kubelet: true,
        device_plugin: true,
        mps: true,
        ..Default::default()
    };
    let mut system = FakeSystem::new(Some("device-plugin"), [legacy, disabled_state()]);

    system.run(ModeTask::withdraw_advertisement()).unwrap();

    assert_eq!(system.mode.as_deref(), Some(DISABLED_MODE));
    assert_eq!(system.set_modes, [DISABLED_MODE]);
    assert_eq!(system.observations, 2);
    assert_eq!(system.sleeps, 1);
}

#[test]
fn apply_profile_uses_distinct_dra_modes() {
    for (profile, mode) in [
        (AcceleratorProfile::SharedInference, SHARED_INFERENCE_MODE),
        (
            AcceleratorProfile::DistributedTraining,
            DISTRIBUTED_TRAINING_MODE,
        ),
    ] {
        let mut system = FakeSystem::new(Some(DISABLED_MODE), [dra_state()]);
        system.run(ModeTask::apply_profile(profile)).unwrap();
        assert_eq!(system.mode.as_deref(), Some(mode));
    }
}

#[test]
fn repeated_apply_does_not_rewrite_an_already_selected_mode() {
    let mut system = FakeSystem::new(Some(SHARED_INFERENCE_MODE), [dra_state()]);

    system
        .run(ModeTask::apply_profile(AcceleratorProfile::SharedInference))
        .unwrap();

    assert!(system.set_modes.is_empty());
}

#[test]
fn validation_rejects_the_wrong_setting_even_if_services_match() {
    let mut system = FakeSystem::new(Some(DISTRIBUTED_TRAINING_MODE), [dra_state()]);

    let error = system
        .run(ModeTask::validate_dra(AcceleratorProfile::SharedInference))
        .unwrap_err();

    assert!(matches!(error, NodeExecutorError::UnexpectedMode { .. }));
    assert_eq!(
        error.message(),
        "NVIDIA accelerator mode is 'dra-distributed-training', expected 'dra-shared-inference'"
    );
    assert!(system.set_modes.is_empty());
    assert_eq!(system.observations, 0);
}

#[test]
fn convergence_rejects_mutually_exclusive_providers_running_together() {
    let conflicting = ProviderState {
        kubelet: true,
        device_plugin: true,
        dra: true,
        ..Default::default()
    };
    let mut system = FakeSystem::new(
        Some(SHARED_INFERENCE_MODE),
        std::iter::repeat(conflicting).take(CONVERGENCE_ATTEMPTS),
    );

    let error = system
        .run(ModeTask::validate_dra(AcceleratorProfile::SharedInference))
        .unwrap_err();

    assert!(matches!(
        error,
        NodeExecutorError::ProviderConvergence { .. }
    ));
    assert_eq!(
        error.message(),
        "NVIDIA providers did not converge to mode 'dra-shared-inference'; last observed state: \
         ProviderState { kubelet: true, device_plugin: true, mps: false, dra: true }"
    );
    assert_eq!(system.observations, 61);
    assert_eq!(system.sleeps, 60);
}

#[test]
fn the_last_allowed_observation_still_counts() {
    let mut states = vec![disabled_state(); CONVERGENCE_ATTEMPTS - 1];
    states.push(dra_state());
    let mut system = FakeSystem::new(None, states);

    system
        .run(ModeTask::apply_profile(AcceleratorProfile::SharedInference))
        .unwrap();

    assert_eq!(system.set_modes, ["dra-shared-inference"]);
    assert_eq!(system.observations, 61);
    assert_eq!(system.sleeps, 60);
}

#[test]
fn an_unset_mode_is_named_in_the_refusal() {
    let mut system = FakeSystem::new(None, [dra_state()]);
    let error = system
        .run(ModeTask::validate_dra(
            AcceleratorProfile::DistributedTraining,
        ))
        .unwrap_err();
    assert_eq!(
        error.message(),
        "NVIDIA accelerator mode is '<unset>', expected 'dra-distributed-training'"
    );
}

#[test]
fn a_failed_step_fails_the_operation() {
    let task = ModeTask::withdraw_advertisement();
    let error = NodeExecutorError::ExecuteCommand {
        program: "/usr/bin/apiclient",
        source: "No such file or directory (os error 2)".to_string(),
    };
    assert_eq!(
        error.message(),
        "failed to execute '/usr/bin/apiclient': No such file or directory (os error 2)"
    );
    match task.resume(ModeReply::Failed { error }) {
        ModeProgress::Finished { result: Err(error) } => {
            assert!(matches!(error, NodeExecutorError::ExecuteCommand { .. }))
        }
        other => panic!("unexpected progress: {:?}", other),
    }
}

#[test]
fn every_provider_state_fits_at_most_its_modes() {
    for bits in 0..16u8 {
        let state = ProviderState {
            kubelet: bits & 1 != 0,
            device_plugin: bits & 2 != 0,
            mps: bits & 4 != 0,
            dra: bits & 8 != 0,
        };
        let quiet = state.kubelet && !state.device_plugin && !state.mps;
        assert_eq!(state.matches_mode(DISABLED_MODE), quiet && !state.dra);
        assert_eq!(state.matches_mode(SHARED_INFERENCE_MODE), quiet && state.dra);
        assert_eq!(
            state.matches_mode(DISTRIBUTED_TRAINING_MODE),
            quiet && state.dra
        );
        assert!(!state.matches_mode("device-plugin"));
        assert_eq!(state.text(), format!("{:?}", state));
    }
}

#[test]
fn each_unit_feeds_its_field() {
    assert_eq!(
        provider_units(),
        [
            "kubelet.service",
            "nvidia-k8s-device-plugin.service",
            "nvidia-mps-control-daemon.service",
            "nvidia-dra-driver-gpu.service",
        ]
    );
    for (unit, field) in [
        (0, "kubelet: true"),
        (1, "device_plugin: true"),
        (2, "mps: true"),
        (3, "dra: true"),
    ] {
        let mut active = [false; 4];
        active[unit] = true;
        let text = observed(active).text();
        assert!(text.contains(field));
        assert_eq!(text.matches("true").count(), 1);
    }
}

#[test]
fn profiles_name_their_modes() {
    assert_eq!(
        mode_for_profile(AcceleratorProfile::SharedInference),
        "dra-shared-inference"
    );
    assert_eq!(
        mode_for_profile(AcceleratorProfile::DistributedTraining),
        "dra-distributed-training"
    );
}

#[test]
fn node_commands_are_spelled_out() {
    assert_eq!(
        set_mode_command("disabled").text(),
        "/usr/bin/apiclient set settings.accelerators.nvidia.mode=disabled"
    );
    assert_eq!(
        current_mode_command().text(),
        "/usr/bin/apiclient get settings.accelerators.nvidia.mode"
    );
    assert_eq!(
        unit_active_command("kubelet.service").text(),
        "/usr/bin/systemctl --quiet is-active kubelet.service"
    );
    let bare = CommandLine {
        program: "/usr/bin/apiclient",
        arguments: Vec::new(),
    };
    assert_eq!(bare.text(), "/usr/bin/apiclient ");
}

#[test]
fn commands_fail_with_their_complaint() {
    let command = set_mode_command("disabled");
    assert_eq!(
        command_succeeded(&command, &output(true, Some(0), b"", b"ignored")),
        Ok(())
    );
    let error =
        command_succeeded(&command, &output(false, Some(1), b"", b"  bad \xff setting\n"))
            .unwrap_err();
    assert_eq!(
        error.message(),
        "'/usr/bin/apiclient set settings.accelerators.nvidia.mode=disabled' exited with exit \
         status: 1: bad \u{fffd} setting"
    );
}

#[test]
fn units_are_inactive_only_if_the_service_manager_says_so() {
    let command = unit_active_command("kubelet.service");
    assert_eq!(
        unit_is_active(&command, &output(true, Some(0), b"", b"")),
        Ok(true)
    );
    assert_eq!(
        unit_is_active(&command, &output(false, Some(3), b"", b"")),
        Ok(false)
    );
    for code in [None, Some(0), Some(1), Some(4)] {
        assert!(matches!(
            unit_is_active(&command, &output(false, code, b"", b"")),
            Err(NodeExecutorError::CommandFailed { .. })
        ));
    }
}

#[test]
fn the_selected_mode_is_read_from_the_settings() {
    let command = current_mode_command();
    let read = |stdout: &[u8]| current_mode(&command, &output(true, Some(0), stdout, b""));
    assert_eq!(
        read(br#"{"settings":{"accelerators":{"nvidia":{"mode":"disabled"}}}}"#),
        Ok(Some("disabled".to_string()))
    );
    assert_eq!(
        read(br#"{"settings":{"accelerators":{"nvidia":{"mode":7}}}}"#),
        Ok(None)
    );
    assert_eq!(
        read(br#"{"settings":{"accelerators":{"nvidia":{}}}}"#),
        Ok(None)
    );
    assert_eq!(read(br#""disabled""#), Ok(None));
    assert_eq!(read(b"null"), Ok(None));
    let error = read(b"{").unwrap_err();
    assert_eq!(
        error.message(),
        "failed to parse Bottlerocket settings: EOF while parsing an object at line 1 column 1"
    );
    assert!(matches!(
        current_mode(&command, &output(false, Some(1), b"", b"")),
        Err(NodeExecutorError::CommandFailed { .. })
    ));
}
