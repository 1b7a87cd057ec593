use accelerator_node_lifecycle::process::{CommandOutput, KUBELET_UNIT, SYSTEMCTL};
use accelerator_node_lifecycle::provider::{
    command_failure, exec_start, exec_start_command, first_step, is_active, parse_provider,
    reconcile, step_command, step_reply, unit_changed, unit_command, NvidiaProvider,
    ReconcileProgress, ReconcileStep, ServiceReply,
};

const PROVIDERS: [NvidiaProvider; 3] = [
    NvidiaProvider::DevicePlugin,
    NvidiaProvider::MpsControlDaemon,
    NvidiaProvider::DraDriver,
];

#[derive(Default)]
struct FakeServiceManager {
    kubelet_active: bool,
    active_queries: Vec<String>,
    restarts: Vec<String>,
    stops: Vec<String>,
    exec_start_queries: Vec<String>,
    exec_start: String,
    fail_on: Option<ReconcileStep>,
}

impl FakeServiceManager {
    fn answer(&mut self, provider: NvidiaProvider, step: ReconcileStep) -> ServiceReply<String> {
        if self.fail_on == Some(step) {
            return ServiceReply::Failed {
                error: "injected failure".to_string(),
            };
        }
        match step {
            ReconcileStep::QueryKubelet => {
                self.active_queries.push(KUBELET_UNIT.to_string());
                ServiceReply::Active {
                    active: self.kubelet_active,
                }
            }
            ReconcileStep::QueryExecStart => {
                self.exec_start_queries.push(provider.unit().to_string());
                ServiceReply::ExecStart {
                    exec_start: self.exec_start.clone(),
                }
            }
            ReconcileStep::Restart => {
                self.restarts.push(provider.unit().to_string());
                ServiceReply::Done
            }
            ReconcileStep::Stop => {
                self.stops.push(provider.unit().to_string());
                ServiceReply::Done
            }
        }
    }

    fn run(&mut self, provider: NvidiaProvider) -> Result<(), String> {
        let mut step = first_step();
        loop {
            let reply = self.answer(provider, step);
            match reconcile(provider, reply) {
                ReconcileProgress::Continue { step: next } => step = next,
                ReconcileProgress::Finished { result } => return result,
            }
        }
    }
}

fn output(success: bool, code: Option<i32>, stdout: &[u8], stderr: &[u8]) -> CommandOutput {
    CommandOutput {
        success,
        code,
        status: format!("exit status: {}", code.unwrap_or(-1)),
        stdout: stdout.to_vec(),
        stderr: stderr.to_vec(),
    }
}

#[test]
fn first_boot_does_not_start_a_provider_before_kubelet() {
    let mut manager = FakeServiceManager::default();

    manager.run(NvidiaProvider::DraDriver).unwrap();

    assert_eq!(manager.active_queries, [KUBELET_UNIT]);
    assert!(manager.restarts.is_empty());
    assert!(manager.stops.is_empty());
    assert!(manager.exec_start_queries.is_empty());
}

#[test]
fn settings_change_restarts_a_selected_provider() {
    for provider in PROVIDERS {
        let mut manager = FakeServiceManager {
            kubelet_active: true,
            exec_start: format!(
                "{{ path={} ; argv[]={}; ignore_errors=no }}",
                provider.executable(),
                provider.executable()
            ),
            ..Default::default()
        };

        manager.run(provider).unwrap();

        assert_eq!(manager.active_queries, [KUBELET_UNIT]);
        assert_eq!(manager.exec_start_queries, [provider.unit()]);
        assert_eq!(manager.restarts, [provider.unit()]);
        assert!(manager.stops.is_empty());
    }
}

#[test]
fn settings_change_stops_an_unselected_placeholder() {
    let mut manager = FakeServiceManager {
        kubelet_active: true,
        exec_start: "path=/usr/bin/true ; argv[]=/usr/bin/true".to_string(),
        ..Default::default()
    };
    for provider in PROVIDERS {
        manager.run(provider).unwrap();
    }

    assert_eq!(manager.active_queries, [KUBELET_UNIT; 3]);
    assert_eq!(
        manager.exec_start_queries,
        [
            "nvidia-k8s-device-plugin.service",
            "nvidia-mps-control-daemon.service",
            "nvidia-dra-driver-gpu.service",
        ]
    );
    assert!(manager.restarts.is_empty());
    assert_eq!(
        manager.stops,
        [
            "nvidia-k8s-device-plugin.service",
            "nvidia-mps-control-daemon.service",
            "nvidia-dra-driver-gpu.service",
        ]
    );
}

#[test]
fn supported_provider_unit_names_are_stable() {
    for (unit, provider) in [
        (
            "nvidia-k8s-device-plugin.service",
            NvidiaProvider::DevicePlugin,
        ),
        (
            "nvidia-mps-control-daemon.service",
            NvidiaProvider::MpsControlDaemon,
        ),
        ("nvidia-dra-driver-gpu.service", NvidiaProvider::DraDriver),
    ] {
        assert_eq!(parse_provider(unit).unwrap(), provider);
        assert_eq!(provider.unit(), unit);
        assert!(provider.is_selected(&format!("path={} ;", provider.executable())));
        assert!(!provider.is_selected(&format!("path={}-unexpected ;", provider.executable())));
    }
}

#[test]
fn unsupported_provider_is_rejected() {
    let error = parse_provider("containerd.service").unwrap_err();
    assert!(error.contains("unsupported NVIDIA provider unit"));
    assert_eq!(
        error,
        "unsupported NVIDIA provider unit 'containerd.service'"
    );
}

#[test]
fn provider_programs_are_stable() {
    assert_eq!(
        NvidiaProvider::DevicePlugin.executable(),
        "/usr/bin/nvidia-device-plugin"
    );
    assert_eq!(
        NvidiaProvider::MpsControlDaemon.executable(),
        "/usr/bin/mps-control-daemon"
    );
    assert_eq!(
        NvidiaProvider::DraDriver.executable(),
        "/usr/bin/gpu-kubelet-plugin"
    );
}

#[test]
fn a_failing_service_manager_ends_the_reconciliation() {
    for (step, exec_start, queries) in [
        (ReconcileStep::QueryKubelet, "", 0),
        (ReconcileStep::QueryExecStart, "", 0),
        (
            ReconcileStep::Restart,
            "path=/usr/bin/gpu-kubelet-plugin ;",
            1,
        ),
        (ReconcileStep::Stop, "path=/usr/bin/true ;", 1),
    ] {
        let mut manager = FakeServiceManager {
            kubelet_active: true,
            exec_start: exec_start.to_string(),
            fail_on: Some(step),
            ..Default::default()
        };
        assert_eq!(
            manager.run(NvidiaProvider::DraDriver),
            Err("injected failure".to_string())
        );
        assert_eq!(manager.exec_start_queries.len(), queries);
        assert!(manager.restarts.is_empty());
        assert!(manager.stops.is_empty());
    }
}

#[test]
fn exit_codes_tell_the_active_state() {
    let unit = "kubelet.service";
    assert_eq!(is_active(unit, &output(true, Some(0), b"", b"")), Ok(true));
    assert_eq!(
        is_active(unit, &output(false, Some(3), b"", b"")),
        Ok(false)
    );
    assert_eq!(
        is_active(unit, &output(false, Some(4), b"", b" no such unit\n")),
        Err(
            "failed to query active state for kubelet.service: systemctl exited with exit status: \
             4: no such unit"
                .to_string()
        )
    );
    assert!(is_active(unit, &output(false, None, b"", b"")).is_err());
}

#[test]
fn exec_start_is_read_as_text() {
    let unit = "nvidia-dra-driver-gpu.service";
    assert_eq!(
        exec_start(unit, &output(true, Some(0), b"path=/bin/a ;\n", b"")),
        Ok("path=/bin/a ;\n".to_string())
    );
    assert_eq!(
        exec_start(unit, &output(true, Some(0), b"a\xffb", b"")),
        Ok("a\u{fffd}b".to_string())
    );
    assert_eq!(
        exec_start(unit, &output(false, Some(1), b"", b"\xff gone ")),
        Err(
            "failed to query ExecStart for nvidia-dra-driver-gpu.service: systemctl exited with \
             exit status: 1: \u{fffd} gone"
                .to_string()
        )
    );
}

#[test]
fn unit_changes_report_their_failure() {
    assert_eq!(
        unit_changed("stop", "a.service", &output(true, Some(0), b"", b"")),
        Ok(())
    );
    let failed = output(false, Some(5), b"", b"\tdenied\n");
    assert_eq!(
        unit_changed("restart", "a.service", &failed),
        Err(
            "failed to restart a.service: systemctl exited with exit status: 5: denied".to_string()
        )
    );
    assert_eq!(
        command_failure("stop", "a.service", &failed),
        "failed to stop a.service: systemctl exited with exit status: 5: denied"
    );
}

#[test]
fn service_commands_are_spelled_out() {
    let query = exec_start_command("a.service");
    assert_eq!(query.program, SYSTEMCTL);
    assert_eq!(
        query.text(),
        "/usr/bin/systemctl show --property=ExecStart --value a.service"
    );
    assert_eq!(
        unit_command("restart", "a.service").text(),
        "/usr/bin/systemctl restart a.service"
    );
}

#[test]
fn each_step_stands_for_its_command() {
    assert_eq!(first_step(), ReconcileStep::QueryKubelet);
    for (step, command) in [
        (
            ReconcileStep::QueryKubelet,
            "/usr/bin/systemctl --quiet is-active kubelet.service",
        ),
        (
            ReconcileStep::QueryExecStart,
            "/usr/bin/systemctl show --property=ExecStart --value nvidia-dra-driver-gpu.service",
        ),
        (
            ReconcileStep::Restart,
            "/usr/bin/systemctl restart nvidia-dra-driver-gpu.service",
        ),
        (
            ReconcileStep::Stop,
            "/usr/bin/systemctl stop nvidia-dra-driver-gpu.service",
        ),
    ] {
        assert_eq!(step_command(NvidiaProvider::DraDriver, step).text(), command);
    }
}

#[test]
fn each_step_reads_its_reply() {
    let provider = NvidiaProvider::MpsControlDaemon;
    let succeeded = output(true, Some(0), b"path=/bin/a ;", b"");
    let failed = output(false, Some(1), b"", b"denied\n");
    let reply = |step, output: &CommandOutput| step_reply(provider, step, output);
    let failure = |action: &str, unit: &str| ServiceReply::Failed {
        error: format!(
            "failed to {} {}: systemctl exited with exit status: 1: denied",
            action, unit
        ),
    };
    assert_eq!(
        reply(ReconcileStep::QueryKubelet, &succeeded),
        ServiceReply::Active { active: true }
    );
    assert_eq!(
        reply(
            ReconcileStep::QueryKubelet,
            &output(false, Some(3), b"", b"")
        ),
        ServiceReply::Active { active: false }
    );
    assert_eq!(
        reply(ReconcileStep::QueryKubelet, &failed),
        failure("query active state for", KUBELET_UNIT)
    );
    assert_eq!(
        reply(ReconcileStep::QueryExecStart, &succeeded),
        ServiceReply::ExecStart {
            exec_start: "path=/bin/a ;".to_string()
        }
    );
    assert_eq!(
        reply(ReconcileStep::QueryExecStart, &failed),
        failure("query ExecStart for", provider.unit())
    );
    for (step, action) in [
        (ReconcileStep::Restart, "restart"),
        (ReconcileStep::Stop, "stop"),
    ] {
        assert_eq!(reply(step, &succeeded), ServiceReply::Done);
        assert_eq!(reply(step, &failed), failure(action, provider.unit()));
    }
}
