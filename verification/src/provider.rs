//! Reconciliation of one NVIDIA resource provider after the settings have changed.

use crate::encoding::lossy_text;
use crate::process::{
    activity, read_activity, unit_active_command, CommandLine, CommandOutput, DEVICE_PLUGIN_UNIT,
    DRA_UNIT, KUBELET_UNIT, MPS_UNIT, SYSTEMCTL,
};
use crate::text::{an_occurrence_splits_the_text, contains, occurs_in, same_text};
use vstd::prelude::*;
use vstd::string::*;

verus! {

#[derive(Clone, Copy, Debug, Eq, PartialEq, Structural)]
pub enum NvidiaProvider {
    DevicePlugin,
    MpsControlDaemon,
    DraDriver,
}

/// The systemd unit of a provider.
pub open spec fn unit_name(provider: NvidiaProvider) -> Seq<char> {
    match provider {
        NvidiaProvider::DevicePlugin => DEVICE_PLUGIN_UNIT@,
        NvidiaProvider::MpsControlDaemon => MPS_UNIT@,
        NvidiaProvider::DraDriver => DRA_UNIT@,
    }
}

/// The program that a provider's unit runs once the provider is selected.
pub open spec fn executable_path(provider: NvidiaProvider) -> Seq<char> {
    match provider {
        NvidiaProvider::DevicePlugin => "/usr/bin/nvidia-device-plugin"@,
        NvidiaProvider::MpsControlDaemon => "/usr/bin/mps-control-daemon"@,
        NvidiaProvider::DraDriver => "/usr/bin/gpu-kubelet-plugin"@,
    }
}

/// A unit's `ExecStart` property names the provider's program.
pub open spec fn selects(exec_start: Seq<char>, provider: NvidiaProvider) -> bool {
    occurs_in("path="@ + executable_path(provider) + " ;"@, exec_start)
}

impl NvidiaProvider {
    pub fn unit(self) -> (unit: &'static str)
        ensures
            unit@ == unit_name(self),
    {
        match self {
            NvidiaProvider::DevicePlugin => DEVICE_PLUGIN_UNIT,
            NvidiaProvider::MpsControlDaemon => MPS_UNIT,
            NvidiaProvider::DraDriver => DRA_UNIT,
        }
    }

    pub fn executable(self) -> (path: &'static str)
        ensures
            path@ == executable_path(self),
    {
        match self {
            NvidiaProvider::DevicePlugin => "/usr/bin/nvidia-device-plugin",
            NvidiaProvider::MpsControlDaemon => "/usr/bin/mps-control-daemon",
            NvidiaProvider::DraDriver => "/usr/bin/gpu-kubelet-plugin",
        }
    }

    /// Tells whether the `ExecStart` property of the provider's unit names the provider's program.
    pub fn is_selected(self, exec_start: &str) -> (selected: bool)
        ensures
            selected == selects(exec_start@, self),
    {
        let expected_path = "path=".to_string().concat(self.executable()).concat(" ;");
        contains(exec_start, expected_path.as_str())
    }
}

/// Finds the provider that a unit belongs to.
pub fn parse_provider(value: &str) -> (result: Result<NvidiaProvider, String>)
    ensures
        match result {
            Ok(provider) => value@ == unit_name(provider),
            Err(message) => {
                &&& forall|provider: NvidiaProvider| value@ != #[trigger] unit_name(provider)
                &&& message@ == "unsupported NVIDIA provider unit '"@ + value@ + "'"@
            },
        },
{
    if same_text(value, DEVICE_PLUGIN_UNIT) {
        return Ok(NvidiaProvider::DevicePlugin);
    }
    if same_text(value, MPS_UNIT) {
        return Ok(NvidiaProvider::MpsControlDaemon);
    }
    if same_text(value, DRA_UNIT) {
        return Ok(NvidiaProvider::DraDriver);
    }
    Err("unsupported NVIDIA provider unit '".to_string().concat(value).concat("'"))
}

/// The providers have units of their own, so that a unit is parsed back to the provider that it
/// belongs to, and to no other.
pub proof fn units_identify_providers(left: NvidiaProvider, right: NvidiaProvider)
    ensures
        unit_name(left) == unit_name(right) ==> left == right,
        unit_name(left) != KUBELET_UNIT@,
{
    reveal_strlit("nvidia-k8s-device-plugin.service");
    reveal_strlit("nvidia-mps-control-daemon.service");
    reveal_strlit("nvidia-dra-driver-gpu.service");
    reveal_strlit("kubelet.service");
    assert(DEVICE_PLUGIN_UNIT@.len() == 32);
    assert(MPS_UNIT@.len() == 33);
    assert(DRA_UNIT@.len() == 29);
    assert(KUBELET_UNIT@.len() == 15);
}

/// The command that asks for a unit's `ExecStart` property.
pub fn exec_start_command(unit: &str) -> (command: CommandLine)
    ensures
        command.program@ == SYSTEMCTL@,
        command.arguments@.len() == 4,
        command.arguments@[0]@ == "show"@,
        command.arguments@[1]@ == "--property=ExecStart"@,
        command.arguments@[2]@ == "--value"@,
        command.arguments@[3]@ == unit@,
{
    let mut arguments: Vec<String> = Vec::new();
    arguments.push("show".to_string());
    arguments.push("--property=ExecStart".to_string());
    arguments.push("--value".to_string());
    arguments.push(unit.to_string());
    CommandLine { program: SYSTEMCTL, arguments }
}

/// The command that stops or restarts a unit.
pub fn unit_command(action: &str, unit: &str) -> (command: CommandLine)
    ensures
        command.program@ == SYSTEMCTL@,
        command.arguments@.len() == 2,
        command.arguments@[0]@ == action@,
        command.arguments@[1]@ == unit@,
{
    let mut arguments: Vec<String> = Vec::new();
    arguments.push(action.to_string());
    arguments.push(unit.to_string());
    CommandLine { program: SYSTEMCTL, arguments }
}

/// How a failed `systemctl` is reported.
pub open spec fn failure_text(
    action: Seq<char>,
    unit: Seq<char>,
    output: CommandOutput,
) -> Seq<char> {
    "failed to "@ + action + " "@ + unit + ": systemctl exited with "@ + output.status@ + ": "@
        + output.complaint()
}

/// Reports a failed `systemctl`.
pub fn command_failure(action: &str, unit: &str, output: &CommandOutput) -> (message: String)
    ensures
        message@ == failure_text(action@, unit@, *output),
{
    "failed to ".to_string().concat(action).concat(" ").concat(unit).concat(
        ": systemctl exited with ",
    ).concat(output.status.as_str()).concat(": ").concat(output.stderr_text().as_str())
}

/// Reads whether a unit is active from the output of the query.
pub fn is_active(unit: &str, output: &CommandOutput) -> (result: Result<bool, String>)
    ensures
        match result {
            Ok(active) => activity(*output) == Some(active),
            Err(message) => activity(*output) is None && message@ == failure_text(
                "query active state for"@,
                unit@,
                *output,
            ),
        },
{
    match read_activity(output) {
        Some(active) => Ok(active),
        None => Err(command_failure("query active state for", unit, output)),
    }
}

/// Reads a unit's `ExecStart` property from the output of the query.
pub fn exec_start(unit: &str, output: &CommandOutput) -> (result: Result<String, String>)
    ensures
        match result {
            Ok(text) => output.success && text@ == lossy_text(output.stdout@),
            Err(message) => !output.success && message@ == failure_text(
                "query ExecStart for"@,
                unit@,
                *output,
            ),
        },
{
    if output.success {
        Ok(output.stdout_text())
    } else {
        Err(command_failure("query ExecStart for", unit, output))
    }
}

/// Accepts the output of a command that stops or restarts a unit exactly if it succeeded.
pub fn unit_changed(action: &str, unit: &str, output: &CommandOutput) -> (result: Result<
    (),
    String,
>)
    ensures
        match result {
            Ok(()) => output.success,
            Err(message) => !output.success && message@ == failure_text(action@, unit@, *output),
        },
{
    if output.success {
        Ok(())
    } else {
        Err(command_failure(action, unit, output))
    }
}

/// What a reconciliation asks of the service manager next.
#[derive(Clone, Copy, Debug, Eq, PartialEq, Structural)]
pub enum ReconcileStep {
    /// Whether the kubelet is active.
    QueryKubelet,
    /// The `ExecStart` property of the provider's unit.
    QueryExecStart,
    /// Restart the provider's unit.
    Restart,
    /// Stop the provider's unit.
    Stop,
}

/// The step with which every reconciliation begins.
pub fn first_step() -> (step: ReconcileStep)
    ensures
        step == ReconcileStep::QueryKubelet,
{
    ReconcileStep::QueryKubelet
}

/// The arguments of the command that a step of a provider's reconciliation stands for.
pub open spec fn step_arguments(provider: NvidiaProvider, step: ReconcileStep) -> Seq<Seq<char>> {
    match step {
        ReconcileStep::QueryKubelet => seq!["--quiet"@, "is-active"@, KUBELET_UNIT@],
        ReconcileStep::QueryExecStart => {
            seq!["show"@, "--property=ExecStart"@, "--value"@, unit_name(provider)]
        },
        ReconcileStep::Restart => seq!["restart"@, unit_name(provider)],
        ReconcileStep::Stop => seq!["stop"@, unit_name(provider)],
    }
}

/// The command that a step of a provider's reconciliation stands for: the first asks for the
/// kubelet's unit, the others are about the provider's own.
pub fn step_command(provider: NvidiaProvider, step: ReconcileStep) -> (command: CommandLine)
    ensures
        command.program@ == SYSTEMCTL@,
        command.arguments@.map_values(|argument: String| argument@) == step_arguments(
            provider,
            step,
        ),
        match step {
            ReconcileStep::QueryKubelet => {
                &&& command.arguments@.len() == 3
                &&& command.arguments@[0]@ == "--quiet"@
                &&& command.arguments@[1]@ == "is-active"@
                &&& command.arguments@[2]@ == KUBELET_UNIT@
            },
            ReconcileStep::QueryExecStart => {
                &&& command.arguments@.len() == 4
                &&& command.arguments@[0]@ == "show"@
                &&& command.arguments@[1]@ == "--property=ExecStart"@
                &&& command.arguments@[2]@ == "--value"@
                &&& command.arguments@[3]@ == unit_name(provider)
            },
            ReconcileStep::Restart => {
                &&& command.arguments@.len() == 2
                &&& command.arguments@[0]@ == "restart"@
                &&& command.arguments@[1]@ == unit_name(provider)
            },
            ReconcileStep::Stop => {
                &&& command.arguments@.len() == 2
                &&& command.arguments@[0]@ == "stop"@
                &&& command.arguments@[1]@ == unit_name(provider)
            },
        },
{
    let command = match step {
        ReconcileStep::QueryKubelet => unit_active_command(KUBELET_UNIT),
        ReconcileStep::QueryExecStart => exec_start_command(provider.unit()),
        ReconcileStep::Restart => unit_command("restart", provider.unit()),
        ReconcileStep::Stop => unit_command("stop", provider.unit()),
    };
    assert(command.arguments@.map_values(|argument: String| argument@) =~= step_arguments(
        provider,
        step,
    ));
    command
}

/// What the output of a step's command says: the reply to the step, or the report of its failure.
pub open spec fn reply_to(
    provider: NvidiaProvider,
    step: ReconcileStep,
    output: CommandOutput,
    reply: ServiceReply<String>,
) -> bool {
    match step {
        ReconcileStep::QueryKubelet => match reply {
            ServiceReply::Active { active } => activity(output) == Some(active),
            ServiceReply::Failed { error } => activity(output) is None && error@ == failure_text(
                "query active state for"@,
                KUBELET_UNIT@,
                output,
            ),
            _ => false,
        },
        ReconcileStep::QueryExecStart => match reply {
            ServiceReply::ExecStart { exec_start } => output.success && exec_start@ == lossy_text(
                output.stdout@,
            ),
            ServiceReply::Failed { error } => !output.success && error@ == failure_text(
                "query ExecStart for"@,
                unit_name(provider),
                output,
            ),
            _ => false,
        },
        ReconcileStep::Restart => match reply {
            ServiceReply::Done => output.success,
            ServiceReply::Failed { error } => !output.success && error@ == failure_text(
                "restart"@,
                unit_name(provider),
                output,
            ),
            _ => false,
        },
        ReconcileStep::Stop => match reply {
            ServiceReply::Done => output.success,
            ServiceReply::Failed { error } => !output.success && error@ == failure_text(
                "stop"@,
                unit_name(provider),
                output,
            ),
            _ => false,
        },
    }
}

/// Reads the output of a step's command as the reply to the step.
pub fn step_reply(provider: NvidiaProvider, step: ReconcileStep, output: &CommandOutput) -> (reply:
    ServiceReply<String>)
    ensures
        reply_to(provider, step, *output, reply),
        awaits(step, reply),
{
    match step {
        ReconcileStep::QueryKubelet => match is_active(KUBELET_UNIT, output) {
            Ok(active) => ServiceReply::Active { active },
            Err(error) => ServiceReply::Failed { error },
        },
        ReconcileStep::QueryExecStart => match exec_start(provider.unit(), output) {
            Ok(exec_start) => ServiceReply::ExecStart { exec_start },
            Err(error) => ServiceReply::Failed { error },
        },
        ReconcileStep::Restart => match unit_changed("restart", provider.unit(), output) {
            Ok(()) => ServiceReply::Done,
            Err(error) => ServiceReply::Failed { error },
        },
        ReconcileStep::Stop => match unit_changed("stop", provider.unit(), output) {
            Ok(()) => ServiceReply::Done,
            Err(error) => ServiceReply::Failed { error },
        },
    }
}

/// What the service manager answered.
#[derive(Debug, Eq, PartialEq)]
pub enum ServiceReply<E> {
    Active { active: bool },
    ExecStart { exec_start: String },
    Done,
    Failed { error: E },
}

/// Where a reconciliation stands.
#[derive(Debug, Eq, PartialEq)]
pub enum ReconcileProgress<E> {
    Continue { step: ReconcileStep },
    Finished { result: Result<(), E> },
}

/// A reply that a step can have.
pub open spec fn awaits<E>(step: ReconcileStep, reply: ServiceReply<E>) -> bool {
    reply is Failed || match step {
        ReconcileStep::QueryKubelet => reply is Active,
        ReconcileStep::QueryExecStart => reply is ExecStart,
        ReconcileStep::Restart | ReconcileStep::Stop => reply is Done,
    }
}

/// Where the reconciliation of a provider stands after a reply.
///
/// During first boot settings are rendered before the kubelet starts: the service manager's own
/// ordering then starts the provider, and nothing is left to do. Otherwise a selected provider is
/// restarted. An unselected one is stopped: starting its placeholder would stop the selected peer.
pub open spec fn after_reply<E>(
    provider: NvidiaProvider,
    reply: ServiceReply<E>,
) -> ReconcileProgress<E> {
    match reply {
        ServiceReply::Failed { error } => ReconcileProgress::Finished { result: Err(error) },
        ServiceReply::Active { active } => if active {
            ReconcileProgress::Continue { step: ReconcileStep::QueryExecStart }
        } else {
            ReconcileProgress::Finished { result: Ok(()) }
        },
        ServiceReply::ExecStart { exec_start } => ReconcileProgress::Continue {
            step: if selects(exec_start@, provider) {
                ReconcileStep::Restart
            } else {
                ReconcileStep::Stop
            },
        },
        ServiceReply::Done => ReconcileProgress::Finished { result: Ok(()) },
    }
}

/// Takes the service manager's reply to the pending step in the reconciliation of a provider.
pub fn reconcile<E>(provider: NvidiaProvider, reply: ServiceReply<E>) -> (progress:
    ReconcileProgress<E>)
    ensures
        progress == after_reply(provider, reply),
{
    match reply {
        ServiceReply::Failed { error } => ReconcileProgress::Finished { result: Err(error) },
        ServiceReply::Active { active } => if active {
            ReconcileProgress::Continue { step: ReconcileStep::QueryExecStart }
        } else {
            ReconcileProgress::Finished { result: Ok(()) }
        },
        ServiceReply::ExecStart { exec_start } => if provider.is_selected(exec_start.as_str()) {
            ReconcileProgress::Continue { step: ReconcileStep::Restart }
        } else {
            ReconcileProgress::Continue { step: ReconcileStep::Stop }
        },
        ServiceReply::Done => ReconcileProgress::Finished { result: Ok(()) },
    }
}

/// The reconciliation after a series of replies, as long as each is one that is awaited and none
/// before the last finishes it.
pub open spec fn after_replies<E>(
    provider: NvidiaProvider,
    replies: Seq<ServiceReply<E>>,
) -> Option<ReconcileProgress<E>>
    decreases replies.len(),
{
    if replies.len() == 0 {
        Some(ReconcileProgress::Continue { step: ReconcileStep::QueryKubelet })
    } else {
        match after_replies(provider, replies.drop_last()) {
            Some(ReconcileProgress::Continue { step }) => if awaits(step, replies.last()) {
                Some(after_reply(provider, replies.last()))
            } else {
                None
            },
            _ => None,
        }
    }
}

/// A provider is restarted only while the kubelet is active and only if its unit names its own
/// program, and stopped only while the kubelet is active and only if it does not.
pub proof fn only_a_selected_provider_is_restarted<E>(
    provider: NvidiaProvider,
    replies: Seq<ServiceReply<E>>,
    step: ReconcileStep,
)
    requires
        after_replies(provider, replies) == Some(ReconcileProgress::<E>::Continue { step }),
        step is Restart || step is Stop,
    ensures
        replies.len() == 2,
        replies[0] == (ServiceReply::<E>::Active { active: true }),
        replies[1] is ExecStart,
        selects(replies[1]->exec_start@, provider) == (step is Restart),
{
    reveal_with_fuel(after_replies, 4);
    assert(after_replies(provider, replies.drop_last()) is Some);
}

/// Before the kubelet is active a reconciliation touches no unit: it ends with the first reply.
pub proof fn nothing_happens_before_the_kubelet<E>(
    provider: NvidiaProvider,
    replies: Seq<ServiceReply<E>>,
)
    requires
        after_replies(provider, replies) is Some,
        replies.len() > 0,
        replies[0] == (ServiceReply::<E>::Active { active: false }),
    ensures
        replies.len() == 1,
        after_replies(provider, replies) == Some(
            ReconcileProgress::<E>::Finished { result: Ok(()) },
        ),
    decreases replies.len(),
{
    let shorter = replies.drop_last();
    if shorter.len() > 0 {
        assert(shorter[0] == replies[0]);
        nothing_happens_before_the_kubelet(provider, shorter);
    }
}

/// A reconciliation ends after three replies at the latest.
pub proof fn reconciliation_ends<E>(provider: NvidiaProvider, replies: Seq<ServiceReply<E>>)
    requires
        after_replies(provider, replies) is Some,
    ensures
        replies.len() <= 3,
        replies.len() == 3 ==> after_replies(provider, replies)->Some_0 is Finished,
{
    reveal_with_fuel(after_replies, 5);
}

/// What each reply leads to: a failure ends the reconciliation with that very failure, an inactive
/// kubelet ends it with success, an active one leads to the provider's program, and the program
/// decides between a restart and a stop, either of which ends it.
pub proof fn replies_lead_to_the_right_step<E>(provider: NvidiaProvider, reply: ServiceReply<E>)
    ensures
        match after_reply(provider, reply) {
            ReconcileProgress::Finished { result: Err(error) } => reply == (ServiceReply::Failed {
                error,
            }),
            ReconcileProgress::Finished { result: Ok(_) } => reply == ServiceReply::<E>::Done
                || reply == (ServiceReply::<E>::Active { active: false }),
            ReconcileProgress::Continue { step: ReconcileStep::QueryKubelet } => false,
            ReconcileProgress::Continue { step: ReconcileStep::QueryExecStart } => reply == (
            ServiceReply::<E>::Active { active: true }),
            ReconcileProgress::Continue { step: ReconcileStep::Restart } => reply matches
                ServiceReply::ExecStart { exec_start } && selects(exec_start@, provider),
            ReconcileProgress::Continue { step: ReconcileStep::Stop } => reply matches
                ServiceReply::ExecStart { exec_start } && !selects(exec_start@, provider),
        },
{
}

/// A provider is selected exactly if its program's path stands in the property as a whole entry,
/// whatever stands before and after it.
pub proof fn selection_is_an_entry_for_the_program(
    provider: NvidiaProvider,
    before: Seq<char>,
    after: Seq<char>,
    exec_start: Seq<char>,
)
    ensures
        selects(before + ("path="@ + executable_path(provider) + " ;"@) + after, provider),
        selects(exec_start, provider) ==> exists|before: Seq<char>, after: Seq<char>|
            exec_start == #[trigger] (before + ("path="@ + executable_path(provider) + " ;"@)
                + after),
{
    let entry = "path="@ + executable_path(provider) + " ;"@;
    an_occurrence_splits_the_text(before, entry, after, exec_start);
}

/// A reply is read off the output of its step: a query that the service manager answered gives the
/// answer, an action that succeeded is done, and everything else is a failure with the report of
/// the unit that the step was about.
pub proof fn replies_tell_what_came_of_the_step(
    provider: NvidiaProvider,
    step: ReconcileStep,
    output: CommandOutput,
    reply: ServiceReply<String>,
)
    requires
        reply_to(provider, step, output, reply),
    ensures
        match reply {
            ServiceReply::Active { active } => {
                &&& step == ReconcileStep::QueryKubelet
                &&& active == output.success
                &&& output.success || output.code == Some(3i32)
            },
            ServiceReply::ExecStart { exec_start } => {
                &&& step == ReconcileStep::QueryExecStart
                &&& output.success
                &&& exec_start@ == lossy_text(output.stdout@)
            },
            ServiceReply::Done => {
                &&& step == ReconcileStep::Restart || step == ReconcileStep::Stop
                &&& output.success
            },
            ServiceReply::Failed { error } => {
                &&& !output.success
                &&& step == ReconcileStep::QueryKubelet ==> output.code != Some(3i32)
                &&& error@ == match step {
                    ReconcileStep::QueryKubelet => failure_text(
                        "query active state for"@,
                        KUBELET_UNIT@,
                        output,
                    ),
                    ReconcileStep::QueryExecStart => failure_text(
                        "query ExecStart for"@,
                        unit_name(provider),
                        output,
                    ),
                    ReconcileStep::Restart => failure_text(
                        "restart"@,
                        unit_name(provider),
                        output,
                    ),
                    ReconcileStep::Stop => failure_text("stop"@, unit_name(provider), output),
                }
            },
        },
{
}

/// Only the first step is about the kubelet's unit. Every other step names the provider's own unit
/// and no other, and what it does to it is said by its first argument: a unit is restarted by a
/// restart, stopped by a stop, and only looked at by the queries.
pub proof fn steps_touch_the_provider_alone(provider: NvidiaProvider, step: ReconcileStep)
    ensures
        ({
            let arguments = step_arguments(provider, step);
            &&& arguments.len() >= 2
            &&& arguments.last() == if step == ReconcileStep::QueryKubelet {
                KUBELET_UNIT@
            } else {
                unit_name(provider)
            }
            &&& arguments.first() == match step {
                ReconcileStep::QueryKubelet => "--quiet"@,
                ReconcileStep::QueryExecStart => "show"@,
                ReconcileStep::Restart => "restart"@,
                ReconcileStep::Stop => "stop"@,
            }
            &&& arguments.len() == match step {
                ReconcileStep::QueryKubelet => 3nat,
                ReconcileStep::QueryExecStart => 4nat,
                _ => 2nat,
            }
            &&& step == ReconcileStep::QueryKubelet ==> arguments[1] == "is-active"@
            &&& step == ReconcileStep::QueryExecStart ==> arguments[1] == "--property=ExecStart"@
                && arguments[2] == "--value"@
        }),
{
}

} // verus!
