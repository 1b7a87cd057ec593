//! Selection and local validation of Bottlerocket's NVIDIA provider.

use crate::json::{text_at, text_in_document};
use crate::process::{
    activity, read_activity, CommandLine, CommandOutput, APICLIENT, DEVICE_PLUGIN_UNIT, DRA_UNIT,
    KUBELET_UNIT, MPS_UNIT,
};
use crate::state::AcceleratorProfile;
use crate::text::same_text;
use vstd::prelude::*;
use vstd::string::*;

verus! {

/// The mode in which no provider advertises accelerators.
pub const DISABLED_MODE: &'static str = "disabled";

pub const SHARED_INFERENCE_MODE: &'static str = "dra-shared-inference";

pub const DISTRIBUTED_TRAINING_MODE: &'static str = "dra-distributed-training";

/// The setting that selects the mode.
pub const MODE_SETTING: &'static str = "settings.accelerators.nvidia.mode";

/// Where the settings API's answer holds the mode.
pub const MODE_POINTER: &'static str = "/settings/accelerators/nvidia/mode";

/// How many times the providers are observed before convergence is given up.
pub const CONVERGENCE_ATTEMPTS: usize = 61;

/// The pause between two observations, in seconds.
pub const CONVERGENCE_INTERVAL_SECONDS: u64 = 1;

/// Why a node operation failed. A `source` is what the failed operation reported.
#[allow(inconsistent_fields)]
#[derive(Debug, Eq, PartialEq)]
pub enum NodeExecutorError {
    ExecuteCommand { program: &'static str, source: String },
    CommandFailed { command: String, status: String, stderr: String },
    ParseSettings { source: String },
    UnexpectedMode { expected: &'static str, actual: String },
    ProviderConvergence { expected: &'static str, actual: String },
}

/// The failures of node operations, as mathematics.
#[allow(inconsistent_fields)]
pub enum NodeExecutorErrorView {
    ExecuteCommand { program: Seq<char>, source: Seq<char> },
    CommandFailed { command: Seq<char>, status: Seq<char>, stderr: Seq<char> },
    ParseSettings { source: Seq<char> },
    UnexpectedMode { expected: Seq<char>, actual: Seq<char> },
    ProviderConvergence { expected: Seq<char>, actual: Seq<char> },
}

impl View for NodeExecutorError {
    type V = NodeExecutorErrorView;

    open spec fn view(&self) -> NodeExecutorErrorView {
        match self {
            NodeExecutorError::ExecuteCommand { program, source } => {
                NodeExecutorErrorView::ExecuteCommand { program: program@, source: source@ }
            },
            NodeExecutorError::CommandFailed { command, status, stderr } => {
                NodeExecutorErrorView::CommandFailed {
                    command: command@,
                    status: status@,
                    stderr: stderr@,
                }
            },
            NodeExecutorError::ParseSettings { source } => {
                NodeExecutorErrorView::ParseSettings { source: source@ }
            },
            NodeExecutorError::UnexpectedMode { expected, actual } => {
                NodeExecutorErrorView::UnexpectedMode { expected: expected@, actual: actual@ }
            },
            NodeExecutorError::ProviderConvergence { expected, actual } => {
                NodeExecutorErrorView::ProviderConvergence { expected: expected@, actual: actual@ }
            },
        }
    }
}

impl NodeExecutorErrorView {
    /// The message that the failure is reported with.
    pub open spec fn message(self) -> Seq<char> {
        match self {
            NodeExecutorErrorView::ExecuteCommand { program, source } => {
                "failed to execute '"@ + program + "': "@ + source
            },
            NodeExecutorErrorView::CommandFailed { command, status, stderr } => {
                "'"@ + command + "' exited with "@ + status + ": "@ + stderr
            },
            NodeExecutorErrorView::ParseSettings { source } => {
                "failed to parse Bottlerocket settings: "@ + source
            },
            NodeExecutorErrorView::UnexpectedMode { expected, actual } => {
                "NVIDIA accelerator mode is '"@ + actual + "', expected '"@ + expected + "'"@
            },
            NodeExecutorErrorView::ProviderConvergence { expected, actual } => {
                "NVIDIA providers did not converge to mode '"@ + expected
                    + "'; last observed state: "@ + actual
            },
        }
    }
}

impl NodeExecutorError {
    /// The message that the failure is reported with.
    pub fn message(&self) -> (message: String)
        ensures
            message@ == self@.message(),
    {
        match self {
            NodeExecutorError::ExecuteCommand { program, source } => {
                "failed to execute '".to_string().concat(program).concat("': ").concat(
                    source.as_str(),
                )
            },
            NodeExecutorError::CommandFailed { command, status, stderr } => {
                "'".to_string().concat(command.as_str()).concat("' exited with ").concat(
                    status.as_str(),
                ).concat(": ").concat(stderr.as_str())
            },
            NodeExecutorError::ParseSettings { source } => {
                "failed to parse Bottlerocket settings: ".to_string().concat(source.as_str())
            },
            NodeExecutorError::UnexpectedMode { expected, actual } => {
                "NVIDIA accelerator mode is '".to_string().concat(actual.as_str()).concat(
                    "', expected '",
                ).concat(expected).concat("'")
            },
            NodeExecutorError::ProviderConvergence { expected, actual } => {
                "NVIDIA providers did not converge to mode '".to_string().concat(expected).concat(
                    "'; last observed state: ",
                ).concat(actual.as_str())
            },
        }
    }
}

/// The mode that carries a profile.
pub open spec fn profile_mode(profile: AcceleratorProfile) -> Seq<char> {
    match profile {
        AcceleratorProfile::SharedInference => SHARED_INFERENCE_MODE@,
        AcceleratorProfile::DistributedTraining => DISTRIBUTED_TRAINING_MODE@,
    }
}

/// The mode that carries a profile.
pub fn mode_for_profile(profile: AcceleratorProfile) -> (mode: &'static str)
    ensures
        mode@ == profile_mode(profile),
{
    match profile {
        AcceleratorProfile::SharedInference => SHARED_INFERENCE_MODE,
        AcceleratorProfile::DistributedTraining => DISTRIBUTED_TRAINING_MODE,
    }
}

/// Which of the services that matter to the mode are active.
#[derive(Clone, Copy, Debug, Default, Eq, PartialEq, Structural)]
pub struct ProviderState {
    pub kubelet: bool,
    pub device_plugin: bool,
    pub mps: bool,
    pub dra: bool,
}

/// A truth value in writing.
pub open spec fn bool_label(value: bool) -> Seq<char> {
    if value {
        "true"@
    } else {
        "false"@
    }
}

fn bool_text(value: bool) -> (text: &'static str)
    ensures
        text@ == bool_label(value),
{
    if value {
        "true"
    } else {
        "false"
    }
}

impl ProviderState {
    /// The services are those that the mode calls for: the legacy providers rest, and the DRA
    /// driver runs exactly in the DRA modes. An unknown mode is never reached.
    pub open spec fn fits(self, mode: Seq<char>) -> bool {
        &&& self.kubelet
        &&& !self.device_plugin
        &&& !self.mps
        &&& {
            ||| mode == DISABLED_MODE@ && !self.dra
            ||| (mode == SHARED_INFERENCE_MODE@ || mode == DISTRIBUTED_TRAINING_MODE@) && self.dra
        }
    }

    /// The state in writing, field by field.
    pub open spec fn label(self) -> Seq<char> {
        "ProviderState { kubelet: "@ + bool_label(self.kubelet) + ", device_plugin: "@ + bool_label(
            self.device_plugin,
        ) + ", mps: "@ + bool_label(self.mps) + ", dra: "@ + bool_label(self.dra) + " }"@
    }

    pub fn matches_mode(&self, mode: &str) -> (matches: bool)
        ensures
            matches == self.fits(mode@),
    {
        proof {
            lemma_modes_differ();
        }
        self.kubelet && !self.device_plugin && !self.mps && if same_text(mode, DISABLED_MODE) {
            !self.dra
        } else if same_text(mode, SHARED_INFERENCE_MODE) || same_text(
            mode,
            DISTRIBUTED_TRAINING_MODE,
        ) {
            self.dra
        } else {
            false
        }
    }

    /// Writes the state field by field.
    pub fn text(&self) -> (text: String)
        ensures
            text@ == self.label(),
    {
        "ProviderState { kubelet: ".to_string().concat(bool_text(self.kubelet)).concat(
            ", device_plugin: ",
        ).concat(bool_text(self.device_plugin)).concat(", mps: ").concat(
            bool_text(self.mps),
        ).concat(", dra: ").concat(bool_text(self.dra)).concat(" }")
    }
}

/// The units that an observation of the providers asks for, in this order.
pub fn provider_units() -> (units: [&'static str; 4])
    ensures
        units@[0]@ == KUBELET_UNIT@,
        units@[1]@ == DEVICE_PLUGIN_UNIT@,
        units@[2]@ == MPS_UNIT@,
        units@[3]@ == DRA_UNIT@,
{
    [KUBELET_UNIT, DEVICE_PLUGIN_UNIT, MPS_UNIT, DRA_UNIT]
}

/// The state in which the providers are observed, from whether each of the `provider_units` is
/// active.
pub fn observed(active: [bool; 4]) -> (state: ProviderState)
    ensures
        state.kubelet == active@[0],
        state.device_plugin == active@[1],
        state.mps == active@[2],
        state.dra == active@[3],
{
    ProviderState {
        kubelet: active[0],
        device_plugin: active[1],
        mps: active[2],
        dra: active[3],
    }
}

proof fn lemma_modes_differ()
    ensures
        DISABLED_MODE@ != SHARED_INFERENCE_MODE@,
        DISABLED_MODE@ != DISTRIBUTED_TRAINING_MODE@,
        SHARED_INFERENCE_MODE@ != DISTRIBUTED_TRAINING_MODE@,
{
    reveal_strlit("disabled");
    reveal_strlit("dra-shared-inference");
    reveal_strlit("dra-distributed-training");
    assert(DISABLED_MODE@.len() == 8);
    assert(SHARED_INFERENCE_MODE@.len() == 20);
    assert(DISTRIBUTED_TRAINING_MODE@.len() == 24);
}

/// Every profile has a mode of its own, and none shares the mode without providers.
pub proof fn profiles_have_distinct_modes(left: AcceleratorProfile, right: AcceleratorProfile)
    ensures
        profile_mode(left) == profile_mode(right) ==> left == right,
        profile_mode(left) != DISABLED_MODE@,
{
    lemma_modes_differ();
}

/// The services never fit the mode without providers and the mode of a profile at once, and a
/// legacy provider that runs fits no mode.
pub proof fn providers_are_mutually_exclusive(state: ProviderState, profile: AcceleratorProfile)
    ensures
        !(state.fits(DISABLED_MODE@) && state.fits(profile_mode(profile))),
        state.device_plugin || state.mps ==> !state.fits(DISABLED_MODE@) && !state.fits(
            profile_mode(profile),
        ),
{
    lemma_modes_differ();
}

/// The command that selects a mode.
pub fn set_mode_command(mode: &str) -> (command: CommandLine)
    ensures
        command.program@ == APICLIENT@,
        command.arguments@.len() == 2,
        command.arguments@[0]@ == "set"@,
        command.arguments@[1]@ == MODE_SETTING@ + "="@ + mode@,
{
    let mut arguments: Vec<String> = Vec::new();
    arguments.push("set".to_string());
    arguments.push(MODE_SETTING.to_string().concat("=").concat(mode));
    CommandLine { program: APICLIENT, arguments }
}

/// The command that asks for the selected mode.
pub fn current_mode_command() -> (command: CommandLine)
    ensures
        command.program@ == APICLIENT@,
        command.arguments@.len() == 2,
        command.arguments@[0]@ == "get"@,
        command.arguments@[1]@ == MODE_SETTING@,
{
    let mut arguments: Vec<String> = Vec::new();
    arguments.push("get".to_string());
    arguments.push(MODE_SETTING.to_string());
    CommandLine { program: APICLIENT, arguments }
}

/// How a command that did not succeed is reported.
pub open spec fn command_failure(
    command: CommandLine,
    output: CommandOutput,
) -> NodeExecutorErrorView {
    NodeExecutorErrorView::CommandFailed {
        command: command.line(),
        status: output.status@,
        stderr: output.complaint(),
    }
}

/// Reports a command that did not succeed.
fn failed_command(command: &CommandLine, output: &CommandOutput) -> (error: NodeExecutorError)
    ensures
        error@ == command_failure(*command, *output),
{
    NodeExecutorError::CommandFailed {
        command: command.text(),
        status: output.status.clone(),
        stderr: output.stderr_text(),
    }
}

/// Accepts the output of a command exactly if the command succeeded.
pub fn command_succeeded(command: &CommandLine, output: &CommandOutput) -> (result: Result<
    (),
    NodeExecutorError,
>)
    ensures
        match result {
            Ok(()) => output.success,
            Err(error) => !output.success && error@ == command_failure(*command, *output),
        },
{
    if output.success {
        return Ok(());
    }
    Err(failed_command(command, output))
}

/// Reads from the output of `command` whether the unit that it asks for is active. A unit is
/// inactive only if the service manager says so; every other failure is an error.
pub fn unit_is_active(command: &CommandLine, output: &CommandOutput) -> (result: Result<
    bool,
    NodeExecutorError,
>)
    ensures
        match result {
            Ok(active) => activity(*output) == Some(active),
            Err(error) => activity(*output) is None && error@ == command_failure(*command, *output),
        },
{
    match read_activity(output) {
        Some(active) => Ok(active),
        None => Err(failed_command(command, output)),
    }
}

/// What the output of `command` says of the selected mode.
pub open spec fn mode_answer(command: CommandLine, output: CommandOutput) -> Result<
    Option<Seq<char>>,
    NodeExecutorErrorView,
> {
    if !output.success {
        Err(command_failure(command, output))
    } else {
        match text_in_document(output.stdout@, MODE_POINTER@) {
            Ok(mode) => Ok(mode),
            Err(source) => Err(NodeExecutorErrorView::ParseSettings { source }),
        }
    }
}

/// Reads the selected mode from the output of `command`: no mode is selected where the settings
/// hold no text in its place.
pub fn current_mode(command: &CommandLine, output: &CommandOutput) -> (result: Result<
    Option<String>,
    NodeExecutorError,
>)
    ensures
        match result {
            Ok(Some(mode)) => mode_answer(*command, *output) == Ok::<
                Option<Seq<char>>,
                NodeExecutorErrorView,
            >(Some(mode@)),
            Ok(None) => mode_answer(*command, *output) == Ok::<
                Option<Seq<char>>,
                NodeExecutorErrorView,
            >(None),
            Err(error) => mode_answer(*command, *output) == Err::<
                Option<Seq<char>>,
                NodeExecutorErrorView,
            >(error@),
        },
{
    if !output.success {
        return Err(failed_command(command, output));
    }
    match text_at(output.stdout.as_slice(), MODE_POINTER) {
        Ok(mode) => Ok(mode),
        Err(source) => Err(NodeExecutorError::ParseSettings { source }),
    }
}

/// What a node operation does about a mode that is not the expected one.
#[derive(Clone, Copy, Debug, Eq, PartialEq, Structural)]
pub enum ModeGoal {
    /// Select the expected mode.
    Select,
    /// Only confirm that it is selected.
    Confirm,
}

/// What a node operation asks of the node next.
#[derive(Clone, Copy, Debug, Eq, PartialEq, Structural)]
pub enum ModeStep {
    ReadMode,
    WriteMode,
    ObserveProviders { attempt: usize },
    Pause { attempt: usize },
}

/// A node operation that brings or holds the node to a mode, between two of its steps.
#[derive(Debug, Eq, PartialEq)]
pub struct ModeTask {
    goal: ModeGoal,
    expected: &'static str,
    step: ModeStep,
}

/// What the node answered to a step.
#[derive(Debug, Eq, PartialEq)]
pub enum ModeReply {
    Mode { mode: Option<String> },
    Written,
    Providers { state: ProviderState },
    Paused,
    Failed { error: NodeExecutorError },
}

/// Where a node operation stands after a step.
#[derive(Debug, Eq, PartialEq)]
pub enum ModeProgress {
    Continue { task: ModeTask },
    Finished { result: Result<(), NodeExecutorError> },
}

/// A node operation, as mathematics.
pub struct ModeTaskView {
    pub goal: ModeGoal,
    pub expected: Seq<char>,
    pub step: ModeStep,
}

/// An answer of the node, as mathematics.
pub enum ModeReplyView {
    Mode { mode: Option<Seq<char>> },
    Written,
    Providers { state: ProviderState },
    Paused,
    Failed { error: NodeExecutorErrorView },
}

/// Where a node operation stands, as mathematics.
pub enum ModeProgressView {
    Continue { task: ModeTaskView },
    Finished { result: Result<(), NodeExecutorErrorView> },
}

impl View for ModeTask {
    type V = ModeTaskView;

    closed spec fn view(&self) -> ModeTaskView {
        ModeTaskView { goal: self.goal, expected: self.expected@, step: self.step }
    }
}

impl View for ModeReply {
    type V = ModeReplyView;

    open spec fn view(&self) -> ModeReplyView {
        match self {
            ModeReply::Mode { mode: Some(mode) } => ModeReplyView::Mode { mode: Some(mode@) },
            ModeReply::Mode { mode: None } => ModeReplyView::Mode { mode: None },
            ModeReply::Written => ModeReplyView::Written,
            ModeReply::Providers { state } => ModeReplyView::Providers { state: *state },
            ModeReply::Paused => ModeReplyView::Paused,
            ModeReply::Failed { error } => ModeReplyView::Failed { error: error@ },
        }
    }
}

impl View for ModeProgress {
    type V = ModeProgressView;

    open spec fn view(&self) -> ModeProgressView {
        match self {
            ModeProgress::Continue { task } => ModeProgressView::Continue { task: task@ },
            ModeProgress::Finished { result: Ok(()) } => {
                ModeProgressView::Finished { result: Ok(()) }
            },
            ModeProgress::Finished { result: Err(error) } => {
                ModeProgressView::Finished { result: Err(error@) }
            },
        }
    }
}

impl ModeTaskView {
    /// An operation that has not asked for anything yet.
    pub open spec fn fresh(goal: ModeGoal, expected: Seq<char>) -> ModeTaskView {
        ModeTaskView { goal, expected, step: ModeStep::ReadMode }
    }

    /// Observations stay within their limit, and only a selection writes the mode.
    pub open spec fn valid(self) -> bool {
        match self.step {
            ModeStep::ReadMode => true,
            ModeStep::WriteMode => self.goal is Select,
            ModeStep::ObserveProviders { attempt } => attempt < CONVERGENCE_ATTEMPTS,
            ModeStep::Pause { attempt } => attempt + 1 < CONVERGENCE_ATTEMPTS,
        }
    }

    /// A reply that the pending step can have. Only a pause cannot fail.
    pub open spec fn awaits(self, reply: ModeReplyView) -> bool {
        match self.step {
            ModeStep::ReadMode => reply is Mode || reply is Failed,
            ModeStep::WriteMode => reply is Written || reply is Failed,
            ModeStep::ObserveProviders { .. } => reply is Providers || reply is Failed,
            ModeStep::Pause { .. } => reply is Paused,
        }
    }

    pub open spec fn at(self, step: ModeStep) -> ModeProgressView {
        ModeProgressView::Continue { task: ModeTaskView { step, ..self } }
    }

    /// Where the operation stands after a reply.
    ///
    /// The mode is read first. A selection writes the expected mode unless it is selected already,
    /// a confirmation fails unless it is. Then the providers are observed until they fit the mode,
    /// with a pause between two observations, and the last allowed observation decides. A failed
    /// step fails the operation.
    pub open spec fn after(self, reply: ModeReplyView) -> ModeProgressView {
        match reply {
            ModeReplyView::Failed { error } => ModeProgressView::Finished { result: Err(error) },
            ModeReplyView::Mode { mode } => if mode == Some(self.expected) {
                self.at(ModeStep::ObserveProviders { attempt: 0 })
            } else if self.goal is Select {
                self.at(ModeStep::WriteMode)
            } else {
                ModeProgressView::Finished {
                    result: Err(
                        NodeExecutorErrorView::UnexpectedMode {
                            expected: self.expected,
                            actual: match mode {
                                Some(mode) => mode,
                                None => "<unset>"@,
                            },
                        },
                    ),
                }
            },
            ModeReplyView::Written => self.at(ModeStep::ObserveProviders { attempt: 0 }),
            ModeReplyView::Providers { state } => if state.fits(self.expected) {
                ModeProgressView::Finished { result: Ok(()) }
            } else if self.step->ObserveProviders_attempt + 1 < CONVERGENCE_ATTEMPTS {
                self.at(ModeStep::Pause { attempt: self.step->ObserveProviders_attempt })
            } else {
                ModeProgressView::Finished {
                    result: Err(
                        NodeExecutorErrorView::ProviderConvergence {
                            expected: self.expected,
                            actual: state.label(),
                        },
                    ),
                }
            },
            ModeReplyView::Paused => self.at(
                ModeStep::ObserveProviders { attempt: (self.step->Pause_attempt + 1) as usize },
            ),
        }
    }
}

impl ModeTask {
    #[verifier::type_invariant]
    spec fn valid(self) -> bool {
        self@.valid()
    }

    /// Selects a mode unless it is selected already, and waits until the providers fit it.
    pub fn set_mode_and_wait(expected_mode: &'static str) -> (task: ModeTask)
        ensures
            task@ == ModeTaskView::fresh(ModeGoal::Select, expected_mode@),
    {
        ModeTask { goal: ModeGoal::Select, expected: expected_mode, step: ModeStep::ReadMode }
    }

    /// Confirms that a mode is selected, and waits until the providers fit it.
    pub fn validate_mode(expected_mode: &'static str) -> (task: ModeTask)
        ensures
            task@ == ModeTaskView::fresh(ModeGoal::Confirm, expected_mode@),
    {
        ModeTask { goal: ModeGoal::Confirm, expected: expected_mode, step: ModeStep::ReadMode }
    }

    /// Takes every provider off the node.
    pub fn withdraw_advertisement() -> (task: ModeTask)
        ensures
            task@ == ModeTaskView::fresh(ModeGoal::Select, DISABLED_MODE@),
    {
        ModeTask::set_mode_and_wait(DISABLED_MODE)
    }

    /// Brings the node to a profile.
    pub fn apply_profile(profile: AcceleratorProfile) -> (task: ModeTask)
        ensures
            task@ == ModeTaskView::fresh(ModeGoal::Select, profile_mode(profile)),
    {
        ModeTask::set_mode_and_wait(mode_for_profile(profile))
    }

    /// Confirms that the node runs a profile.
    pub fn validate_dra(profile: AcceleratorProfile) -> (task: ModeTask)
        ensures
            task@ == ModeTaskView::fresh(ModeGoal::Confirm, profile_mode(profile)),
    {
        ModeTask::validate_mode(mode_for_profile(profile))
    }

    /// What the operation asks of the node next.
    pub fn step(&self) -> (step: ModeStep)
        ensures
            step == self@.step,
            self@.valid(),
    {
        proof {
            use_type_invariant(self);
        }
        self.step
    }

    /// The mode that the operation is about.
    pub fn expected_mode(&self) -> (mode: &'static str)
        ensures
            mode@ == self@.expected,
    {
        self.expected
    }

    /// Takes the node's reply to the pending step.
    pub fn resume(self, reply: ModeReply) -> (progress: ModeProgress)
        requires
            self@.awaits(reply@),
        ensures
            progress@ == self@.after(reply@),
    {
        proof {
            use_type_invariant(&self);
        }
        match reply {
            ModeReply::Failed { error } => ModeProgress::Finished { result: Err(error) },
            ModeReply::Mode { mode } => self.mode_read(mode),
            ModeReply::Written => ModeProgress::Continue {
                task: ModeTask { step: ModeStep::ObserveProviders { attempt: 0 }, ..self },
            },
            ModeReply::Providers { state } => self.wait_for_convergence(state),
            ModeReply::Paused => match self.step {
                ModeStep::Pause { attempt } => ModeProgress::Continue {
                    task: ModeTask {
                        step: ModeStep::ObserveProviders { attempt: attempt + 1 },
                        ..self
                    },
                },
                _ => ModeProgress::Continue { task: self },
            },
        }
    }

    /// Goes on from the mode that is selected.
    fn mode_read(self, mode: Option<String>) -> (progress: ModeProgress)
        requires
            self@.step is ReadMode,
        ensures
            progress@ == self@.after((ModeReply::Mode { mode })@),
    {
        let selected = match &mode {
            Some(mode) => same_text(mode.as_str(), self.expected),
            None => false,
        };
        if selected {
            return ModeProgress::Continue {
                task: ModeTask { step: ModeStep::ObserveProviders { attempt: 0 }, ..self },
            };
        }
        match self.goal {
            ModeGoal::Select => ModeProgress::Continue {
                task: ModeTask { step: ModeStep::WriteMode, ..self },
            },
            ModeGoal::Confirm => ModeProgress::Finished {
                result: Err(
                    NodeExecutorError::UnexpectedMode {
                        expected: self.expected,
                        actual: match mode {
                            Some(mode) => mode,
                            None => "<unset>".to_string(),
                        },
                    },
                ),
            },
        }
    }

    /// Goes on from an observation of the providers.
    fn wait_for_convergence(self, last: ProviderState) -> (progress: ModeProgress)
        requires
            self@.step is ObserveProviders,
        ensures
            progress@ == self@.after(ModeReplyView::Providers { state: last }),
    {
        proof {
            use_type_invariant(&self);
        }
        if last.matches_mode(self.expected) {
            return ModeProgress::Finished { result: Ok(()) };
        }
        if let ModeStep::ObserveProviders { attempt } = self.step {
            if attempt + 1 < CONVERGENCE_ATTEMPTS {
                return ModeProgress::Continue {
                    task: ModeTask { step: ModeStep::Pause { attempt }, ..self },
                };
            }
        }
        ModeProgress::Finished {
            result: Err(
                NodeExecutorError::ProviderConvergence {
                    expected: self.expected,
                    actual: last.text(),
                },
            ),
        }
    }
}

/// The operation after a series of replies, as long as each is one that it awaits and it has not
/// finished before the last.
pub open spec fn after_replies(task: ModeTaskView, replies: Seq<ModeReplyView>) -> Option<
    ModeProgressView,
>
    decreases replies.len(),
{
    if replies.len() == 0 {
        Some(ModeProgressView::Continue { task })
    } else {
        match after_replies(task, replies.drop_last()) {
            Some(ModeProgressView::Continue { task }) => if task.awaits(replies.last()) {
                Some(task.after(replies.last()))
            } else {
                None
            },
            _ => None,
        }
    }
}

/// How many of the replies were observations of the providers.
pub open spec fn observations(replies: Seq<ModeReplyView>) -> nat
    decreases replies.len(),
{
    if replies.len() == 0 {
        0
    } else {
        observations(replies.drop_last()) + if replies.last() is Providers {
            1nat
        } else {
            0nat
        }
    }
}

/// How many of the replies ended a pause.
pub open spec fn pauses(replies: Seq<ModeReplyView>) -> nat
    decreases replies.len(),
{
    if replies.len() == 0 {
        0
    } else {
        pauses(replies.drop_last()) + if replies.last() is Paused {
            1nat
        } else {
            0nat
        }
    }
}

/// How many of the replies acknowledged a write of the mode.
pub open spec fn writes(replies: Seq<ModeReplyView>) -> nat
    decreases replies.len(),
{
    if replies.len() == 0 {
        0
    } else {
        writes(replies.drop_last()) + if replies.last() is Written {
            1nat
        } else {
            0nat
        }
    }
}

/// An operation that has succeeded did so on an observation of the providers that fits its mode.
pub proof fn success_follows_a_fitting_observation(task: ModeTaskView, reply: ModeReplyView)
    requires
        task.awaits(reply),
    ensures
        task.after(reply) == (ModeProgressView::Finished { result: Ok(()) }) <==> (reply matches
            ModeReplyView::Providers { state } && state.fits(task.expected)),
{
}

/// However the node answers, an operation observes the providers and pauses no more often than the
/// limits allow, writes the mode at most once, keeps to its mode, and ends.
pub proof fn operations_are_bounded(
    goal: ModeGoal,
    expected: Seq<char>,
    replies: Seq<ModeReplyView>,
)
    requires
        after_replies(ModeTaskView::fresh(goal, expected), replies) is Some,
    ensures
        observations(replies) <= CONVERGENCE_ATTEMPTS,
        pauses(replies) + 1 <= CONVERGENCE_ATTEMPTS,
        writes(replies) <= 1,
        goal is Confirm ==> writes(replies) == 0,
        replies.len() <= 2 * CONVERGENCE_ATTEMPTS + 1,
        after_replies(ModeTaskView::fresh(goal, expected), replies) matches Some(
            ModeProgressView::Continue { task },
        ) ==> task.valid() && task.goal == goal && task.expected == expected,
{
    lemma_replies_match_the_step(goal, expected, replies);
}

/// What the replies so far say about the step that is pending.
proof fn lemma_replies_match_the_step(
    goal: ModeGoal,
    expected: Seq<char>,
    replies: Seq<ModeReplyView>,
)
    requires
        after_replies(ModeTaskView::fresh(goal, expected), replies) is Some,
    ensures
        writes(replies) <= 1,
        goal is Confirm ==> writes(replies) == 0,
        observations(replies) <= CONVERGENCE_ATTEMPTS,
        pauses(replies) + 1 <= CONVERGENCE_ATTEMPTS,
        replies.len() <= 2 * CONVERGENCE_ATTEMPTS + 1,
        match after_replies(ModeTaskView::fresh(goal, expected), replies)->Some_0 {
            ModeProgressView::Finished { .. } => true,
            ModeProgressView::Continue { task } => {
                &&& task.valid()
                &&& task.goal == goal
                &&& task.expected == expected
                &&& replies.len() <= 1 + writes(replies) + observations(replies) + pauses(replies)
                &&& match task.step {
                    ModeStep::ReadMode => replies.len() == 0,
                    ModeStep::WriteMode => replies.len() == 1 && writes(replies) == 0
                        && observations(replies) == 0 && pauses(replies) == 0,
                    ModeStep::ObserveProviders { attempt } => observations(replies) == attempt
                        && pauses(replies) == attempt,
                    ModeStep::Pause { attempt } => observations(replies) == attempt + 1
                        && pauses(replies) == attempt,
                }
            },
        },
    decreases replies.len(),
{
    if replies.len() > 0 {
        lemma_replies_match_the_step(goal, expected, replies.drop_last());
    }
}

/// A mode that is selected already is not written again.
pub proof fn selected_modes_are_not_rewritten(
    goal: ModeGoal,
    expected: Seq<char>,
    replies: Seq<ModeReplyView>,
)
    requires
        after_replies(ModeTaskView::fresh(goal, expected), replies) is Some,
        replies.len() > 0,
        replies[0] == (ModeReplyView::Mode { mode: Some(expected) }),
    ensures
        writes(replies) == 0,
        after_replies(ModeTaskView::fresh(goal, expected), replies) matches Some(
            ModeProgressView::Continue { task },
        ) ==> !(task.step is WriteMode),
    decreases replies.len(),
{
    let shorter = replies.drop_last();
    if shorter.len() > 0 {
        assert(shorter[0] == replies[0]);
        selected_modes_are_not_rewritten(goal, expected, shorter);
        lemma_replies_match_the_step(goal, expected, shorter);
    } else {
        assert(writes(shorter) == 0);
        assert(after_replies(ModeTaskView::fresh(goal, expected), shorter) == Some(
            ModeProgressView::Continue { task: ModeTaskView::fresh(goal, expected) },
        ));
    }
}

/// A selection goes on to the providers only once the expected mode was read or written, and a
/// confirmation only once it was read: providers are never observed under another mode.
pub proof fn providers_are_observed_under_the_expected_mode(
    goal: ModeGoal,
    expected: Seq<char>,
    replies: Seq<ModeReplyView>,
)
    requires
        after_replies(ModeTaskView::fresh(goal, expected), replies) is Some,
        observations(replies) > 0,
    ensures
        replies.len() > 0,
        replies[0] == (ModeReplyView::Mode { mode: Some(expected) }) || (goal is Select
            && replies.len() > 1 && replies[1] is Written),
{
    lemma_expected_mode_holds(goal, expected, replies);
}

/// Past the first steps, the expected mode was read or written.
proof fn lemma_expected_mode_holds(
    goal: ModeGoal,
    expected: Seq<char>,
    replies: Seq<ModeReplyView>,
)
    requires
        after_replies(ModeTaskView::fresh(goal, expected), replies) is Some,
        observations(replies) > 0 || (after_replies(
            ModeTaskView::fresh(goal, expected),
            replies,
        ) matches Some(ModeProgressView::Continue { task }) && (task.step is ObserveProviders
            || task.step is Pause)),
    ensures
        replies.len() > 0,
        replies[0] == (ModeReplyView::Mode { mode: Some(expected) }) || (goal is Select
            && replies.len() > 1 && replies[1] is Written),
    decreases replies.len(),
{
    let shorter = replies.drop_last();
    lemma_replies_match_the_step(goal, expected, shorter);
    let task = after_replies(ModeTaskView::fresh(goal, expected), shorter)->Some_0->Continue_task;
    if observations(shorter) > 0 || task.step is ObserveProviders || task.step is Pause {
        lemma_expected_mode_holds(goal, expected, shorter);
        assert(shorter[0] == replies[0]);
        assert(shorter.len() > 1 ==> shorter[1] == replies[1]);
    }
}

/// A selection that has read the mode never ends there: where the mode is the expected one it goes
/// on to the providers, and where it is any other, or none, it goes on to write the expected one. A
/// confirmation goes on to the providers exactly where the mode is the expected one, and otherwise
/// fails with both modes.
pub proof fn every_other_mode_is_replaced_or_refused(
    goal: ModeGoal,
    expected: Seq<char>,
    mode: Option<Seq<char>>,
)
    ensures
        match ModeTaskView::fresh(goal, expected).after(ModeReplyView::Mode { mode }) {
            ModeProgressView::Continue { task } => {
                &&& task.goal == goal
                &&& task.expected == expected
                &&& task.step == ModeStep::WriteMode || task.step == (ModeStep::ObserveProviders {
                    attempt: 0,
                })
                &&& task.step == ModeStep::WriteMode <==> mode != Some(expected)
                &&& task.step == ModeStep::WriteMode ==> goal == ModeGoal::Select
            },
            ModeProgressView::Finished { result } => {
                &&& goal == ModeGoal::Confirm
                &&& mode != Some(expected)
                &&& result matches Err(NodeExecutorErrorView::UnexpectedMode {
                    expected: wanted,
                    actual,
                }) && wanted == expected && (mode is Some ==> actual == mode->Some_0) && (
                mode is None ==> actual == "<unset>"@)
            },
        },
{
}

/// A step that is done leads to the providers, and an observation decides: fitting providers end
/// the operation with success, others are observed again after a pause, and once more after each
/// pause, until no observation is left. A failure ends it with that very failure.
pub proof fn operations_go_on_until_the_providers_fit(task: ModeTaskView, reply: ModeReplyView)
    requires
        task.valid(),
        task.awaits(reply),
        !(reply is Mode),
    ensures
        match task.after(reply) {
            ModeProgressView::Continue { task: next } => {
                &&& next.goal == task.goal
                &&& next.expected == task.expected
                &&& match next.step {
                    ModeStep::ObserveProviders { attempt } => {
                        ||| task.step == ModeStep::WriteMode && attempt == 0
                        ||| task.step matches ModeStep::Pause { attempt: done } && attempt == done
                            + 1
                    },
                    ModeStep::Pause { attempt } => {
                        &&& task.step == (ModeStep::ObserveProviders { attempt })
                        &&& attempt + 1 < CONVERGENCE_ATTEMPTS
                        &&& reply matches ModeReplyView::Providers { state } && !state.fits(
                            task.expected,
                        )
                    },
                    _ => false,
                }
            },
            ModeProgressView::Finished { result: Ok(_) } => reply matches ModeReplyView::Providers {
                state,
            } && state.fits(task.expected),
            ModeProgressView::Finished { result: Err(error) } => {
                ||| reply == (ModeReplyView::Failed { error })
                ||| {
                    &&& task.step matches ModeStep::ObserveProviders { attempt } && attempt + 1
                        == CONVERGENCE_ATTEMPTS
                    &&& reply matches ModeReplyView::Providers { state } && !state.fits(
                        task.expected,
                    ) && error == (NodeExecutorErrorView::ProviderConvergence {
                        expected: task.expected,
                        actual: state.label(),
                    })
                }
            },
        },
        reply is Failed ==> task.after(reply) is Finished,
{
}

/// A selection fails only with a step that failed, or after as many observations as are allowed, of
/// which the last does not fit either. A confirmation may also fail with the mode that it read.
pub proof fn operations_fail_only_for_cause(
    goal: ModeGoal,
    expected: Seq<char>,
    replies: Seq<ModeReplyView>,
    error: NodeExecutorErrorView,
)
    requires
        after_replies(ModeTaskView::fresh(goal, expected), replies) == Some(
            ModeProgressView::Finished { result: Err(error) },
        ),
    ensures
        replies.len() > 0,
        ({
            ||| replies.last() == (ModeReplyView::Failed { error })
            ||| {
                &&& observations(replies) == CONVERGENCE_ATTEMPTS
                &&& replies.last() matches ModeReplyView::Providers { state } && !state.fits(
                    expected,
                )
                &&& error is ProviderConvergence
            }
            ||| {
                &&& goal is Confirm
                &&& replies.len() == 1
                &&& replies[0] is Mode
                &&& replies[0] != (ModeReplyView::Mode { mode: Some(expected) })
                &&& error is UnexpectedMode
            }
        }),
{
    let shorter = replies.drop_last();
    lemma_replies_match_the_step(goal, expected, shorter);
    let task = after_replies(ModeTaskView::fresh(goal, expected), shorter)->Some_0->Continue_task;
    if !(replies.last() is Mode) {
        operations_go_on_until_the_providers_fit(task, replies.last());
    } else {
        assert(replies.last() == replies[0]);
    }
}

/// The providers fit a mode in one state only: the kubelet runs and the legacy providers rest, with
/// the DRA driver in the modes of the profiles and without it in the mode without providers. They
/// fit no other mode.
pub proof fn one_state_fits_each_mode(state: ProviderState, mode: Seq<char>)
    ensures
        state.fits(DISABLED_MODE@) <==> state == (ProviderState {
            kubelet: true,
            device_plugin: false,
            mps: false,
            dra: false,
        }),
        forall|profile: AcceleratorProfile|
            state.fits(#[trigger] profile_mode(profile)) <==> state == (ProviderState {
                kubelet: true,
                device_plugin: false,
                mps: false,
                dra: true,
            }),
        state.fits(mode) ==> mode == DISABLED_MODE@ || mode == profile_mode(
            AcceleratorProfile::SharedInference,
        ) || mode == profile_mode(AcceleratorProfile::DistributedTraining),
{
    lemma_modes_differ();
}

/// What the output of the settings client says of the mode: a failed command is reported as such,
/// settings that cannot be read with the reason, and otherwise the mode is the text at its place,
/// or none.
pub proof fn modes_are_read_from_good_output_only(command: CommandLine, output: CommandOutput)
    ensures
        match mode_answer(command, output) {
            Ok(mode) => {
                &&& output.success
                &&& text_in_document(output.stdout@, MODE_POINTER@) == Ok::<
                    Option<Seq<char>>,
                    Seq<char>,
                >(mode)
            },
            Err(NodeExecutorErrorView::ParseSettings { source }) => {
                &&& output.success
                &&& text_in_document(output.stdout@, MODE_POINTER@) == Err::<
                    Option<Seq<char>>,
                    Seq<char>,
                >(source)
            },
            Err(NodeExecutorErrorView::CommandFailed { command: line, status, stderr }) => {
                &&& !output.success
                &&& line == command.line()
                &&& status == output.status@
                &&& stderr == output.complaint()
            },
            Err(_) => false,
        },
{
}

/// An operation waits a minute at the most, and gives the providers up only after a whole minute.
pub proof fn providers_get_a_minute(
    goal: ModeGoal,
    expected: Seq<char>,
    replies: Seq<ModeReplyView>,
)
    requires
        after_replies(ModeTaskView::fresh(goal, expected), replies) is Some,
    ensures
        pauses(replies) * CONVERGENCE_INTERVAL_SECONDS <= 60,
        after_replies(ModeTaskView::fresh(goal, expected), replies) matches Some(
            ModeProgressView::Finished { result: Err(error) },
        ) && replies.last() is Providers ==> pauses(replies) * CONVERGENCE_INTERVAL_SECONDS == 60,
{
    lemma_replies_match_the_step(goal, expected, replies);
    if replies.len() > 0 {
        lemma_replies_match_the_step(goal, expected, replies.drop_last());
    }
}

/// The modes are called as the settings know them.
pub proof fn modes_have_their_names()
    ensures
        DISABLED_MODE@ == "disabled"@,
        profile_mode(AcceleratorProfile::SharedInference) == "dra-shared-inference"@,
        profile_mode(AcceleratorProfile::DistributedTraining) == "dra-distributed-training"@,
{
}

} // verus!
