//! The coordinator's commands.

use crate::laws::{after_request, is_accepted, requests_keep_consistency, Request};
use crate::model::{ErrorView, IdView, StateView};
use crate::state::{
    AcceleratorProfile, LifecycleError, LifecycleState, TransitionId, TransitionOutcome,
    TransitionPhase,
};
use crate::text::same_text;
use vstd::prelude::*;
use vstd::string::*;

verus! {

/// A step of a transition that the coordinator reports as done.
#[derive(Clone, Copy, Debug, Eq, PartialEq, Structural)]
pub enum TransitionEvent {
    NodeDrained,
    AdvertisementWithdrawn,
    TargetProfileApplied,
    TargetDraValidated,
    TargetQualified,
    TargetCommitted,
    PreviousProfileApplied,
    PreviousDraValidated,
    PreviousProfileCommitted,
}

/// A command of the coordinator.
#[allow(inconsistent_fields)]
#[derive(Debug, Eq, PartialEq)]
pub enum Command {
    /// Show the state.
    Status,
    /// Persist a new profile transition intent.
    Begin { token: String, profile: AcceleratorProfile, expected_generation: u64 },
    /// Record one successfully completed transition event.
    Record { generation: u64, token: String, event: TransitionEvent },
    /// Request restoration of the previous qualified profile.
    Restore { generation: u64, token: String, reason: String },
}

/// A command, as mathematics.
#[allow(inconsistent_fields)]
pub enum CommandView {
    Status,
    Begin { token: Seq<char>, profile: AcceleratorProfile, expected_generation: u64 },
    Record { id: IdView, event: TransitionEvent },
    Restore { id: IdView, reason: Seq<char> },
}

impl View for Command {
    type V = CommandView;

    open spec fn view(&self) -> CommandView {
        match self {
            Command::Status => CommandView::Status,
            Command::Begin { token, profile, expected_generation } => CommandView::Begin {
                token: token@,
                profile: *profile,
                expected_generation: *expected_generation,
            },
            Command::Record { generation, token, event } => CommandView::Record {
                id: IdView { generation: *generation, token: token@ },
                event: *event,
            },
            Command::Restore { generation, token, reason } => CommandView::Restore {
                id: IdView { generation: *generation, token: token@ },
                reason: reason@,
            },
        }
    }
}

/// Why a command was refused.
#[derive(Debug)]
pub enum CommandError {
    NoTransition,
    IdMismatch { requested: TransitionId, current: TransitionId },
    Lifecycle(LifecycleError),
}

/// The refusals of commands, as mathematics.
pub enum CommandErrorView {
    NoTransition,
    IdMismatch { requested: IdView, current: IdView },
    Lifecycle(ErrorView),
}

impl View for CommandError {
    type V = CommandErrorView;

    open spec fn view(&self) -> CommandErrorView {
        match self {
            CommandError::NoTransition => CommandErrorView::NoTransition,
            CommandError::IdMismatch { requested, current } => CommandErrorView::IdMismatch {
                requested: requested@,
                current: current@,
            },
            CommandError::Lifecycle(error) => CommandErrorView::Lifecycle(error@),
        }
    }
}

impl CommandErrorView {
    /// The message that the refusal is reported with.
    pub open spec fn message(self) -> Seq<char> {
        match self {
            CommandErrorView::NoTransition => "no active or completed transition exists"@,
            CommandErrorView::IdMismatch { requested, current } => {
                "transition ID mismatch: requested "@ + requested.text() + ", current "@
                    + current.text()
            },
            CommandErrorView::Lifecycle(error) => error.message(),
        }
    }
}

impl CommandError {
    /// The message that the refusal is reported with.
    pub fn message(&self) -> (message: String)
        ensures
            message@ == self@.message(),
    {
        match self {
            CommandError::NoTransition => "no active or completed transition exists".to_string(),
            CommandError::IdMismatch { requested, current } => {
                "transition ID mismatch: requested ".to_string().concat(
                    requested.text().as_str(),
                ).concat(", current ").concat(current.text().as_str())
            },
            CommandError::Lifecycle(error) => error.message(),
        }
    }
}

/// The transition that commands are about: the active one, or else the last one.
pub open spec fn current_id(state: StateView) -> Option<IdView> {
    match state.active {
        Some(transition) => Some(transition.id),
        None => match state.last_result {
            Some(result) => Some(result.id),
            None => None,
        },
    }
}

/// Why the current transition is not the requested one, if it is not.
pub open spec fn resolution(state: StateView, requested: IdView) -> Result<(), CommandErrorView> {
    match current_id(state) {
        None => Err(CommandErrorView::NoTransition),
        Some(current) => if current == requested {
            Ok(())
        } else {
            Err(CommandErrorView::IdMismatch { requested, current })
        },
    }
}

/// Finds the transition that a command names, if it is the current one.
pub fn resolve_transition_id(state: &LifecycleState, generation: u64, token: &str) -> (result:
    Result<TransitionId, CommandError>)
    ensures
        match result {
            Ok(id) => {
                &&& id@ == (IdView { generation, token: token@ })
                &&& resolution(state@, IdView { generation, token: token@ }) is Ok
            },
            Err(error) => resolution(state@, IdView { generation, token: token@ }) == Err::<
                (),
                CommandErrorView,
            >(error@),
        },
{
    let id = match state.active_transition_id() {
        Some(id) => id,
        None => match state.last_result() {
            Some(result) => result.id(),
            None => return Err(CommandError::NoTransition),
        },
    };
    if id.generation() != generation || !same_text(id.token(), token) {
        return Err(
            CommandError::IdMismatch {
                requested: TransitionId::new(generation, token.to_string()),
                current: id.clone(),
            },
        );
    }
    Ok(id.clone())
}

/// The request that an event stands for.
pub open spec fn event_request(id: IdView, event: TransitionEvent) -> Request {
    match event {
        TransitionEvent::NodeDrained => Request::Record { id, next: TransitionPhase::NodeDrained },
        TransitionEvent::AdvertisementWithdrawn => Request::Record {
            id,
            next: TransitionPhase::AdvertisementWithdrawn,
        },
        TransitionEvent::TargetProfileApplied => Request::Record {
            id,
            next: TransitionPhase::TargetProfileApplied,
        },
        TransitionEvent::TargetDraValidated => Request::Record {
            id,
            next: TransitionPhase::TargetDraValidated,
        },
        TransitionEvent::TargetQualified => Request::Record {
            id,
            next: TransitionPhase::TargetQualified,
        },
        TransitionEvent::TargetCommitted => Request::CommitTarget { id },
        TransitionEvent::PreviousProfileApplied => Request::Record {
            id,
            next: TransitionPhase::PreviousProfileApplied,
        },
        TransitionEvent::PreviousDraValidated => Request::Record {
            id,
            next: TransitionPhase::PreviousDraValidated,
        },
        TransitionEvent::PreviousProfileCommitted => Request::CommitRestore { id },
    }
}

/// The request that a command stands for.
pub open spec fn command_request(command: CommandView) -> Option<Request> {
    match command {
        CommandView::Status => None,
        CommandView::Begin { token, profile, expected_generation } => Some(
            Request::Begin { token, target: profile, expected_generation },
        ),
        CommandView::Record { id, event } => Some(event_request(id, event)),
        CommandView::Restore { id, reason } => Some(Request::RequestRestore { id, reason }),
    }
}

/// The reason for which the lifecycle refuses a request, if it does.
pub open spec fn refusal(state: StateView, request: Request) -> Option<ErrorView> {
    match request {
        Request::Begin { token, target, expected_generation } => match state.begin_outcome(
            token,
            target,
            expected_generation,
        ) {
            Ok(_) => None,
            Err(error) => Some(error),
        },
        Request::Record { id, next } => match state.record_outcome(id, next) {
            Ok(_) => None,
            Err(error) => Some(error),
        },
        Request::CommitTarget { id } => match state.commit_target_outcome(id) {
            Ok(_) => None,
            Err(error) => Some(error),
        },
        Request::RequestRestore { id, reason } => match state.restore_outcome(id, reason) {
            Ok(_) => None,
            Err(error) => Some(error),
        },
        Request::CommitRestore { id } => match state.commit_restore_outcome(id) {
            Ok(_) => None,
            Err(error) => Some(error),
        },
    }
}

/// How a command is answered: whether the state is to be saved, or why the command is refused.
pub open spec fn command_outcome(state: StateView, command: CommandView) -> Result<
    bool,
    CommandErrorView,
> {
    let resolved = match command {
        CommandView::Record { id, .. } => resolution(state, id),
        CommandView::Restore { id, .. } => resolution(state, id),
        _ => Ok(()),
    };
    match resolved {
        Err(error) => Err(error),
        Ok(_) => match command_request(command) {
            None => Ok(false),
            Some(request) => match refusal(state, request) {
                None => Ok(true),
                Some(error) => Err(CommandErrorView::Lifecycle(error)),
            },
        },
    }
}

/// The state after a command.
pub open spec fn after_command(state: StateView, command: CommandView) -> StateView {
    match command_request(command) {
        Some(request) if command_outcome(state, command) is Ok => after_request(state, request),
        _ => state,
    }
}

/// Carries a command out on the state, and tells whether the state is to be saved.
pub fn execute(state: &mut LifecycleState, command: &Command) -> (result: Result<
    bool,
    CommandError,
>)
    ensures
        match result {
            Ok(save) => command_outcome(old(state)@, command@) == Ok::<bool, CommandErrorView>(
                save,
            ),
            Err(error) => command_outcome(old(state)@, command@) == Err::<bool, CommandErrorView>(
                error@,
            ),
        },
        final(state)@ == after_command(old(state)@, command@),
{
    match command {
        Command::Status => Ok(false),
        Command::Begin { token, profile, expected_generation } => {
            match state.begin(token.as_str(), *profile, *expected_generation) {
                Ok(_) => Ok(true),
                Err(error) => Err(CommandError::Lifecycle(error)),
            }
        },
        Command::Record { generation, token, event } => {
            let id = resolve_transition_id(state, *generation, token.as_str())?;
            match record_event(state, &id, *event) {
                Ok(()) => Ok(true),
                Err(error) => Err(CommandError::Lifecycle(error)),
            }
        },
        Command::Restore { generation, token, reason } => {
            let id = resolve_transition_id(state, *generation, token.as_str())?;
            match state.request_restore(&id, reason.as_str()) {
                Ok(()) => Ok(true),
                Err(error) => Err(CommandError::Lifecycle(error)),
            }
        },
    }
}

/// Records an event of a transition.
fn record_event(state: &mut LifecycleState, id: &TransitionId, event: TransitionEvent) -> (result:
    Result<(), LifecycleError>)
    ensures
        match result {
            Ok(()) => refusal(old(state)@, event_request(id@, event)) is None,
            Err(error) => refusal(old(state)@, event_request(id@, event)) == Some(error@),
        },
        final(state)@ == after_request(old(state)@, event_request(id@, event)),
{
    match event {
        TransitionEvent::NodeDrained => state.record_node_drained(id),
        TransitionEvent::AdvertisementWithdrawn => state.record_advertisement_withdrawn(id),
        TransitionEvent::TargetProfileApplied => state.record_target_profile_applied(id),
        TransitionEvent::TargetDraValidated => state.record_target_dra_validated(id),
        TransitionEvent::TargetQualified => state.record_target_qualified(id),
        TransitionEvent::TargetCommitted => state.commit_target(id),
        TransitionEvent::PreviousProfileApplied => state.record_previous_profile_applied(id),
        TransitionEvent::PreviousDraValidated => state.record_previous_dra_validated(id),
        TransitionEvent::PreviousProfileCommitted => state.commit_restore(id),
    }
}

/// The name of a profile on the command line.
pub open spec fn profile_argument(profile: AcceleratorProfile) -> Seq<char> {
    match profile {
        AcceleratorProfile::SharedInference => "shared-inference"@,
        AcceleratorProfile::DistributedTraining => "distributed-training"@,
    }
}

/// Reads a profile from the command line.
pub fn parse_profile(value: &str) -> (result: Result<AcceleratorProfile, String>)
    ensures
        match result {
            Ok(profile) => value@ == profile_argument(profile),
            Err(message) => {
                &&& forall|profile: AcceleratorProfile| value@ != #[trigger] profile_argument(profile)
                &&& message@ == "invalid profile '"@ + value@
                    + "'; expected shared-inference or distributed-training"@
            },
        },
{
    if same_text(value, "shared-inference") {
        return Ok(AcceleratorProfile::SharedInference);
    }
    if same_text(value, "distributed-training") {
        return Ok(AcceleratorProfile::DistributedTraining);
    }
    Err(
        "invalid profile '".to_string().concat(value).concat(
            "'; expected shared-inference or distributed-training",
        ),
    )
}

/// The name of an event on the command line.
pub open spec fn event_argument(event: TransitionEvent) -> Seq<char> {
    match event {
        TransitionEvent::NodeDrained => "node-drained"@,
        TransitionEvent::AdvertisementWithdrawn => "advertisement-withdrawn"@,
        TransitionEvent::TargetProfileApplied => "target-profile-applied"@,
        TransitionEvent::TargetDraValidated => "target-dra-validated"@,
        TransitionEvent::TargetQualified => "target-qualified"@,
        TransitionEvent::TargetCommitted => "target-committed"@,
        TransitionEvent::PreviousProfileApplied => "previous-profile-applied"@,
        TransitionEvent::PreviousDraValidated => "previous-dra-validated"@,
        TransitionEvent::PreviousProfileCommitted => "previous-profile-committed"@,
    }
}

/// Reads an event from the command line.
pub fn parse_event(value: &str) -> (result: Result<TransitionEvent, String>)
    ensures
        match result {
            Ok(event) => value@ == event_argument(event),
            Err(message) => {
                &&& forall|event: TransitionEvent| value@ != #[trigger] event_argument(event)
                &&& message@ == "invalid transition event '"@ + value@ + "'"@
            },
        },
{
    if same_text(value, "node-drained") {
        Ok(TransitionEvent::NodeDrained)
    } else if same_text(value, "advertisement-withdrawn") {
        Ok(TransitionEvent::AdvertisementWithdrawn)
    } else if same_text(value, "target-profile-applied") {
        Ok(TransitionEvent::TargetProfileApplied)
    } else if same_text(value, "target-dra-validated") {
        Ok(TransitionEvent::TargetDraValidated)
    } else if same_text(value, "target-qualified") {
        Ok(TransitionEvent::TargetQualified)
    } else if same_text(value, "target-committed") {
        Ok(TransitionEvent::TargetCommitted)
    } else if same_text(value, "previous-profile-applied") {
        Ok(TransitionEvent::PreviousProfileApplied)
    } else if same_text(value, "previous-dra-validated") {
        Ok(TransitionEvent::PreviousDraValidated)
    } else if same_text(value, "previous-profile-committed") {
        Ok(TransitionEvent::PreviousProfileCommitted)
    } else {
        Err("invalid transition event '".to_string().concat(value).concat("'"))
    }
}

/// No two profiles and no two events share a name, so that each name is read as what it names.
pub proof fn names_are_unambiguous(
    left_profile: AcceleratorProfile,
    right_profile: AcceleratorProfile,
    left_event: TransitionEvent,
    right_event: TransitionEvent,
)
    ensures
        profile_argument(left_profile) == profile_argument(right_profile) ==> left_profile
            == right_profile,
        event_argument(left_event) == event_argument(right_event) ==> left_event == right_event,
{
    reveal_strlit("shared-inference");
    reveal_strlit("distributed-training");
    reveal_strlit("node-drained");
    reveal_strlit("advertisement-withdrawn");
    reveal_strlit("target-profile-applied");
    reveal_strlit("target-dra-validated");
    reveal_strlit("target-qualified");
    reveal_strlit("target-committed");
    reveal_strlit("previous-profile-applied");
    reveal_strlit("previous-dra-validated");
    reveal_strlit("previous-profile-committed");
    let left = event_argument(left_event);
    let right = event_argument(right_event);
    assert(profile_argument(left_profile)[0] == 's' || profile_argument(left_profile)[0] == 'd');
    assert(left.len() == right.len() && left[7] == right[7] && left[9] == right[9] ==> left_event
        == right_event);
}

/// A command that shows the state changes nothing, and nothing is saved for it.
pub proof fn status_changes_nothing(state: StateView)
    ensures
        command_outcome(state, CommandView::Status) == Ok::<bool, CommandErrorView>(false),
        after_command(state, CommandView::Status) == state,
{
}

/// A refused command changes nothing.
pub proof fn refused_commands_change_nothing(state: StateView, command: CommandView)
    requires
        command_outcome(state, command) is Err,
    ensures
        after_command(state, command) == state,
{
}

/// A command that names a transition other than the current one is refused, and changes nothing.
pub proof fn stale_commands_are_rejected(state: StateView, id: IdView, command: CommandView)
    requires
        match command {
            CommandView::Record { id: named, .. } => named == id,
            CommandView::Restore { id: named, .. } => named == id,
            _ => false,
        },
        current_id(state) != Some(id),
    ensures
        command_outcome(state, command) == Err::<bool, CommandErrorView>(
            match current_id(state) {
                None => CommandErrorView::NoTransition,
                Some(current) => CommandErrorView::IdMismatch { requested: id, current },
            },
        ),
        after_command(state, command) == state,
{
}

/// An accepted command that may change the state is saved, and it is one of the lifecycle's
/// requests: commands keep a consistent state consistent.
pub proof fn commands_are_requests(state: StateView, command: CommandView)
    ensures
        command_outcome(state, command) == Ok::<bool, CommandErrorView>(true) ==> {
            &&& command_request(command) is Some
            &&& is_accepted(state, command_request(command)->Some_0)
            &&& after_command(state, command) == after_request(
                state,
                command_request(command)->Some_0,
            )
        },
        command_outcome(state, command) != Ok::<bool, CommandErrorView>(true) ==> after_command(
            state,
            command,
        ) == state,
        state.consistent() ==> after_command(state, command).consistent(),
{
    if let Some(request) = command_request(command) {
        if state.consistent() {
            requests_keep_consistency(state, request);
        }
    }
}

/// Repeating an accepted command is accepted again and changes nothing more.
pub proof fn repeated_commands_are_idempotent(state: StateView, command: CommandView)
    requires
        command_outcome(state, command) is Ok,
    ensures
        command_outcome(after_command(state, command), command) == command_outcome(state, command),
        after_command(after_command(state, command), command) == after_command(state, command),
{
}

/// The transition that a command names, if it names one.
pub open spec fn named_id(command: CommandView) -> Option<IdView> {
    match command {
        CommandView::Status => None,
        CommandView::Begin { .. } => None,
        CommandView::Record { id, .. } => Some(id),
        CommandView::Restore { id, .. } => Some(id),
    }
}

/// A command that names no transition, or the active one, or with none active the one that ended
/// last, is answered as the lifecycle answers: accepted with the state to be saved and moved
/// exactly as the lifecycle moves it, or refused for the lifecycle's own reason. In particular a
/// transition that can be restored is restored by the command, in whatever phase it is.
pub proof fn commands_do_what_the_lifecycle_does(state: StateView, command: CommandView)
    requires
        match named_id(command) {
            None => true,
            Some(id) => if state.active is Some {
                state.active->0.id == id
            } else {
                state.last_result is Some && state.last_result->0.id == id
            },
        },
    ensures
        match command {
            CommandView::Status => {
                &&& command_outcome(state, command) == Ok::<bool, CommandErrorView>(false)
                &&& after_command(state, command) == state
            },
            CommandView::Begin { token, profile, expected_generation } => {
                &&& command_outcome(state, command) == match state.begin_outcome(
                    token,
                    profile,
                    expected_generation,
                ) {
                    Ok(_) => Ok::<bool, CommandErrorView>(true),
                    Err(error) => Err(CommandErrorView::Lifecycle(error)),
                }
                &&& after_command(state, command) == state.begin(
                    token,
                    profile,
                    expected_generation,
                )
            },
            CommandView::Restore { id, reason } => {
                &&& command_outcome(state, command) == saved_or_refused(
                    state.restore_outcome(id, reason),
                )
                &&& after_command(state, command) == state.request_restore(id, reason)
            },
            CommandView::Record { id, event: TransitionEvent::TargetCommitted } => {
                &&& command_outcome(state, command) == saved_or_refused(
                    state.commit_target_outcome(id),
                )
                &&& after_command(state, command) == state.commit_target(id)
            },
            CommandView::Record { id, event: TransitionEvent::PreviousProfileCommitted } => {
                &&& command_outcome(state, command) == saved_or_refused(
                    state.commit_restore_outcome(id),
                )
                &&& after_command(state, command) == state.commit_restore(id)
            },
            CommandView::Record { id, event } => {
                &&& command_outcome(state, command) == saved_or_refused(
                    state.record_outcome(id, reported_phase(event)),
                )
                &&& after_command(state, command) == state.record(id, reported_phase(event))
            },
        },
{
}

/// The answer to a command whose request was answered with `answer`.
pub open spec fn saved_or_refused(answer: Result<(), ErrorView>) -> Result<
    bool,
    CommandErrorView,
> {
    match answer {
        Ok(_) => Ok(true),
        Err(error) => Err(CommandErrorView::Lifecycle(error)),
    }
}

/// The phase that an event reports, where it does not end the transition.
pub open spec fn reported_phase(event: TransitionEvent) -> TransitionPhase {
    match event {
        TransitionEvent::NodeDrained => TransitionPhase::NodeDrained,
        TransitionEvent::AdvertisementWithdrawn => TransitionPhase::AdvertisementWithdrawn,
        TransitionEvent::TargetProfileApplied => TransitionPhase::TargetProfileApplied,
        TransitionEvent::TargetDraValidated => TransitionPhase::TargetDraValidated,
        TransitionEvent::TargetQualified => TransitionPhase::TargetQualified,
        TransitionEvent::PreviousProfileApplied => TransitionPhase::PreviousProfileApplied,
        TransitionEvent::PreviousDraValidated => TransitionPhase::PreviousDraValidated,
        _ => TransitionPhase::IntentPersisted,
    }
}

/// An event that was recorded is what the state says afterwards: the active transition is in the
/// phase that was reported, or the transition has ended as was reported.
pub proof fn recorded_events_show_in_the_state(
    state: StateView,
    id: IdView,
    event: TransitionEvent,
)
    requires
        command_outcome(state, CommandView::Record { id, event }) is Ok,
    ensures
        ({
            let after = after_command(state, CommandView::Record { id, event });
            match event {
                TransitionEvent::TargetCommitted => {
                    &&& after.active is None
                    &&& after.last_result is Some
                    &&& after.last_result->0.id == id
                    &&& after.last_result->0.outcome == TransitionOutcome::TargetCommitted
                },
                TransitionEvent::PreviousProfileCommitted => {
                    &&& after.active is None
                    &&& after.last_result is Some
                    &&& after.last_result->0.id == id
                    &&& after.last_result->0.outcome == TransitionOutcome::PreviousProfileRestored
                },
                _ => {
                    &&& after.active is Some
                    &&& after.active->0.id == id
                    &&& after.active->0.phase == reported_phase(event)
                },
            }
        }),
{
}

/// A command is refused on its own account only where it names a transition: for want of one
/// exactly where there is neither an active nor a finished one, and for another identity exactly
/// where the active one, or with none active the last one, is not the named one.
pub proof fn commands_are_refused_only_for_their_id(state: StateView, command: CommandView)
    ensures
        command_outcome(state, command) == Err::<bool, CommandErrorView>(
            CommandErrorView::NoTransition,
        ) <==> {
            &&& named_id(command) is Some
            &&& state.active is None
            &&& state.last_result is None
        },
        command_outcome(state, command) matches Err(
            CommandErrorView::IdMismatch { requested, current },
        ) ==> {
            &&& named_id(command) == Some(requested)
            &&& requested != current
            &&& match state.active {
                Some(t) => t.id == current,
                None => state.last_result is Some && state.last_result->0.id == current,
            }
        },
        command_outcome(state, command) matches Err(CommandErrorView::Lifecycle(_)) ==> match (
            named_id(command),
            state.active,
            state.last_result,
        ) {
            (None, _, _) => true,
            (Some(id), Some(t), _) => t.id == id,
            (Some(id), None, Some(r)) => r.id == id,
            (Some(_), None, None) => false,
        },
{
}

} // verus!
