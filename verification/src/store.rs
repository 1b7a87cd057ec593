//! Atomic persistence of the lifecycle state in one file.

use crate::encoding::{lossy, lossy_text};
use crate::model::StateView;
use crate::path::{
    beside, copy_range, directory, directory_of, ends_in_component, siblings_share_their_directory,
    sibling,
};
use crate::state::LifecycleState;
use crate::text::{decimal, decimal_text};
use vstd::prelude::*;
use vstd::string::*;
use vstd::utf8::*;

verus! {

/// What the name of the notification file adds to that of the state file.
pub const NOTIFY: &'static str = ".notify";

/// The permissions with which the notification file is made.
pub const NOTIFICATION_MODE: u32 = 0o600;

/// The one byte that is written to the notification file: a line feed.
pub const NOTIFICATION_BYTE: u8 = 0x0a;

/// Why the state could not be loaded or saved. A `source` is what the failed operation reported.
#[allow(inconsistent_fields)]
#[derive(Debug, Eq, PartialEq)]
pub enum StoreError {
    CreateStateDirectory { path: Vec<u8>, source: String },
    OpenState { path: Vec<u8>, source: String },
    ParseState { path: Vec<u8>, source: String },
    UnsupportedSchema { path: Vec<u8>, actual: u32, supported: u32 },
    CreateTemporaryState { path: Vec<u8>, source: String },
    SerializeState { path: Vec<u8>, source: String },
    SyncTemporaryState { path: Vec<u8>, source: String },
    PersistState { path: Vec<u8>, source: String },
    OpenStateDirectory { path: Vec<u8>, source: String },
    SyncStateDirectory { path: Vec<u8>, source: String },
    OpenNotification { path: Vec<u8>, source: String },
    WriteNotification { path: Vec<u8>, source: String },
    SyncNotification { path: Vec<u8>, source: String },
}

/// The failures of the store, as mathematics.
#[allow(inconsistent_fields)]
pub enum StoreErrorView {
    CreateStateDirectory { path: Seq<u8>, source: Seq<char> },
    OpenState { path: Seq<u8>, source: Seq<char> },
    ParseState { path: Seq<u8>, source: Seq<char> },
    UnsupportedSchema { path: Seq<u8>, actual: u32, supported: u32 },
    CreateTemporaryState { path: Seq<u8>, source: Seq<char> },
    SerializeState { path: Seq<u8>, source: Seq<char> },
    SyncTemporaryState { path: Seq<u8>, source: Seq<char> },
    PersistState { path: Seq<u8>, source: Seq<char> },
    OpenStateDirectory { path: Seq<u8>, source: Seq<char> },
    SyncStateDirectory { path: Seq<u8>, source: Seq<char> },
    OpenNotification { path: Seq<u8>, source: Seq<char> },
    WriteNotification { path: Seq<u8>, source: Seq<char> },
    SyncNotification { path: Seq<u8>, source: Seq<char> },
}

impl View for StoreError {
    type V = StoreErrorView;

    open spec fn view(&self) -> StoreErrorView {
        match self {
            StoreError::CreateStateDirectory { path, source } => {
                StoreErrorView::CreateStateDirectory { path: path@, source: source@ }
            },
            StoreError::OpenState { path, source } => {
                StoreErrorView::OpenState { path: path@, source: source@ }
            },
            StoreError::ParseState { path, source } => {
                StoreErrorView::ParseState { path: path@, source: source@ }
            },
            StoreError::UnsupportedSchema { path, actual, supported } => {
                StoreErrorView::UnsupportedSchema {
                    path: path@,
                    actual: *actual,
                    supported: *supported,
                }
            },
            StoreError::CreateTemporaryState { path, source } => {
                StoreErrorView::CreateTemporaryState { path: path@, source: source@ }
            },
            StoreError::SerializeState { path, source } => {
                StoreErrorView::SerializeState { path: path@, source: source@ }
            },
            StoreError::SyncTemporaryState { path, source } => {
                StoreErrorView::SyncTemporaryState { path: path@, source: source@ }
            },
            StoreError::PersistState { path, source } => {
                StoreErrorView::PersistState { path: path@, source: source@ }
            },
            StoreError::OpenStateDirectory { path, source } => {
                StoreErrorView::OpenStateDirectory { path: path@, source: source@ }
            },
            StoreError::SyncStateDirectory { path, source } => {
                StoreErrorView::SyncStateDirectory { path: path@, source: source@ }
            },
            StoreError::OpenNotification { path, source } => {
                StoreErrorView::OpenNotification { path: path@, source: source@ }
            },
            StoreError::WriteNotification { path, source } => {
                StoreErrorView::WriteNotification { path: path@, source: source@ }
            },
            StoreError::SyncNotification { path, source } => {
                StoreErrorView::SyncNotification { path: path@, source: source@ }
            },
        }
    }
}

/// The message of a failure at `path`.
pub open spec fn failure_message(
    opening: Seq<char>,
    path: Seq<u8>,
    source: Seq<char>,
) -> Seq<char> {
    opening + lossy_text(path) + "': "@ + source
}

/// Writes the message of a failure at `path`.
pub(crate) fn failure_text(opening: &str, path: &[u8], source: &str) -> (message: String)
    ensures
        message@ == failure_message(opening@, path@, source@),
{
    opening.to_string().concat(lossy(path).as_str()).concat("': ").concat(source)
}

impl StoreErrorView {
    /// The message that the failure is reported with.
    pub open spec fn message(self) -> Seq<char> {
        match self {
            StoreErrorView::CreateStateDirectory { path, source } => failure_message(
                "failed to create state directory '"@,
                path,
                source,
            ),
            StoreErrorView::OpenState { path, source } => failure_message(
                "failed to open lifecycle state '"@,
                path,
                source,
            ),
            StoreErrorView::ParseState { path, source } => failure_message(
                "failed to parse lifecycle state '"@,
                path,
                source,
            ),
            StoreErrorView::UnsupportedSchema { path, actual, supported } => {
                "lifecycle state '"@ + lossy_text(path) + "' uses schema version "@ + decimal_text(
                    actual as nat,
                ) + ", but this binary supports "@ + decimal_text(supported as nat)
            },
            StoreErrorView::CreateTemporaryState { path, source } => failure_message(
                "failed to create temporary state in '"@,
                path,
                source,
            ),
            StoreErrorView::SerializeState { path, source } => failure_message(
                "failed to serialize lifecycle state '"@,
                path,
                source,
            ),
            StoreErrorView::SyncTemporaryState { path, source } => failure_message(
                "failed to sync temporary state '"@,
                path,
                source,
            ),
            StoreErrorView::PersistState { path, source } => failure_message(
                "failed to persist lifecycle state '"@,
                path,
                source,
            ),
            StoreErrorView::OpenStateDirectory { path, source } => failure_message(
                "failed to open state directory '"@,
                path,
                source,
            ),
            StoreErrorView::SyncStateDirectory { path, source } => failure_message(
                "failed to sync state directory '"@,
                path,
                source,
            ),
            StoreErrorView::OpenNotification { path, source } => failure_message(
                "failed to open lifecycle notification '"@,
                path,
                source,
            ),
            StoreErrorView::WriteNotification { path, source } => failure_message(
                "failed to write lifecycle notification '"@,
                path,
                source,
            ),
            StoreErrorView::SyncNotification { path, source } => failure_message(
                "failed to sync lifecycle notification '"@,
                path,
                source,
            ),
        }
    }
}

impl StoreError {
    /// The message that the failure is reported with.
    pub fn message(&self) -> (message: String)
        ensures
            message@ == self@.message(),
    {
        match self {
            StoreError::CreateStateDirectory { path, source } => failure_text(
                "failed to create state directory '",
                path.as_slice(),
                source.as_str(),
            ),
            StoreError::OpenState { path, source } => failure_text(
                "failed to open lifecycle state '",
                path.as_slice(),
                source.as_str(),
            ),
            StoreError::ParseState { path, source } => failure_text(
                "failed to parse lifecycle state '",
                path.as_slice(),
                source.as_str(),
            ),
            StoreError::UnsupportedSchema { path, actual, supported } => {
                "lifecycle state '".to_string().concat(lossy(path.as_slice()).as_str()).concat(
                    "' uses schema version ",
                ).concat(decimal(*actual as u64).as_str()).concat(
                    ", but this binary supports ",
                ).concat(decimal(*supported as u64).as_str())
            },
            StoreError::CreateTemporaryState { path, source } => failure_text(
                "failed to create temporary state in '",
                path.as_slice(),
                source.as_str(),
            ),
            StoreError::SerializeState { path, source } => failure_text(
                "failed to serialize lifecycle state '",
                path.as_slice(),
                source.as_str(),
            ),
            StoreError::SyncTemporaryState { path, source } => failure_text(
                "failed to sync temporary state '",
                path.as_slice(),
                source.as_str(),
            ),
            StoreError::PersistState { path, source } => failure_text(
                "failed to persist lifecycle state '",
                path.as_slice(),
                source.as_str(),
            ),
            StoreError::OpenStateDirectory { path, source } => failure_text(
                "failed to open state directory '",
                path.as_slice(),
                source.as_str(),
            ),
            StoreError::SyncStateDirectory { path, source } => failure_text(
                "failed to sync state directory '",
                path.as_slice(),
                source.as_str(),
            ),
            StoreError::OpenNotification { path, source } => failure_text(
                "failed to open lifecycle notification '",
                path.as_slice(),
                source.as_str(),
            ),
            StoreError::WriteNotification { path, source } => failure_text(
                "failed to write lifecycle notification '",
                path.as_slice(),
                source.as_str(),
            ),
            StoreError::SyncNotification { path, source } => failure_text(
                "failed to sync lifecycle notification '",
                path.as_slice(),
                source.as_str(),
            ),
        }
    }
}

/// What was found at the state path.
#[derive(Debug)]
pub enum StateFile {
    /// There is no such file.
    Missing,
    /// The file cannot be opened, for the reason reported.
    Unreadable { source: String },
    /// The file does not hold a lifecycle state, for the reason reported.
    Malformed { source: String },
    /// The state that the file holds.
    Parsed { state: LifecycleState },
}

/// The state that is worked with where the state file holds `saved`, if there is a file: a node
/// without one starts afresh, and a state of another schema is not used.
pub open spec fn loaded(saved: Option<StateView>) -> Option<StateView> {
    match saved {
        None => Some(StateView::initial(None)),
        Some(state) => if state.schema_version == LifecycleState::SCHEMA_VERSION {
            Some(state)
        } else {
            None
        },
    }
}

/// What was found at the state path, as mathematics.
pub enum StateFileView {
    Missing,
    Unreadable { source: Seq<char> },
    Malformed { source: Seq<char> },
    Parsed { state: StateView },
}

impl View for StateFile {
    type V = StateFileView;

    open spec fn view(&self) -> StateFileView {
        match self {
            StateFile::Missing => StateFileView::Missing,
            StateFile::Unreadable { source } => StateFileView::Unreadable { source: source@ },
            StateFile::Malformed { source } => StateFileView::Malformed { source: source@ },
            StateFile::Parsed { state } => StateFileView::Parsed { state: state@ },
        }
    }
}

/// The state to work with, or why there is none, from what was found at `path`.
pub open spec fn load_answer(path: Seq<u8>, file: StateFileView) -> Result<
    StateView,
    StoreErrorView,
> {
    match file {
        StateFileView::Missing => Ok(loaded(None)->Some_0),
        StateFileView::Unreadable { source } => Err(StoreErrorView::OpenState { path, source }),
        StateFileView::Malformed { source } => Err(StoreErrorView::ParseState { path, source }),
        StateFileView::Parsed { state } => match loaded(Some(state)) {
            Some(usable) => Ok(usable),
            None => Err(
                StoreErrorView::UnsupportedSchema {
                    path,
                    actual: state.schema_version,
                    supported: LifecycleState::SCHEMA_VERSION,
                },
            ),
        },
    }
}

/// The steps of a save, in their order.
#[derive(Clone, Copy, Debug, Eq, PartialEq, Structural)]
pub enum SaveStep {
    /// Create the directory of the state file, with its parents.
    CreateDirectory,
    /// Create a temporary file in that directory.
    CreateTemporary,
    /// Write the state to the temporary file.
    Serialize,
    /// Sync the temporary file.
    SyncTemporary,
    /// Rename the temporary file to the state file.
    Persist,
    /// Open the directory.
    OpenDirectory,
    /// Sync the directory.
    SyncDirectory,
    /// Open the notification file, made if it is missing and never truncated.
    OpenNotification,
    /// Write the notification.
    WriteNotification,
    /// Sync the notification file.
    SyncNotification,
    /// Sync the directory once more, for a notification file that was made.
    SyncDirectoryAgain,
}

/// How a save goes on.
#[derive(Debug)]
pub enum SaveProgress {
    /// The step to carry out now.
    Next { step: SaveStep },
    /// The state is durable and its readers are notified.
    Saved,
    /// The save is over.
    Failed { error: StoreError },
}

/// How a save goes on, as mathematics.
pub enum SaveProgressView {
    Next { step: SaveStep },
    Saved,
    Failed { error: StoreErrorView },
}

impl View for SaveProgress {
    type V = SaveProgressView;

    open spec fn view(&self) -> SaveProgressView {
        match self {
            SaveProgress::Next { step } => SaveProgressView::Next { step: *step },
            SaveProgress::Saved => SaveProgressView::Saved,
            SaveProgress::Failed { error } => SaveProgressView::Failed { error: error@ },
        }
    }
}

/// How a save at `path` goes on after `step` has ended with `outcome`.
pub open spec fn save_progress(
    path: Seq<u8>,
    step: SaveStep,
    temporary: Seq<u8>,
    outcome: Result<(), String>,
) -> SaveProgressView {
    match outcome {
        Err(source) => SaveProgressView::Failed {
            error: step_failure(step, path, temporary, source@),
        },
        Ok(_) => match step_after(step) {
            Some(next) => SaveProgressView::Next { step: next },
            None => SaveProgressView::Saved,
        },
    }
}

/// The step with which every save begins.
pub fn first_save_step() -> (step: SaveStep)
    ensures
        step == SaveStep::CreateDirectory,
{
    SaveStep::CreateDirectory
}

/// The step after `step`, if there is one.
pub open spec fn step_after(step: SaveStep) -> Option<SaveStep> {
    match step {
        SaveStep::CreateDirectory => Some(SaveStep::CreateTemporary),
        SaveStep::CreateTemporary => Some(SaveStep::Serialize),
        SaveStep::Serialize => Some(SaveStep::SyncTemporary),
        SaveStep::SyncTemporary => Some(SaveStep::Persist),
        SaveStep::Persist => Some(SaveStep::OpenDirectory),
        SaveStep::OpenDirectory => Some(SaveStep::SyncDirectory),
        SaveStep::SyncDirectory => Some(SaveStep::OpenNotification),
        SaveStep::OpenNotification => Some(SaveStep::WriteNotification),
        SaveStep::WriteNotification => Some(SaveStep::SyncNotification),
        SaveStep::SyncNotification => Some(SaveStep::SyncDirectoryAgain),
        SaveStep::SyncDirectoryAgain => None,
    }
}

/// The error that stands for a failure of `step`.
pub open spec fn step_failure(
    step: SaveStep,
    path: Seq<u8>,
    temporary: Seq<u8>,
    source: Seq<char>,
) -> StoreErrorView {
    match step {
        SaveStep::CreateDirectory => StoreErrorView::CreateStateDirectory {
            path: directory_of(path),
            source,
        },
        SaveStep::CreateTemporary => StoreErrorView::CreateTemporaryState {
            path: directory_of(path),
            source,
        },
        SaveStep::Serialize => StoreErrorView::SerializeState {
            path: path,
            source,
        },
        SaveStep::SyncTemporary => StoreErrorView::SyncTemporaryState {
            path: temporary,
            source,
        },
        SaveStep::Persist => StoreErrorView::PersistState {
            path: path,
            source,
        },
        SaveStep::OpenDirectory => StoreErrorView::OpenStateDirectory {
            path: directory_of(path),
            source,
        },
        SaveStep::SyncDirectory => StoreErrorView::SyncStateDirectory {
            path: directory_of(path),
            source,
        },
        SaveStep::OpenNotification => StoreErrorView::OpenNotification {
            path: beside(path, NOTIFY@),
            source,
        },
        SaveStep::WriteNotification => StoreErrorView::WriteNotification {
            path: beside(path, NOTIFY@),
            source,
        },
        SaveStep::SyncNotification => StoreErrorView::SyncNotification {
            path: beside(path, NOTIFY@),
            source,
        },
        SaveStep::SyncDirectoryAgain => StoreErrorView::SyncStateDirectory {
            path: directory_of(path),
            source,
        },
    }
}

/// Atomic JSON persistence for the lifecycle transaction state.
#[derive(Debug)]
pub struct JsonFileStore {
    path: Vec<u8>,
    notification_path: Vec<u8>,
}

impl View for JsonFileStore {
    type V = Seq<u8>;

    /// A store is known by the path of its state file.
    closed spec fn view(&self) -> Seq<u8> {
        self.path@
    }
}

impl JsonFileStore {
    #[verifier::type_invariant]
    spec fn paths_agree(self) -> bool {
        self.notification_path@ == beside(self.path@, NOTIFY@)
    }

    pub fn new(path: Vec<u8>) -> (store: Self)
        ensures
            store@ == path@,
    {
        let notification_path = sibling(path.as_slice(), NOTIFY);
        JsonFileStore { path, notification_path }
    }

    pub fn path(&self) -> (path: &[u8])
        ensures
            path@ == self@,
    {
        self.path.as_slice()
    }

    pub fn notification_path(&self) -> (path: &[u8])
        ensures
            path@ == beside(self@, NOTIFY@),
    {
        proof {
            use_type_invariant(self);
        }
        self.notification_path.as_slice()
    }

    /// The directory of the state file, in which a save works.
    pub fn directory(&self) -> (path: Vec<u8>)
        ensures
            path@ == directory_of(self@),
    {
        directory(self.path.as_slice())
    }

    /// Turns what was found at the state path into the state to work with: a node without a file
    /// starts afresh, and a file of another schema is not touched.
    pub fn load(&self, file: StateFile) -> (result: Result<LifecycleState, StoreError>)
        ensures
            match result {
                Ok(state) => load_answer(self@, file@) == Ok::<StateView, StoreErrorView>(state@),
                Err(error) => load_answer(self@, file@) == Err::<StateView, StoreErrorView>(
                    error@,
                ),
            },
            match result {
                Ok(state) => match file {
                    StateFile::Missing => loaded(None) == Some(state@),
                    StateFile::Parsed { state: parsed } => loaded(Some(parsed@)) == Some(state@),
                    _ => false,
                },
                Err(error) => match file {
                    StateFile::Missing => false,
                    StateFile::Unreadable { source } => error@ == (StoreErrorView::OpenState {
                        path: self@,
                        source: source@,
                    }),
                    StateFile::Malformed { source } => error@ == (StoreErrorView::ParseState {
                        path: self@,
                        source: source@,
                    }),
                    StateFile::Parsed { state } => {
                        &&& loaded(Some(state@)) is None
                        &&& error@ == (StoreErrorView::UnsupportedSchema {
                            path: self@,
                            actual: state@.schema_version,
                            supported: LifecycleState::SCHEMA_VERSION,
                        })
                    },
                },
            },
    {
        match file {
            StateFile::Missing => Ok(LifecycleState::default()),
            StateFile::Unreadable { source } => Err(
                StoreError::OpenState { path: self.path.clone(), source },
            ),
            StateFile::Malformed { source } => Err(
                StoreError::ParseState { path: self.path.clone(), source },
            ),
            StateFile::Parsed { state } => {
                if state.schema_version() != LifecycleState::SCHEMA_VERSION {
                    return Err(
                        StoreError::UnsupportedSchema {
                            path: self.path.clone(),
                            actual: state.schema_version(),
                            supported: LifecycleState::SCHEMA_VERSION,
                        },
                    );
                }
                Ok(state)
            },
        }
    }

    /// Decides how a save goes on after `step`: each step waits for the one before it, and the
    /// first failure ends the save. `temporary` is the path of the temporary file, once there is
    /// one.
    pub fn save(&self, step: SaveStep, temporary: &[u8], outcome: Result<(), String>) -> (progress:
        SaveProgress)
        ensures
            progress@ == save_progress(self@, step, temporary@, outcome),
            match progress {
                SaveProgress::Next { step: next } => outcome is Ok && step_after(step) == Some(next),
                SaveProgress::Saved => outcome is Ok && step_after(step) is None,
                SaveProgress::Failed { error } => outcome is Err && error@ == step_failure(
                    step,
                    self@,
                    temporary@,
                    outcome->Err_0@,
                ),
            },
    {
        proof {
            use_type_invariant(self);
        }
        assert(temporary@.subrange(0, temporary@.len() as int) =~= temporary@);
        match outcome {
            Ok(()) => {
                let next = match step {
                    SaveStep::CreateDirectory => SaveStep::CreateTemporary,
                    SaveStep::CreateTemporary => SaveStep::Serialize,
                    SaveStep::Serialize => SaveStep::SyncTemporary,
                    SaveStep::SyncTemporary => SaveStep::Persist,
                    SaveStep::Persist => SaveStep::OpenDirectory,
                    SaveStep::OpenDirectory => SaveStep::SyncDirectory,
                    SaveStep::SyncDirectory => SaveStep::OpenNotification,
                    SaveStep::OpenNotification => SaveStep::WriteNotification,
                    SaveStep::WriteNotification => SaveStep::SyncNotification,
                    SaveStep::SyncNotification => SaveStep::SyncDirectoryAgain,
                    SaveStep::SyncDirectoryAgain => return SaveProgress::Saved,
                };
                SaveProgress::Next { step: next }
            },
            Err(source) => {
                let error = match step {
                    SaveStep::CreateDirectory => StoreError::CreateStateDirectory {
                        path: self.directory(),
                        source,
                    },
                    SaveStep::CreateTemporary => StoreError::CreateTemporaryState {
                        path: self.directory(),
                        source,
                    },
                    SaveStep::Serialize => StoreError::SerializeState {
                        path: self.path.clone(),
                        source,
                    },
                    SaveStep::SyncTemporary => StoreError::SyncTemporaryState {
                        path: copy_range(temporary, 0, temporary.len()),
                        source,
                    },
                    SaveStep::Persist => StoreError::PersistState {
                        path: self.path.clone(),
                        source,
                    },
                    SaveStep::OpenDirectory => StoreError::OpenStateDirectory {
                        path: self.directory(),
                        source,
                    },
                    SaveStep::SyncDirectory => StoreError::SyncStateDirectory {
                        path: self.directory(),
                        source,
                    },
                    SaveStep::OpenNotification => StoreError::OpenNotification {
                        path: self.notification_path.clone(),
                        source,
                    },
                    SaveStep::WriteNotification => StoreError::WriteNotification {
                        path: self.notification_path.clone(),
                        source,
                    },
                    SaveStep::SyncNotification => StoreError::SyncNotification {
                        path: self.notification_path.clone(),
                        source,
                    },
                    SaveStep::SyncDirectoryAgain => StoreError::SyncStateDirectory {
                        path: self.directory(),
                        source,
                    },
                };
                SaveProgress::Failed { error }
            },
        }
    }
}

impl Clone for JsonFileStore {
    fn clone(&self) -> (copy: Self)
        ensures
            copy@ == self@,
    {
        JsonFileStore::new(self.path.clone())
    }
}

/// How many steps come before `step`.
pub open spec fn step_position(step: SaveStep) -> nat {
    match step {
        SaveStep::CreateDirectory => 0,
        SaveStep::CreateTemporary => 1,
        SaveStep::Serialize => 2,
        SaveStep::SyncTemporary => 3,
        SaveStep::Persist => 4,
        SaveStep::OpenDirectory => 5,
        SaveStep::SyncDirectory => 6,
        SaveStep::OpenNotification => 7,
        SaveStep::WriteNotification => 8,
        SaveStep::SyncNotification => 9,
        SaveStep::SyncDirectoryAgain => 10,
    }
}

/// The steps that a save has carried out or is carrying out: it begins with `first_save_step`, and
/// `JsonFileStore::save` gave each of the others after the one before it.
pub open spec fn is_save_run(run: Seq<SaveStep>) -> bool {
    &&& run.len() > 0
    &&& run[0] == SaveStep::CreateDirectory
    &&& forall|i: int|
        #![trigger run[i]]
        0 < i < run.len() ==> step_after(run[i - 1]) == Some(run[i])
}

/// A save carries out every step at most once, each at its place.
pub proof fn save_steps_come_in_order(run: Seq<SaveStep>)
    requires
        is_save_run(run),
    ensures
        run.len() <= 11,
        forall|i: int| 0 <= i < run.len() ==> step_position(#[trigger] run[i]) == i,
    decreases run.len(),
{
    if run.len() > 1 {
        let shorter = run.drop_last();
        assert forall|i: int| #![trigger shorter[i]] 0 < i < shorter.len() implies step_after(
            shorter[i - 1],
        ) == Some(shorter[i]) by {
            assert(shorter[i] == run[i]);
            assert(shorter[i - 1] == run[i - 1]);
        }
        save_steps_come_in_order(shorter);
        assert forall|i: int| 0 <= i < run.len() implies step_position(#[trigger] run[i]) == i by {
            if i < shorter.len() {
                assert(run[i] == shorter[i]);
            } else {
                assert(run[i - 1] == shorter[i - 1]);
            }
        }
        assert(step_position(run[run.len() - 1]) == run.len() - 1);
    }
}

/// The state file is replaced only by a temporary file that was written whole and synced.
pub proof fn state_is_replaced_only_by_a_synced_file(run: Seq<SaveStep>, i: int)
    requires
        is_save_run(run),
        0 <= i < run.len(),
        run[i] == SaveStep::Persist,
    ensures
        run.take(i).contains(SaveStep::Serialize),
        run.take(i).contains(SaveStep::SyncTemporary),
{
    save_steps_come_in_order(run);
    assert(step_position(run[2]) == 2 && step_position(run[3]) == 3);
    assert(run.take(i)[2] == SaveStep::Serialize);
    assert(run.take(i)[3] == SaveStep::SyncTemporary);
}

/// Readers are notified only of a state that has replaced the old one and is synced.
pub proof fn readers_are_notified_of_durable_state_only(run: Seq<SaveStep>, i: int)
    requires
        is_save_run(run),
        0 <= i < run.len(),
        run[i] == SaveStep::WriteNotification,
    ensures
        run.take(i).contains(SaveStep::Persist),
        run.take(i).contains(SaveStep::SyncDirectory),
{
    save_steps_come_in_order(run);
    assert(step_position(run[4]) == 4 && step_position(run[6]) == 6);
    assert(run.take(i)[4] == SaveStep::Persist);
    assert(run.take(i)[6] == SaveStep::SyncDirectory);
}

/// A finished save has carried out all of its steps.
pub proof fn a_finished_save_left_nothing_out(run: Seq<SaveStep>, step: SaveStep)
    requires
        is_save_run(run),
        step_after(run.last()) is None,
    ensures
        run.contains(step),
{
    save_steps_come_in_order(run);
    assert(step_position(run[run.len() - 1]) == run.len() - 1);
    assert(step_position(run[step_position(step) as int]) == step_position(step));
}

/// A file that readers watch: which file it is, whatever its name, its permissions, and what it
/// holds.
pub struct WatchedFileView {
    pub identity: nat,
    pub mode: u32,
    pub contents: Seq<u8>,
}

/// What the steps of a save leave in the directory: the state that the state file holds, if it is
/// there, the temporary file with the state that was written to it, if any was, the notification
/// file, if it is there, and whether the readers were notified. A file that is made gets the
/// identity `unused`.
pub struct DirectoryView {
    pub saved: Option<StateView>,
    pub temporary: Option<Option<StateView>>,
    pub notification: Option<WatchedFileView>,
    pub notified: bool,
    pub unused: nat,
}

/// The directory after `step` of a save of `state` has succeeded: writing touches the temporary
/// file alone, renaming puts it in the place of the state file in one step, and the notification
/// file is made only where it is missing, with the permissions that it is to have, never
/// truncated, and written from its beginning.
///
/// This is assumed of the file system, not proved of it, and a step that fails is taken to leave
/// the state file as it was.
pub open spec fn directory_after(
    directory: DirectoryView,
    step: SaveStep,
    state: StateView,
) -> DirectoryView {
    match step {
        SaveStep::CreateTemporary => DirectoryView { temporary: Some(None), ..directory },
        SaveStep::Serialize => DirectoryView { temporary: Some(Some(state)), ..directory },
        SaveStep::Persist => DirectoryView {
            saved: directory.temporary->Some_0,
            temporary: None,
            ..directory
        },
        SaveStep::OpenNotification => match directory.notification {
            Some(_) => directory,
            None => DirectoryView {
                notification: Some(
                    WatchedFileView {
                        identity: directory.unused,
                        mode: NOTIFICATION_MODE,
                        contents: Seq::empty(),
                    },
                ),
                unused: directory.unused + 1,
                ..directory
            },
        },
        SaveStep::WriteNotification => DirectoryView {
            notification: match directory.notification {
                Some(file) => Some(
                    WatchedFileView {
                        contents: if file.contents.len() == 0 {
                            seq![NOTIFICATION_BYTE]
                        } else {
                            file.contents.update(0, NOTIFICATION_BYTE)
                        },
                        ..file
                    },
                ),
                None => None,
            },
            notified: true,
            ..directory
        },
        _ => directory,
    }
}

/// The directory after the steps of `run` have succeeded.
pub open spec fn directory_after_run(
    directory: DirectoryView,
    run: Seq<SaveStep>,
    state: StateView,
) -> DirectoryView
    decreases run.len(),
{
    if run.len() == 0 {
        directory
    } else {
        directory_after(
            directory_after_run(directory, run.drop_last(), state),
            run.last(),
            state,
        )
    }
}

/// A save is atomic: wherever it stops, the state file holds what it held before or the whole new
/// state. It holds the new one from the moment of the renaming, and so in every finished save, and
/// readers are notified of nothing else.
pub proof fn saves_are_atomic(directory: DirectoryView, run: Seq<SaveStep>, state: StateView)
    requires
        is_save_run(run),
        !directory.notified,
    ensures
        directory_after_run(directory, run, state).saved == if run.contains(SaveStep::Persist) {
            Some(state)
        } else {
            directory.saved
        },
        directory_after_run(directory, run, state).notified ==> directory_after_run(
            directory,
            run,
            state,
        ).saved == Some(state),
        step_after(run.last()) is None ==> {
            &&& directory_after_run(directory, run, state).saved == Some(state)
            &&& directory_after_run(directory, run, state).temporary is None
            &&& directory_after_run(directory, run, state).notified
        },
{
    save_steps_come_in_order(run);
    lemma_directory_during_save(directory, run, state);
    assert(step_position(run[run.len() - 1]) == run.len() - 1);
    if run.len() > 4 {
        assert(step_position(run[4]) == 4);
    } else if run.contains(SaveStep::Persist) {
        let i = run.index_of(SaveStep::Persist);
        assert(step_position(run[i]) == i);
    }
}

/// The notification file stays the same file with the same permissions through a save, wherever
/// the save stops; one that the save makes is for its owner alone. A finished save leaves it with
/// the one byte of the notification, unless something else had made it longer.
pub proof fn a_save_keeps_the_notification_file(
    directory: DirectoryView,
    run: Seq<SaveStep>,
    state: StateView,
)
    requires
        is_save_run(run),
    ensures
        ({
            let after = directory_after_run(directory, run, state);
            &&& directory.notification matches Some(before) ==> {
                &&& after.notification is Some
                &&& after.notification->0.identity == before.identity
                &&& after.notification->0.mode == before.mode
            }
            &&& directory.notification is None && after.notification is Some
                ==> after.notification->0.mode == NOTIFICATION_MODE
            &&& step_after(run.last()) is None ==> {
                &&& after.notification is Some
                &&& (directory.notification matches Some(before) ==> before.contents.len() <= 1)
                    ==> after.notification->0.contents == seq![NOTIFICATION_BYTE]
            }
        }),
{
    save_steps_come_in_order(run);
    lemma_notification_during_save(directory, run, state);
    assert(step_position(run[run.len() - 1]) == run.len() - 1);
}

/// Over two saves in a row the notification file stays the same file, of one byte and with the
/// permissions that it was made with: replacing the state never replaces the file that readers
/// watch.
pub proof fn successive_saves_keep_the_notification_file(
    directory: DirectoryView,
    first: Seq<SaveStep>,
    first_state: StateView,
    second: Seq<SaveStep>,
    second_state: StateView,
)
    requires
        is_save_run(first),
        step_after(first.last()) is None,
        is_save_run(second),
        step_after(second.last()) is None,
        directory.notification matches Some(before) ==> before.contents.len() <= 1,
    ensures
        ({
            let between = directory_after_run(directory, first, first_state);
            let after = directory_after_run(between, second, second_state);
            &&& between.notification is Some
            &&& after.notification is Some
            &&& after.notification->0.identity == between.notification->0.identity
            &&& after.notification->0.mode == between.notification->0.mode
            &&& between.notification->0.mode == match directory.notification {
                Some(before) => before.mode,
                None => NOTIFICATION_MODE,
            }
            &&& between.notification->0.contents == seq![NOTIFICATION_BYTE]
            &&& after.notification->0.contents == seq![NOTIFICATION_BYTE]
            &&& after.saved == Some(second_state)
        }),
{
    let between = directory_after_run(directory, first, first_state);
    a_save_keeps_the_notification_file(directory, first, first_state);
    a_save_keeps_the_notification_file(between, second, second_state);
    saves_are_atomic(DirectoryView { notified: false, ..between }, second, second_state);
    lemma_notification_is_independent(between, second, second_state);
}

/// The notification file as it stands after each number of steps.
proof fn lemma_notification_during_save(
    directory: DirectoryView,
    run: Seq<SaveStep>,
    state: StateView,
)
    requires
        run.len() <= 11,
        forall|i: int| 0 <= i < run.len() ==> step_position(#[trigger] run[i]) == i,
    ensures
        ({
            let after = directory_after_run(directory, run, state);
            &&& directory.notification matches Some(before) ==> {
                &&& after.notification is Some
                &&& after.notification->0.identity == before.identity
                &&& after.notification->0.mode == before.mode
                &&& after.notification->0.contents == if run.len() <= 8 {
                    before.contents
                } else if before.contents.len() == 0 {
                    seq![NOTIFICATION_BYTE]
                } else {
                    before.contents.update(0, NOTIFICATION_BYTE)
                }
            }
            &&& directory.notification is None && run.len() > 7 ==> {
                &&& after.notification is Some
                &&& after.notification->0.mode == NOTIFICATION_MODE
                &&& after.notification->0.contents == if run.len() == 8 {
                    Seq::empty()
                } else {
                    seq![NOTIFICATION_BYTE]
                }
            }
            &&& directory.notification is None && run.len() <= 7 ==> after.notification is None
        }),
    decreases run.len(),
{
    if run.len() > 0 {
        let shorter = run.drop_last();
        assert forall|i: int| 0 <= i < shorter.len() implies step_position(#[trigger] shorter[i])
            == i by {
            assert(shorter[i] == run[i]);
        }
        lemma_notification_during_save(directory, shorter, state);
        assert(step_position(run[run.len() - 1]) == run.len() - 1);
    }
}

/// A finished save is loaded back: what the state file holds then is the state that was saved,
/// provided that its schema is the current one.
pub proof fn a_saved_state_is_loaded_back(
    directory: DirectoryView,
    run: Seq<SaveStep>,
    state: StateView,
)
    requires
        is_save_run(run),
        step_after(run.last()) is None,
        state.schema_version == LifecycleState::SCHEMA_VERSION,
    ensures
        loaded(directory_after_run(directory, run, state).saved) == Some(state),
{
    let quiet = DirectoryView { notified: false, ..directory };
    save_steps_come_in_order(run);
    saves_are_atomic(quiet, run, state);
    lemma_notification_is_independent(directory, run, state);
}

/// Whether readers were notified before has no influence on what is saved.
proof fn lemma_notification_is_independent(
    directory: DirectoryView,
    run: Seq<SaveStep>,
    state: StateView,
)
    ensures
        directory_after_run(directory, run, state).saved == directory_after_run(
            DirectoryView { notified: false, ..directory },
            run,
            state,
        ).saved,
        directory_after_run(directory, run, state).temporary == directory_after_run(
            DirectoryView { notified: false, ..directory },
            run,
            state,
        ).temporary,
    decreases run.len(),
{
    if run.len() > 0 {
        lemma_notification_is_independent(directory, run.drop_last(), state);
    }
}

/// The directory as it stands after each number of steps.
proof fn lemma_directory_during_save(directory: DirectoryView, run: Seq<SaveStep>, state: StateView)
    requires
        run.len() <= 11,
        forall|i: int| 0 <= i < run.len() ==> step_position(#[trigger] run[i]) == i,
        !directory.notified,
    ensures
        ({
            let after = directory_after_run(directory, run, state);
            &&& after.saved == if run.len() > 4 {
                Some(state)
            } else {
                directory.saved
            }
            &&& after.notified == (run.len() > 8)
            &&& run.len() == 2 ==> after.temporary == Some(None::<StateView>)
            &&& 3 <= run.len() <= 4 ==> after.temporary == Some(Some(state))
            &&& run.len() > 4 ==> after.temporary is None
        }),
    decreases run.len(),
{
    if run.len() > 0 {
        let shorter = run.drop_last();
        assert forall|i: int| 0 <= i < shorter.len() implies step_position(#[trigger] shorter[i])
            == i by {
            assert(shorter[i] == run[i]);
        }
        lemma_directory_during_save(directory, shorter, state);
        assert(step_position(run[run.len() - 1]) == run.len() - 1);
    }
}

/// The notification file lies beside the state file.
pub proof fn notification_file_is_a_sibling(path: Seq<u8>)
    requires
        ends_in_component(path),
    ensures
        directory_of(beside(path, NOTIFY@)) == directory_of(path),
        beside(path, NOTIFY@) != path,
{
    reveal_strlit(".notify");
    is_ascii_chars_encode_utf8(NOTIFY@);
    siblings_share_their_directory(path, encode_utf8(NOTIFY@));
    assert(beside(path, NOTIFY@).len() != path.len());
}

/// A state is used exactly if its schema is the current one, and then unchanged; a node without a
/// state file starts without transitions and without a profile.
pub proof fn only_the_current_schema_is_used(state: StateView)
    ensures
        loaded(Some(state)) is Some <==> state.schema_version == LifecycleState::SCHEMA_VERSION,
        loaded(Some(state)) is Some ==> loaded(Some(state)) == Some(state),
        loaded(None) is Some,
        ({
            let fresh = loaded(None)->Some_0;
            &&& fresh.schema_version == LifecycleState::SCHEMA_VERSION
            &&& fresh.generation == 0
            &&& fresh.committed_profile is None
            &&& fresh.active is None
            &&& fresh.last_result is None
        }),
{
}

/// A failure to save tells the step, what was reported, and the file that the step was about: the
/// state file, its directory, its notification file or the temporary file.
pub proof fn save_failures_tell_their_step(
    step: SaveStep,
    path: Seq<u8>,
    temporary: Seq<u8>,
    source: Seq<char>,
)
    ensures
        match step_failure(step, path, temporary, source) {
            StoreErrorView::CreateStateDirectory { path: named, source: told } => {
                &&& step == SaveStep::CreateDirectory
                &&& named == directory_of(path) && told == source
            },
            StoreErrorView::CreateTemporaryState { path: named, source: told } => {
                &&& step == SaveStep::CreateTemporary
                &&& named == directory_of(path) && told == source
            },
            StoreErrorView::SerializeState { path: named, source: told } => {
                &&& step == SaveStep::Serialize
                &&& named == path && told == source
            },
            StoreErrorView::SyncTemporaryState { path: named, source: told } => {
                &&& step == SaveStep::SyncTemporary
                &&& named == temporary && told == source
            },
            StoreErrorView::PersistState { path: named, source: told } => {
                &&& step == SaveStep::Persist
                &&& named == path && told == source
            },
            StoreErrorView::OpenStateDirectory { path: named, source: told } => {
                &&& step == SaveStep::OpenDirectory
                &&& named == directory_of(path) && told == source
            },
            StoreErrorView::SyncStateDirectory { path: named, source: told } => {
                &&& step == SaveStep::SyncDirectory || step == SaveStep::SyncDirectoryAgain
                &&& named == directory_of(path) && told == source
            },
            StoreErrorView::OpenNotification { path: named, source: told } => {
                &&& step == SaveStep::OpenNotification
                &&& named == beside(path, NOTIFY@) && told == source
            },
            StoreErrorView::WriteNotification { path: named, source: told } => {
                &&& step == SaveStep::WriteNotification
                &&& named == beside(path, NOTIFY@) && told == source
            },
            StoreErrorView::SyncNotification { path: named, source: told } => {
                &&& step == SaveStep::SyncNotification
                &&& named == beside(path, NOTIFY@) && told == source
            },
            _ => false,
        },
{
}

/// A save fails exactly with a step that failed, goes on exactly after one that succeeded with steps
/// left, and is over exactly after the last.
pub proof fn saves_fail_only_with_a_step(
    path: Seq<u8>,
    step: SaveStep,
    temporary: Seq<u8>,
    outcome: Result<(), String>,
)
    ensures
        match save_progress(path, step, temporary, outcome) {
            SaveProgressView::Failed { .. } => outcome is Err,
            SaveProgressView::Next { step: next } => {
                &&& outcome is Ok
                &&& step_position(next) == step_position(step) + 1
            },
            SaveProgressView::Saved => {
                &&& outcome is Ok
                &&& step == SaveStep::SyncDirectoryAgain
            },
        },
{
}

/// A load fails only where something was found that cannot be used: a file that cannot be opened,
/// one that holds no state, and a state of another schema, each reported as what it is and under
/// the path of the state file. A missing file is no failure.
pub proof fn loads_fail_only_for_cause(path: Seq<u8>, file: StateFileView)
    ensures
        match load_answer(path, file) {
            Ok(state) => match file {
                StateFileView::Missing => state == StateView::initial(None),
                StateFileView::Parsed { state: found } => {
                    &&& state == found
                    &&& found.schema_version == LifecycleState::SCHEMA_VERSION
                },
                _ => false,
            },
            Err(StoreErrorView::OpenState { path: named, source }) => {
                &&& file == (StateFileView::Unreadable { source })
                &&& named == path
            },
            Err(StoreErrorView::ParseState { path: named, source }) => {
                &&& file == (StateFileView::Malformed { source })
                &&& named == path
            },
            Err(StoreErrorView::UnsupportedSchema { path: named, actual, supported }) => {
                &&& file is Parsed
                &&& file->state.schema_version == actual
                &&& supported == LifecycleState::SCHEMA_VERSION
                &&& actual != supported
                &&& named == path
            },
            Err(_) => false,
        },
{
}

} // verus!
