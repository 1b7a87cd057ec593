//! A lifecycle store behind an advisory lock.

use crate::path::{
    beside, copy_range, directory, directory_of, ends_in_component, sibling,
    siblings_share_their_directory,
};
use crate::store::{failure_message, failure_text, JsonFileStore, NOTIFY};
use vstd::prelude::*;
use vstd::string::*;
use vstd::utf8::*;

verus! {

/// What the name of the lock file adds to that of the state file.
pub const LOCK: &'static str = ".lock";

/// Why the lock was not acquired. A `source` is what the failed operation reported.
#[derive(Debug, Eq, PartialEq)]
pub enum LockedStoreError {
    CreateLockDirectory { path: Vec<u8>, source: String },
    OpenLockFile { path: Vec<u8>, source: String },
    AcquireLock { path: Vec<u8>, source: String },
}

/// The failures of the lock, as mathematics.
pub enum LockedStoreErrorView {
    CreateLockDirectory { path: Seq<u8>, source: Seq<char> },
    OpenLockFile { path: Seq<u8>, source: Seq<char> },
    AcquireLock { path: Seq<u8>, source: Seq<char> },
}

impl View for LockedStoreError {
    type V = LockedStoreErrorView;

    open spec fn view(&self) -> LockedStoreErrorView {
        match self {
            LockedStoreError::CreateLockDirectory { path, source } => {
                LockedStoreErrorView::CreateLockDirectory { path: path@, source: source@ }
            },
            LockedStoreError::OpenLockFile { path, source } => {
                LockedStoreErrorView::OpenLockFile { path: path@, source: source@ }
            },
            LockedStoreError::AcquireLock { path, source } => {
                LockedStoreErrorView::AcquireLock { path: path@, source: source@ }
            },
        }
    }
}

impl LockedStoreErrorView {
    /// The message that the failure is reported with.
    pub open spec fn message(self) -> Seq<char> {
        match self {
            LockedStoreErrorView::CreateLockDirectory { path, source } => failure_message(
                "failed to create lock directory '"@,
                path,
                source,
            ),
            LockedStoreErrorView::OpenLockFile { path, source } => failure_message(
                "failed to open lifecycle lock '"@,
                path,
                source,
            ),
            LockedStoreErrorView::AcquireLock { path, source } => failure_message(
                "lifecycle state is already locked at '"@,
                path,
                source,
            ),
        }
    }
}

impl LockedStoreError {
    /// The message that the failure is reported with.
    pub fn message(&self) -> (message: String)
        ensures
            message@ == self@.message(),
    {
        match self {
            LockedStoreError::CreateLockDirectory { path, source } => failure_text(
                "failed to create lock directory '",
                path.as_slice(),
                source.as_str(),
            ),
            LockedStoreError::OpenLockFile { path, source } => failure_text(
                "failed to open lifecycle lock '",
                path.as_slice(),
                source.as_str(),
            ),
            LockedStoreError::AcquireLock { path, source } => failure_text(
                "lifecycle state is already locked at '",
                path.as_slice(),
                source.as_str(),
            ),
        }
    }
}

/// The steps to the lock, in their order.
#[derive(Clone, Copy, Debug, Eq, PartialEq, Structural)]
pub enum LockStep {
    /// Create the directory of the lock file, with its parents.
    CreateDirectory,
    /// Open the lock file, made if it is missing and never truncated.
    OpenFile,
    /// Lock the open file for this process alone, without waiting.
    Acquire,
}

/// How locking goes on.
#[derive(Debug)]
pub enum LockProgress {
    /// The step to carry out now.
    Next { step: LockStep },
    /// The lock is held for as long as the file is open.
    Locked,
    /// Locking is over.
    Failed { error: LockedStoreError },
}

/// How locking goes on, as mathematics.
pub enum LockProgressView {
    Next { step: LockStep },
    Locked,
    Failed { error: LockedStoreErrorView },
}

impl View for LockProgress {
    type V = LockProgressView;

    open spec fn view(&self) -> LockProgressView {
        match self {
            LockProgress::Next { step } => LockProgressView::Next { step: *step },
            LockProgress::Locked => LockProgressView::Locked,
            LockProgress::Failed { error } => LockProgressView::Failed { error: error@ },
        }
    }
}

/// How locking the state at `path` goes on after `step` has ended with `outcome`.
pub open spec fn lock_progress(
    path: Seq<u8>,
    step: LockStep,
    outcome: Result<(), String>,
) -> LockProgressView {
    match outcome {
        Err(source) => LockProgressView::Failed { error: lock_failure(step, path, source@) },
        Ok(_) => match lock_step_after(step) {
            Some(next) => LockProgressView::Next { step: next },
            None => LockProgressView::Locked,
        },
    }
}

/// The step with which locking begins.
pub fn first_lock_step() -> (step: LockStep)
    ensures
        step == LockStep::CreateDirectory,
{
    LockStep::CreateDirectory
}

/// The step after `step`, if there is one.
pub open spec fn lock_step_after(step: LockStep) -> Option<LockStep> {
    match step {
        LockStep::CreateDirectory => Some(LockStep::OpenFile),
        LockStep::OpenFile => Some(LockStep::Acquire),
        LockStep::Acquire => None,
    }
}

/// The error that stands for a failure of `step` on the way to the lock of the state at `path`.
pub open spec fn lock_failure(
    step: LockStep,
    path: Seq<u8>,
    source: Seq<char>,
) -> LockedStoreErrorView {
    let lock_path = beside(path, LOCK@);
    match step {
        LockStep::CreateDirectory => LockedStoreErrorView::CreateLockDirectory {
            path: directory_of(lock_path),
            source,
        },
        LockStep::OpenFile => LockedStoreErrorView::OpenLockFile { path: lock_path, source },
        LockStep::Acquire => LockedStoreErrorView::AcquireLock { path: lock_path, source },
    }
}

/// A JSON lifecycle store with a stable advisory lock file for read-modify-write operations.
#[derive(Debug)]
pub struct LockedJsonFileStore {
    store: JsonFileStore,
    lock_path: Vec<u8>,
}

impl View for LockedJsonFileStore {
    type V = Seq<u8>;

    /// A store is known by the path of its state file.
    closed spec fn view(&self) -> Seq<u8> {
        self.store@
    }
}

impl LockedJsonFileStore {
    #[verifier::type_invariant]
    spec fn paths_agree(self) -> bool {
        self.lock_path@ == beside(self.store@, LOCK@)
    }

    pub fn new(path: Vec<u8>) -> (store: Self)
        ensures
            store@ == path@,
    {
        let lock_path = sibling(path.as_slice(), LOCK);
        LockedJsonFileStore { store: JsonFileStore::new(path), lock_path }
    }

    pub fn state_path(&self) -> (path: &[u8])
        ensures
            path@ == self@,
    {
        self.store.path()
    }

    pub fn lock_path(&self) -> (path: &[u8])
        ensures
            path@ == beside(self@, LOCK@),
    {
        proof {
            use_type_invariant(self);
        }
        self.lock_path.as_slice()
    }

    /// The store that the lock protects.
    pub fn store(&self) -> (store: &JsonFileStore)
        ensures
            store@ == self@,
    {
        &self.store
    }

    /// The directory of the lock file.
    pub fn lock_directory(&self) -> (path: Vec<u8>)
        ensures
            path@ == directory_of(beside(self@, LOCK@)),
    {
        proof {
            use_type_invariant(self);
        }
        directory(self.lock_path.as_slice())
    }

    /// Decides how locking goes on after `step`. The lock is acquired without waiting, so a stuck
    /// caller cannot block lifecycle progress: a lock that somebody else holds is a failure.
    pub fn try_lock(&self, step: LockStep, outcome: Result<(), String>) -> (progress: LockProgress)
        ensures
            progress@ == lock_progress(self@, step, outcome),
            match progress {
                LockProgress::Next { step: next } => outcome is Ok && lock_step_after(step) == Some(
                    next,
                ),
                LockProgress::Locked => outcome is Ok && lock_step_after(step) is None,
                LockProgress::Failed { error } => outcome is Err && error@ == lock_failure(
                    step,
                    self@,
                    outcome->Err_0@,
                ),
            },
    {
        proof {
            use_type_invariant(self);
        }
        match outcome {
            Ok(()) => match step {
                LockStep::CreateDirectory => LockProgress::Next { step: LockStep::OpenFile },
                LockStep::OpenFile => LockProgress::Next { step: LockStep::Acquire },
                LockStep::Acquire => LockProgress::Locked,
            },
            Err(source) => {
                let error = match step {
                    LockStep::CreateDirectory => LockedStoreError::CreateLockDirectory {
                        path: self.lock_directory(),
                        source,
                    },
                    LockStep::OpenFile => LockedStoreError::OpenLockFile {
                        path: self.lock_path.clone(),
                        source,
                    },
                    LockStep::Acquire => LockedStoreError::AcquireLock {
                        path: self.lock_path.clone(),
                        source,
                    },
                };
                LockProgress::Failed { error }
            },
        }
    }
}

impl Clone for LockedJsonFileStore {
    fn clone(&self) -> (copy: Self)
        ensures
            copy@ == self@,
    {
        let path = self.state_path();
        assert(path@.subrange(0, path@.len() as int) =~= path@);
        LockedJsonFileStore::new(copy_range(path, 0, path.len()))
    }
}

/// The lock file lies beside the state file, and is neither that file nor its notification file:
/// replacing the state never replaces the lock.
pub proof fn lock_file_is_a_stable_sibling(path: Seq<u8>)
    ensures
        ends_in_component(path) ==> directory_of(beside(path, LOCK@)) == directory_of(path),
        beside(path, LOCK@) != path,
        beside(path, LOCK@) != beside(path, NOTIFY@),
{
    reveal_strlit(".lock");
    reveal_strlit(".notify");
    is_ascii_chars_encode_utf8(LOCK@);
    is_ascii_chars_encode_utf8(NOTIFY@);
    if ends_in_component(path) {
        siblings_share_their_directory(path, encode_utf8(LOCK@));
    }
    assert(beside(path, LOCK@).len() == path.len() + 5);
    assert(beside(path, NOTIFY@).len() == path.len() + 7);
}

/// The steps that locking has carried out or is carrying out: it begins with `first_lock_step`, and
/// `LockedJsonFileStore::try_lock` gave each of the others after the one before it.
pub open spec fn is_lock_run(run: Seq<LockStep>) -> bool {
    &&& run.len() > 0
    &&& run[0] == LockStep::CreateDirectory
    &&& forall|i: int|
        #![trigger run[i]]
        0 < i < run.len() ==> lock_step_after(run[i - 1]) == Some(run[i])
}

/// The lock is acquired only on a lock file that was opened, the file is opened only in a directory
/// that was created, and locking that has come to its end has carried out all three steps, each
/// once and in this order.
pub proof fn the_lock_is_acquired_on_an_open_file(run: Seq<LockStep>)
    requires
        is_lock_run(run),
    ensures
        run.len() <= 3,
        run.contains(LockStep::Acquire) ==> run.contains(LockStep::OpenFile),
        run.contains(LockStep::OpenFile) ==> run.contains(LockStep::CreateDirectory),
        forall|i: int, j: int| 0 <= i < j < run.len() ==> run[i] != run[j],
        forall|i: int|
            0 <= i < run.len() && #[trigger] run[i] == LockStep::Acquire ==> i > 0 && run[i - 1]
                == LockStep::OpenFile,
        forall|i: int|
            0 <= i < run.len() && #[trigger] run[i] == LockStep::OpenFile ==> i > 0 && run[i - 1]
                == LockStep::CreateDirectory,
        lock_step_after(run.last()) is None ==> run == seq![
            LockStep::CreateDirectory,
            LockStep::OpenFile,
            LockStep::Acquire,
        ],
{
    if run.len() > 1 {
        assert(run[1] == LockStep::OpenFile);
    }
    if run.len() > 2 {
        assert(run[2] == LockStep::Acquire);
    }
    if run.len() > 3 {
        assert(lock_step_after(run[2]) == Some(run[3]));
    }
    if run.contains(LockStep::Acquire) {
        assert(run.len() == 3 && run[1] == LockStep::OpenFile);
    }
    assert(run.contains(run[0]));
    if lock_step_after(run.last()) is None {
        assert(run =~= seq![LockStep::CreateDirectory, LockStep::OpenFile, LockStep::Acquire]);
    }
}

/// Locking never stops short: every step but the last leads to another, and the last is the one
/// that acquires the lock.
pub proof fn locking_ends_with_the_lock(step: LockStep)
    ensures
        lock_step_after(step) is None <==> step == LockStep::Acquire,
{
}

/// A failure to lock tells the step, the lock file or its directory, and what was reported.
pub proof fn lock_failures_tell_their_step(step: LockStep, path: Seq<u8>, source: Seq<char>)
    ensures
        match lock_failure(step, path, source) {
            LockedStoreErrorView::CreateLockDirectory { path: named, source: told } => {
                &&& step == LockStep::CreateDirectory
                &&& named == directory_of(beside(path, LOCK@))
                &&& told == source
            },
            LockedStoreErrorView::OpenLockFile { path: named, source: told } => {
                &&& step == LockStep::OpenFile
                &&& named == beside(path, LOCK@)
                &&& told == source
            },
            LockedStoreErrorView::AcquireLock { path: named, source: told } => {
                &&& step == LockStep::Acquire
                &&& named == beside(path, LOCK@)
                &&& told == source
            },
        },
{
}

/// Locking fails exactly with a step that failed, so that a lock which somebody else holds is never
/// taken for acquired; it is acquired exactly once its last step has succeeded.
pub proof fn locking_fails_only_with_a_step(
    path: Seq<u8>,
    step: LockStep,
    outcome: Result<(), String>,
)
    ensures
        match lock_progress(path, step, outcome) {
            LockProgressView::Failed { .. } => outcome is Err,
            LockProgressView::Next { step: next } => {
                &&& outcome is Ok
                &&& next != LockStep::CreateDirectory
                &&& next == LockStep::OpenFile <==> step == LockStep::CreateDirectory
                &&& next == LockStep::Acquire <==> step == LockStep::OpenFile
            },
            LockProgressView::Locked => outcome is Ok && step == LockStep::Acquire,
        },
{
}

} // verus!
