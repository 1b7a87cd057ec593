use accelerator_node_lifecycle::locked_store::{first_lock_step, LockProgress, LockStep};
use accelerator_node_lifecycle::store::{
    first_save_step, SaveProgress, SaveStep, StateFile, NOTIFICATION_BYTE, NOTIFICATION_MODE,
};
use accelerator_node_lifecycle::{
    AcceleratorProfile, JsonFileStore, LifecycleState, LockedJsonFileStore, LockedStoreError,
    NextAction, StoreError,
};

const TOKEN: &str = "transition-persisted";

/// A file system in memory, with one state file, its notification file and its lock.
#[derive(Default)]
struct Disk {
    steps: Vec<SaveStep>,
    temporary: Option<Option<LifecycleState>>,
    state: Option<LifecycleState>,
    notification: Option<Notification>,
    next_inode: u64,
    locked: bool,
    fail_at: Option<SaveStep>,
}

#[derive(Clone, Copy)]
struct Notification {
    inode: u64,
    length: usize,
    mode: u32,
}

impl Disk {
    fn carry_out(&mut self, step: SaveStep, state: &LifecycleState) -> Result<(), String> {
        if self.fail_at == Some(step) {
            return Err("injected failure".to_string());
        }
        self.steps.push(step);
        match step {
            SaveStep::CreateTemporary => self.temporary = Some(None),
            SaveStep::Serialize => self.temporary = Some(Some(state.clone())),
            SaveStep::Persist => self.state = self.temporary.take().unwrap(),
            SaveStep::OpenNotification => {
                if self.notification.is_none() {
                    self.next_inode += 1;
                    self.notification = Some(Notification {
                        inode: self.next_inode,
                        length: 0,
                        mode: NOTIFICATION_MODE,
                    });
                }
            }
            SaveStep::WriteNotification => {
                assert_eq!(NOTIFICATION_BYTE, b'\n');
                self.notification.as_mut().unwrap().length = 1;
            }
            _ => {}
        }
        Ok(())
    }

    fn save(&mut self, store: &JsonFileStore, state: &LifecycleState) -> Result<(), StoreError> {
        let mut step = first_save_step();
        loop {
            let outcome = self.carry_out(step, state);
            match store.save(step, b"/run/.tmp", outcome) {
                SaveProgress::Next { step: next } => step = next,
                SaveProgress::Saved => return Ok(()),
                SaveProgress::Failed { error } => return Err(error),
            }
        }
    }

    fn load(&self, store: &JsonFileStore) -> Result<LifecycleState, StoreError> {
        store.load(match &self.state {
            None => StateFile::Missing,
            Some(state) => StateFile::Parsed {
                state: state.clone(),
            },
        })
    }

    fn try_lock(&mut self, store: &LockedJsonFileStore) -> Result<(), LockedStoreError> {
        let mut step = first_lock_step();
        loop {
            let outcome = match step {
                LockStep::Acquire if self.locked => Err("lock contended".to_string()),
                _ => Ok(()),
            };
            match store.try_lock(step, outcome) {
                LockProgress::Next { step: next } => step = next,
                LockProgress::Locked => {
                    self.locked = true;
                    return Ok(());
                }
                LockProgress::Failed { error } => return Err(error),
            }
        }
    }
}

#[test]
fn missing_state_file_loads_default_state() {
    let store = JsonFileStore::new(b"/tmp/directory/state.json".to_vec());

    let state = store.load(StateFile::Missing).unwrap();
    assert_eq!(state, LifecycleState::default());
    assert_eq!(state.schema_version(), LifecycleState::SCHEMA_VERSION);
}

#[test]
fn active_transition_survives_round_trip() {
    let mut disk = Disk::default();
    let store = JsonFileStore::new(b"/tmp/directory/nested/state.json".to_vec());
    let mut expected = LifecycleState::new(Some(AcceleratorProfile::SharedInference));
    let generation = expected.generation();
    let id = expected
        .begin(TOKEN, AcceleratorProfile::DistributedTraining, generation)
        .unwrap();
    expected.record_node_drained(&id).unwrap();
    expected.record_advertisement_withdrawn(&id).unwrap();

    disk.save(&store, &expected).unwrap();
    let actual = disk.load(&store).unwrap();

    assert_eq!(actual, expected);
    assert_eq!(actual.active_transition_id(), Some(&id));
    assert_eq!(
        actual.next_action(),
        Some(NextAction::NodeApplyTargetProfile)
    );
}

#[test]
fn save_atomically_replaces_previous_state() {
    let mut disk = Disk::default();
    let store = JsonFileStore::new(b"/tmp/directory/state.json".to_vec());
    let first = LifecycleState::new(Some(AcceleratorProfile::SharedInference));
    let second = LifecycleState::new(Some(AcceleratorProfile::DistributedTraining));

    disk.save(&store, &first).unwrap();
    let first_notification = disk.notification.unwrap();
    disk.save(&store, &second).unwrap();
    let second_notification = disk.notification.unwrap();

    assert_eq!(disk.load(&store).unwrap(), second);
    assert_eq!(
        first_notification.inode, second_notification.inode,
        "notification inode must remain stable across atomic state replacement"
    );
    assert_eq!(second_notification.length, 1);
    assert_eq!(second_notification.mode & 0o777, 0o600);
}

#[test]
fn unsupported_schema_version_is_rejected() {
    let store = JsonFileStore::new(b"/tmp/directory/state.json".to_vec());
    let state = LifecycleState::from_parts(99, 0, None, None, None);

    let error = store.load(StateFile::Parsed { state }).unwrap_err();
    assert!(matches!(
        error,
        StoreError::UnsupportedSchema {
            actual: 99,
            supported: LifecycleState::SCHEMA_VERSION,
            ..
        }
    ));
    assert_eq!(
        error.message(),
        "lifecycle state '/tmp/directory/state.json' uses schema version 99, but this binary \
         supports 1"
    );
}

#[test]
fn unusable_state_files_are_reported() {
    let store = JsonFileStore::new(b"state.json".to_vec());
    let error = store
        .load(StateFile::Unreadable {
            source: "Permission denied (os error 13)".to_string(),
        })
        .unwrap_err();
    assert!(matches!(error, StoreError::OpenState { .. }));
    assert_eq!(
        error.message(),
        "failed to open lifecycle state 'state.json': Permission denied (os error 13)"
    );
    let error = store
        .load(StateFile::Malformed {
            source: "unknown field `unexpected`".to_string(),
        })
        .unwrap_err();
    assert!(matches!(error, StoreError::ParseState { .. }));
    assert_eq!(
        error.message(),
        "failed to parse lifecycle state 'state.json': unknown field `unexpected`"
    );
}

#[test]
fn every_failed_step_has_its_error() {
    let store = JsonFileStore::new(b"/run/st\xff.json".to_vec());
    let state = LifecycleState::default();
    for (step, message) in [
        (
            SaveStep::CreateDirectory,
            "failed to create state directory '/run': injected failure",
        ),
        (
            SaveStep::CreateTemporary,
            "failed to create temporary state in '/run': injected failure",
        ),
        (
            SaveStep::Serialize,
            "failed to serialize lifecycle state '/run/st\u{fffd}.json': injected failure",
        ),
        (
            SaveStep::SyncTemporary,
            "failed to sync temporary state '/run/.tmp': injected failure",
        ),
        (
            SaveStep::Persist,
            "failed to persist lifecycle state '/run/st\u{fffd}.json': injected failure",
        ),
        (
            SaveStep::OpenDirectory,
            "failed to open state directory '/run': injected failure",
        ),
        (
            SaveStep::SyncDirectory,
            "failed to sync state directory '/run': injected failure",
        ),
        (
            SaveStep::OpenNotification,
            "failed to open lifecycle notification '/run/st\u{fffd}.json.notify': injected failure",
        ),
        (
            SaveStep::WriteNotification,
            "failed to write lifecycle notification '/run/st\u{fffd}.json.notify': injected failure",
        ),
        (
            SaveStep::SyncNotification,
            "failed to sync lifecycle notification '/run/st\u{fffd}.json.notify': injected failure",
        ),
        (
            SaveStep::SyncDirectoryAgain,
            "failed to sync state directory '/run': injected failure",
        ),
    ] {
        let mut disk = Disk {
            fail_at: Some(step),
            ..Default::default()
        };
        let error = disk.save(&store, &state).unwrap_err();
        assert_eq!(error.message(), message);
        assert_eq!(disk.state.is_some(), disk.steps.contains(&SaveStep::Persist));
    }
}

#[test]
fn save_steps_keep_their_order() {
    let mut disk = Disk::default();
    let store = JsonFileStore::new(b"state.json".to_vec());
    disk.save(&store, &LifecycleState::default()).unwrap();
    assert_eq!(
        disk.steps,
        [
            SaveStep::CreateDirectory,
            SaveStep::CreateTemporary,
            SaveStep::Serialize,
            SaveStep::SyncTemporary,
            SaveStep::Persist,
            SaveStep::OpenDirectory,
            SaveStep::SyncDirectory,
            SaveStep::OpenNotification,
            SaveStep::WriteNotification,
            SaveStep::SyncNotification,
            SaveStep::SyncDirectoryAgain,
        ]
    );
}

#[test]
fn stores_know_their_paths() {
    let store = JsonFileStore::new(b"state.json".to_vec());
    assert_eq!(store.path(), b"state.json");
    assert_eq!(store.notification_path(), b"state.json.notify");
    assert_eq!(store.directory(), b".");
    let copy = store.clone();
    assert_eq!(copy.path(), store.path());
    assert_eq!(copy.notification_path(), store.notification_path());
    assert_eq!(
        JsonFileStore::new(b"/a//b/".to_vec()).notification_path(),
        b"/a//b/.notify"
    );
}

#[test]
fn lock_uses_a_stable_sibling_file() {
    let state_path = b"/tmp/directory/state.json".to_vec();
    let store = LockedJsonFileStore::new(state_path.clone());

    assert_eq!(store.state_path(), state_path);
    assert_eq!(store.lock_path(), b"/tmp/directory/state.json.lock");
    assert_eq!(store.lock_directory(), b"/tmp/directory");
    assert_eq!(store.clone().lock_path(), store.lock_path());
}

#[test]
fn concurrent_writer_is_rejected() {
    let mut disk = Disk::default();
    let store = LockedJsonFileStore::new(b"/tmp/directory/state.json".to_vec());
    disk.try_lock(&store).unwrap();

    let error = disk.try_lock(&store).unwrap_err();
    assert!(matches!(error, LockedStoreError::AcquireLock { .. }));
    assert_eq!(
        error.message(),
        "lifecycle state is already locked at '/tmp/directory/state.json.lock': lock contended"
    );

    disk.locked = false;
    assert!(disk.try_lock(&store).is_ok());
}

#[test]
fn guard_persists_state() {
    let mut disk = Disk::default();
    let store = LockedJsonFileStore::new(b"/tmp/directory/state.json".to_vec());
    disk.try_lock(&store).unwrap();
    let expected = LifecycleState::default();

    disk.save(store.store(), &expected).unwrap();
    assert_eq!(disk.load(store.store()).unwrap(), expected);
}

#[test]
fn lock_failures_are_reported() {
    assert_eq!(first_lock_step(), LockStep::CreateDirectory);
    let store = LockedJsonFileStore::new(b"dir/state.json".to_vec());
    for (step, message) in [
        (
            LockStep::CreateDirectory,
            "failed to create lock directory 'dir': denied",
        ),
        (
            LockStep::OpenFile,
            "failed to open lifecycle lock 'dir/state.json.lock': denied",
        ),
        (
            LockStep::Acquire,
            "lifecycle state is already locked at 'dir/state.json.lock': denied",
        ),
    ] {
        match store.try_lock(step, Err("denied".to_string())) {
            LockProgress::Failed { error } => assert_eq!(error.message(), message),
            other => panic!("unexpected progress: {:?}", other),
        }
    }
}
