//! Encrypted block devices: what is done to a device, and whether it may be done.

use crate::encoding::{lossy, lossy_text, utf8};
use crate::path::{copy_range, file_name, file_name_of};
use vstd::prelude::*;
use vstd::string::*;
use vstd::utf8::*;

verus! {

/// The bytes with which a LUKS header begins.
pub const LUKS2_MAGIC: [u8; 6] = [0x4c, 0x55, 0x4b, 0x53, 0xba, 0xbe];

/// The version that a LUKS2 header names after the magic bytes.
pub const LUKS2_VERSION: u16 = 2;

/// Why nothing can be done to a device. A `source` is what the failed operation reported.
#[allow(inconsistent_fields)]
#[derive(Debug, Eq, PartialEq)]
pub enum DeviceError {
    PathNotUtf8 { path: Vec<u8> },
    NoFilename { path: Vec<u8> },
    FilenameNotUtf8 { path: Vec<u8> },
    OpenDevice { path: Vec<u8>, source: String },
    ReadHeader { path: Vec<u8>, source: String },
}

/// The failures on devices, as mathematics.
#[allow(inconsistent_fields)]
pub enum DeviceErrorView {
    PathNotUtf8 { path: Seq<u8> },
    NoFilename { path: Seq<u8> },
    FilenameNotUtf8 { path: Seq<u8> },
    OpenDevice { path: Seq<u8>, source: Seq<char> },
    ReadHeader { path: Seq<u8>, source: Seq<char> },
}

impl View for DeviceError {
    type V = DeviceErrorView;

    open spec fn view(&self) -> DeviceErrorView {
        match self {
            DeviceError::PathNotUtf8 { path } => DeviceErrorView::PathNotUtf8 { path: path@ },
            DeviceError::NoFilename { path } => DeviceErrorView::NoFilename { path: path@ },
            DeviceError::FilenameNotUtf8 { path } => {
                DeviceErrorView::FilenameNotUtf8 { path: path@ }
            },
            DeviceError::OpenDevice { path, source } => DeviceErrorView::OpenDevice {
                path: path@,
                source: source@,
            },
            DeviceError::ReadHeader { path, source } => DeviceErrorView::ReadHeader {
                path: path@,
                source: source@,
            },
        }
    }
}

impl DeviceErrorView {
    /// The message that the failure is reported with.
    pub open spec fn message(self) -> Seq<char> {
        match self {
            DeviceErrorView::PathNotUtf8 { path } => "path is not valid UTF-8: '"@ + lossy_text(path)
                + "'"@,
            DeviceErrorView::NoFilename { path } => "failed to extract filename from '"@
                + lossy_text(path) + "'"@,
            DeviceErrorView::FilenameNotUtf8 { path } => "filename is not valid UTF-8: '"@
                + lossy_text(path) + "'"@,
            DeviceErrorView::OpenDevice { path, .. } => "failed to open '"@ + lossy_text(path)
                + "'"@,
            DeviceErrorView::ReadHeader { path, .. } => "failed to read header from '"@
                + lossy_text(path) + "'"@,
        }
    }
}

impl DeviceError {
    /// The message that the failure is reported with.
    pub fn message(&self) -> (message: String)
        ensures
            message@ == self@.message(),
    {
        let (opening, path) = match self {
            DeviceError::PathNotUtf8 { path } => ("path is not valid UTF-8: '", path),
            DeviceError::NoFilename { path } => ("failed to extract filename from '", path),
            DeviceError::FilenameNotUtf8 { path } => ("filename is not valid UTF-8: '", path),
            DeviceError::OpenDevice { path, .. } => ("failed to open '", path),
            DeviceError::ReadHeader { path, .. } => ("failed to read header from '", path),
        };
        opening.to_string().concat(lossy(path.as_slice()).as_str()).concat("'")
    }
}

/// One operation on a device.
#[allow(inconsistent_fields)]
#[derive(Debug, Eq, PartialEq)]
pub enum DeviceOperation {
    LoadKey { key_id: String },
    LuksFormat { device: String },
    Attach { volume: String, device: String },
    Detach { volume: String },
    Resize { volume: String },
}

/// An operation on a device, as mathematics.
#[allow(inconsistent_fields)]
pub enum DeviceOperationView {
    LoadKey { key_id: Seq<char> },
    LuksFormat { device: Seq<char> },
    Attach { volume: Seq<char>, device: Seq<char> },
    Detach { volume: Seq<char> },
    Resize { volume: Seq<char> },
}

impl View for DeviceOperation {
    type V = DeviceOperationView;

    open spec fn view(&self) -> DeviceOperationView {
        match self {
            DeviceOperation::LoadKey { key_id } => DeviceOperationView::LoadKey { key_id: key_id@ },
            DeviceOperation::LuksFormat { device } => {
                DeviceOperationView::LuksFormat { device: device@ }
            },
            DeviceOperation::Attach { volume, device } => DeviceOperationView::Attach {
                volume: volume@,
                device: device@,
            },
            DeviceOperation::Detach { volume } => DeviceOperationView::Detach { volume: volume@ },
            DeviceOperation::Resize { volume } => DeviceOperationView::Resize { volume: volume@ },
        }
    }
}

/// A plan: operations that are carried out in order, as `PlanRun` says.
pub open spec fn plan(result: Result<Vec<DeviceOperation>, DeviceError>) -> Result<
    Seq<DeviceOperationView>,
    DeviceErrorView,
> {
    match result {
        Ok(operations) => Ok(operations@.map_values(|operation: DeviceOperation| operation@)),
        Err(error) => Err(error@),
    }
}

/// The path of a device as text.
pub open spec fn device_of(path: Seq<u8>) -> Result<Seq<char>, DeviceErrorView> {
    if valid_utf8(path) {
        Ok(decode_utf8(path))
    } else {
        Err(DeviceErrorView::PathNotUtf8 { path })
    }
}

/// The name of the volume that a device is attached as: the file name of its path.
pub open spec fn volume_of(path: Seq<u8>) -> Result<Seq<char>, DeviceErrorView> {
    match file_name_of(path) {
        None => Err(DeviceErrorView::NoFilename { path }),
        Some(name) => if valid_utf8(name) {
            Ok(decode_utf8(name))
        } else {
            Err(DeviceErrorView::FilenameNotUtf8 { path })
        },
    }
}

/// The plan that encrypts the device at a path.
pub open spec fn encrypt_plan(path: Seq<u8>, key_id: Seq<char>) -> Result<
    Seq<DeviceOperationView>,
    DeviceErrorView,
> {
    match device_of(path) {
        Err(error) => Err(error),
        Ok(device) => Ok(
            seq![
                DeviceOperationView::LoadKey { key_id },
                DeviceOperationView::LuksFormat { device },
            ],
        ),
    }
}

/// The plan that attaches the device at a path.
pub open spec fn attach_plan(path: Seq<u8>, key_id: Seq<char>) -> Result<
    Seq<DeviceOperationView>,
    DeviceErrorView,
> {
    match (volume_of(path), device_of(path)) {
        (Err(error), _) => Err(error),
        (_, Err(error)) => Err(error),
        (Ok(volume), Ok(device)) => Ok(
            seq![
                DeviceOperationView::LoadKey { key_id },
                DeviceOperationView::Attach { volume, device },
            ],
        ),
    }
}

/// The plan that detaches the device at a path.
pub open spec fn detach_plan(path: Seq<u8>) -> Result<Seq<DeviceOperationView>, DeviceErrorView> {
    match volume_of(path) {
        Err(error) => Err(error),
        Ok(volume) => Ok(seq![DeviceOperationView::Detach { volume }]),
    }
}

/// The plan that resizes the device at a path.
pub open spec fn resize_plan(path: Seq<u8>, key_id: Seq<char>) -> Result<
    Seq<DeviceOperationView>,
    DeviceErrorView,
> {
    match volume_of(path) {
        Err(error) => Err(error),
        Ok(volume) => Ok(
            seq![
                DeviceOperationView::LoadKey { key_id },
                DeviceOperationView::Resize { volume },
            ],
        ),
    }
}

/// Copies a path.
fn copied(path: &[u8]) -> (copy: Vec<u8>)
    ensures
        copy@ == path@,
{
    let copy = copy_range(path, 0, path.len());
    assert(copy@ =~= path@);
    copy
}

/// Reads the path of a device as text.
pub fn device(path: &[u8]) -> (result: Result<String, DeviceError>)
    ensures
        match result {
            Ok(device) => device_of(path@) == Ok::<Seq<char>, DeviceErrorView>(device@),
            Err(error) => device_of(path@) == Err::<Seq<char>, DeviceErrorView>(error@),
        },
{
    match utf8(path) {
        Some(device) => Ok(device),
        None => Err(DeviceError::PathNotUtf8 { path: copied(path) }),
    }
}

/// Extracts the file name from a path as text.
pub fn filename(path: &[u8]) -> (result: Result<String, DeviceError>)
    ensures
        match result {
            Ok(name) => volume_of(path@) == Ok::<Seq<char>, DeviceErrorView>(name@),
            Err(error) => volume_of(path@) == Err::<Seq<char>, DeviceErrorView>(error@),
        },
{
    match file_name(path) {
        None => Err(DeviceError::NoFilename { path: copied(path) }),
        Some(name) => match utf8(name.as_slice()) {
            Some(name) => Ok(name),
            None => Err(DeviceError::FilenameNotUtf8 { path: copied(path) }),
        },
    }
}

/// The plan that loads a key for one operation.
fn with_key(key_id: String, operation: DeviceOperation) -> (operations: Vec<DeviceOperation>)
    ensures
        operations@.map_values(|operation: DeviceOperation| operation@) == seq![
            DeviceOperationView::LoadKey { key_id: key_id@ },
            operation@,
        ],
{
    let mut operations: Vec<DeviceOperation> = Vec::new();
    operations.push(DeviceOperation::LoadKey { key_id });
    operations.push(operation);
    operations
}

/// Plans the encryption of a block device with LUKS2 under the specified key.
pub fn encrypt(path: &[u8], key_id: String) -> (result: Result<Vec<DeviceOperation>, DeviceError>)
    ensures
        plan(result) == encrypt_plan(path@, key_id@),
        plan(result) == match device_of(path@) {
            Err(error) => Err(error),
            Ok(device) => Ok(
                seq![
                    DeviceOperationView::LoadKey { key_id: key_id@ },
                    DeviceOperationView::LuksFormat { device },
                ],
            ),
        },
{
    let device = device(path)?;
    Ok(with_key(key_id, DeviceOperation::LuksFormat { device }))
}

/// Plans to attach (unlock) an encrypted block device, creating a device mapper entry.
pub fn attach(path: &[u8], key_id: String) -> (result: Result<Vec<DeviceOperation>, DeviceError>)
    ensures
        plan(result) == attach_plan(path@, key_id@),
        plan(result) == match (volume_of(path@), device_of(path@)) {
            (Err(error), _) => Err(error),
            (_, Err(error)) => Err(error),
            (Ok(volume), Ok(device)) => Ok(
                seq![
                    DeviceOperationView::LoadKey { key_id: key_id@ },
                    DeviceOperationView::Attach { volume, device },
                ],
            ),
        },
{
    let volume = filename(path)?;
    let device = device(path)?;
    Ok(with_key(key_id, DeviceOperation::Attach { volume, device }))
}

/// Plans to detach (lock) an encrypted block device, removing the device mapper entry.
pub fn detach(path: &[u8]) -> (result: Result<Vec<DeviceOperation>, DeviceError>)
    ensures
        plan(result) == detach_plan(path@),
        plan(result) == match volume_of(path@) {
            Err(error) => Err(error),
            Ok(volume) => Ok(seq![DeviceOperationView::Detach { volume }]),
        },
{
    let volume = filename(path)?;
    let mut operations: Vec<DeviceOperation> = Vec::new();
    operations.push(DeviceOperation::Detach { volume });
    assert(operations@.map_values(|operation: DeviceOperation| operation@) =~= seq![
        operations@[0]@,
    ]);
    Ok(operations)
}

/// Plans to resize a LUKS2 encrypted block device to match the underlying device size.
pub fn resize(path: &[u8], key_id: String) -> (result: Result<Vec<DeviceOperation>, DeviceError>)
    ensures
        plan(result) == resize_plan(path@, key_id@),
        plan(result) == match volume_of(path@) {
            Err(error) => Err(error),
            Ok(volume) => Ok(
                seq![
                    DeviceOperationView::LoadKey { key_id: key_id@ },
                    DeviceOperationView::Resize { volume },
                ],
            ),
        },
{
    let volume = filename(path)?;
    Ok(with_key(key_id, DeviceOperation::Resize { volume }))
}

/// What came of an operation of a plan.
#[derive(Debug, Eq, PartialEq)]
pub enum PlanReply<E> {
    /// The key that was loaded.
    Key { key: Vec<u8> },
    Done,
    Failed { error: E },
}

/// A plan that is being carried out, between two of its operations.
#[derive(Debug, Eq, PartialEq)]
pub struct PlanRun {
    operations: Vec<DeviceOperation>,
    position: usize,
    key: Vec<u8>,
}

/// Where a plan stands.
#[derive(Debug, Eq, PartialEq)]
pub enum PlanProgress<E> {
    Continue { run: PlanRun },
    Finished { result: Result<(), E> },
}

/// What came of an operation, as mathematics.
pub enum PlanReplyView<E> {
    Key { key: Seq<u8> },
    Done,
    Failed { error: E },
}

/// A plan that is being carried out, as mathematics: its operations, how many of them are done,
/// and the key for the operations that need one.
pub struct PlanRunView {
    pub operations: Seq<DeviceOperationView>,
    pub position: nat,
    pub key: Seq<u8>,
}

/// Where a plan stands, as mathematics.
pub enum PlanProgressView<E> {
    Continue { run: PlanRunView },
    Finished { result: Result<(), E> },
}

impl View for PlanRun {
    type V = PlanRunView;

    closed spec fn view(&self) -> PlanRunView {
        PlanRunView {
            operations: self.operations@.map_values(|operation: DeviceOperation| operation@),
            position: self.position as nat,
            key: self.key@,
        }
    }
}

impl<E> PlanReply<E> {
    /// What came of the operation, as mathematics.
    pub open spec fn model(self) -> PlanReplyView<E> {
        match self {
            PlanReply::Key { key } => PlanReplyView::Key { key: key@ },
            PlanReply::Done => PlanReplyView::Done,
            PlanReply::Failed { error } => PlanReplyView::Failed { error },
        }
    }
}

impl<E> PlanProgress<E> {
    /// Where the plan stands, as mathematics.
    pub open spec fn model(self) -> PlanProgressView<E> {
        match self {
            PlanProgress::Continue { run } => PlanProgressView::Continue { run: run@ },
            PlanProgress::Finished { result } => PlanProgressView::Finished { result },
        }
    }
}

impl PlanRunView {
    /// The operation that is to be carried out now.
    pub open spec fn operation(self) -> DeviceOperationView {
        self.operations[self.position as int]
    }

    /// The plan with `position` operations done: it goes on with the next one, if there is one.
    pub open spec fn at<E>(self, position: nat) -> PlanProgressView<E> {
        if position < self.operations.len() {
            PlanProgressView::Continue { run: PlanRunView { position, ..self } }
        } else {
            PlanProgressView::Finished { result: Ok(()) }
        }
    }

    /// Where the plan stands after a reply: the first failure ends it, and a key that was loaded
    /// is the one for all that follows, up to the next key.
    pub open spec fn after<E>(self, reply: PlanReplyView<E>) -> PlanProgressView<E> {
        match reply {
            PlanReplyView::Failed { error } => PlanProgressView::Finished { result: Err(error) },
            PlanReplyView::Key { key } => (PlanRunView { key, ..self }).at(self.position + 1),
            PlanReplyView::Done => self.at(self.position + 1),
        }
    }

    /// A reply that the pending operation can have.
    pub open spec fn awaits<E>(self, reply: PlanReplyView<E>) -> bool {
        reply is Failed || (reply is Key) == (self.operation() is LoadKey)
    }
}

/// A plan before its first operation: without operations there is nothing left to do.
pub open spec fn plan_start<E>(operations: Seq<DeviceOperationView>) -> PlanProgressView<E> {
    (PlanRunView { operations, position: 0, key: Seq::empty() }).at(0)
}

impl PlanRun {
    #[verifier::type_invariant]
    spec fn within(self) -> bool {
        self.position < self.operations@.len()
    }

    /// Begins to carry a plan out.
    pub fn start<E>(operations: Vec<DeviceOperation>) -> (progress: PlanProgress<E>)
        ensures
            progress.model() == plan_start::<E>(
                operations@.map_values(|operation: DeviceOperation| operation@),
            ),
    {
        if operations.len() == 0 {
            return PlanProgress::Finished { result: Ok(()) };
        }
        let run = PlanRun { operations, position: 0, key: Vec::new() };
        assert(run@.key =~= Seq::empty());
        PlanProgress::Continue { run }
    }

    /// The operation to carry out now.
    pub fn operation(&self) -> (operation: &DeviceOperation)
        ensures
            operation@ == self@.operation(),
    {
        proof {
            use_type_invariant(self);
        }
        &self.operations[self.position]
    }

    /// The key to carry it out with, where it needs one.
    pub fn key(&self) -> (key: &[u8])
        ensures
            key@ == self@.key,
    {
        self.key.as_slice()
    }

    /// Takes what came of the pending operation.
    pub fn resume<E>(self, reply: PlanReply<E>) -> (progress: PlanProgress<E>)
        ensures
            progress.model() == self@.after(reply.model()),
    {
        proof {
            use_type_invariant(&self);
        }
        let key = match reply {
            PlanReply::Failed { error } => {
                return PlanProgress::Finished { result: Err(error) };
            },
            PlanReply::Key { key } => key,
            PlanReply::Done => self.key,
        };
        let count: usize = self.operations.len();
        let position: usize = self.position + 1;
        if position < count {
            PlanProgress::Continue { run: PlanRun { operations: self.operations, position, key } }
        } else {
            PlanProgress::Finished { result: Ok(()) }
        }
    }
}

/// The plan after a series of replies, as long as each is one that is awaited and none before the
/// last finishes it.
pub open spec fn plan_after_replies<E>(
    operations: Seq<DeviceOperationView>,
    replies: Seq<PlanReplyView<E>>,
) -> Option<PlanProgressView<E>>
    decreases replies.len(),
{
    if replies.len() == 0 {
        Some(plan_start(operations))
    } else {
        match plan_after_replies(operations, replies.drop_last()) {
            Some(PlanProgressView::Continue { run }) => if run.awaits(replies.last()) {
                Some(run.after(replies.last()))
            } else {
                None
            },
            _ => None,
        }
    }
}

/// A plan is carried out in order, one operation after the other: each runs only once all before
/// it have succeeded, the plan succeeds exactly if all of them have, and it fails exactly with the
/// first that does.
pub proof fn plans_end_at_their_first_failure<E>(
    operations: Seq<DeviceOperationView>,
    replies: Seq<PlanReplyView<E>>,
)
    requires
        plan_after_replies(operations, replies) is Some,
    ensures
        replies.len() <= operations.len(),
        forall|i: int| 0 <= i < replies.len() - 1 ==> !(#[trigger] replies[i] is Failed),
        match plan_after_replies(operations, replies)->Some_0 {
            PlanProgressView::Continue { run } => {
                &&& run.operations == operations
                &&& run.position == replies.len()
                &&& run.position < operations.len()
                &&& replies.len() > 0 ==> !(replies.last() is Failed)
            },
            PlanProgressView::Finished { result: Ok(_) } => {
                &&& replies.len() == operations.len()
                &&& replies.len() > 0 ==> !(replies.last() is Failed)
            },
            PlanProgressView::Finished { result: Err(error) } => {
                &&& replies.len() > 0
                &&& replies.last() == (PlanReplyView::Failed { error })
            },
        },
    decreases replies.len(),
{
    if replies.len() > 0 {
        let shorter = replies.drop_last();
        plans_end_at_their_first_failure(operations, shorter);
        assert forall|i: int| 0 <= i < replies.len() - 1 implies !(#[trigger] replies[i] is Failed) by {
            assert(replies[i] == shorter[i]);
        }
    }
}

/// The plans that load a key use it: once the key is there, the one operation that is left runs
/// with that key, and how it ends is how the plan ends. Without the key nothing runs at all.
pub proof fn a_loaded_key_is_used<E>(
    key_id: Seq<char>,
    operation: DeviceOperationView,
    key: Seq<u8>,
    error: E,
)
    ensures
        ({
            let load = DeviceOperationView::LoadKey { key_id };
            let operations = seq![load, operation];
            let loading = PlanRunView { operations, position: 0, key: Seq::empty() };
            let working = PlanRunView { operations, position: 1, key };
            &&& plan_start::<E>(operations) == (PlanProgressView::<E>::Continue { run: loading })
            &&& loading.operation() == load
            &&& loading.after(PlanReplyView::Failed { error }) == (PlanProgressView::Finished {
                result: Err(error),
            })
            &&& loading.after(PlanReplyView::<E>::Key { key }) == (PlanProgressView::<
                E,
            >::Continue { run: working })
            &&& working.operation() == operation
            &&& working.key == key
            &&& working.after(PlanReplyView::<E>::Done) == (PlanProgressView::<E>::Finished {
                result: Ok(()),
            })
            &&& working.after(PlanReplyView::Failed { error }) == (PlanProgressView::Finished {
                result: Err(error),
            })
        }),
{
}

/// What came of reading the first bytes of a device.
#[derive(Debug, Eq, PartialEq)]
pub enum HeaderRead {
    OpenFailed { source: String },
    ReadFailed { source: String },
    Header { header: [u8; 8] },
}

/// What came of reading the first bytes of a device, as mathematics.
pub enum HeaderReadView {
    OpenFailed { source: Seq<char> },
    ReadFailed { source: Seq<char> },
    Header { header: Seq<u8> },
}

impl View for HeaderRead {
    type V = HeaderReadView;

    open spec fn view(&self) -> HeaderReadView {
        match self {
            HeaderRead::OpenFailed { source } => HeaderReadView::OpenFailed { source: source@ },
            HeaderRead::ReadFailed { source } => HeaderReadView::ReadFailed { source: source@ },
            HeaderRead::Header { header } => HeaderReadView::Header { header: header@ },
        }
    }
}

/// Whether the device at a path is encrypted, or why that is not known.
pub open spec fn encryption_answer(path: Seq<u8>, read: HeaderReadView) -> Result<
    bool,
    DeviceErrorView,
> {
    match read {
        HeaderReadView::OpenFailed { source } => Err(DeviceErrorView::OpenDevice { path, source }),
        HeaderReadView::ReadFailed { source } => Err(DeviceErrorView::ReadHeader { path, source }),
        HeaderReadView::Header { header } => Ok(is_luks2_header(header)),
    }
}

/// A LUKS2 header: the magic bytes, then the version, most significant byte first.
pub open spec fn is_luks2_header(header: Seq<u8>) -> bool {
    &&& header.len() == 8
    &&& header.take(6) == LUKS2_MAGIC@
    &&& header[6] * 256 + header[7] == LUKS2_VERSION
}

/// Tells whether the first bytes of a device are a LUKS2 header.
pub fn luks2_header(header: &[u8; 8]) -> (found: bool)
    ensures
        found == is_luks2_header(header@),
{
    let magic = LUKS2_MAGIC;
    let mut i: usize = 0;
    while i < 6
        invariant
            i <= 6,
            magic@ == LUKS2_MAGIC@,
            forall|j: int| 0 <= j < i ==> header@[j] == magic@[j],
        decreases 6 - i,
    {
        if header[i] != magic[i] {
            assert(header@.take(6)[i as int] != magic@[i as int]);
            return false;
        }
        i = i + 1;
    }
    assert(header@.take(6) =~= magic@);
    let version: u16 = header[6] as u16 * 256 + header[7] as u16;
    version == LUKS2_VERSION
}

/// Tells whether a block device is LUKS2 encrypted, from what came of reading its header.
pub fn is_encrypted(path: &[u8], read: HeaderRead) -> (result: Result<bool, DeviceError>)
    ensures
        match result {
            Ok(encrypted) => encryption_answer(path@, read@) == Ok::<bool, DeviceErrorView>(
                encrypted,
            ),
            Err(error) => encryption_answer(path@, read@) == Err::<bool, DeviceErrorView>(error@),
        },
        match read {
            HeaderRead::OpenFailed { source } => result matches Err(error) && error@ == (
            DeviceErrorView::OpenDevice { path: path@, source: source@ }),
            HeaderRead::ReadFailed { source } => result matches Err(error) && error@ == (
            DeviceErrorView::ReadHeader { path: path@, source: source@ }),
            HeaderRead::Header { header } => result == Ok::<bool, DeviceError>(
                is_luks2_header(header@),
            ),
        },
{
    match read {
        HeaderRead::OpenFailed { source } => Err(
            DeviceError::OpenDevice { path: copied(path), source },
        ),
        HeaderRead::ReadFailed { source } => Err(
            DeviceError::ReadHeader { path: copied(path), source },
        ),
        HeaderRead::Header { header } => Ok(luks2_header(&header)),
    }
}

/// What the clearing of a device's stale signatures asks of the system next.
#[derive(Clone, Copy, Debug, Eq, PartialEq, Structural)]
pub enum WipeStep {
    /// Whether the device holds a filesystem.
    ProbeFilesystem,
    /// Clear every signature on the device.
    WipeSignatures,
}

/// Begins the clearing of the device at `path`: the device, and the first step. Nothing is done to
/// a device whose path is not text.
pub fn wipe_start(path: &[u8]) -> (result: Result<(String, WipeStep), DeviceError>)
    ensures
        match result {
            Ok((device, step)) => {
                &&& device_of(path@) == Ok::<Seq<char>, DeviceErrorView>(device@)
                &&& step == WipeStep::ProbeFilesystem
            },
            Err(error) => device_of(path@) == Err::<Seq<char>, DeviceErrorView>(error@),
        },
{
    let device = device(path)?;
    Ok((device, WipeStep::ProbeFilesystem))
}

/// What the system answered.
#[derive(Debug, Eq, PartialEq)]
pub enum WipeReply<E> {
    Filesystem { present: bool },
    Wiped,
    Failed { error: E },
}

/// Where the clearing stands.
#[derive(Debug, Eq, PartialEq)]
pub enum WipeProgress<E> {
    Continue { step: WipeStep },
    Finished { result: Result<(), E> },
}

/// A reply that a step can have.
pub open spec fn wipe_awaits<E>(step: WipeStep, reply: WipeReply<E>) -> bool {
    reply is Failed || match step {
        WipeStep::ProbeFilesystem => reply is Filesystem,
        WipeStep::WipeSignatures => reply is Wiped,
    }
}

/// Where the clearing stands after a reply: a device with a filesystem is left untouched, and so
/// is one of which it is not known.
pub open spec fn wipe_after<E>(reply: WipeReply<E>) -> WipeProgress<E> {
    match reply {
        WipeReply::Failed { error } => WipeProgress::Finished { result: Err(error) },
        WipeReply::Filesystem { present } => if present {
            WipeProgress::Finished { result: Ok(()) }
        } else {
            WipeProgress::Continue { step: WipeStep::WipeSignatures }
        },
        WipeReply::Wiped => WipeProgress::Finished { result: Ok(()) },
    }
}

/// Takes the system's reply to the pending step in the clearing of stale or false-positive
/// signatures from a block device, which is only done when the device does not already contain a
/// real filesystem.
///
/// On a freshly encrypted volume, pseudorandom bytes can match a partition-table signature, and
/// formatting is then refused. Clearing the signature helps, and the filesystem check ensures that
/// a device that already holds data is never wiped, so this is safe to run on every boot.
pub fn wipe_if_unformatted<E>(reply: WipeReply<E>) -> (progress: WipeProgress<E>)
    ensures
        progress == wipe_after(reply),
{
    match reply {
        WipeReply::Failed { error } => WipeProgress::Finished { result: Err(error) },
        WipeReply::Filesystem { present } => if present {
            WipeProgress::Finished { result: Ok(()) }
        } else {
            WipeProgress::Continue { step: WipeStep::WipeSignatures }
        },
        WipeReply::Wiped => WipeProgress::Finished { result: Ok(()) },
    }
}

/// The clearing after a series of replies, as long as each is one that is awaited and none before
/// the last finishes it.
pub open spec fn wipe_after_replies<E>(replies: Seq<WipeReply<E>>) -> Option<WipeProgress<E>>
    decreases replies.len(),
{
    if replies.len() == 0 {
        Some(WipeProgress::Continue { step: WipeStep::ProbeFilesystem })
    } else {
        match wipe_after_replies(replies.drop_last()) {
            Some(WipeProgress::Continue { step }) => if wipe_awaits(step, replies.last()) {
                Some(wipe_after(replies.last()))
            } else {
                None
            },
            _ => None,
        }
    }
}

/// A device is wiped only after a probe that found no filesystem on it, and the clearing ends after
/// two replies at the latest.
pub proof fn data_is_never_wiped<E>(replies: Seq<WipeReply<E>>)
    requires
        wipe_after_replies(replies) is Some,
    ensures
        replies.len() <= 2,
        wipe_after_replies(replies) == Some(
            WipeProgress::<E>::Continue { step: WipeStep::WipeSignatures },
        ) <==> replies == seq![WipeReply::<E>::Filesystem { present: false }],
{
    reveal_with_fuel(wipe_after_replies, 4);
    if wipe_after_replies(replies) == Some(
        WipeProgress::<E>::Continue { step: WipeStep::WipeSignatures },
    ) {
        assert(replies =~= seq![WipeReply::<E>::Filesystem { present: false }]);
    }
}

/// A device is named by its path and a volume by the path's file name, byte for byte.
pub proof fn names_are_kept_byte_for_byte(path: Seq<u8>)
    requires
        volume_of(path) is Ok,
        device_of(path) is Ok,
    ensures
        file_name_of(path) == Some(encode_utf8(volume_of(path)->Ok_0)),
        path == encode_utf8(device_of(path)->Ok_0),
{
    decode_utf8_encode_utf8(path);
    decode_utf8_encode_utf8(file_name_of(path)->Some_0);
}

/// A LUKS2 header is one row of eight bytes and no other.
pub proof fn there_is_one_luks2_header(header: Seq<u8>)
    ensures
        is_luks2_header(header) <==> header == seq![
            0x4cu8,
            0x55u8,
            0x4bu8,
            0x53u8,
            0xbau8,
            0xbeu8,
            0x00u8,
            0x02u8,
        ],
{
    let row = seq![0x4cu8, 0x55u8, 0x4bu8, 0x53u8, 0xbau8, 0xbeu8, 0x00u8, 0x02u8];
    let magic = LUKS2_MAGIC@;
    assert(row.take(6) =~= magic);
    if is_luks2_header(header) {
        assert forall|i: int| 0 <= i < 8 implies header[i] == row[i] by {
            if i < 6 {
                assert(header.take(6)[i] == header[i]);
                assert(row.take(6)[i] == row[i]);
            }
        }
        assert(header =~= row);
    }
}

/// What each reply leads to in the clearing of a device: a failure ends it with that very failure,
/// a filesystem ends it with success, and only its absence leads to the wipe, which ends it.
pub proof fn replies_lead_to_the_right_clearing<E>(reply: WipeReply<E>)
    ensures
        match wipe_after(reply) {
            WipeProgress::Finished { result: Err(error) } => reply == (WipeReply::Failed { error }),
            WipeProgress::Finished { result: Ok(_) } => reply == WipeReply::<E>::Wiped || reply == (
            WipeReply::<E>::Filesystem { present: true }),
            WipeProgress::Continue { step } => {
                &&& step == WipeStep::WipeSignatures
                &&& reply == (WipeReply::<E>::Filesystem { present: false })
            },
        },
{
}

/// A path gives a device exactly if it is text, and a volume exactly if it has a file name that is
/// text; a refusal says which of them is missing, and names the path.
pub proof fn devices_and_volumes_need_text(path: Seq<u8>)
    ensures
        match device_of(path) {
            Ok(device) => encode_utf8(device) == path,
            Err(error) => !valid_utf8(path) && error == (DeviceErrorView::PathNotUtf8 { path }),
        },
        match volume_of(path) {
            Ok(volume) => file_name_of(path) == Some(encode_utf8(volume)),
            Err(DeviceErrorView::NoFilename { path: named }) => {
                &&& file_name_of(path) is None
                &&& named == path
            },
            Err(DeviceErrorView::FilenameNotUtf8 { path: named }) => {
                &&& file_name_of(path) is Some
                &&& !valid_utf8(file_name_of(path)->Some_0)
                &&& named == path
            },
            Err(_) => false,
        },
{
    if valid_utf8(path) {
        decode_utf8_encode_utf8(path);
    }
    if let Some(name) = file_name_of(path) {
        if valid_utf8(name) {
            decode_utf8_encode_utf8(name);
        }
    }
}

/// Every plan is about the device at its path. A plan that has a key loads it first, and the one
/// that was asked for; what follows names the device by the path and the volume by the path's file
/// name, byte for byte. Attaching, resizing and detaching the same path agree on the volume.
pub proof fn plans_are_about_their_path(path: Seq<u8>, key_id: Seq<char>)
    ensures
        encrypt_plan(path, key_id) is Ok <==> valid_utf8(path),
        encrypt_plan(path, key_id) matches Ok(operations) ==> {
            &&& operations.len() == 2
            &&& operations[0] == (DeviceOperationView::LoadKey { key_id })
            &&& operations[1] matches DeviceOperationView::LuksFormat { device } && encode_utf8(
                device,
            ) == path
        },
        attach_plan(path, key_id) is Ok <==> detach_plan(path) is Ok && valid_utf8(path),
        attach_plan(path, key_id) matches Ok(operations) ==> {
            &&& operations.len() == 2
            &&& operations[0] == (DeviceOperationView::LoadKey { key_id })
            &&& operations[1] matches DeviceOperationView::Attach { volume, device } && encode_utf8(
                device,
            ) == path && file_name_of(path) == Some(encode_utf8(volume)) && detach_plan(path) == Ok::<
                Seq<DeviceOperationView>,
                DeviceErrorView,
            >(seq![DeviceOperationView::Detach { volume }])
        },
        detach_plan(path) is Ok <==> file_name_of(path) is Some && valid_utf8(
            file_name_of(path)->Some_0,
        ),
        detach_plan(path) matches Ok(operations) ==> {
            &&& operations.len() == 1
            &&& operations[0] matches DeviceOperationView::Detach { volume } && file_name_of(path)
                == Some(encode_utf8(volume)) && resize_plan(path, key_id) == Ok::<
                Seq<DeviceOperationView>,
                DeviceErrorView,
            >(seq![
                DeviceOperationView::LoadKey { key_id },
                DeviceOperationView::Resize { volume },
            ])
        },
        detach_plan(path) matches Err(error) ==> {
            &&& resize_plan(path, key_id) == Err::<Seq<DeviceOperationView>, DeviceErrorView>(error)
            &&& attach_plan(path, key_id) == Err::<Seq<DeviceOperationView>, DeviceErrorView>(error)
        },
        encrypt_plan(path, key_id) matches Err(error) ==> error == (DeviceErrorView::PathNotUtf8 {
            path,
        }),
        detach_plan(path) is Ok && !valid_utf8(path) ==> attach_plan(path, key_id) == encrypt_plan(
            path,
            key_id,
        ),
{
    devices_and_volumes_need_text(path);
}

/// A device is called encrypted or not exactly if its header was read, and by that header alone;
/// otherwise the answer is the failure that was reported, under the path of the device.
pub proof fn only_a_header_tells_encryption(path: Seq<u8>, other: Seq<u8>, read: HeaderReadView)
    ensures
        match encryption_answer(path, read) {
            Ok(encrypted) => {
                &&& read is Header
                &&& encrypted == is_luks2_header(read->header)
                &&& encryption_answer(other, read) == encryption_answer(path, read)
            },
            Err(DeviceErrorView::OpenDevice { path: named, source }) => {
                &&& read == (HeaderReadView::OpenFailed { source })
                &&& named == path
            },
            Err(DeviceErrorView::ReadHeader { path: named, source }) => {
                &&& read == (HeaderReadView::ReadFailed { source })
                &&& named == path
            },
            Err(_) => false,
        },
{
}

} // verus!
