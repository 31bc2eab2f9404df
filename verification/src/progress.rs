//! Progress of uploads: the stage an upload is in, the record that observers
//! see, the table of records by correlation id, and the decisions of a stream
//! that pushes one upload's record to an observer.

use vstd::prelude::*;
use vstd::string::StringExecFns;
use dashmap::DashMap;

verus! {

/// The stage of one upload. Stages follow one another in the order written,
/// except that `Error` can follow any stage before `Done`.
#[derive(Debug, Clone, Copy, PartialEq, Eq, Structural)]
pub enum Stage {
    Receiving,
    Validating,
    Converting,
    Uploading,
    Done,
    Error,
}

impl Stage {
    /// The place of a stage in the order of stages.
    pub open spec fn rank(self) -> int {
        match self {
            Stage::Receiving => 0,
            Stage::Validating => 1,
            Stage::Converting => 2,
            Stage::Uploading => 3,
            Stage::Done => 4,
            Stage::Error => 5,
        }
    }

    /// The upload has ended, well or badly.
    pub open spec fn is_terminal(self) -> bool {
        self == Stage::Done || self == Stage::Error
    }

    /// An upload in stage `self` may next be seen in stage `next`: it stays,
    /// moves on by one stage, or fails. A terminal stage is never left.
    pub open spec fn may_become(self, next: Stage) -> bool {
        if self.is_terminal() {
            next == self
        } else {
            next == self || next.rank() == self.rank() + 1 || next == Stage::Error
        }
    }

    /// Whether the upload has ended.
    pub fn terminal(&self) -> (r: bool)
        ensures
            r == self.is_terminal(),
    {
        match self {
            Stage::Done => true,
            Stage::Error => true,
            _ => false,
        }
    }
}

/// What observers see of one upload.
#[derive(Debug, Clone)]
pub struct UploadProgress {
    pub stage: Stage,
    pub bytes_received: usize,
    pub total_expected: Option<usize>,
    pub message: Option<String>,
}

/// An `UploadProgress` with its message as a sequence of characters.
pub struct ProgressView {
    pub stage: Stage,
    pub bytes_received: usize,
    pub total_expected: Option<usize>,
    pub message: Option<Seq<char>>,
}

impl View for UploadProgress {
    type V = ProgressView;

    open spec fn view(&self) -> ProgressView {
        ProgressView {
            stage: self.stage,
            bytes_received: self.bytes_received,
            total_expected: self.total_expected,
            message: match self.message {
                Some(m) => Some(m@),
                None => None,
            },
        }
    }
}

impl UploadProgress {
    /// The record of an upload of which nothing has arrived yet.
    pub fn new() -> (r: UploadProgress)
        ensures
            r@ == (ProgressView {
                stage: Stage::Receiving,
                bytes_received: 0,
                total_expected: None,
                message: None,
            }),
    {
        UploadProgress {
            stage: Stage::Receiving,
            bytes_received: 0,
            total_expected: None,
            message: None,
        }
    }

    /// The record of an upload in `stage`, without a message.
    pub fn at_stage(stage: Stage, bytes: usize, total: Option<usize>) -> (r: UploadProgress)
        ensures
            r@ == (ProgressView {
                stage,
                bytes_received: bytes,
                total_expected: total,
                message: None,
            }),
    {
        UploadProgress { stage, bytes_received: bytes, total_expected: total, message: None }
    }

    /// The record of an upload that failed for the reason given. The byte
    /// count and the expected total are given up.
    pub fn failed(reason: &str) -> (r: UploadProgress)
        ensures
            r@ == (ProgressView {
                stage: Stage::Error,
                bytes_received: 0,
                total_expected: None,
                message: Some(reason@),
            }),
    {
        UploadProgress {
            stage: Stage::Error,
            bytes_received: 0,
            total_expected: None,
            message: Some(String::from_str(reason)),
        }
    }

    /// A copy of the record.
    pub fn duplicate(&self) -> (r: UploadProgress)
        ensures
            r == *self,
    {
        UploadProgress {
            stage: self.stage,
            bytes_received: self.bytes_received,
            total_expected: self.total_expected,
            message: match &self.message {
                Some(m) => Some(m.clone()),
                None => None,
            },
        }
    }
}

/// `dashmap::DashMap`, a concurrent hash map, taken as it is: nothing of its
/// inside is known here.
#[verifier::external_type_specification]
#[verifier::external_body]
#[verifier::reject_recursive_types(K)]
#[verifier::reject_recursive_types(V)]
#[verifier::reject_recursive_types(S)]
pub struct ExDashMap<K, V, S>(DashMap<K, V, S>);

/// The records that a table holds, by correlation id.
pub uninterp spec fn records(table: DashMap<u128, UploadProgress>) -> Map<u128, UploadProgress>;

/// `DashMap::new`: a table that holds a record under no id.
#[verifier::external_body]
fn table_new() -> (fresh: DashMap<u128, UploadProgress>)
    ensures
        records(fresh).dom() == Set::<u128>::empty(),
{
    DashMap::new()
}

/// `DashMap::insert`: afterwards the table holds `record` under `id`, in
/// place of what it may have held there, and is otherwise as before.
#[verifier::external_body]
fn table_insert(table: &mut DashMap<u128, UploadProgress>, id: u128, record: UploadProgress)
    ensures
        records(*final(table)) == records(*old(table)).insert(id, record),
{
    table.insert(id, record);
}

/// `DashMap::get`: a copy of the record held under `id`, if there is one.
#[verifier::external_body]
fn table_get(table: &DashMap<u128, UploadProgress>, id: u128) -> (r: Option<UploadProgress>)
    ensures
        r == (if records(*table).dom().contains(id) {
            Some(records(*table)[id])
        } else {
            None
        }),
{
    table.get(&id).map(|entry| entry.value().clone())
}

/// `DashMap::contains_key`: whether a record is held under `id`.
#[verifier::external_body]
fn table_contains(table: &DashMap<u128, UploadProgress>, id: u128) -> (r: bool)
    ensures
        r == records(*table).dom().contains(id),
{
    table.contains_key(&id)
}

/// `DashMap::remove`: afterwards nothing is held under `id`, and the table is
/// otherwise as before.
#[verifier::external_body]
fn table_remove(table: &mut DashMap<u128, UploadProgress>, id: u128)
    ensures
        records(*final(table)) == records(*old(table)).remove(id),
{
    table.remove(&id);
}

/// The table of progress records, one per active correlation id. Writers
/// need exclusive access, so a record read from the table is the one written
/// last under its id.
pub struct ProgressTracker {
    table: DashMap<u128, UploadProgress>,
}

impl View for ProgressTracker {
    type V = Map<u128, UploadProgress>;

    closed spec fn view(&self) -> Map<u128, UploadProgress> {
        records(self.table)
    }
}

impl ProgressTracker {
    /// A table without records.
    pub fn new() -> (r: ProgressTracker)
        ensures
            r@ == Map::<u128, UploadProgress>::empty(),
    {
        let table = table_new();
        assert(records(table) =~= Map::<u128, UploadProgress>::empty());
        ProgressTracker { table }
    }

    /// Put `record` under `id`, replacing the record that may be there.
    pub fn insert(&mut self, id: u128, record: UploadProgress)
        ensures
            final(self)@ == old(self)@.insert(id, record),
    {
        table_insert(&mut self.table, id, record);
    }

    /// Record that the upload `id` has reached `stage`.
    pub fn set_stage(&mut self, id: u128, stage: Stage, bytes: usize, total: Option<usize>)
        ensures
            final(self)@.dom() == old(self)@.dom().insert(id),
            final(self)@[id]@ == (ProgressView {
                stage,
                bytes_received: bytes,
                total_expected: total,
                message: None,
            }),
            forall|other: u128| other != id && old(self)@.dom().contains(other) ==> final(self)@[other]
                == old(self)@[other],
    {
        self.insert(id, UploadProgress::at_stage(stage, bytes, total));
    }

    /// Record that the upload `id` has failed for the reason given.
    pub fn set_error(&mut self, id: u128, reason: &str)
        ensures
            final(self)@.dom() == old(self)@.dom().insert(id),
            final(self)@[id]@ == (ProgressView {
                stage: Stage::Error,
                bytes_received: 0,
                total_expected: None,
                message: Some(reason@),
            }),
            forall|other: u128| other != id && old(self)@.dom().contains(other) ==> final(self)@[other]
                == old(self)@[other],
    {
        self.insert(id, UploadProgress::failed(reason));
    }

    /// Whether a record is held under `id`.
    pub fn contains(&self, id: u128) -> (r: bool)
        ensures
            r == self@.dom().contains(id),
    {
        table_contains(&self.table, id)
    }

    /// A copy of the record held under `id`, if there is one.
    pub fn snapshot(&self, id: u128) -> (r: Option<UploadProgress>)
        ensures
            r == (if self@.dom().contains(id) {
                Some(self@[id])
            } else {
                None
            }),
    {
        table_get(&self.table, id)
    }

    /// Drop the record held under `id`, if there is one.
    pub fn evict(&mut self, id: u128)
        ensures
            final(self)@ == old(self)@.remove(id),
    {
        table_remove(&mut self.table, id);
    }
}

/// Milliseconds between two looks at the table.
pub const POLL_MILLIS: u64 = 300;

/// How often a stream looks for a record that is not there before it gives
/// up.
pub const MAX_POLLS: u32 = 100;

/// Milliseconds for which a stream stays open after the last snapshot.
pub const LINGER_MILLIS: u64 = 5000;

/// Seconds between two keep-alive messages on an idle stream.
pub const KEEP_ALIVE_SECS: u64 = 15;

/// Where a progress stream stands.
#[derive(Debug, Clone, Copy, PartialEq, Eq, Structural)]
pub enum StreamState {
    /// No record has been seen yet; `polls` looks have found none.
    Waiting { polls: u32 },
    /// Snapshots are being pushed.
    Streaming,
    /// The last snapshot has been pushed; the stream is kept open a while.
    Lingering,
    /// The stream has ended.
    Closed,
}

/// What a progress stream does next.
#[derive(Debug)]
pub enum StreamAction {
    /// Wait `POLL_MILLIS`, then look again.
    Pause,
    /// Tell the observer that no such upload was found, and end.
    NotFound,
    /// Push the snapshot, wait `POLL_MILLIS`, then look again.
    Emit { snapshot: UploadProgress },
    /// Push the snapshot, which is the last, wait `LINGER_MILLIS`, then ask
    /// again.
    EmitLast { snapshot: UploadProgress },
    /// Wait `LINGER_MILLIS`, then ask again.
    Linger,
    /// Drop the record from the table and end.
    Evict,
    /// Nothing: the stream has ended.
    End,
}

/// The decision of a progress stream in `state` that looks at the table and
/// finds `observed`.
///
/// While no record is there the stream waits, up to `MAX_POLLS` times, and
/// then reports that nothing was found. Once a record is there, each look
/// pushes it; the first one in a terminal stage is the last. A record that
/// vanishes ends the pushing as well. After lingering the record is dropped.
pub open spec fn stream_next(state: StreamState, observed: Option<UploadProgress>) -> (
    StreamState,
    StreamAction,
) {
    match state {
        StreamState::Closed => (StreamState::Closed, StreamAction::End),
        StreamState::Lingering => (StreamState::Closed, StreamAction::Evict),
        StreamState::Waiting { polls } => match observed {
            None => if polls >= MAX_POLLS {
                (StreamState::Closed, StreamAction::NotFound)
            } else {
                (StreamState::Waiting { polls: (polls + 1) as u32 }, StreamAction::Pause)
            },
            Some(snapshot) => pushed(snapshot),
        },
        StreamState::Streaming => match observed {
            None => (StreamState::Lingering, StreamAction::Linger),
            Some(snapshot) => pushed(snapshot),
        },
    }
}

/// The decision on a record that was found: push it, and go on unless its
/// stage is terminal.
pub open spec fn pushed(snapshot: UploadProgress) -> (StreamState, StreamAction) {
    if snapshot.stage.is_terminal() {
        (StreamState::Lingering, StreamAction::EmitLast { snapshot })
    } else {
        (StreamState::Streaming, StreamAction::Emit { snapshot })
    }
}

/// Decide what a progress stream does next, given what it found in the
/// table.
pub fn stream_step(state: StreamState, observed: Option<UploadProgress>) -> (r: (
    StreamState,
    StreamAction,
))
    ensures
        r == stream_next(state, observed),
{
    match state {
        StreamState::Closed => (StreamState::Closed, StreamAction::End),
        StreamState::Lingering => (StreamState::Closed, StreamAction::Evict),
        StreamState::Waiting { polls } => match observed {
            None => {
                if polls >= MAX_POLLS {
                    (StreamState::Closed, StreamAction::NotFound)
                } else {
                    (StreamState::Waiting { polls: polls + 1 }, StreamAction::Pause)
                }
            },
            Some(snapshot) => push(snapshot),
        },
        StreamState::Streaming => match observed {
            None => (StreamState::Lingering, StreamAction::Linger),
            Some(snapshot) => push(snapshot),
        },
    }
}

/// Decide on a record that was found.
fn push(snapshot: UploadProgress) -> (r: (StreamState, StreamAction))
    ensures
        r == pushed(snapshot),
{
    if snapshot.stage.terminal() {
        (StreamState::Lingering, StreamAction::EmitLast { snapshot })
    } else {
        (StreamState::Streaming, StreamAction::Emit { snapshot })
    }
}

impl ProgressTracker {
    /// Let the stream for upload `id` look at the table and decide. Where the
    /// decision is to drop the record, it is dropped here.
    pub fn poll(&mut self, id: u128, state: StreamState) -> (r: (StreamState, StreamAction))
        ensures
            r == stream_next(
                state,
                if old(self)@.dom().contains(id) {
                    Some(old(self)@[id])
                } else {
                    None
                },
            ),
            final(self)@ == (if state == StreamState::Lingering {
                old(self)@.remove(id)
            } else {
                old(self)@
            }),
    {
        let observed = self.snapshot(id);
        let decision = stream_step(state, observed);
        match state {
            StreamState::Lingering => {
                self.evict(id);
            },
            _ => {},
        }
        decision
    }
}

/// The number of looks that a stream can still take without finding a record
/// before it ends.
pub open spec fn looks_left(state: StreamState) -> int {
    match state {
        StreamState::Waiting { polls } => if polls >= MAX_POLLS {
            1
        } else {
            MAX_POLLS - polls + 1
        },
        StreamState::Streaming => 2,
        StreamState::Lingering => 1,
        StreamState::Closed => 0,
    }
}

/// A stream that finds no record comes closer to its end with every look, so
/// it ends after at most `MAX_POLLS + 1` of them; and once a stream has ended
/// it stays so.
pub proof fn law_stream_without_record_ends(state: StreamState)
    ensures
        looks_left(state) <= MAX_POLLS + 1,
        state != StreamState::Closed ==> looks_left(stream_next(state, None).0) < looks_left(
            state,
        ),
        looks_left(state) == 0 <==> state == StreamState::Closed,
        stream_next(StreamState::Closed, None).0 == StreamState::Closed,
{
}

/// The last snapshot that a stream pushes is in a terminal stage, and every
/// snapshot before it is not.
pub proof fn law_stream_stops_at_terminal(state: StreamState, snapshot: UploadProgress)
    requires
        state is Waiting || state is Streaming,
    ensures
        snapshot.stage.is_terminal() ==> stream_next(state, Some(snapshot)) == (
            StreamState::Lingering,
            StreamAction::EmitLast { snapshot },
        ),
        !snapshot.stage.is_terminal() ==> stream_next(state, Some(snapshot)) == (
            StreamState::Streaming,
            StreamAction::Emit { snapshot },
        ),
{
}

} // verus!
