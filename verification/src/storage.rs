//! The storage gateway's key layout and its composite operations: uploading
//! a staging package under a key prefix, and deleting by prefix the objects
//! that an upload left.

use vstd::prelude::*;
use vstd::string::StringExecFns;
use vstd::string::StrSliceExecFns;
use crate::text::{
    ends_with,
    find_last,
    has_prefix,
    has_suffix,
    last_index_of,
    lemma_last_index_of,
    padded,
    padded_decimal,
    starts_with,
};
use crate::hls::{HlsOutput, joined};

verus! {

/// The bucket that holds every package.
pub const HLS_BUCKET: &'static str = "audio-hls";

/// The bucket's name and the separator behind it, as a stored path begins.
pub const BUCKET_PREFIX: &'static str = "audio-hls/";

/// Object name of a package's playlist.
pub const PLAYLIST_OBJECT: &'static str = "playlist.m3u8";

/// Object name of a package's initialization segment.
pub const INIT_OBJECT: &'static str = "init.mp4";

/// Digits in a segment's number.
pub const SEGMENT_DIGITS: usize = 5;

/// The key of the artifact `name` under `prefix`: the name alone where the
/// prefix is empty, otherwise prefix, separator and name.
pub open spec fn key_under(prefix: Seq<char>, name: Seq<char>) -> Seq<char> {
    if prefix.len() == 0 {
        name
    } else {
        joined(prefix, name)
    }
}

/// The key under which the artifact `name` is stored for `prefix`.
pub fn object_key(prefix: &str, name: &str) -> (r: String)
    ensures
        r@ == key_under(prefix@, name@),
{
    if prefix.unicode_len() == 0 {
        String::from_str(name)
    } else {
        crate::hls::join(prefix, name)
    }
}

/// The key prefix of one upload: the file's stem and the upload's unique id.
pub fn upload_prefix(stem: &str, unique: &str) -> (r: String)
    ensures
        r@ == joined(stem@, unique@),
{
    crate::hls::join(stem, unique)
}

/// The stored path of the playlist of the package under `prefix`: bucket,
/// prefix and playlist name.
pub open spec fn stored_path(prefix: Seq<char>) -> Seq<char> {
    BUCKET_PREFIX@ + prefix + "/"@ + PLAYLIST_OBJECT@
}

/// The path by which the playlist of the package under `prefix` is known to
/// other services.
pub fn hls_path(prefix: &str) -> (r: String)
    ensures
        r@ == stored_path(prefix@),
{
    let mut path = String::from_str(BUCKET_PREFIX);
    path.append(prefix);
    path.append("/");
    path.append(PLAYLIST_OBJECT);
    path
}

/// A stored path without the bucket it may begin with.
pub open spec fn without_bucket(path: Seq<char>) -> Seq<char> {
    if has_prefix(path, BUCKET_PREFIX@) {
        path.subrange(BUCKET_PREFIX@.len() as int, path.len() as int)
    } else {
        path
    }
}

/// The key prefix that a stored path stands for: the path without the bucket
/// it may begin with and without its last component. A path of one component
/// is its own prefix.
pub open spec fn prefix_of(path: Seq<char>) -> Seq<char> {
    let rest = without_bucket(path);
    let cut = last_index_of(rest, '/');
    if cut >= 0 {
        rest.subrange(0, cut)
    } else {
        rest
    }
}

/// Derive the key prefix from the stored path of a playlist.
pub fn extract_prefix(hls_path: &str) -> (r: String)
    ensures
        r@ == prefix_of(hls_path@),
{
    let n: usize = hls_path.unicode_len();
    let rest: &str = if starts_with(hls_path, BUCKET_PREFIX) {
        hls_path.substring_char(BUCKET_PREFIX.unicode_len(), n)
    } else {
        hls_path
    };
    match find_last(rest, '/') {
        Some(cut) => String::from_str(rest.substring_char(0, cut)),
        None => String::from_str(rest),
    }
}

/// The prefix derived from the stored path of an upload is the prefix that
/// the upload stored its package under.
pub proof fn law_prefix_round_trip(prefix: Seq<char>)
    ensures
        prefix_of(stored_path(prefix)) == prefix,
{
    reveal_strlit("audio-hls/");
    reveal_strlit("/");
    reveal_strlit("playlist.m3u8");
    let path = stored_path(prefix);
    let bucket = BUCKET_PREFIX@;
    assert(path.subrange(0, bucket.len() as int) =~= bucket);
    let rest = without_bucket(path);
    assert(rest =~= prefix + "/"@ + PLAYLIST_OBJECT@);
    let cut = prefix.len() as int;
    assert(rest[cut] == '/');
    assert forall|k: int| cut < k < rest.len() implies rest[k] != '/' by {
        assert(rest[k] == PLAYLIST_OBJECT@[k - cut - 1]);
    }
    lemma_last_index_of(rest, '/', cut);
    assert(rest.subrange(0, cut) =~= prefix);
}

/// The key of the playlist under `prefix`.
pub fn playlist_key(prefix: &str) -> (r: String)
    ensures
        r@ == joined(prefix@, PLAYLIST_OBJECT@),
{
    crate::hls::join(prefix, PLAYLIST_OBJECT)
}

/// The key of the initialization segment under `prefix`.
pub fn init_key(prefix: &str) -> (r: String)
    ensures
        r@ == joined(prefix@, INIT_OBJECT@),
{
    crate::hls::join(prefix, INIT_OBJECT)
}

/// The key of the media segment numbered `index` under `prefix`: the number
/// is written with at least `SEGMENT_DIGITS` digits.
pub open spec fn segment_key_text(prefix: Seq<char>, index: u64) -> Seq<char> {
    prefix + "/seg_"@ + padded_decimal(index as nat, SEGMENT_DIGITS as nat) + ".m4s"@
}

/// The key of the media segment numbered `index` under `prefix`.
pub fn segment_key(prefix: &str, index: u64) -> (r: String)
    ensures
        r@ == segment_key_text(prefix@, index),
{
    let mut key = String::from_str(prefix);
    key.append("/seg_");
    let number = padded(index, SEGMENT_DIGITS);
    key.append(number.as_str());
    key.append(".m4s");
    key
}

/// The content type under which an object is served, by the ending of its
/// key.
pub open spec fn content_type_of(key: Seq<char>) -> Seq<char> {
    if has_suffix(key, ".m3u8"@) {
        "application/vnd.apple.mpegurl"@
    } else if has_suffix(key, ".m4s"@) {
        "video/iso.segment"@
    } else if has_suffix(key, ".mp4"@) {
        "video/mp4"@
    } else {
        "application/octet-stream"@
    }
}

/// Guess the content type of an object from the ending of its key.
pub fn guess_content_type(key: &str) -> (r: &'static str)
    ensures
        r@ == content_type_of(key@),
{
    if ends_with(key, ".m3u8") {
        "application/vnd.apple.mpegurl"
    } else if ends_with(key, ".m4s") {
        "video/iso.segment"
    } else if ends_with(key, ".mp4") {
        "video/mp4"
    } else {
        "application/octet-stream"
    }
}

/// Where the deletion of one package stands: which object is to be deleted
/// next.
#[derive(Debug, Clone, Copy, PartialEq, Eq, Structural)]
pub enum DeletionStep {
    Playlist,
    Init,
    Segment { index: u64 },
    Finished,
}

/// The step that follows `step`, given whether the object of `step` was
/// deleted. The playlist and the initialization segment are each tried once,
/// whatever comes of it. Segments are tried in the order of their numbers,
/// from zero, and the first that cannot be deleted ends the deletion.
pub open spec fn after_deletion(step: DeletionStep, deleted: bool) -> DeletionStep {
    match step {
        DeletionStep::Playlist => DeletionStep::Init,
        DeletionStep::Init => DeletionStep::Segment { index: 0 },
        DeletionStep::Segment { index } => if deleted && index < u64::MAX {
            DeletionStep::Segment { index: (index + 1) as u64 }
        } else {
            DeletionStep::Finished
        },
        DeletionStep::Finished => DeletionStep::Finished,
    }
}

/// Decide which object is deleted next.
pub fn next_deletion(step: DeletionStep, deleted: bool) -> (r: DeletionStep)
    ensures
        r == after_deletion(step, deleted),
{
    match step {
        DeletionStep::Playlist => DeletionStep::Init,
        DeletionStep::Init => DeletionStep::Segment { index: 0 },
        DeletionStep::Segment { index } => {
            if deleted && index < u64::MAX {
                DeletionStep::Segment { index: index + 1 }
            } else {
                DeletionStep::Finished
            }
        },
        DeletionStep::Finished => DeletionStep::Finished,
    }
}

/// The key of the object that `step` deletes under `prefix`, if it deletes
/// one.
pub open spec fn deletion_target(prefix: Seq<char>, step: DeletionStep) -> Option<Seq<char>> {
    match step {
        DeletionStep::Playlist => Some(joined(prefix, PLAYLIST_OBJECT@)),
        DeletionStep::Init => Some(joined(prefix, INIT_OBJECT@)),
        DeletionStep::Segment { index } => Some(segment_key_text(prefix, index)),
        DeletionStep::Finished => None,
    }
}

/// The key of the object to delete at `step`, if there is one.
pub fn deletion_key(prefix: &str, step: DeletionStep) -> (r: Option<String>)
    ensures
        match r {
            Some(key) => deletion_target(prefix@, step) == Some(key@),
            None => deletion_target(prefix@, step).is_none(),
        },
{
    match step {
        DeletionStep::Playlist => Some(playlist_key(prefix)),
        DeletionStep::Init => Some(init_key(prefix)),
        DeletionStep::Segment { index } => Some(segment_key(prefix, index)),
        DeletionStep::Finished => None,
    }
}

/// Where a deletion stands after `attempts` tries that began at `step`,
/// against a store in which the segment numbered `i` can be deleted exactly
/// if `present.contains(i)`.
pub open spec fn sweep(step: DeletionStep, present: Set<u64>, attempts: nat)
    -> DeletionStep
    decreases attempts,
{
    if attempts == 0 {
        step
    } else {
        let deleted = match step {
            DeletionStep::Segment { index } => present.contains(index),
            _ => true,
        };
        sweep(after_deletion(step, deleted), present, (attempts - 1) as nat)
    }
}

/// Deletion stops exactly at the first gap: where the segments below `gap`
/// are there and the one numbered `gap` is not, the segments are tried in
/// order up to `gap`, and the try at `gap` ends the deletion, whatever lies
/// beyond it.
pub proof fn law_deletion_stops_at_first_gap(present: Set<u64>, gap: u64, from: u64)
    requires
        from <= gap,
        forall|i: u64| from <= i < gap ==> present.contains(i),
        !present.contains(gap),
    ensures
        forall|k: nat|
            k <= gap - from ==> #[trigger] sweep(DeletionStep::Segment { index: from }, present, k)
                == (DeletionStep::Segment { index: (from + k) as u64 }),
        sweep(DeletionStep::Segment { index: from }, present, (gap - from + 1) as nat)
            == DeletionStep::Finished,
    decreases gap - from,
{
    let start = DeletionStep::Segment { index: from };
    if from < gap {
        let next = (from + 1) as u64;
        law_deletion_stops_at_first_gap(present, gap, next);
        assert(after_deletion(start, present.contains(from)) == DeletionStep::Segment { index: next });
        assert forall|k: nat| k <= gap - from implies #[trigger] sweep(start, present, k) == (
            DeletionStep::Segment { index: (from + k) as u64 }
        ) by {
            if k > 0 {
                assert(sweep(start, present, k) == sweep(
                    DeletionStep::Segment { index: next },
                    present,
                    (k - 1) as nat,
                ));
            }
        }
        assert(sweep(start, present, (gap - from + 1) as nat) == sweep(
            DeletionStep::Segment { index: next },
            present,
            (gap - next + 1) as nat,
        ));
    } else {
        assert(after_deletion(start, present.contains(from)) == DeletionStep::Finished);
        assert(sweep(DeletionStep::Finished, present, 0) == DeletionStep::Finished);
        assert(sweep(start, present, 1) == sweep(DeletionStep::Finished, present, 0));
    }
}

/// What an object store must be able to do. Nothing is promised of an
/// implementation: the composite operations below are proved for whatever
/// its methods return.
pub trait StorageBackend {
    /// A name for the store, for diagnostics.
    fn name(&self) -> String;

    /// Make sure that `bucket` exists; that it exists already is a success.
    fn ensure_bucket(&self, bucket: &str) -> Result<(), String>;

    /// Store the local file at `local_path` as `bucket`/`object_key`.
    fn upload_file(&self, local_path: &str, bucket: &str, object_key: &str) -> Result<(), String>;

    /// Fetch all bytes of the object `bucket`/`object_key`.
    fn get_object(&self, bucket: &str, object_key: &str) -> Result<Vec<u8>, String>;

    /// Delete the object `bucket`/`object_key`.
    fn delete_object(&self, bucket: &str, object_key: &str) -> Result<(), String>;
}

/// The artifact whose upload failed, and why.
#[derive(Debug)]
pub struct UploadFailure {
    /// Position of the artifact among the names given.
    pub index: usize,
    /// The key it was to be stored under.
    pub key: String,
    /// What the store reported.
    pub reason: String,
}

/// What the store's answer to the upload of the artifact at `index` means:
/// nothing where the upload was done, and otherwise the failure of that
/// artifact, with the key it was to be stored under and the store's reason.
pub fn judge_upload(index: usize, key: String, answer: Result<(), String>) -> (r: Option<
    UploadFailure,
>)
    ensures
        match answer {
            Ok(_) => r.is_none(),
            Err(reason) => r == Some(UploadFailure { index, key, reason }),
        },
{
    match answer {
        Ok(_) => None,
        Err(reason) => Some(UploadFailure { index, key, reason }),
    }
}

/// Upload every artifact of a staging package under `prefix`, in the order
/// of `names`, each from its place in the package to the key
/// `key_under(prefix, name)`. The first upload that the store turns down ends
/// the operation, and what was stored before it stays stored. A package
/// without artifacts is uploaded by doing nothing.
pub fn upload_hls_output<S: StorageBackend>(
    storage: &S,
    hls: &HlsOutput,
    names: &Vec<String>,
    bucket: &str,
    prefix: &str,
) -> (r: Result<usize, UploadFailure>)
    ensures
        names@.len() == 0 ==> r is Ok,
        match r {
            Ok(count) => count == names@.len(),
            Err(failure) => failure.index < names@.len() && failure.key@ == key_under(
                prefix@,
                names@[failure.index as int]@,
            ),
        },
{
    let mut i: usize = 0;
    while i < names.len()
        invariant
            i <= names@.len(),
        decreases names@.len() - i,
    {
        let name: &str = names[i].as_str();
        let key = object_key(prefix, name);
        let path = hls.artifact_path(name);
        let answer = storage.upload_file(path.as_str(), bucket, key.as_str());
        match judge_upload(i, key, answer) {
            Some(failure) => {
                return Err(failure);
            },
            None => {},
        }
        i += 1;
    }
    Ok(i)
}

/// One try to delete an object.
#[derive(Debug)]
pub struct DeletionAttempt {
    /// The key of the object.
    pub key: String,
    /// Whether the store deleted it.
    pub deleted: bool,
}

/// The part of the deletion that is still ahead, as a number that every step
/// lowers.
pub open spec fn deletion_remaining(step: DeletionStep) -> int {
    match step {
        DeletionStep::Playlist => u64::MAX + 3,
        DeletionStep::Init => u64::MAX + 2,
        DeletionStep::Segment { index } => u64::MAX - index + 1,
        DeletionStep::Finished => 0,
    }
}

/// The step at which the try numbered `k` of a deletion is made.
pub open spec fn step_of_attempt(k: int) -> DeletionStep {
    if k == 0 {
        DeletionStep::Playlist
    } else if k == 1 {
        DeletionStep::Init
    } else {
        DeletionStep::Segment { index: (k - 2) as u64 }
    }
}

/// `attempts` is the record of a whole deletion under `prefix`: the playlist
/// first, the initialization segment second, then the segments in the order
/// of their numbers, each tried only after the one before it was deleted, and
/// none after the first that was not.
pub open spec fn is_deletion_record(prefix: Seq<char>, attempts: Seq<DeletionAttempt>) -> bool {
    &&& 3 <= attempts.len() <= u64::MAX + 3
    &&& forall|k: int|
        0 <= k < attempts.len() ==> deletion_target(prefix, step_of_attempt(k)) == Some(
            (#[trigger] attempts[k]).key@,
        )
    &&& forall|k: int| 2 <= k < attempts.len() - 1 ==> (#[trigger] attempts[k]).deleted
    &&& !attempts.last().deleted || attempts.len() == u64::MAX + 3
}

/// Delete the objects of the package stored under `prefix`: the playlist,
/// the initialization segment, and the media segments in the order of their
/// numbers up to the first one that the store does not delete. A failure to
/// delete ends the run of segments and is otherwise passed over. Every try is
/// reported, in order.
pub fn delete_hls_objects<S: StorageBackend>(storage: &S, prefix: &str) -> (r: Vec<
    DeletionAttempt,
>)
    ensures
        is_deletion_record(prefix@, r@),
{
    let mut attempts: Vec<DeletionAttempt> = Vec::new();
    let mut step = DeletionStep::Playlist;
    loop
        invariant
            attempts@.len() <= u64::MAX + 3,
            step == DeletionStep::Playlist ==> attempts@.len() == 0,
            step == DeletionStep::Init ==> attempts@.len() == 1,
            step matches DeletionStep::Segment { index } ==> attempts@.len() == index + 2,
            step == DeletionStep::Finished ==> attempts@.len() >= 3 && (!attempts@.last().deleted
                || attempts@.len() == u64::MAX + 3),
            forall|k: int|
                0 <= k < attempts@.len() ==> deletion_target(prefix@, step_of_attempt(k)) == Some(
                    (#[trigger] attempts@[k]).key@,
                ),
            forall|k: int|
                2 <= k < attempts@.len() && (k < attempts@.len() - 1 || step
                    != DeletionStep::Finished) ==> (#[trigger] attempts@[k]).deleted,
        ensures
            step == DeletionStep::Finished,
        decreases deletion_remaining(step),
    {
        let key = match deletion_key(prefix, step) {
            Some(key) => key,
            None => {
                break ;
            },
        };
        let deleted: bool = storage.delete_object(HLS_BUCKET, key.as_str()).is_ok();
        attempts.push(DeletionAttempt { key, deleted });
        step = next_deletion(step, deleted);
    }
    attempts
}

/// What the store answers where a bucket that is to be made is there
/// already.
pub const BUCKET_EXISTS_CODE: &'static str = "BucketAlreadyOwnedByYou";

/// What the store answers where a bucket that is to be removed is not there.
pub const BUCKET_MISSING_CODE: &'static str = "NoSuchBucket";

/// Whether the bucket is there after an attempt to make it that the store
/// turned down with `code`: it is exactly if the store says that the bucket
/// exists already.
pub fn bucket_is_there(code: Option<&str>) -> (r: bool)
    ensures
        r == (code matches Some(c) && c@ == BUCKET_EXISTS_CODE@),
{
    match code {
        Some(c) => crate::text::text_eq(c, BUCKET_EXISTS_CODE),
        None => false,
    }
}

/// Whether the bucket is gone after an attempt to remove it that the store
/// turned down with `code`: it is exactly if the store says that there is no
/// such bucket.
pub fn bucket_is_gone(code: Option<&str>) -> (r: bool)
    ensures
        r == (code matches Some(c) && c@ == BUCKET_MISSING_CODE@),
{
    match code {
        Some(c) => crate::text::text_eq(c, BUCKET_MISSING_CODE),
        None => false,
    }
}

/// The name that the encoder gives the media segment numbered `index`.
pub open spec fn segment_name(index: u64) -> Seq<char> {
    "seg_"@ + padded_decimal(index as nat, SEGMENT_DIGITS as nat) + ".m4s"@
}

/// Deletion looks for the objects where the upload put them: under a prefix
/// that is not empty, the keys that deletion tries are the keys under which
/// the playlist, the initialization segment and each media segment were
/// stored.
pub proof fn law_deletion_targets_what_upload_stores(prefix: Seq<char>, index: u64)
    requires
        prefix.len() > 0,
    ensures
        deletion_target(prefix, DeletionStep::Playlist) == Some(
            key_under(prefix, PLAYLIST_OBJECT@),
        ),
        deletion_target(prefix, DeletionStep::Init) == Some(key_under(prefix, INIT_OBJECT@)),
        deletion_target(prefix, DeletionStep::Segment { index }) == Some(
            key_under(prefix, segment_name(index)),
        ),
{
    reveal_strlit("/seg_");
    reveal_strlit("/");
    reveal_strlit("seg_");
    let number = padded_decimal(index as nat, SEGMENT_DIGITS as nat);
    assert("/seg_"@ =~= "/"@ + "seg_"@);
    assert(prefix + "/seg_"@ + number + ".m4s"@ =~= prefix + "/"@ + ("seg_"@ + number + ".m4s"@));
}

} // verus!
