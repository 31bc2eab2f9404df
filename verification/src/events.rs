//! Lifecycle events: the ones this service publishes about an upload, and
//! the routing of the ones it consumes about published content.

use vstd::prelude::*;
use vstd::string::StringExecFns;
use crate::probe::{Seconds, ValidationResult};
use crate::storage::{extract_prefix, prefix_of};
use crate::text::text_eq;

verus! {

/// Topic on which upload events are published.
pub const MEDIA_TOPIC: &'static str = "media";

/// Topic from which content events are consumed.
pub const PODCAST_TOPIC: &'static str = "podcast";

/// Consumer group of this service.
pub const GROUP_ID: &'static str = "audio-upload-service";

/// Partitions and replicas of each topic that the service makes sure of.
pub const TOPIC_PARTITIONS: i32 = 1;

/// Published when an upload begins.
#[derive(Debug, Clone)]
pub struct MediaStartUploadEvent {
    pub event_type: String,
    pub upload_id: String,
    pub filename: String,
    pub timestamp: String,
}

/// Published when an upload has been stored.
#[derive(Debug, Clone)]
pub struct MediaUploadedEvent {
    pub event_type: String,
    pub upload_id: String,
    pub file_id: String,
    pub filename: String,
    pub format: Option<String>,
    pub codec: Option<String>,
    pub sample_rate: Option<u32>,
    pub channels: Option<u32>,
    pub duration_secs: Option<Seconds>,
    pub bit_rate: Option<u64>,
    pub size_bytes: usize,
    pub hls_path: String,
    pub timestamp: String,
}

/// Published when an upload has failed.
#[derive(Debug, Clone)]
pub struct MediaErrorEvent {
    pub event_type: String,
    pub upload_id: String,
    pub error_message: String,
    pub timestamp: String,
}

/// Consumed: something happened to a piece of published content.
#[derive(Debug, Clone)]
pub struct PodcastEvent {
    pub event_type: String,
    pub podcast_id: String,
    pub hls_path: Option<String>,
    pub title: Option<String>,
    pub timestamp: String,
}

/// A copy of an optional text.
pub fn copy_opt(t: &Option<String>) -> (r: Option<String>)
    ensures
        r == *t,
{
    match t {
        Some(s) => Some(s.clone()),
        None => None,
    }
}

impl MediaStartUploadEvent {
    /// The event for the start of upload `upload_id` of the file `filename`.
    pub fn new(upload_id: &str, filename: &str, timestamp: &str) -> (r: MediaStartUploadEvent)
        ensures
            r.event_type@ == "media.start_upload"@,
            r.upload_id@ == upload_id@,
            r.filename@ == filename@,
            r.timestamp@ == timestamp@,
    {
        MediaStartUploadEvent {
            event_type: String::from_str("media.start_upload"),
            upload_id: String::from_str(upload_id),
            filename: String::from_str(filename),
            timestamp: String::from_str(timestamp),
        }
    }

    /// The key under which the event is published: the upload's id.
    pub fn key(&self) -> (r: &str)
        ensures
            r@ == self.upload_id@,
    {
        self.upload_id.as_str()
    }
}

impl MediaUploadedEvent {
    /// The event for the stored upload `upload_id`: what validation found of
    /// the file, its size, and where its playlist is stored.
    pub fn new(
        upload_id: &str,
        file_id: &str,
        filename: &str,
        found: &ValidationResult,
        size_bytes: usize,
        hls_path: &str,
        timestamp: &str,
    ) -> (r: MediaUploadedEvent)
        ensures
            r.event_type@ == "media.uploaded"@,
            r.upload_id@ == upload_id@,
            r.file_id@ == file_id@,
            r.filename@ == filename@,
            r.format == found.format_name,
            r.codec == found.codec,
            r.sample_rate == found.sample_rate,
            r.channels == found.channels,
            r.duration_secs == found.duration_secs,
            r.bit_rate == found.bit_rate,
            r.size_bytes == size_bytes,
            r.hls_path@ == hls_path@,
            r.timestamp@ == timestamp@,
    {
        MediaUploadedEvent {
            event_type: String::from_str("media.uploaded"),
            upload_id: String::from_str(upload_id),
            file_id: String::from_str(file_id),
            filename: String::from_str(filename),
            format: copy_opt(&found.format_name),
            codec: copy_opt(&found.codec),
            sample_rate: found.sample_rate,
            channels: found.channels,
            duration_secs: found.duration_secs,
            bit_rate: found.bit_rate,
            size_bytes,
            hls_path: String::from_str(hls_path),
            timestamp: String::from_str(timestamp),
        }
    }

    /// The key under which the event is published: the stored file's id.
    pub fn key(&self) -> (r: &str)
        ensures
            r@ == self.file_id@,
    {
        self.file_id.as_str()
    }
}

impl MediaErrorEvent {
    /// The event for the failure of upload `upload_id`.
    pub fn new(upload_id: &str, error_message: &str, timestamp: &str) -> (r: MediaErrorEvent)
        ensures
            r.event_type@ == "media.error"@,
            r.upload_id@ == upload_id@,
            r.error_message@ == error_message@,
            r.timestamp@ == timestamp@,
    {
        MediaErrorEvent {
            event_type: String::from_str("media.error"),
            upload_id: String::from_str(upload_id),
            error_message: String::from_str(error_message),
            timestamp: String::from_str(timestamp),
        }
    }

    /// The key under which the event is published: the upload's id.
    pub fn key(&self) -> (r: &str)
        ensures
            r@ == self.upload_id@,
    {
        self.upload_id.as_str()
    }
}

/// Why a consumed message leads to nothing.
#[derive(Debug, Clone, Copy, PartialEq, Eq, Structural)]
pub enum Skipped {
    /// The transport reported an error in place of a message.
    TransportError,
    /// The message has no payload.
    EmptyPayload,
    /// The payload is not text.
    UndecodablePayload,
    /// The payload is not an event.
    UnparseablePayload,
    /// Content was created.
    Created,
    /// Content was updated.
    Updated,
    /// The event is of no known type.
    UnknownType,
    /// Content was deleted, but the event does not say where it was stored.
    MissingPath,
}

/// What the consumer does about one message. It never ends on a message:
/// only the end of the transport's stream ends it.
#[derive(Debug)]
pub enum ConsumerAction {
    /// Delete the objects stored under `prefix`.
    DeletePackage { prefix: String },
    /// Go on to the next message.
    Skip { why: Skipped },
}

/// One message as the transport delivers it.
#[derive(Debug)]
pub enum Delivery {
    TransportError { reason: String },
    EmptyPayload,
    UndecodablePayload { reason: String },
    UnparseablePayload { reason: String },
    Event { event: PodcastEvent },
}

/// What is to be done about an event, with the prefix as characters: a
/// `deleted` event that says where the content was stored has the objects
/// under that path's prefix deleted; every other event is passed over.
pub open spec fn routed(event: PodcastEvent) -> Result<Seq<char>, Skipped> {
    if event.event_type@ == "deleted"@ {
        match event.hls_path {
            Some(path) => Ok(prefix_of(path@)),
            None => Err(Skipped::MissingPath),
        }
    } else if event.event_type@ == "created"@ {
        Err(Skipped::Created)
    } else if event.event_type@ == "updated"@ {
        Err(Skipped::Updated)
    } else {
        Err(Skipped::UnknownType)
    }
}

/// What is to be done about a delivery, with the prefix as characters.
pub open spec fn handled(delivery: Delivery) -> Result<Seq<char>, Skipped> {
    match delivery {
        Delivery::TransportError { .. } => Err(Skipped::TransportError),
        Delivery::EmptyPayload => Err(Skipped::EmptyPayload),
        Delivery::UndecodablePayload { .. } => Err(Skipped::UndecodablePayload),
        Delivery::UnparseablePayload { .. } => Err(Skipped::UnparseablePayload),
        Delivery::Event { event } => routed(event),
    }
}

impl ConsumerAction {
    /// The action with its prefix as characters.
    pub open spec fn outcome(self) -> Result<Seq<char>, Skipped> {
        match self {
            ConsumerAction::DeletePackage { prefix } => Ok(prefix@),
            ConsumerAction::Skip { why } => Err(why),
        }
    }
}

/// Decide what to do about a consumed event.
pub fn route_event(event: &PodcastEvent) -> (r: ConsumerAction)
    ensures
        r.outcome() == routed(*event),
{
    let kind: &str = event.event_type.as_str();
    if text_eq(kind, "deleted") {
        match &event.hls_path {
            Some(path) => ConsumerAction::DeletePackage { prefix: extract_prefix(path.as_str()) },
            None => ConsumerAction::Skip { why: Skipped::MissingPath },
        }
    } else if text_eq(kind, "created") {
        ConsumerAction::Skip { why: Skipped::Created }
    } else if text_eq(kind, "updated") {
        ConsumerAction::Skip { why: Skipped::Updated }
    } else {
        ConsumerAction::Skip { why: Skipped::UnknownType }
    }
}

/// Decide what to do about a delivery.
pub fn handle_delivery(delivery: &Delivery) -> (r: ConsumerAction)
    ensures
        r.outcome() == handled(*delivery),
{
    match delivery {
        Delivery::TransportError { .. } => ConsumerAction::Skip { why: Skipped::TransportError },
        Delivery::EmptyPayload => ConsumerAction::Skip { why: Skipped::EmptyPayload },
        Delivery::UndecodablePayload { .. } => ConsumerAction::Skip {
            why: Skipped::UndecodablePayload,
        },
        Delivery::UnparseablePayload { .. } => ConsumerAction::Skip {
            why: Skipped::UnparseablePayload,
        },
        Delivery::Event { event } => route_event(event),
    }
}

/// How the making of one topic ended.
#[derive(Debug)]
pub enum TopicOutcome {
    Created,
    AlreadyExists,
    Failed { code: String },
}

impl TopicOutcome {
    /// The topic is there to be used.
    pub open spec fn is_ready(self) -> bool {
        !(self is Failed)
    }
}

/// Whether every topic is ready. A topic that existed already is ready. Where
/// one is not, the position of the first such topic is returned.
pub fn topics_verdict(outcomes: &Vec<TopicOutcome>) -> (r: Result<(), usize>)
    ensures
        match r {
            Ok(_) => forall|i: int| 0 <= i < outcomes@.len() ==> (#[trigger] outcomes@[i]).is_ready(),
            Err(first) => first < outcomes@.len() && !outcomes@[first as int].is_ready() && forall|
                i: int,
            | 0 <= i < first ==> (#[trigger] outcomes@[i]).is_ready(),
        },
{
    let mut i: usize = 0;
    while i < outcomes.len()
        invariant
            i <= outcomes@.len(),
            forall|k: int| 0 <= k < i ==> (#[trigger] outcomes@[k]).is_ready(),
        decreases outcomes@.len() - i,
    {
        match &outcomes[i] {
            TopicOutcome::Failed { .. } => {
                return Err(i);
            },
            _ => {},
        }
        i += 1;
    }
    Ok(())
}

/// An event about one upload, as it is published.
#[derive(Debug)]
pub enum LifecycleEvent {
    Started { start: MediaStartUploadEvent },
    Uploaded { uploaded: MediaUploadedEvent },
    Failed { error: MediaErrorEvent },
}

impl LifecycleEvent {
    /// The key under which the event is published.
    pub fn key(&self) -> (r: &str)
        ensures
            r@ == (match self {
                LifecycleEvent::Started { start } => start.upload_id@,
                LifecycleEvent::Uploaded { uploaded } => uploaded.file_id@,
                LifecycleEvent::Failed { error } => error.upload_id@,
            }),
    {
        match self {
            LifecycleEvent::Started { start } => start.key(),
            LifecycleEvent::Uploaded { uploaded } => uploaded.key(),
            LifecycleEvent::Failed { error } => error.key(),
        }
    }
}

} // verus!
