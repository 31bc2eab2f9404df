//! The session of one upload as a state machine: its phases, the events
//! that advance it, the actions it asks for, and the transition that ties
//! them together.

use vstd::prelude::*;
use crate::hls::TranscodeError;
use crate::probe::{DecodeError, ProbeError, ValidationResult};
use crate::progress::{ProgressView, Stage, UploadProgress};
use crate::storage::stored_path;
use crate::upload::response::{
    chars_of,
    rejection,
    success_text,
    too_large_text,
    ResponseView,
    UploadResponse,
    MAX_FILE_SIZE,
    STATUS_BAD_REQUEST,
    STATUS_INTERNAL_ERROR,
    STATUS_OK,
    STATUS_PAYLOAD_TOO_LARGE,
    STATUS_UNPROCESSABLE,
    STATUS_UNSUPPORTED_MEDIA_TYPE,
};
use crate::validation::{
    compatible,
    mismatch_text,
    sniffed_format,
    too_short_text,
    unknown_format_text,
    MAGIC_LEN,
};

verus! {

/// Where a session stands in the pipeline.
#[derive(Debug, Clone, Copy, PartialEq, Eq, Structural)]
pub enum Phase {
    /// The body is being read, chunk by chunk.
    Receiving,
    /// The body has ended; the staging file is being flushed.
    Flushing,
    /// The probing tool is at work.
    Probing,
    /// The decode pass is at work.
    Decoding,
    /// The encoder is at work.
    Converting,
    /// The package is being stored.
    Uploading,
    /// The answer has been given.
    Finished,
}

impl Phase {
    /// The stage that observers see while a session is in this phase. A
    /// finished session is in `Done` or in `Error`, which the phase alone
    /// does not tell.
    pub open spec fn stage(self) -> Stage {
        match self {
            Phase::Receiving => Stage::Receiving,
            Phase::Flushing => Stage::Receiving,
            Phase::Probing => Stage::Validating,
            Phase::Decoding => Stage::Validating,
            Phase::Converting => Stage::Converting,
            Phase::Uploading => Stage::Uploading,
            Phase::Finished => Stage::Done,
        }
    }
}

/// Why the package could not be stored.
#[derive(Debug)]
pub enum StoreError {
    /// The bucket could not be made sure of.
    Bucket { reason: String },
    /// An artifact could not be uploaded.
    Upload { reason: String },
}

/// What the surrounding service observed.
#[derive(Debug)]
#[allow(inconsistent_fields)]
pub enum UploadEvent {
    /// The next chunk of the body.
    Chunk { data: Vec<u8> },
    /// The body could not be read further.
    ReadFailed { reason: String },
    /// The last chunk could not be written to the staging file.
    WriteFailed { reason: String },
    /// The body has ended.
    EndOfStream,
    /// The staging file has been flushed.
    Flushed,
    /// The staging file could not be flushed.
    FlushFailed { reason: String },
    /// The probing tool has ended.
    Probed { outcome: Result<ValidationResult, ProbeError> },
    /// The decode pass has ended.
    DecodeChecked { outcome: Result<(), DecodeError> },
    /// The encoder has ended.
    Transcoded { outcome: Result<(), TranscodeError> },
    /// The storing of the package has ended.
    Stored { outcome: Result<(), StoreError> },
    /// The external step that was under way could not be run to its end.
    TaskFailed { reason: String },
}

/// What the surrounding service is to do next. `Respond` is the last action
/// of every session: with it the staging file and the staging package are to
/// be removed.
#[derive(Debug)]
pub enum UploadAction {
    /// Write the chunk to the staging file and read on.
    WriteChunk { data: Vec<u8> },
    /// Flush the staging file.
    Flush,
    /// Run the probing tool on the staging file.
    Probe,
    /// Run the decode pass on the staging file.
    DecodeCheck,
    /// Run the encoder on the staging file.
    Transcode,
    /// Store the package under `prefix`.
    Store { prefix: String },
    /// Answer the request.
    Respond { status: u16, response: UploadResponse },
    /// Nothing: the session has been answered.
    Nothing,
}

/// An `UploadAction` with its contents as sequences.
pub enum ActionView {
    WriteChunk { data: Seq<u8> },
    Flush,
    Probe,
    DecodeCheck,
    Transcode,
    Store { prefix: Seq<char> },
    Respond { status: u16, response: ResponseView },
    Nothing,
}

impl View for UploadAction {
    type V = ActionView;

    open spec fn view(&self) -> ActionView {
        match self {
            UploadAction::WriteChunk { data } => ActionView::WriteChunk { data: data@ },
            UploadAction::Flush => ActionView::Flush,
            UploadAction::Probe => ActionView::Probe,
            UploadAction::DecodeCheck => ActionView::DecodeCheck,
            UploadAction::Transcode => ActionView::Transcode,
            UploadAction::Store { prefix } => ActionView::Store { prefix: prefix@ },
            UploadAction::Respond { status, response } => ActionView::Respond {
                status: *status,
                response: response@,
            },
            UploadAction::Nothing => ActionView::Nothing,
        }
    }
}

/// One upload on its way through the pipeline.
#[derive(Debug)]
pub struct UploadSession {
    /// The correlation id.
    pub upload_id: u128,
    /// The correlation id as it is written.
    pub id_text: String,
    /// The name that the file was sent under.
    pub filename: String,
    /// The accepted extension of that name, in lower case.
    pub extension: String,
    /// The key prefix under which the package will be stored.
    pub prefix: String,
    pub phase: Phase,
    /// Bytes of the body received so far.
    pub total_bytes: usize,
    /// Size of the body as announced, if it was.
    pub total_expected: Option<usize>,
    /// The leading bytes have been held against the signatures.
    pub magic_checked: bool,
    /// The leading bytes, kept until they suffice to be checked.
    pub head: Vec<u8>,
    /// What the probing tool found, once it has.
    pub found: Option<ValidationResult>,
    /// The record that observers see.
    pub progress: UploadProgress,
}

/// An `UploadSession` with its contents as sequences.
pub struct SessionView {
    pub upload_id: u128,
    pub id_text: Seq<char>,
    pub filename: Seq<char>,
    pub extension: Seq<char>,
    pub prefix: Seq<char>,
    pub phase: Phase,
    pub total_bytes: usize,
    pub total_expected: Option<usize>,
    pub magic_checked: bool,
    pub head: Seq<u8>,
    pub found: Option<ValidationResult>,
    pub progress: ProgressView,
}

impl View for UploadSession {
    type V = SessionView;

    open spec fn view(&self) -> SessionView {
        SessionView {
            upload_id: self.upload_id,
            id_text: self.id_text@,
            filename: self.filename@,
            extension: self.extension@,
            prefix: self.prefix@,
            phase: self.phase,
            total_bytes: self.total_bytes,
            total_expected: self.total_expected,
            magic_checked: self.magic_checked,
            head: self.head@,
            found: self.found,
            progress: self.progress@,
        }
    }
}

impl SessionView {
    /// The session is one that the controller can have brought about: within
    /// the size limit, with leading bytes kept only while they are needed,
    /// and with a record that shows the stage of its phase and the bytes
    /// received.
    pub open spec fn wf(self) -> bool {
        if self.phase == Phase::Finished {
            self.progress.stage.is_terminal()
        } else {
            &&& self.total_bytes <= MAX_FILE_SIZE
            &&& self.magic_checked ==> self.head.len() == 0
            &&& !self.magic_checked ==> self.head.len() < MAGIC_LEN
            &&& self.progress.stage == self.phase.stage()
            &&& self.progress.bytes_received == self.total_bytes
            &&& self.progress.total_expected == self.total_expected
        }
    }
}

/// The first `MAGIC_LEN` bytes of a sequence; all of it where it is no
/// longer.
pub open spec fn leading(bytes: Seq<u8>) -> Seq<u8> {
    if bytes.len() > MAGIC_LEN {
        bytes.subrange(0, MAGIC_LEN as int)
    } else {
        bytes
    }
}

/// The session ends in failure: the record shows `Error` with `note`, and
/// the request is answered with `status` and `error`.
pub open spec fn failure(s: SessionView, status: u16, note: Seq<char>, error: Seq<char>) -> (
    SessionView,
    ActionView,
) {
    (
        SessionView {
            phase: Phase::Finished,
            head: Seq::empty(),
            progress: ProgressView {
                stage: Stage::Error,
                bytes_received: 0,
                total_expected: None,
                message: Some(note),
            },
            ..s
        },
        ActionView::Respond { status, response: rejection(error) },
    )
}

/// The session moves on to `phase`, its record shows the stage of that
/// phase, and `action` is to be done.
pub open spec fn proceed(s: SessionView, phase: Phase, action: ActionView) -> (
    SessionView,
    ActionView,
) {
    (
        SessionView {
            phase,
            progress: ProgressView {
                stage: phase.stage(),
                bytes_received: s.total_bytes,
                total_expected: s.total_expected,
                message: None,
            },
            ..s
        },
        action,
    )
}

/// The session has taken in a chunk and goes on receiving.
pub open spec fn received(
    s: SessionView,
    total: usize,
    magic_checked: bool,
    head: Seq<u8>,
    data: Seq<u8>,
) -> (SessionView, ActionView) {
    (
        SessionView {
            total_bytes: total,
            magic_checked,
            head,
            progress: ProgressView {
                stage: Stage::Receiving,
                bytes_received: total,
                total_expected: s.total_expected,
                message: None,
            },
            ..s
        },
        ActionView::WriteChunk { data },
    )
}

/// The sum of two sizes, or the greatest size where the sum is beyond it.
pub open spec fn capped_sum(a: usize, b: nat) -> usize {
    if a + b > usize::MAX {
        usize::MAX
    } else {
        (a + b) as usize
    }
}

/// What a chunk does to a receiving session. The size limit is enforced
/// first. Then, until the leading bytes have been checked, the chunk's bytes
/// are added to them, and as soon as `MAGIC_LEN` of them are there they are
/// held against the signatures and against the declared extension.
pub open spec fn on_chunk(s: SessionView, data: Seq<u8>) -> (SessionView, ActionView) {
    let total = capped_sum(s.total_bytes, data.len());
    if total > MAX_FILE_SIZE {
        failure(s, STATUS_PAYLOAD_TOO_LARGE, too_large_text(total), too_large_text(total))
    } else if s.magic_checked {
        received(s, total, true, Seq::empty(), data)
    } else {
        let head = leading(s.head + data);
        if head.len() < MAGIC_LEN {
            received(s, total, false, head, data)
        } else {
            match sniffed_format(head) {
                None => failure(
                    s,
                    STATUS_UNSUPPORTED_MEDIA_TYPE,
                    unknown_format_text(),
                    unknown_format_text(),
                ),
                Some(detected) => if compatible(s.extension, detected) {
                    received(s, total, true, Seq::empty(), data)
                } else {
                    failure(
                        s,
                        STATUS_BAD_REQUEST,
                        mismatch_text(s.extension, detected),
                        mismatch_text(s.extension, detected),
                    )
                },
            }
        }
    }
}

/// What the end of flushing does to a session: an empty body and a body too
/// short to tell its format are turned down, any other goes on to be probed.
pub open spec fn on_flushed(s: SessionView) -> (SessionView, ActionView) {
    if s.total_bytes == 0 {
        failure(s, STATUS_BAD_REQUEST, "Файл пустой"@, "Файл пустой"@)
    } else if !s.magic_checked {
        failure(s, STATUS_BAD_REQUEST, too_short_text(), too_short_text())
    } else {
        proceed(s, Phase::Probing, ActionView::Probe)
    }
}

/// The session ends in success: the record shows `Done`, and the request is
/// answered with what was found of the file and where its playlist is
/// stored.
pub open spec fn success(s: SessionView) -> (SessionView, ActionView) {
    (
        SessionView {
            phase: Phase::Finished,
            progress: ProgressView {
                stage: Stage::Done,
                bytes_received: s.total_bytes,
                total_expected: s.total_expected,
                message: Some("Загрузка завершена"@),
            },
            ..s
        },
        ActionView::Respond {
            status: STATUS_OK,
            response: ResponseView {
                success: true,
                message: Some(success_text()),
                filename: Some(s.filename),
                format: match s.found {
                    Some(v) => chars_of(v.format_name),
                    None => None,
                },
                codec: match s.found {
                    Some(v) => chars_of(v.codec),
                    None => None,
                },
                sample_rate: match s.found {
                    Some(v) => v.sample_rate,
                    None => None,
                },
                channels: match s.found {
                    Some(v) => v.channels,
                    None => None,
                },
                duration_secs: match s.found {
                    Some(v) => v.duration_secs,
                    None => None,
                },
                bit_rate: match s.found {
                    Some(v) => v.bit_rate,
                    None => None,
                },
                size_bytes: Some(s.total_bytes),
                hls_path: Some(stored_path(s.prefix)),
                upload_id: Some(s.id_text),
                error: None,
            },
        },
    )
}

/// What is said of an event that does not belong to the session's phase.
pub open spec fn out_of_order_text() -> Seq<char> {
    "unexpected event"@
}

/// An event that does not belong to the session's phase ends the session in
/// failure.
pub open spec fn out_of_order(s: SessionView) -> (SessionView, ActionView) {
    failure(s, STATUS_INTERNAL_ERROR, out_of_order_text(), out_of_order_text())
}

/// The session after an event, and the action that the event calls for.
///
/// The stages are gone through in order: the body is received and flushed,
/// the file probed, decoded, transcoded and stored. The failure of any step
/// ends the session; no later step is then asked for. A session that has
/// been answered takes no further notice of events.
pub open spec fn transition(s: SessionView, e: UploadEvent) -> (SessionView, ActionView) {
    match s.phase {
        Phase::Finished => (s, ActionView::Nothing),
        Phase::Receiving => match e {
            UploadEvent::Chunk { data } => on_chunk(s, data@),
            UploadEvent::ReadFailed { reason } => failure(
                s,
                STATUS_BAD_REQUEST,
                reason@,
                "Ошибка чтения данных файла: "@ + reason@,
            ),
            UploadEvent::WriteFailed { reason } => failure(
                s,
                STATUS_INTERNAL_ERROR,
                "Ошибка записи во временный файл: "@ + reason@,
                "Ошибка записи во временный файл: "@ + reason@,
            ),
            UploadEvent::EndOfStream => (SessionView { phase: Phase::Flushing, ..s }, ActionView::Flush),
            _ => out_of_order(s),
        },
        Phase::Flushing => match e {
            UploadEvent::Flushed => on_flushed(s),
            UploadEvent::FlushFailed { reason } => failure(
                s,
                STATUS_INTERNAL_ERROR,
                "Ошибка сброса буфера во временный файл: "@ + reason@,
                "Ошибка сброса буфера во временный файл: "@ + reason@,
            ),
            _ => out_of_order(s),
        },
        Phase::Probing => match e {
            UploadEvent::Probed { outcome: Ok(found) } => proceed(
                SessionView { found: Some(found), ..s },
                Phase::Decoding,
                ActionView::DecodeCheck,
            ),
            UploadEvent::Probed { outcome: Err(error) } => failure(
                s,
                STATUS_UNPROCESSABLE,
                "ffprobe validation failed"@,
                error.message_text(),
            ),
            UploadEvent::TaskFailed { reason } => failure(
                s,
                STATUS_INTERNAL_ERROR,
                "ffprobe validation failed"@,
                "ffprobe task failed: "@ + reason@,
            ),
            _ => out_of_order(s),
        },
        Phase::Decoding => match e {
            UploadEvent::DecodeChecked { outcome: Ok(_) } => proceed(
                s,
                Phase::Converting,
                ActionView::Transcode,
            ),
            UploadEvent::DecodeChecked { outcome: Err(error) } => failure(
                s,
                STATUS_UNPROCESSABLE,
                "decode check failed"@,
                error.message_text(),
            ),
            UploadEvent::TaskFailed { reason } => failure(
                s,
                STATUS_INTERNAL_ERROR,
                "decode check failed"@,
                "ffmpeg decode task failed: "@ + reason@,
            ),
            _ => out_of_order(s),
        },
        Phase::Converting => match e {
            UploadEvent::Transcoded { outcome: Ok(_) } => proceed(
                s,
                Phase::Uploading,
                ActionView::Store { prefix: s.prefix },
            ),
            UploadEvent::Transcoded { outcome: Err(error) } => failure(
                s,
                STATUS_INTERNAL_ERROR,
                "HLS conversion failed"@,
                "HLS конвертация не удалась: "@ + error.message_text(),
            ),
            UploadEvent::TaskFailed { reason } => failure(
                s,
                STATUS_INTERNAL_ERROR,
                "HLS conversion failed"@,
                "HLS task failed: "@ + reason@,
            ),
            _ => out_of_order(s),
        },
        Phase::Uploading => match e {
            UploadEvent::Stored { outcome: Ok(_) } => success(s),
            UploadEvent::Stored { outcome: Err(StoreError::Bucket { reason }) } => failure(
                s,
                STATUS_INTERNAL_ERROR,
                "S3 upload failed"@,
                "Не удалось создать бакет: "@ + reason@,
            ),
            UploadEvent::Stored { outcome: Err(StoreError::Upload { reason }) } => failure(
                s,
                STATUS_INTERNAL_ERROR,
                "S3 upload failed"@,
                "Ошибка загрузки в хранилище: "@ + reason@,
            ),
            _ => out_of_order(s),
        },
    }
}

/// A session that has just been opened: nothing received, nothing checked,
/// and a record in `Receiving` that carries the correlation id as its
/// message.
pub open spec fn opened(
    upload_id: u128,
    id_text: Seq<char>,
    filename: Seq<char>,
    extension: Seq<char>,
    prefix: Seq<char>,
    total_expected: Option<usize>,
) -> SessionView {
    SessionView {
        upload_id,
        id_text,
        filename,
        extension,
        prefix,
        phase: Phase::Receiving,
        total_bytes: 0,
        total_expected,
        magic_checked: false,
        head: Seq::empty(),
        found: None,
        progress: ProgressView {
            stage: Stage::Receiving,
            bytes_received: 0,
            total_expected,
            message: Some("upload_id:"@ + id_text),
        },
    }
}

/// The session after the first `k` of a run of events.
pub open spec fn after(s: SessionView, events: Seq<UploadEvent>, k: nat) -> SessionView
    decreases k,
{
    if k == 0 {
        s
    } else {
        transition(after(s, events, (k - 1) as nat), events[k - 1]).0
    }
}

} // verus!
