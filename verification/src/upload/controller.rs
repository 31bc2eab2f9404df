//! The ingestion controller: it opens the session of an upload, advances it
//! event by event, and keeps its record in the progress table up to date.

use vstd::prelude::*;
use vstd::string::StringExecFns;
use crate::events::{LifecycleEvent, MediaErrorEvent, MediaStartUploadEvent, MediaUploadedEvent};
use crate::ident::{
    hyphenated,
    is_package_prefix,
    new_prefix,
    resolve_upload_id,
    supplied_id,
    write_upload_id,
};
use crate::probe::ValidationResult;
use crate::progress::{ProgressTracker, Stage, UploadProgress};
use crate::storage::hls_path;
use crate::text::lowercased;
use crate::upload::laws::law_step_keeps_wf;
use crate::upload::response::{
    error_response,
    prefixed,
    too_large_message,
    Refusal,
    UploadResponse,
    MAX_FILE_SIZE,
    STATUS_BAD_REQUEST,
    STATUS_INTERNAL_ERROR,
    STATUS_OK,
    STATUS_PAYLOAD_TOO_LARGE,
    STATUS_UNPROCESSABLE,
    STATUS_UNSUPPORTED_MEDIA_TYPE,
};
use crate::upload::session::{
    failure,
    leading,
    on_chunk,
    on_flushed,
    opened,
    out_of_order,
    proceed,
    success,
    transition,
    Phase,
    StoreError,
    UploadAction,
    UploadEvent,
    UploadSession,
};
use crate::validation::{
    allowed_extension,
    check_extension_magic_compatibility,
    extension_of,
    has_extension,
    ValidationError,
    validate_extension,
    validate_magic_bytes,
    MAGIC_LEN,
};

verus! {

impl Phase {
    /// The stage that observers see while a session is in this phase.
    pub fn to_stage(&self) -> (r: Stage)
        ensures
            r == self.stage(),
    {
        match self {
            Phase::Receiving => Stage::Receiving,
            Phase::Flushing => Stage::Receiving,
            Phase::Probing => Stage::Validating,
            Phase::Decoding => Stage::Validating,
            Phase::Converting => Stage::Converting,
            Phase::Uploading => Stage::Uploading,
            Phase::Finished => Stage::Done,
        }
    }
}

impl UploadSession {
    /// Open the session of one upload, before any byte of its body is read.
    pub fn begin(
        upload_id: u128,
        id_text: String,
        filename: String,
        extension: String,
        prefix: String,
        total_expected: Option<usize>,
    ) -> (r: UploadSession)
        ensures
            r@ == opened(upload_id, id_text@, filename@, extension@, prefix@, total_expected),
            r@.wf(),
    {
        let message = prefixed("upload_id:", id_text.as_str());
        UploadSession {
            upload_id,
            id_text,
            filename,
            extension,
            prefix,
            phase: Phase::Receiving,
            total_bytes: 0,
            total_expected,
            magic_checked: false,
            head: Vec::new(),
            found: None,
            progress: UploadProgress {
                stage: Stage::Receiving,
                bytes_received: 0,
                total_expected,
                message: Some(message),
            },
        }
    }

    /// End the session in failure.
    fn fail(&mut self, status: u16, note: String, error: String) -> (action: UploadAction)
        ensures
            (final(self)@, action@) == failure(old(self)@, status, note@, error@),
    {
        self.phase = Phase::Finished;
        self.head = Vec::new();
        self.progress =
        UploadProgress {
            stage: Stage::Error,
            bytes_received: 0,
            total_expected: None,
            message: Some(note),
        };
        let (_, response) = error_response(status, error);
        UploadAction::Respond { status, response }
    }

    /// End the session in failure, with one text for the record and the
    /// answer.
    fn fail_with(&mut self, status: u16, message: String) -> (action: UploadAction)
        ensures
            (final(self)@, action@) == failure(old(self)@, status, message@, message@),
    {
        let note = message.clone();
        self.fail(status, note, message)
    }

    /// End the session in failure over an event that does not belong to its
    /// phase.
    fn reject_event(&mut self) -> (action: UploadAction)
        ensures
            (final(self)@, action@) == out_of_order(old(self)@),
    {
        self.fail_with(STATUS_INTERNAL_ERROR, String::from_str("unexpected event"))
    }

    /// Move on to `phase`.
    fn advance(&mut self, phase: Phase, action: UploadAction) -> (r: UploadAction)
        ensures
            (final(self)@, r@) == proceed(old(self)@, phase, action@),
    {
        self.phase = phase;
        self.progress = UploadProgress::at_stage(
            phase.to_stage(),
            self.total_bytes,
            self.total_expected,
        );
        action
    }

    /// Take in a chunk of the body.
    fn take_chunk(&mut self, data: Vec<u8>) -> (action: UploadAction)
        requires
            old(self)@.wf(),
            old(self).phase == Phase::Receiving,
        ensures
            (final(self)@, action@) == on_chunk(old(self)@, data@),
    {
        let total: usize = if data.len() > usize::MAX - self.total_bytes {
            usize::MAX
        } else {
            self.total_bytes + data.len()
        };
        if total > MAX_FILE_SIZE {
            return self.fail_with(STATUS_PAYLOAD_TOO_LARGE, too_large_message(total));
        }
        if !self.magic_checked {
            let ghost kept = self.head@;
            let mut i: usize = 0;
            while self.head.len() < MAGIC_LEN && i < data.len()
                invariant
                    i <= data@.len(),
                    self.head@ == kept + data@.subrange(0, i as int),
                    self.head@.len() <= MAGIC_LEN,
                    *self == (UploadSession { head: self.head, ..*old(self) }),
                decreases data@.len() - i,
            {
                self.head.push(data[i]);
                i += 1;
                assert(self.head@ =~= kept + data@.subrange(0, i as int));
            }
            proof {
                let all = kept + data@;
                if all.len() > MAGIC_LEN {
                    assert(self.head@ =~= all.subrange(0, MAGIC_LEN as int));
                } else {
                    assert(data@.subrange(0, i as int) =~= data@);
                }
                assert(self.head@ == leading(all));
            }
            if self.head.len() >= MAGIC_LEN {
                match validate_magic_bytes(self.head.as_slice()) {
                    Err(error) => {
                        return self.fail_with(STATUS_UNSUPPORTED_MEDIA_TYPE, error.message());
                    },
                    Ok(detected) => {
                        match check_extension_magic_compatibility(
                            self.extension.as_str(),
                            detected,
                        ) {
                            Err(error) => {
                                return self.fail_with(STATUS_BAD_REQUEST, error.message());
                            },
                            Ok(_) => {
                                self.magic_checked = true;
                                self.head = Vec::new();
                            },
                        }
                    },
                }
            }
        }
        self.total_bytes = total;
        self.progress = UploadProgress::at_stage(Stage::Receiving, total, self.total_expected);
        proof {
            let expected = on_chunk(old(self)@, data@).0;
            assert(self@.head =~= expected.head);
            assert(self@.magic_checked == expected.magic_checked);
            assert(self@ == expected);
        }
        UploadAction::WriteChunk { data }
    }

    /// Take note that the staging file has been flushed.
    fn flushed(&mut self) -> (action: UploadAction)
        ensures
            (final(self)@, action@) == on_flushed(old(self)@),
    {
        if self.total_bytes == 0 {
            self.fail_with(STATUS_BAD_REQUEST, String::from_str("Файл пустой"))
        } else if !self.magic_checked {
            self.fail_with(
                STATUS_BAD_REQUEST,
                String::from_str("Файл слишком мал для определения формата"),
            )
        } else {
            self.advance(Phase::Probing, UploadAction::Probe)
        }
    }

    /// End the session in success.
    fn succeed(&mut self) -> (action: UploadAction)
        ensures
            (final(self)@, action@) == success(old(self)@),
    {
        self.phase = Phase::Finished;
        self.progress =
        UploadProgress {
            stage: Stage::Done,
            bytes_received: self.total_bytes,
            total_expected: self.total_expected,
            message: Some(String::from_str("Загрузка завершена")),
        };
        let (format, codec, sample_rate, channels, duration_secs, bit_rate) = match &self.found {
            Some(v) => (
                crate::events::copy_opt(&v.format_name),
                crate::events::copy_opt(&v.codec),
                v.sample_rate,
                v.channels,
                v.duration_secs,
                v.bit_rate,
            ),
            None => (None, None, None, None, None, None),
        };
        let response = UploadResponse {
            success: true,
            message: Some(
                String::from_str(
                    "Аудиофайл прошёл валидацию, конвертирован в HLS и загружен в хранилище",
                ),
            ),
            filename: Some(self.filename.clone()),
            format,
            codec,
            sample_rate,
            channels,
            duration_secs,
            bit_rate,
            size_bytes: Some(self.total_bytes),
            hls_path: Some(hls_path(self.prefix.as_str())),
            upload_id: Some(self.id_text.clone()),
            error: None,
        };
        UploadAction::Respond { status: STATUS_OK, response }
    }

    /// Advance the session by one event and say what is to be done next.
    pub fn step(&mut self, event: UploadEvent) -> (action: UploadAction)
        requires
            old(self)@.wf(),
        ensures
            (final(self)@, action@) == transition(old(self)@, event),
            final(self)@.wf(),
    {
        proof {
            law_step_keeps_wf(self@, event);
        }
        match self.phase {
            Phase::Finished => UploadAction::Nothing,
            Phase::Receiving => match event {
                UploadEvent::Chunk { data } => self.take_chunk(data),
                UploadEvent::ReadFailed { reason } => {
                    let error = prefixed("Ошибка чтения данных файла: ", reason.as_str());
                    self.fail(STATUS_BAD_REQUEST, reason, error)
                },
                UploadEvent::WriteFailed { reason } => {
                    let message = prefixed("Ошибка записи во временный файл: ", reason.as_str());
                    self.fail_with(STATUS_INTERNAL_ERROR, message)
                },
                UploadEvent::EndOfStream => {
                    self.phase = Phase::Flushing;
                    UploadAction::Flush
                },
                _ => self.reject_event(),
            },
            Phase::Flushing => match event {
                UploadEvent::Flushed => self.flushed(),
                UploadEvent::FlushFailed { reason } => {
                    let message = prefixed(
                        "Ошибка сброса буфера во временный файл: ",
                        reason.as_str(),
                    );
                    self.fail_with(STATUS_INTERNAL_ERROR, message)
                },
                _ => self.reject_event(),
            },
            Phase::Probing => match event {
                UploadEvent::Probed { outcome: Ok(found) } => {
                    self.found = Some(found);
                    self.advance(Phase::Decoding, UploadAction::DecodeCheck)
                },
                UploadEvent::Probed { outcome: Err(error) } => self.fail(
                    STATUS_UNPROCESSABLE,
                    String::from_str("ffprobe validation failed"),
                    error.message(),
                ),
                UploadEvent::TaskFailed { reason } => self.fail(
                    STATUS_INTERNAL_ERROR,
                    String::from_str("ffprobe validation failed"),
                    prefixed("ffprobe task failed: ", reason.as_str()),
                ),
                _ => self.reject_event(),
            },
            Phase::Decoding => match event {
                UploadEvent::DecodeChecked { outcome: Ok(_) } => self.advance(
                    Phase::Converting,
                    UploadAction::Transcode,
                ),
                UploadEvent::DecodeChecked { outcome: Err(error) } => self.fail(
                    STATUS_UNPROCESSABLE,
                    String::from_str("decode check failed"),
                    error.message(),
                ),
                UploadEvent::TaskFailed { reason } => self.fail(
                    STATUS_INTERNAL_ERROR,
                    String::from_str("decode check failed"),
                    prefixed("ffmpeg decode task failed: ", reason.as_str()),
                ),
                _ => self.reject_event(),
            },
            Phase::Converting => match event {
                UploadEvent::Transcoded { outcome: Ok(_) } => {
                    let prefix = self.prefix.clone();
                    self.advance(Phase::Uploading, UploadAction::Store { prefix })
                },
                UploadEvent::Transcoded { outcome: Err(error) } => {
                    let reason = error.message();
                    self.fail(
                        STATUS_INTERNAL_ERROR,
                        String::from_str("HLS conversion failed"),
                        prefixed("HLS конвертация не удалась: ", reason.as_str()),
                    )
                },
                UploadEvent::TaskFailed { reason } => self.fail(
                    STATUS_INTERNAL_ERROR,
                    String::from_str("HLS conversion failed"),
                    prefixed("HLS task failed: ", reason.as_str()),
                ),
                _ => self.reject_event(),
            },
            Phase::Uploading => match event {
                UploadEvent::Stored { outcome: Ok(_) } => self.succeed(),
                UploadEvent::Stored { outcome: Err(StoreError::Bucket { reason }) } => self.fail(
                    STATUS_INTERNAL_ERROR,
                    String::from_str("S3 upload failed"),
                    prefixed("Не удалось создать бакет: ", reason.as_str()),
                ),
                UploadEvent::Stored { outcome: Err(StoreError::Upload { reason }) } => self.fail(
                    STATUS_INTERNAL_ERROR,
                    String::from_str("S3 upload failed"),
                    prefixed("Ошибка загрузки в хранилище: ", reason.as_str()),
                ),
                _ => self.reject_event(),
            },
        }
    }
}

impl UploadSession {
    /// Whether the session is one that the controller can have brought
    /// about.
    pub fn well_formed(&self) -> (r: bool)
        ensures
            r == self@.wf(),
    {
        match self.phase {
            Phase::Finished => self.progress.stage.terminal(),
            _ => {
                self.total_bytes <= MAX_FILE_SIZE && (if self.magic_checked {
                    self.head.len() == 0
                } else {
                    self.head.len() < MAGIC_LEN
                }) && self.progress.stage == self.phase.to_stage() && self.progress.bytes_received
                    == self.total_bytes && same_size(
                    self.progress.total_expected,
                    self.total_expected,
                )
            },
        }
    }
}

/// Whether two optional sizes are the same.
fn same_size(a: Option<usize>, b: Option<usize>) -> (r: bool)
    ensures
        r == (a == b),
{
    match (a, b) {
        (Some(x), Some(y)) => x == y,
        (None, None) => true,
        _ => false,
    }
}

/// The name under which a file counts that was sent without one.
pub open spec fn name_or_unknown(filename: Option<&str>) -> Seq<char> {
    match filename {
        Some(name) => name@,
        None => "unknown"@,
    }
}

/// Open the session of an upload from what the request says: the id that the
/// caller may have supplied in a header, and the name of the file.
///
/// The request is refused where the name has no extension, and where its
/// extension is not an accepted one. Otherwise the session is a fresh one for
/// that name, under the supplied id where the header spells one and under a
/// random id where it does not, with a key prefix of its own: a stem, a
/// separator and an id as it is written.
pub fn open_upload(
    header_id: Option<&str>,
    filename: Option<&str>,
    total_expected: Option<usize>,
) -> (r: Result<UploadSession, Refusal>)
    ensures
        match r {
            Ok(session) => {
                &&& has_extension(name_or_unknown(filename))
                &&& allowed_extension(session@.extension)
                &&& session@.extension == lowercased(extension_of(name_or_unknown(filename)))
                &&& session@ == opened(
                    session.upload_id,
                    hyphenated(session.upload_id),
                    name_or_unknown(filename),
                    session@.extension,
                    session@.prefix,
                    total_expected,
                )
                &&& session@.wf()
                &&& is_package_prefix(session@.prefix)
                &&& supplied_id(header_id) is Some ==> Some(session.upload_id) == supplied_id(
                    header_id,
                )
            },
            Err(Refusal::Extension { error: ValidationError::MissingExtension }) => !has_extension(
                name_or_unknown(filename),
            ),
            Err(Refusal::Extension { error: ValidationError::UnsupportedExtension { extension } }) => {
                &&& has_extension(name_or_unknown(filename))
                &&& extension@ == lowercased(extension_of(name_or_unknown(filename)))
                &&& !allowed_extension(extension@)
            },
            Err(_) => false,
        },
{
    let name: &str = match filename {
        Some(name) => name,
        None => "unknown",
    };
    let extension = match validate_extension(name) {
        Ok(extension) => extension,
        Err(error) => {
            return Err(Refusal::Extension { error });
        },
    };
    let upload_id = resolve_upload_id(header_id);
    let id_text = write_upload_id(upload_id);
    let prefix = new_prefix(name);
    Ok(
        UploadSession::begin(
            upload_id,
            id_text,
            String::from_str(name),
            extension,
            prefix,
            total_expected,
        ),
    )
}

impl UploadSession {
    /// Enter the session's record into the table, so that observers find it
    /// before any byte of the body is read.
    pub fn register(&self, tracker: &mut ProgressTracker)
        ensures
            final(tracker)@ == old(tracker)@.insert(self.upload_id, self.progress),
    {
        tracker.insert(self.upload_id, self.progress.duplicate());
    }

    /// Advance the session by one event and bring its record in the table up
    /// to date. The record of a session that has been answered is left
    /// alone: it is for the stream that shows it to drop it.
    pub fn drive(&mut self, tracker: &mut ProgressTracker, event: UploadEvent) -> (action:
        UploadAction)
        requires
            old(self)@.wf(),
        ensures
            (final(self)@, action@) == transition(old(self)@, event),
            final(self)@.wf(),
            final(tracker)@ == (if old(self).phase == Phase::Finished {
                old(tracker)@
            } else {
                old(tracker)@.insert(final(self).upload_id, final(self).progress)
            }),
    {
        let answered: bool = match self.phase {
            Phase::Finished => true,
            _ => false,
        };
        let action = self.step(event);
        if !answered {
            tracker.insert(self.upload_id, self.progress.duplicate());
        }
        action
    }
}

/// What is reported of a file of which nothing was found.
pub open spec fn nothing_found() -> ValidationResult {
    ValidationResult {
        format_name: None,
        codec: None,
        sample_rate: None,
        channels: None,
        duration_secs: None,
        bit_rate: None,
    }
}

impl UploadSession {
    /// The event that tells of the start of this upload.
    pub fn start_event(&self, timestamp: &str) -> (r: LifecycleEvent)
        ensures
            match r {
                LifecycleEvent::Started { start } => {
                    &&& start.event_type@ == "media.start_upload"@
                    &&& start.upload_id@ == self.id_text@
                    &&& start.filename@ == self.filename@
                    &&& start.timestamp@ == timestamp@
                },
                _ => false,
            },
    {
        LifecycleEvent::Started {
            start: MediaStartUploadEvent::new(
                self.id_text.as_str(),
                self.filename.as_str(),
                timestamp,
            ),
        }
    }

    /// The event that tells of the end of this upload, given the answer it
    /// got: an `uploaded` event exactly for an answer that tells of success,
    /// with what was found of the file, the bytes received and the stored
    /// path of the answer; an `error` event with the answer's reason
    /// otherwise. One answer makes one event.
    pub fn outcome_event(&self, response: &UploadResponse, file_id: &str, timestamp: &str) -> (r:
        LifecycleEvent)
        ensures
            match r {
                LifecycleEvent::Uploaded { uploaded } => {
                    &&& response.success
                    &&& uploaded.event_type@ == "media.uploaded"@
                    &&& uploaded.upload_id@ == self.id_text@
                    &&& uploaded.file_id@ == file_id@
                    &&& uploaded.filename@ == self.filename@
                    &&& uploaded.size_bytes == self.total_bytes
                    &&& uploaded.timestamp@ == timestamp@
                    &&& uploaded.hls_path@ == (match response.hls_path {
                        Some(path) => path@,
                        None => Seq::empty(),
                    })
                    &&& (ValidationResult {
                        format_name: uploaded.format,
                        codec: uploaded.codec,
                        sample_rate: uploaded.sample_rate,
                        channels: uploaded.channels,
                        duration_secs: uploaded.duration_secs,
                        bit_rate: uploaded.bit_rate,
                    }) == (match self.found {
                        Some(found) => found,
                        None => nothing_found(),
                    })
                },
                LifecycleEvent::Failed { error } => {
                    &&& !response.success
                    &&& error.event_type@ == "media.error"@
                    &&& error.upload_id@ == self.id_text@
                    &&& error.timestamp@ == timestamp@
                    &&& error.error_message@ == (match response.error {
                        Some(reason) => reason@,
                        None => Seq::empty(),
                    })
                },
                LifecycleEvent::Started { .. } => false,
            },
    {
        if response.success {
            let empty = ValidationResult {
                format_name: None,
                codec: None,
                sample_rate: None,
                channels: None,
                duration_secs: None,
                bit_rate: None,
            };
            let found: &ValidationResult = match &self.found {
                Some(found) => found,
                None => &empty,
            };
            let path: &str = match &response.hls_path {
                Some(path) => path.as_str(),
                None => "",
            };
            proof {
                reveal_strlit("");
                assert(""@ =~= Seq::<char>::empty());
            }
            LifecycleEvent::Uploaded {
                uploaded: MediaUploadedEvent::new(
                    self.id_text.as_str(),
                    file_id,
                    self.filename.as_str(),
                    found,
                    self.total_bytes,
                    path,
                    timestamp,
                ),
            }
        } else {
            let reason: &str = match &response.error {
                Some(reason) => reason.as_str(),
                None => "",
            };
            proof {
                reveal_strlit("");
                assert(""@ =~= Seq::<char>::empty());
            }
            LifecycleEvent::Failed {
                error: MediaErrorEvent::new(self.id_text.as_str(), reason, timestamp),
            }
        }
    }
}

} // verus!
