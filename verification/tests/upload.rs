use audio_upload_service::events::LifecycleEvent;
use audio_upload_service::hls::TranscodeError;
use audio_upload_service::ident::{
    new_prefix, prefix_for, read_upload_id, resolve_upload_id, write_upload_id,
};
use audio_upload_service::probe::{DecodeError, ProbeError, Seconds, ValidationResult};
use audio_upload_service::progress::{ProgressTracker, Stage};
use audio_upload_service::upload::{
    check_payload, error_response, open_upload, PayloadError, Phase, Refusal, StoreError,
    UploadAction, UploadEvent, UploadSession, MAX_FILE_SIZE,
};
use audio_upload_service::validation::ValidationError;

const ID: &str = "a1a2a3a4-b1b2-c1c2-d1d2-d3d4d5d6d7d8";

fn session(extension: &str) -> UploadSession {
    UploadSession::begin(
        0xa1a2a3a4b1b2c1c2d1d2d3d4d5d6d7d8,
        ID.to_string(),
        format!("song.{}", extension),
        extension.to_string(),
        "song/abc-123".to_string(),
        None,
    )
}

fn wav_chunk(len: usize) -> Vec<u8> {
    let mut data = b"RIFF\x24\x00\x00\x00WAVEfmt ".to_vec();
    data.resize(len.max(16), 0);
    data
}

fn found() -> ValidationResult {
    ValidationResult {
        format_name: Some("wav".to_string()),
        codec: Some("pcm_s16le".to_string()),
        sample_rate: Some(44100),
        channels: Some(2),
        duration_secs: Some(Seconds { bits: 3600.0f64.to_bits() }),
        bit_rate: Some(1411200),
    }
}

fn rejected(action: UploadAction) -> (u16, String) {
    match action {
        UploadAction::Respond { status, response } => {
            assert!(!response.success);
            assert!(response.filename.is_none());
            assert!(response.hls_path.is_none());
            assert!(response.upload_id.is_none());
            (status, response.error.unwrap())
        }
        other => panic!("unexpected: {:?}", other),
    }
}

#[test]
fn session_begins_in_receiving() {
    let s = session("wav");
    assert_eq!(s.phase, Phase::Receiving);
    assert_eq!(s.progress.stage, Stage::Receiving);
    assert_eq!(s.progress.bytes_received, 0);
    assert_eq!(s.progress.message.as_deref(), Some("upload_id:a1a2a3a4-b1b2-c1c2-d1d2-d3d4d5d6d7d8"));
    assert!(!s.magic_checked);
}

#[test]
fn session_runs_through_every_stage() {
    let mut s = session("wav");
    let mut seen = vec![(s.progress.stage, s.progress.bytes_received)];
    let events = vec![
        UploadEvent::Chunk { data: wav_chunk(100) },
        UploadEvent::Chunk { data: vec![1; 50] },
        UploadEvent::EndOfStream,
        UploadEvent::Flushed,
        UploadEvent::Probed { outcome: Ok(found()) },
        UploadEvent::DecodeChecked { outcome: Ok(()) },
        UploadEvent::Transcoded { outcome: Ok(()) },
        UploadEvent::Stored { outcome: Ok(()) },
    ];
    let mut actions = Vec::new();
    for event in events {
        actions.push(s.step(event));
        seen.push((s.progress.stage, s.progress.bytes_received));
    }
    assert_eq!(
        seen,
        [
            (Stage::Receiving, 0),
            (Stage::Receiving, 100),
            (Stage::Receiving, 150),
            (Stage::Receiving, 150),
            (Stage::Validating, 150),
            (Stage::Validating, 150),
            (Stage::Converting, 150),
            (Stage::Uploading, 150),
            (Stage::Done, 150),
        ]
    );
    assert!(matches!(&actions[0], UploadAction::WriteChunk { data } if data.len() == 100));
    assert!(matches!(&actions[1], UploadAction::WriteChunk { data } if data == &vec![1u8; 50]));
    assert!(matches!(actions[2], UploadAction::Flush));
    assert!(matches!(actions[3], UploadAction::Probe));
    assert!(matches!(actions[4], UploadAction::DecodeCheck));
    assert!(matches!(actions[5], UploadAction::Transcode));
    assert!(matches!(&actions[6], UploadAction::Store { prefix } if prefix == "song/abc-123"));
    match &actions[7] {
        UploadAction::Respond { status, response } => {
            assert_eq!(*status, 200);
            assert!(response.success);
            assert_eq!(
                response.message.as_deref(),
                Some("Аудиофайл прошёл валидацию, конвертирован в HLS и загружен в хранилище")
            );
            assert_eq!(response.filename.as_deref(), Some("song.wav"));
            assert_eq!(response.format.as_deref(), Some("wav"));
            assert_eq!(response.codec.as_deref(), Some("pcm_s16le"));
            assert_eq!(response.sample_rate, Some(44100));
            assert_eq!(response.channels, Some(2));
            assert_eq!(response.duration_secs.map(|d| f64::from_bits(d.bits)), Some(3600.0));
            assert_eq!(response.bit_rate, Some(1411200));
            assert_eq!(response.size_bytes, Some(150));
            assert_eq!(
                response.hls_path.as_deref(),
                Some("audio-hls/song/abc-123/playlist.m3u8")
            );
            assert_eq!(response.upload_id.as_deref(), Some(ID));
            assert_eq!(response.error, None);
        }
        other => panic!("unexpected: {:?}", other),
    }
    assert_eq!(s.phase, Phase::Finished);
    assert_eq!(s.progress.message.as_deref(), Some("Загрузка завершена"));
    // a session that has been answered is not answered again
    assert!(matches!(s.step(UploadEvent::Stored { outcome: Ok(()) }), UploadAction::Nothing));
    assert!(matches!(s.step(UploadEvent::Chunk { data: vec![0; 5] }), UploadAction::Nothing));
    assert_eq!(s.progress.stage, Stage::Done);
    assert_eq!(s.progress.bytes_received, 150);
}

#[test]
fn session_byte_counts_never_decrease_and_stages_never_regress() {
    fn rank(stage: Stage) -> u8 {
        match stage {
            Stage::Receiving => 0,
            Stage::Validating => 1,
            Stage::Converting => 2,
            Stage::Uploading => 3,
            Stage::Done => 4,
            Stage::Error => 5,
        }
    }
    let mut s = session("wav");
    let events = vec![
        UploadEvent::Chunk { data: vec![b'R'] },
        UploadEvent::Chunk { data: b"IFF".to_vec() },
        UploadEvent::Chunk { data: vec![] },
        UploadEvent::Chunk { data: b"\x00\x00\x00\x00WAVE".to_vec() },
        UploadEvent::Chunk { data: vec![7; 1000] },
        UploadEvent::EndOfStream,
        UploadEvent::Flushed,
        UploadEvent::Probed { outcome: Ok(found()) },
        UploadEvent::DecodeChecked {
            outcome: Err(DecodeError::Corrupt { diagnostics: "bad".to_string() }),
        },
        UploadEvent::Transcoded { outcome: Ok(()) },
    ];
    let mut last = (s.progress.stage, s.progress.bytes_received);
    for event in events {
        s.step(event);
        let now = (s.progress.stage, s.progress.bytes_received);
        assert!(rank(now.0) >= rank(last.0));
        if now.0 != Stage::Error {
            assert!(now.1 >= last.1);
        }
        last = now;
    }
    assert_eq!(last, (Stage::Error, 0));
    assert_eq!(s.progress.message.as_deref(), Some("decode check failed"));
}

#[test]
fn session_sniffs_as_soon_as_twelve_bytes_are_there() {
    let mut s = session("mp3");
    assert!(matches!(
        s.step(UploadEvent::Chunk { data: b"RIFF\x00\x00\x00\x00WAV".to_vec() }),
        UploadAction::WriteChunk { .. }
    ));
    assert!(!s.magic_checked);
    assert_eq!(s.head.len(), 11);
    let (status, error) = rejected(s.step(UploadEvent::Chunk { data: b"E and more".to_vec() }));
    assert_eq!(status, 400);
    assert_eq!(
        error,
        "Расширение '.mp3' не соответствует реальному формату 'wav'. Файл переименован?"
    );
    assert_eq!(s.progress.stage, Stage::Error);
    assert_eq!(s.progress.bytes_received, 0);
    assert_eq!(s.progress.message.as_deref(), Some(error.as_str()));
    assert!(s.head.is_empty());
}

#[test]
fn session_frees_the_buffer_once_sniffed() {
    let mut s = session("wav");
    s.step(UploadEvent::Chunk { data: wav_chunk(4096) });
    assert!(s.magic_checked);
    assert!(s.head.is_empty());
    assert_eq!(s.total_bytes, 4096);
}

#[test]
fn session_opus_in_ogg_is_accepted() {
    let mut s = session("opus");
    let action = s.step(UploadEvent::Chunk { data: b"OggS\x00\x02\x00\x00\x00\x00\x00\x00\x00".to_vec() });
    assert!(matches!(action, UploadAction::WriteChunk { .. }));
    assert!(s.magic_checked);
}

#[test]
fn session_rejects_unknown_bytes() {
    let mut s = session("mp3");
    let (status, error) =
        rejected(s.step(UploadEvent::Chunk { data: b"plain text, no audio".to_vec() }));
    assert_eq!(status, 415);
    assert_eq!(
        error,
        "Не удалось определить формат по заголовку файла. Файл не является аудио."
    );
}

#[test]
fn session_rejects_a_payload_over_the_limit() {
    let mut s = session("wav");
    s.step(UploadEvent::Chunk { data: wav_chunk(MAX_FILE_SIZE) });
    assert_eq!(s.progress.bytes_received, MAX_FILE_SIZE);
    assert_eq!(s.progress.stage, Stage::Receiving);
    let (status, error) = rejected(s.step(UploadEvent::Chunk { data: vec![0] }));
    assert_eq!(status, 413);
    assert_eq!(error, "Файл слишком большой: 50 MB (максимум: 50 MB)");
    assert_eq!(s.progress.stage, Stage::Error);

    let mut s = session("wav");
    let (status, error) =
        rejected(s.step(UploadEvent::Chunk { data: wav_chunk(52 * 1024 * 1024 + 5) }));
    assert_eq!(status, 413);
    assert_eq!(error, "Файл слишком большой: 52 MB (максимум: 50 MB)");
}

#[test]
fn session_rejects_an_empty_body_and_a_short_one() {
    let mut s = session("wav");
    assert!(matches!(s.step(UploadEvent::EndOfStream), UploadAction::Flush));
    let (status, error) = rejected(s.step(UploadEvent::Flushed));
    assert_eq!((status, error.as_str()), (400, "Файл пустой"));

    let mut s = session("wav");
    s.step(UploadEvent::Chunk { data: b"RIFF".to_vec() });
    s.step(UploadEvent::EndOfStream);
    let (status, error) = rejected(s.step(UploadEvent::Flushed));
    assert_eq!((status, error.as_str()), (400, "Файл слишком мал для определения формата"));
    assert_eq!(s.progress.stage, Stage::Error);
}

#[test]
fn session_io_failures() {
    let mut s = session("wav");
    let (status, error) =
        rejected(s.step(UploadEvent::ReadFailed { reason: "connection reset".to_string() }));
    assert_eq!((status, error.as_str()), (400, "Ошибка чтения данных файла: connection reset"));
    assert_eq!(s.progress.message.as_deref(), Some("connection reset"));

    let mut s = session("wav");
    s.step(UploadEvent::Chunk { data: wav_chunk(20) });
    let (status, error) =
        rejected(s.step(UploadEvent::WriteFailed { reason: "disk full".to_string() }));
    assert_eq!((status, error.as_str()), (500, "Ошибка записи во временный файл: disk full"));
    assert_eq!(s.progress.message.as_deref(), Some(error.as_str()));

    let mut s = session("wav");
    s.step(UploadEvent::Chunk { data: wav_chunk(20) });
    s.step(UploadEvent::EndOfStream);
    let (status, error) =
        rejected(s.step(UploadEvent::FlushFailed { reason: "disk full".to_string() }));
    assert_eq!(
        (status, error.as_str()),
        (500, "Ошибка сброса буфера во временный файл: disk full")
    );
}

fn at_phase(phase: Phase) -> UploadSession {
    let mut s = session("wav");
    let steps = [
        (Phase::Flushing, 0),
        (Phase::Probing, 1),
        (Phase::Decoding, 2),
        (Phase::Converting, 3),
        (Phase::Uploading, 4),
    ];
    s.step(UploadEvent::Chunk { data: wav_chunk(64) });
    s.step(UploadEvent::EndOfStream);
    let upto = steps.iter().find(|(p, _)| *p == phase).map(|(_, n)| *n).unwrap();
    if upto >= 1 {
        s.step(UploadEvent::Flushed);
    }
    if upto >= 2 {
        s.step(UploadEvent::Probed { outcome: Ok(found()) });
    }
    if upto >= 3 {
        s.step(UploadEvent::DecodeChecked { outcome: Ok(()) });
    }
    if upto >= 4 {
        s.step(UploadEvent::Transcoded { outcome: Ok(()) });
    }
    assert_eq!(s.phase, phase);
    s
}

#[test]
fn session_stage_failures() {
    let mut s = at_phase(Phase::Probing);
    let (status, error) =
        rejected(s.step(UploadEvent::Probed { outcome: Err(ProbeError::NonPositiveDuration) }));
    assert_eq!(
        (status, error.as_str()),
        (422, "Аудиофайл имеет нулевую или отрицательную длительность")
    );
    assert_eq!(s.progress.message.as_deref(), Some("ffprobe validation failed"));

    let mut s = at_phase(Phase::Probing);
    let (status, error) =
        rejected(s.step(UploadEvent::TaskFailed { reason: "cancelled".to_string() }));
    assert_eq!((status, error.as_str()), (500, "ffprobe task failed: cancelled"));

    let mut s = at_phase(Phase::Decoding);
    let (status, error) = rejected(s.step(UploadEvent::DecodeChecked {
        outcome: Err(DecodeError::Corrupt { diagnostics: "bad frame".to_string() }),
    }));
    assert_eq!((status, error.as_str()), (422, "Ошибки декодирования: bad frame"));
    assert_eq!(s.progress.message.as_deref(), Some("decode check failed"));

    let mut s = at_phase(Phase::Decoding);
    let (status, error) =
        rejected(s.step(UploadEvent::TaskFailed { reason: "panicked".to_string() }));
    assert_eq!((status, error.as_str()), (500, "ffmpeg decode task failed: panicked"));

    let mut s = at_phase(Phase::Converting);
    let (status, error) = rejected(
        s.step(UploadEvent::Transcoded { outcome: Err(TranscodeError::PlaylistMissing) }),
    );
    assert_eq!(
        (status, error.as_str()),
        (500, "HLS конвертация не удалась: ffmpeg не создал HLS плейлист")
    );
    assert_eq!(s.progress.message.as_deref(), Some("HLS conversion failed"));

    let mut s = at_phase(Phase::Converting);
    let (status, error) =
        rejected(s.step(UploadEvent::TaskFailed { reason: "panicked".to_string() }));
    assert_eq!((status, error.as_str()), (500, "HLS task failed: panicked"));

    let mut s = at_phase(Phase::Uploading);
    let (status, error) = rejected(s.step(UploadEvent::Stored {
        outcome: Err(StoreError::Bucket { reason: "denied".to_string() }),
    }));
    assert_eq!((status, error.as_str()), (500, "Не удалось создать бакет: denied"));
    assert_eq!(s.progress.message.as_deref(), Some("S3 upload failed"));

    let mut s = at_phase(Phase::Uploading);
    let (status, error) = rejected(s.step(UploadEvent::Stored {
        outcome: Err(StoreError::Upload { reason: "timeout".to_string() }),
    }));
    assert_eq!((status, error.as_str()), (500, "Ошибка загрузки в хранилище: timeout"));
}

#[test]
fn session_no_later_stage_after_a_failure() {
    let mut s = at_phase(Phase::Probing);
    s.step(UploadEvent::Probed { outcome: Err(ProbeError::NoAudioStream) });
    assert_eq!(s.phase, Phase::Finished);
    for event in [
        UploadEvent::DecodeChecked { outcome: Ok(()) },
        UploadEvent::Transcoded { outcome: Ok(()) },
        UploadEvent::Stored { outcome: Ok(()) },
    ] {
        assert!(matches!(s.step(event), UploadAction::Nothing));
        assert_eq!(s.progress.stage, Stage::Error);
    }
}

#[test]
fn session_event_out_of_order_fails_the_upload() {
    let mut s = session("wav");
    let (status, error) = rejected(s.step(UploadEvent::Stored { outcome: Ok(()) }));
    assert_eq!((status, error.as_str()), (500, "unexpected event"));
    assert_eq!(s.progress.stage, Stage::Error);

    let mut s = at_phase(Phase::Converting);
    let (status, _) = rejected(s.step(UploadEvent::Chunk { data: vec![1] }));
    assert_eq!(status, 500);
}

#[test]
fn session_drive_keeps_the_table_up_to_date() {
    let mut tracker = ProgressTracker::new();
    let mut s = session("wav");
    let id = s.upload_id;
    s.register(&mut tracker);
    assert_eq!(tracker.snapshot(id).unwrap().stage, Stage::Receiving);
    assert_eq!(
        tracker.snapshot(id).unwrap().message.as_deref(),
        Some("upload_id:a1a2a3a4-b1b2-c1c2-d1d2-d3d4d5d6d7d8")
    );
    s.drive(&mut tracker, UploadEvent::Chunk { data: wav_chunk(30) });
    let seen = tracker.snapshot(id).unwrap();
    assert_eq!((seen.stage, seen.bytes_received, seen.message), (Stage::Receiving, 30, None));
    s.drive(&mut tracker, UploadEvent::EndOfStream);
    s.drive(&mut tracker, UploadEvent::Flushed);
    assert_eq!(tracker.snapshot(id).unwrap().stage, Stage::Validating);
    s.drive(&mut tracker, UploadEvent::TaskFailed { reason: "x".to_string() });
    let seen = tracker.snapshot(id).unwrap();
    assert_eq!(seen.stage, Stage::Error);
    assert_eq!(seen.message.as_deref(), Some("ffprobe validation failed"));
    // once the stream has dropped the record, a late event does not bring it back
    tracker.evict(id);
    assert!(matches!(s.drive(&mut tracker, UploadEvent::Flushed), UploadAction::Nothing));
    assert!(!tracker.contains(id));
}

#[test]
fn open_upload_takes_the_id_from_the_header() {
    let s = open_upload(Some(ID), Some("My Song.MP3"), Some(10)).unwrap();
    assert_eq!(s.upload_id, 0xa1a2a3a4b1b2c1c2d1d2d3d4d5d6d7d8);
    assert_eq!(s.id_text, ID);
    assert_eq!(s.filename, "My Song.MP3");
    assert_eq!(s.extension, "mp3");
    assert_eq!(s.total_expected, Some(10));
    assert_eq!(s.progress.total_expected, Some(10));
    assert_eq!(s.phase, Phase::Receiving);
    let (stem, unique) = s.prefix.split_once('/').unwrap();
    assert_eq!(stem, "My Song");
    assert_eq!(unique.len(), 36);
    assert!(read_upload_id(unique).is_some());
    assert_ne!(unique, ID);
}

#[test]
fn open_upload_draws_an_id_without_a_usable_header() {
    let a = open_upload(None, Some("a.wav"), None).unwrap();
    let b = open_upload(Some("not-a-uuid"), Some("a.wav"), None).unwrap();
    assert_ne!(a.upload_id, b.upload_id);
    assert_eq!(read_upload_id(&a.id_text), Some(a.upload_id));
    assert_ne!(a.prefix, b.prefix);
}

#[test]
fn open_upload_refuses_a_bad_name() {
    match open_upload(None, Some("notes.txt"), None) {
        Err(refusal) => {
            let (status, response) = refusal.response();
            assert_eq!(status, 415);
            assert!(!response.success);
            assert_eq!(
                response.error.as_deref(),
                Some("Недопустимое расширение '.txt'. Разрешены: mp3, wav, ogg, flac, opus, m4a, aac")
            );
        }
        Ok(_) => panic!("accepted"),
    }
    // a file sent without a name counts as "unknown"
    match open_upload(None, None, None) {
        Err(refusal) => {
            assert!(matches!(
                refusal,
                Refusal::Extension { error: ValidationError::MissingExtension }
            ));
            let (status, response) = refusal.response();
            assert_eq!((status, response.error.as_deref()), (415, Some("Файл не имеет расширения")));
        }
        Ok(_) => panic!("accepted"),
    }
    // a name without a dot is refused even where it spells an accepted extension
    assert!(matches!(
        open_upload(None, Some("mp3"), None),
        Err(Refusal::Extension { error: ValidationError::MissingExtension })
    ));
}

#[test]
fn refusals_before_a_session() {
    let (status, response) = Refusal::MissingField.response();
    assert_eq!((status, response.error.as_deref()), (400, Some("Файл не найден в запросе")));
    let (status, response) = Refusal::Unreadable { reason: "eof".to_string() }.response();
    assert_eq!((status, response.error.as_deref()), (400, Some("Ошибка чтения multipart: eof")));
    let (status, response) = Refusal::StagingCreate { reason: "ro".to_string() }.response();
    assert_eq!(
        (status, response.error.as_deref()),
        (500, Some("Не удалось создать временный файл: ro"))
    );
    let (status, response) = Refusal::StagingOpen { reason: "ro".to_string() }.response();
    assert_eq!(
        (status, response.error.as_deref()),
        (500, Some("Не удалось открыть временный файл для записи: ro"))
    );
    let (status, response) = error_response(418, "teapot".to_string());
    assert_eq!(status, 418);
    assert!(!response.success);
    assert_eq!(response.error.as_deref(), Some("teapot"));
    assert!(response.message.is_none() && response.size_bytes.is_none());
}

#[test]
fn ids_are_read_and_written() {
    let id = 0xa1a2a3a4b1b2c1c2d1d2d3d4d5d6d7d8u128;
    assert_eq!(write_upload_id(id), ID);
    assert_eq!(write_upload_id(0), "00000000-0000-0000-0000-000000000000");
    assert_eq!(read_upload_id(ID), Some(id));
    assert_eq!(read_upload_id("A1A2A3A4B1B2C1C2D1D2D3D4D5D6D7D8"), Some(id));
    assert_eq!(read_upload_id("a1a2a3a4"), None);
    assert_eq!(read_upload_id(""), None);
    assert_eq!(resolve_upload_id(Some(ID)), id);
    assert_eq!(resolve_upload_id(Some("{A1A2A3A4-B1B2-C1C2-D1D2-D3D4D5D6D7D8}")), id);
    assert_ne!(resolve_upload_id(None), resolve_upload_id(None));
}

#[test]
fn prefixes_take_the_stem_of_the_name() {
    assert_eq!(prefix_for(Some("song".to_string()), "u-1"), "song/u-1");
    assert_eq!(prefix_for(None, "u-1"), "audio/u-1");
    assert!(new_prefix("track.final.mp3").starts_with("track.final/"));
    assert!(new_prefix("noext").starts_with("noext/"));
    assert!(new_prefix("").starts_with("audio/"));
}

#[test]
fn outcome_of_a_stored_upload_is_one_uploaded_event() {
    let mut s = at_phase(Phase::Uploading);
    let response = match s.step(UploadEvent::Stored { outcome: Ok(()) }) {
        UploadAction::Respond { response, .. } => response,
        other => panic!("unexpected: {:?}", other),
    };
    match s.start_event("t0") {
        LifecycleEvent::Started { start } => {
            assert_eq!(start.event_type, "media.start_upload");
            assert_eq!(start.upload_id, ID);
            assert_eq!(start.filename, "song.wav");
            assert_eq!(start.timestamp, "t0");
        }
        other => panic!("unexpected: {:?}", other),
    }
    let event = s.outcome_event(&response, "file-1", "t1");
    assert_eq!(event.key(), "file-1");
    match event {
        LifecycleEvent::Uploaded { uploaded } => {
            assert_eq!(uploaded.event_type, "media.uploaded");
            assert_eq!(uploaded.upload_id, ID);
            assert_eq!(uploaded.file_id, "file-1");
            assert_eq!(uploaded.filename, "song.wav");
            assert_eq!(uploaded.format.as_deref(), Some("wav"));
            assert_eq!(uploaded.codec.as_deref(), Some("pcm_s16le"));
            assert_eq!(uploaded.sample_rate, Some(44100));
            assert_eq!(uploaded.channels, Some(2));
            assert_eq!(uploaded.bit_rate, Some(1411200));
            assert_eq!(uploaded.size_bytes, 64);
            assert_eq!(uploaded.hls_path, "audio-hls/song/abc-123/playlist.m3u8");
            assert_eq!(uploaded.timestamp, "t1");
        }
        other => panic!("unexpected: {:?}", other),
    }
}

#[test]
fn outcome_of_a_failed_upload_is_an_error_event() {
    let mut s = at_phase(Phase::Decoding);
    let response = match s.step(UploadEvent::TaskFailed { reason: "cancelled".to_string() }) {
        UploadAction::Respond { response, .. } => response,
        other => panic!("unexpected: {:?}", other),
    };
    let event = s.outcome_event(&response, "file-1", "t1");
    assert_eq!(event.key(), ID);
    match event {
        LifecycleEvent::Failed { error } => {
            assert_eq!(error.event_type, "media.error");
            assert_eq!(error.upload_id, ID);
            assert_eq!(error.error_message, "ffmpeg decode task failed: cancelled");
            assert_eq!(error.timestamp, "t1");
        }
        other => panic!("unexpected: {:?}", other),
    }
}

#[test]
fn payload_checks_in_order() {
    assert_eq!(check_payload("wav", &wav_chunk(64)).unwrap(), "wav");
    assert_eq!(check_payload("opus", b"OggS\x00\x02\x00\x00\x00\x00\x00\x00").unwrap(), "ogg");

    let empty = check_payload("wav", &[]).unwrap_err();
    assert!(matches!(empty, PayloadError::Empty));
    let (status, response) = empty.response();
    assert_eq!((status, response.error.as_deref()), (400, Some("Файл пустой")));

    let large = check_payload("wav", &wav_chunk(MAX_FILE_SIZE + 1)).unwrap_err();
    assert!(matches!(large, PayloadError::TooLarge { size } if size == MAX_FILE_SIZE + 1));
    let (status, response) = large.response();
    assert_eq!(
        (status, response.error.as_deref()),
        (413, Some("Файл слишком большой: 50 MB (максимум: 50 MB)"))
    );
    assert!(check_payload("wav", &wav_chunk(MAX_FILE_SIZE)).is_ok());

    let short = check_payload("wav", b"RIFF").unwrap_err();
    assert!(matches!(short, PayloadError::Invalid { error: ValidationError::TooShort }));
    assert_eq!(short.response().0, 415);

    let unknown = check_payload("wav", b"certainly not audio").unwrap_err();
    assert!(matches!(unknown, PayloadError::Invalid { error: ValidationError::UnknownFormat }));
    assert_eq!(unknown.response().0, 415);

    let mismatch = check_payload("mp3", &wav_chunk(64)).unwrap_err();
    let (status, response) = mismatch.response();
    assert_eq!(status, 400);
    assert_eq!(
        response.error.as_deref(),
        Some("Расширение '.mp3' не соответствует реальному формату 'wav'. Файл переименован?")
    );
}

#[test]
fn session_well_formedness_is_decidable() {
    let mut s = session("wav");
    assert!(s.well_formed());
    s.step(UploadEvent::Chunk { data: wav_chunk(64) });
    assert!(s.well_formed());
    s.total_bytes += 1;
    assert!(!s.well_formed());
    s.total_bytes -= 1;
    s.head.push(1);
    assert!(!s.well_formed());
    s.head.clear();
    s.phase = Phase::Converting;
    assert!(!s.well_formed());
    s.phase = Phase::Finished;
    assert!(!s.well_formed());
    let mut t = session("wav");
    t.step(UploadEvent::EndOfStream);
    t.step(UploadEvent::Flushed);
    assert_eq!(t.phase, Phase::Finished);
    assert!(t.well_formed());
}

#[test]
fn ids_are_written_as_lower_case_digits_in_five_groups() {
    let samples = [
        0u128,
        1,
        0xf,
        0x10,
        0xa1a2a3a4b1b2c1c2d1d2d3d4d5d6d7d8,
        0x0123456789abcdef0123456789abcdef,
        u128::MAX,
        1 << 127,
        0xdeadbeef << 64,
    ];
    for id in samples {
        let digits = format!("{:032x}", id);
        let expected = format!(
            "{}-{}-{}-{}-{}",
            &digits[0..8],
            &digits[8..12],
            &digits[12..16],
            &digits[16..20],
            &digits[20..32]
        );
        assert_eq!(write_upload_id(id), expected);
        assert_eq!(read_upload_id(&expected), Some(id));
    }
}

#[test]
fn prefixes_are_a_stem_and_a_written_id() {
    for name in ["song.mp3", "a/b/c.wav", ".hidden", "x.", "", "..", "dir/"] {
        let prefix = new_prefix(name);
        let (stem, unique) = prefix.rsplit_once('/').unwrap();
        assert!(!stem.is_empty(), "{:?}", name);
        assert_eq!(unique.len(), 36);
        let id = read_upload_id(unique).unwrap();
        assert_eq!(write_upload_id(id), unique);
    }
}
