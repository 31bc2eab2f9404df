use audio_upload_service::events::{
    handle_delivery, route_event, topics_verdict, ConsumerAction, Delivery, MediaErrorEvent,
    MediaStartUploadEvent, MediaUploadedEvent, PodcastEvent, Skipped, TopicOutcome,
};
use audio_upload_service::probe::{Seconds, ValidationResult};

fn podcast(kind: &str, path: Option<&str>) -> PodcastEvent {
    PodcastEvent {
        event_type: kind.to_string(),
        podcast_id: "p-1".to_string(),
        hls_path: path.map(|p| p.to_string()),
        title: None,
        timestamp: "2024-01-01T00:00:00+00:00".to_string(),
    }
}

#[test]
fn event_start_upload() {
    let e = MediaStartUploadEvent::new("id-1", "song.mp3", "now");
    assert_eq!(e.event_type, "media.start_upload");
    assert_eq!(e.upload_id, "id-1");
    assert_eq!(e.filename, "song.mp3");
    assert_eq!(e.timestamp, "now");
    assert_eq!(e.key(), "id-1");
}

#[test]
fn event_uploaded_carries_what_was_found() {
    let found = ValidationResult {
        format_name: Some("mp3".to_string()),
        codec: None,
        sample_rate: Some(44100),
        channels: Some(2),
        duration_secs: Some(Seconds { bits: 12.5f64.to_bits() }),
        bit_rate: Some(128000),
    };
    let e = MediaUploadedEvent::new("id-1", "file-9", "song.mp3", &found, 1234, "audio-hls/x", "t");
    assert_eq!(e.event_type, "media.uploaded");
    assert_eq!(e.upload_id, "id-1");
    assert_eq!(e.file_id, "file-9");
    assert_eq!(e.format.as_deref(), Some("mp3"));
    assert_eq!(e.codec, None);
    assert_eq!(e.sample_rate, Some(44100));
    assert_eq!(e.channels, Some(2));
    assert_eq!(e.duration_secs.map(|d| f64::from_bits(d.bits)), Some(12.5));
    assert_eq!(e.bit_rate, Some(128000));
    assert_eq!(e.size_bytes, 1234);
    assert_eq!(e.hls_path, "audio-hls/x");
    assert_eq!(e.key(), "file-9");
}

#[test]
fn event_error() {
    let e = MediaErrorEvent::new("id-1", "boom", "t");
    assert_eq!(e.event_type, "media.error");
    assert_eq!(e.error_message, "boom");
    assert_eq!(e.key(), "id-1");
}

#[test]
fn consumer_deletes_on_deleted_with_path() {
    let event = podcast("deleted", Some("audio-hls/song/abc-123/playlist.m3u8"));
    match route_event(&event) {
        ConsumerAction::DeletePackage { prefix } => assert_eq!(prefix, "song/abc-123"),
        other => panic!("unexpected: {:?}", other),
    }
}

#[test]
fn consumer_skips_everything_else() {
    let cases = [
        (podcast("deleted", None), Skipped::MissingPath),
        (podcast("created", Some("audio-hls/a/b/c")), Skipped::Created),
        (podcast("updated", None), Skipped::Updated),
        (podcast("archived", Some("audio-hls/a/b/c")), Skipped::UnknownType),
        (podcast("Deleted", Some("audio-hls/a/b/c")), Skipped::UnknownType),
        (podcast("", None), Skipped::UnknownType),
    ];
    for (event, expected) in cases {
        match route_event(&event) {
            ConsumerAction::Skip { why } => assert_eq!(why, expected),
            other => panic!("unexpected: {:?}", other),
        }
    }
}

#[test]
fn consumer_survives_every_bad_delivery() {
    let cases = [
        (Delivery::TransportError { reason: "broker down".to_string() }, Skipped::TransportError),
        (Delivery::EmptyPayload, Skipped::EmptyPayload),
        (Delivery::UndecodablePayload { reason: "utf8".to_string() }, Skipped::UndecodablePayload),
        (Delivery::UnparseablePayload { reason: "json".to_string() }, Skipped::UnparseablePayload),
        (Delivery::Event { event: podcast("created", None) }, Skipped::Created),
    ];
    for (delivery, expected) in cases {
        match handle_delivery(&delivery) {
            ConsumerAction::Skip { why } => assert_eq!(why, expected),
            other => panic!("unexpected: {:?}", other),
        }
    }
    let delivery = Delivery::Event { event: podcast("deleted", Some("audio-hls/s/u/playlist.m3u8")) };
    assert!(matches!(
        handle_delivery(&delivery),
        ConsumerAction::DeletePackage { prefix } if prefix == "s/u"
    ));
}

#[test]
fn topics_existing_already_are_ready() {
    assert_eq!(topics_verdict(&vec![]), Ok(()));
    assert_eq!(topics_verdict(&vec![TopicOutcome::Created, TopicOutcome::AlreadyExists]), Ok(()));
    let outcomes = vec![
        TopicOutcome::AlreadyExists,
        TopicOutcome::Failed { code: "InvalidReplicationFactor".to_string() },
        TopicOutcome::Failed { code: "Other".to_string() },
    ];
    assert_eq!(topics_verdict(&outcomes), Err(1));
}
