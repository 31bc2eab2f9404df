use audio_upload_service::probe::{
    assess_decode, assess_probe, assess_probe_exit, decode_verdict, enforce_policy, find_audio,
    DecodeError, FfprobeFormat, FfprobeOutput, FfprobeStream, ProbeError, ProbedDuration, Seconds,
};

fn secs(value: f64) -> Seconds {
    Seconds { bits: value.to_bits() }
}

fn probed(value: f64) -> ProbedDuration {
    ProbedDuration { seconds: secs(value), rounded: format!("{:.0}", value) }
}

fn audio(duration: Option<f64>) -> FfprobeStream {
    FfprobeStream {
        codec_type: Some("audio".to_string()),
        codec_name: Some("mp3".to_string()),
        sample_rate: Some("44100".to_string()),
        channels: Some(2),
        duration: duration.map(probed),
        bit_rate: Some("128000".to_string()),
    }
}

fn report(streams: Vec<FfprobeStream>) -> FfprobeOutput {
    FfprobeOutput {
        streams: Some(streams),
        format: Some(FfprobeFormat {
            format_name: Some("mp3".to_string()),
            duration: Some(probed(12.5)),
            bit_rate: Some("64000".to_string()),
            nb_streams: Some(1),
        }),
    }
}

#[test]
fn probe_duration_zero_is_rejected() {
    assert!(matches!(
        assess_probe(report(vec![audio(Some(0.0))])),
        Err(ProbeError::NonPositiveDuration)
    ));
}

#[test]
fn probe_duration_3601_is_rejected() {
    match assess_probe(report(vec![audio(Some(3601.0))])) {
        Err(error) => {
            assert_eq!(error.message(), "Аудиофайл слишком длинный: 3601 сек (максимум: 3600 сек)");
            match error {
                ProbeError::DurationTooLong { duration, rounded } => {
                    assert_eq!(f64::from_bits(duration.bits), 3601.0);
                    assert_eq!(rounded, "3601");
                }
                other => panic!("unexpected: {:?}", other),
            }
        }
        other => panic!("unexpected: {:?}", other),
    }
}

#[test]
fn probe_duration_3600_is_accepted() {
    let found = assess_probe(report(vec![audio(Some(3600.0))])).unwrap();
    assert_eq!(found.duration_secs, Some(secs(3600.0)));
    assert_eq!(found.codec.as_deref(), Some("mp3"));
    assert_eq!(found.format_name.as_deref(), Some("mp3"));
    assert_eq!(found.sample_rate, Some(44100));
    assert_eq!(found.channels, Some(2));
    assert_eq!(found.bit_rate, Some(128000));
}

#[test]
fn probe_duration_agrees_with_float_comparison() {
    let samples = [
        0.0,
        -0.0,
        -1.0,
        f64::MIN_POSITIVE,
        5e-324,
        0.001,
        1.0,
        3599.999,
        3600.0,
        3600.0000000000005,
        3600.001,
        3601.0,
        1e300,
        f64::INFINITY,
        f64::NEG_INFINITY,
        f64::NAN,
        -f64::NAN,
        f64::MAX,
        f64::MIN,
    ];
    for value in samples {
        let d = secs(value);
        assert_eq!(d.zero_or_negative(), value <= 0.0, "{}", value);
        assert_eq!(d.over_limit(), value > 3600.0, "{}", value);
    }
}

#[test]
fn probe_duration_falls_back_to_the_container() {
    let found = assess_probe(report(vec![audio(None)])).unwrap();
    assert_eq!(found.duration_secs, Some(secs(12.5)));
    let mut without = report(vec![audio(None)]);
    without.format = None;
    let found = assess_probe(without).unwrap();
    assert_eq!(found.duration_secs, None);
    assert_eq!(found.format_name, None);
}

#[test]
fn probe_bit_rate_falls_back_to_the_container() {
    let mut stream = audio(Some(10.0));
    stream.bit_rate = Some("N/A".to_string());
    assert_eq!(assess_probe(report(vec![stream])).unwrap().bit_rate, Some(64000));
    let mut stream = audio(Some(10.0));
    stream.bit_rate = None;
    assert_eq!(assess_probe(report(vec![stream])).unwrap().bit_rate, Some(64000));
}

#[test]
fn probe_sample_rate_bounds() {
    for (text, ok) in [("7999", false), ("8000", true), ("192000", true), ("192001", false)] {
        let mut stream = audio(Some(10.0));
        stream.sample_rate = Some(text.to_string());
        let verdict = assess_probe(report(vec![stream]));
        assert_eq!(verdict.is_ok(), ok, "{}", text);
        if !ok {
            match verdict {
                Err(ProbeError::SampleRateOutOfRange { sample_rate }) => {
                    assert_eq!(sample_rate.to_string(), text)
                }
                other => panic!("unexpected: {:?}", other),
            }
        }
    }
    let mut stream = audio(Some(10.0));
    stream.sample_rate = Some("fast".to_string());
    assert_eq!(assess_probe(report(vec![stream])).unwrap().sample_rate, None);
}

#[test]
fn probe_channel_bounds() {
    for (channels, ok) in [(0u32, false), (1, true), (8, true), (9, false)] {
        let mut stream = audio(Some(10.0));
        stream.channels = Some(channels);
        let verdict = assess_probe(report(vec![stream]));
        assert_eq!(verdict.is_ok(), ok, "{}", channels);
        if !ok {
            assert!(matches!(
                verdict,
                Err(ProbeError::ChannelsOutOfRange { channels: c }) if c == channels
            ));
        }
    }
}

#[test]
fn probe_first_violation_wins() {
    let mut stream = audio(Some(0.0));
    stream.sample_rate = Some("1".to_string());
    stream.channels = Some(0);
    assert!(matches!(
        assess_probe(report(vec![stream])),
        Err(ProbeError::NonPositiveDuration)
    ));
    let mut stream = audio(Some(1.0));
    stream.sample_rate = Some("1".to_string());
    stream.channels = Some(0);
    assert!(matches!(
        assess_probe(report(vec![stream])),
        Err(ProbeError::SampleRateOutOfRange { sample_rate: 1 })
    ));
}

#[test]
fn probe_missing_streams() {
    let none = FfprobeOutput { streams: None, format: None };
    assert!(matches!(assess_probe(none), Err(ProbeError::NoStreams)));
    assert!(matches!(assess_probe(report(vec![])), Err(ProbeError::NoAudioStream)));
    let mut video = audio(Some(1.0));
    video.codec_type = Some("video".to_string());
    let mut untyped = audio(Some(1.0));
    untyped.codec_type = None;
    assert!(matches!(
        assess_probe(report(vec![video, untyped])),
        Err(ProbeError::NoAudioStream)
    ));
}

#[test]
fn probe_takes_the_first_audio_stream() {
    let mut video = audio(Some(1.0));
    video.codec_type = Some("video".to_string());
    let mut first = audio(Some(2.0));
    first.codec_name = Some("first".to_string());
    let mut second = audio(Some(3.0));
    second.codec_name = Some("second".to_string());
    let streams = vec![video, first, second];
    assert_eq!(find_audio(&streams), Some(1));
    let found = assess_probe(report(streams)).unwrap();
    assert_eq!(found.codec.as_deref(), Some("first"));
    assert_eq!(found.duration_secs, Some(secs(2.0)));
}

#[test]
fn probe_policy_lets_missing_parts_through() {
    assert_eq!(enforce_policy(None, None, None).unwrap(), None);
    assert_eq!(enforce_policy(Some(probed(1.5)), Some(8000), Some(1)).unwrap(), Some(secs(1.5)));
    assert!(matches!(
        enforce_policy(Some(probed(1.5)), Some(8000), Some(0)),
        Err(ProbeError::ChannelsOutOfRange { channels: 0 })
    ));
}

#[test]
fn probe_duration_that_is_no_number_is_rejected() {
    for value in [f64::NAN, -f64::NAN, f64::from_bits(0x7FF8_0000_0000_0000), f64::from_bits(0x7FF0_0000_0000_0001)] {
        assert!(secs(value).not_a_number());
        assert!(matches!(
            assess_probe(report(vec![audio(Some(value))])),
            Err(ProbeError::DurationNotANumber)
        ));
    }
    for value in [0.0, -1.0, 1.0, 3600.0, 1e300, f64::INFINITY, f64::NEG_INFINITY, f64::MAX] {
        assert!(!secs(value).not_a_number(), "{}", value);
    }
    // a stream duration that is no number does not fall back to the container's
    let mut with_format = report(vec![audio(Some(f64::NAN))]);
    with_format.format.as_mut().unwrap().duration = Some(probed(10.0));
    assert!(matches!(assess_probe(with_format), Err(ProbeError::DurationNotANumber)));
    assert_eq!(
        ProbeError::DurationNotANumber.message(),
        "Аудиофайл имеет некорректную длительность"
    );
    // infinity is a number, and too long
    assert!(matches!(
        assess_probe(report(vec![audio(Some(f64::INFINITY))])),
        Err(ProbeError::DurationTooLong { .. })
    ));
}

#[test]
fn probe_exit_trims_diagnostics() {
    assert!(assess_probe_exit(true, "noise").is_ok());
    match assess_probe_exit(false, "  no such file \n") {
        Err(ProbeError::ToolFailed { diagnostics }) => assert_eq!(diagnostics, "no such file"),
        other => panic!("unexpected: {:?}", other),
    }
    let err = assess_probe_exit(false, " \n").unwrap_err();
    assert_eq!(err.message(), "ffprobe не смог прочитать файл: неизвестная ошибка");
}

#[test]
fn probe_messages() {
    assert_eq!(
        ProbeError::SampleRateOutOfRange { sample_rate: 4000 }.message(),
        "Недопустимый sample rate: 4000 Hz (допустимо: 8000–192000 Hz)"
    );
    assert_eq!(
        ProbeError::ChannelsOutOfRange { channels: 12 }.message(),
        "Недопустимое количество каналов: 12 (допустимо: 1–8)"
    );
    assert_eq!(ProbeError::NoAudioStream.message(), "Файл не содержит аудиопотока");
    assert_eq!(
        ProbeError::LaunchFailed { reason: "not found".to_string() }.message(),
        "Не удалось запустить ffprobe: not found. Установлен ли ffmpeg?"
    );
    assert_eq!(
        ProbeError::Unparseable { reason: "EOF at line 1".to_string() }.message(),
        "Не удалось распарсить вывод ffprobe: EOF at line 1"
    );
    assert_eq!(ProbeError::NoStreams.message(), "ffprobe не обнаружил потоков в файле");
    assert_eq!(
        ProbeError::NonPositiveDuration.message(),
        "Аудиофайл имеет нулевую или отрицательную длительность"
    );
    assert_eq!(
        ProbeError::ToolFailed { diagnostics: "moov atom not found".to_string() }.message(),
        "ffprobe не смог прочитать файл: moov atom not found"
    );
    assert_eq!(
        ProbeError::DurationTooLong { duration: secs(4000.4), rounded: "4000".to_string() }
            .message(),
        "Аудиофайл слишком длинный: 4000 сек (максимум: 3600 сек)"
    );
}

#[test]
fn decode_sound_file_passes() {
    assert!(assess_decode(true, "", "exit status: 0").is_ok());
    assert!(assess_decode(true, "  \n\t", "exit status: 0").is_ok());
}

#[test]
fn decode_failure_without_diagnostics_reports_the_status() {
    match assess_decode(false, "\n", "exit status: 1") {
        Err(DecodeError::Failed { status }) => assert_eq!(status, "exit status: 1"),
        other => panic!("unexpected: {:?}", other),
    }
}

#[test]
fn decode_diagnostics_mean_corruption_even_on_success() {
    match assess_decode(true, " Header missing \n", "exit status: 0") {
        Err(DecodeError::Corrupt { diagnostics }) => assert_eq!(diagnostics, "Header missing"),
        other => panic!("unexpected: {:?}", other),
    }
}

#[test]
fn decode_diagnostics_are_clipped_to_500_characters() {
    let long: String = std::iter::repeat('ж').take(700).collect();
    match decode_verdict(false, &long, "exit status: 1") {
        Err(DecodeError::Corrupt { diagnostics }) => {
            assert_eq!(diagnostics.chars().count(), 500);
            assert!(long.starts_with(&diagnostics));
        }
        other => panic!("unexpected: {:?}", other),
    }
    let exact: String = std::iter::repeat('x').take(500).collect();
    match decode_verdict(false, &exact, "exit status: 1") {
        Err(DecodeError::Corrupt { diagnostics }) => assert_eq!(diagnostics, exact),
        other => panic!("unexpected: {:?}", other),
    }
}

#[test]
fn decode_messages() {
    assert_eq!(
        DecodeError::Corrupt { diagnostics: "bad frame".to_string() }.message(),
        "Ошибки декодирования: bad frame"
    );
    assert_eq!(
        DecodeError::Failed { status: "exit status: 1".to_string() }.message(),
        "ffmpeg завершился с кодом exit status: 1"
    );
    assert_eq!(
        DecodeError::LaunchFailed { reason: "not found".to_string() }.message(),
        "Не удалось запустить ffmpeg: not found"
    );
}
