//! The deep checks: what the probing tool reports about a file's first audio
//! stream, held against the policy bounds, and the verdict on a full decode
//! pass.

use vstd::prelude::*;
use vstd::string::StringExecFns;
use vstd::string::StrSliceExecFns;
use crate::text::{text_eq, parse_unsigned, parsed_unsigned, trim, trimmed, concat3, decimal, decimal_text};

verus! {

/// Lowest accepted sample rate, in Hz.
pub const MIN_SAMPLE_RATE: u32 = 8000;

/// Highest accepted sample rate, in Hz.
pub const MAX_SAMPLE_RATE: u32 = 192000;

/// Highest accepted channel count.
pub const MAX_CHANNELS: u32 = 8;

/// The sign bit of a 64-bit binary floating-point number.
pub const SIGN_BIT: u64 = 0x8000_0000_0000_0000;

/// The bit pattern of positive infinity; greater magnitudes are not numbers.
pub const INFINITY_BITS: u64 = 0x7FF0_0000_0000_0000;

/// The bit pattern of the longest accepted duration, one hour in seconds.
pub const MAX_DURATION_BITS: u64 = 0x40AC_2000_0000_0000;

/// Most characters of decoder diagnostics that are kept in an error.
pub const MAX_DIAGNOSTIC_CHARS: usize = 500;

/// A duration in seconds as the probing tool reports it: a 64-bit binary
/// floating-point number, held here by its bit pattern. Among numbers of one
/// sign the bit patterns are ordered as the numbers are, which is all the
/// policy needs.
#[derive(Clone, Copy, Debug, PartialEq, Eq, Structural)]
pub struct Seconds {
    pub bits: u64,
}

impl Seconds {
    /// The bit pattern without its sign.
    pub open spec fn magnitude(self) -> int {
        if self.bits >= SIGN_BIT {
            self.bits - SIGN_BIT
        } else {
            self.bits as int
        }
    }

    /// The pattern stands for no number at all.
    pub open spec fn is_nan(self) -> bool {
        self.magnitude() > INFINITY_BITS
    }

    /// The duration is a number that is zero or negative.
    pub open spec fn is_zero_or_negative(self) -> bool {
        !self.is_nan() && (self.bits >= SIGN_BIT || self.bits == 0)
    }

    /// The duration is a number greater than one hour.
    pub open spec fn is_over_limit(self) -> bool {
        !self.is_nan() && self.bits < SIGN_BIT && self.bits > MAX_DURATION_BITS
    }

    /// The duration lies in the accepted range: it is a number, above zero
    /// and at most one hour.
    pub open spec fn is_acceptable(self) -> bool {
        !self.is_nan() && !self.is_zero_or_negative() && !self.is_over_limit()
    }

    /// Whether the pattern stands for no number at all.
    pub fn not_a_number(&self) -> (r: bool)
        ensures
            r == self.is_nan(),
    {
        if self.bits >= SIGN_BIT {
            self.bits - SIGN_BIT > INFINITY_BITS
        } else {
            self.bits > INFINITY_BITS
        }
    }

    /// Whether the duration is zero or negative.
    pub fn zero_or_negative(&self) -> (r: bool)
        ensures
            r == self.is_zero_or_negative(),
    {
        if self.bits >= SIGN_BIT {
            self.bits - SIGN_BIT <= INFINITY_BITS
        } else {
            self.bits == 0
        }
    }

    /// Whether the duration is greater than one hour.
    pub fn over_limit(&self) -> (r: bool)
        ensures
            r == self.is_over_limit(),
    {
        self.bits > MAX_DURATION_BITS && self.bits <= INFINITY_BITS
    }
}

/// A duration as it was read from the probing tool's report: the number, and
/// the number in words of its own, rounded to whole seconds, for messages.
#[derive(Debug)]
pub struct ProbedDuration {
    pub seconds: Seconds,
    pub rounded: String,
}

/// One stream of the probing tool's report.
#[derive(Debug)]
pub struct FfprobeStream {
    pub codec_type: Option<String>,
    pub codec_name: Option<String>,
    pub sample_rate: Option<String>,
    pub channels: Option<u32>,
    /// The reported duration, where it is present and reads as a number.
    pub duration: Option<ProbedDuration>,
    pub bit_rate: Option<String>,
}

/// The container-level part of the probing tool's report.
#[derive(Debug)]
pub struct FfprobeFormat {
    pub format_name: Option<String>,
    /// The reported duration, where it is present and reads as a number.
    pub duration: Option<ProbedDuration>,
    pub bit_rate: Option<String>,
    pub nb_streams: Option<u32>,
}

/// The probing tool's report on one file.
#[derive(Debug)]
pub struct FfprobeOutput {
    pub streams: Option<Vec<FfprobeStream>>,
    pub format: Option<FfprobeFormat>,
}

/// What is known of a file that passed the policy. Any part may be missing,
/// because the probing tool may leave it out.
#[derive(Debug)]
pub struct ValidationResult {
    pub format_name: Option<String>,
    pub codec: Option<String>,
    pub sample_rate: Option<u32>,
    pub channels: Option<u32>,
    pub duration_secs: Option<Seconds>,
    pub bit_rate: Option<u64>,
}

/// Why the deep checks turned a file down.
#[derive(Debug)]
pub enum ProbeError {
    /// The probing tool could not be started.
    LaunchFailed { reason: String },
    /// The probing tool ended unsuccessfully; its trimmed diagnostics.
    ToolFailed { diagnostics: String },
    /// The probing tool's output could not be read as a report.
    Unparseable { reason: String },
    /// The report lists no streams at all.
    NoStreams,
    /// None of the streams is an audio stream.
    NoAudioStream,
    /// The duration is zero or negative.
    NonPositiveDuration,
    /// The duration is more than one hour; the duration, and the same
    /// rounded to whole seconds as it is shown.
    DurationTooLong { duration: Seconds, rounded: String },
    /// The duration is not a number.
    DurationNotANumber,
    /// The sample rate lies outside the accepted range.
    SampleRateOutOfRange { sample_rate: u32 },
    /// The channel count is zero or above the accepted maximum.
    ChannelsOutOfRange { channels: u32 },
}

/// Why the decode pass turned a file down.
#[derive(Debug)]
pub enum DecodeError {
    /// The decoder could not be started.
    LaunchFailed { reason: String },
    /// The decoder ended unsuccessfully without saying why; its exit status.
    Failed { status: String },
    /// The decoder reported errors; at most the first
    /// `MAX_DIAGNOSTIC_CHARS` characters of them.
    Corrupt { diagnostics: String },
}

/// The stream is an audio stream.
pub open spec fn is_audio(stream: FfprobeStream) -> bool {
    stream.codec_type matches Some(t) && t@ == "audio"@
}

/// Position `i` holds the first audio stream of `streams`.
pub open spec fn is_first_audio(streams: Seq<FfprobeStream>, i: int) -> bool {
    &&& 0 <= i < streams.len()
    &&& is_audio(streams[i])
    &&& forall|j: int| 0 <= j < i ==> !is_audio(#[trigger] streams[j])
}

/// Some stream of `streams` is an audio stream.
pub open spec fn has_audio(streams: Seq<FfprobeStream>) -> bool {
    exists|i: int| 0 <= i < streams.len() && is_audio(#[trigger] streams[i])
}

/// The first audio stream of `streams`, if there is one.
pub open spec fn first_audio(streams: Seq<FfprobeStream>) -> Option<FfprobeStream> {
    if has_audio(streams) {
        Some(streams[choose|i: int| is_first_audio(streams, i)])
    } else {
        None
    }
}

/// The number that an optional text spells, if it spells one that fits 32
/// bits.
pub open spec fn parsed_u32(text: Option<String>) -> Option<u32> {
    match text {
        Some(t) => match parsed_unsigned(t@, u32::MAX as nat) {
            Some(v) => Some(v as u32),
            None => None,
        },
        None => None,
    }
}

/// The number that an optional text spells, if it spells one that fits 64
/// bits.
pub open spec fn parsed_u64(text: Option<String>) -> Option<u64> {
    match text {
        Some(t) => match parsed_unsigned(t@, u64::MAX as nat) {
            Some(v) => Some(v as u64),
            None => None,
        },
        None => None,
    }
}

/// The first of two optional values that is present.
pub open spec fn or_else<T>(a: Option<T>, b: Option<T>) -> Option<T> {
    if a is Some {
        a
    } else {
        b
    }
}

/// The duration that counts for the chosen stream: the stream's own where it
/// has one, the container's otherwise.
pub open spec fn effective_duration(stream: FfprobeStream, format: Option<FfprobeFormat>) -> Option<
    ProbedDuration,
> {
    or_else(
        stream.duration,
        match format {
            Some(f) => f.duration,
            None => None,
        },
    )
}

/// The number of a duration that was read, if one was.
pub open spec fn seconds_of(duration: Option<ProbedDuration>) -> Option<Seconds> {
    match duration {
        Some(d) => Some(d.seconds),
        None => None,
    }
}

/// What the report says of the chosen stream. Duration and bit rate are taken
/// from the stream where it has them and from the container otherwise.
pub open spec fn reading(stream: FfprobeStream, format: Option<FfprobeFormat>) -> ValidationResult {
    ValidationResult {
        format_name: match format {
            Some(f) => f.format_name,
            None => None,
        },
        codec: stream.codec_name,
        sample_rate: parsed_u32(stream.sample_rate),
        channels: stream.channels,
        duration_secs: seconds_of(effective_duration(stream, format)),
        bit_rate: or_else(
            parsed_u64(stream.bit_rate),
            match format {
                Some(f) => parsed_u64(f.bit_rate),
                None => None,
            },
        ),
    }
}

/// The first policy bound that a reading breaks, if it breaks any: a
/// duration that is a number, above zero and at most one hour; a sample rate
/// from `MIN_SAMPLE_RATE` to `MAX_SAMPLE_RATE`; channels from one to
/// `MAX_CHANNELS`. A part that the report leaves out breaks no bound.
pub open spec fn policy_violation(
    duration: Option<ProbedDuration>,
    sample_rate: Option<u32>,
    channels: Option<u32>,
) -> Option<ProbeError> {
    if duration is Some && duration->0.seconds.is_nan() {
        Some(ProbeError::DurationNotANumber)
    } else if duration is Some && duration->0.seconds.is_zero_or_negative() {
        Some(ProbeError::NonPositiveDuration)
    } else if duration is Some && duration->0.seconds.is_over_limit() {
        Some(
            ProbeError::DurationTooLong {
                duration: duration->0.seconds,
                rounded: duration->0.rounded,
            },
        )
    } else if sample_rate is Some && (sample_rate->0 < MIN_SAMPLE_RATE || sample_rate->0
        > MAX_SAMPLE_RATE) {
        Some(ProbeError::SampleRateOutOfRange { sample_rate: sample_rate->0 })
    } else if channels is Some && (channels->0 == 0 || channels->0 > MAX_CHANNELS) {
        Some(ProbeError::ChannelsOutOfRange { channels: channels->0 })
    } else {
        None
    }
}

/// The verdict on a report: the reading of its first audio stream where that
/// exists and breaks no policy bound, and the reason for rejection otherwise.
pub open spec fn probe_judgement(report: FfprobeOutput) -> Result<ValidationResult, ProbeError> {
    match report.streams {
        None => Err(ProbeError::NoStreams),
        Some(streams) => match first_audio(streams@) {
            None => Err(ProbeError::NoAudioStream),
            Some(stream) => {
                match policy_violation(
                    effective_duration(stream, report.format),
                    parsed_u32(stream.sample_rate),
                    stream.channels,
                ) {
                    Some(e) => Err(e),
                    None => Ok(reading(stream, report.format)),
                }
            },
        },
    }
}

/// Hold a duration, a sample rate and a channel count against the policy
/// bounds. Where none is broken, the number of the duration is handed back.
pub fn enforce_policy(
    duration: Option<ProbedDuration>,
    sample_rate: Option<u32>,
    channels: Option<u32>,
) -> (r: Result<Option<Seconds>, ProbeError>)
    ensures
        r == match policy_violation(duration, sample_rate, channels) {
            Some(e) => Err::<Option<Seconds>, ProbeError>(e),
            None => Ok::<Option<Seconds>, ProbeError>(seconds_of(duration)),
        },
{
    let seconds = match duration {
        Some(d) => {
            if d.seconds.not_a_number() {
                return Err(ProbeError::DurationNotANumber);
            }
            if d.seconds.zero_or_negative() {
                return Err(ProbeError::NonPositiveDuration);
            }
            if d.seconds.over_limit() {
                return Err(
                    ProbeError::DurationTooLong { duration: d.seconds, rounded: d.rounded },
                );
            }
            Some(d.seconds)
        },
        None => None,
    };
    match sample_rate {
        Some(sr) => {
            if sr < MIN_SAMPLE_RATE || sr > MAX_SAMPLE_RATE {
                return Err(ProbeError::SampleRateOutOfRange { sample_rate: sr });
            }
        },
        None => {},
    }
    match channels {
        Some(ch) => {
            if ch == 0 || ch > MAX_CHANNELS {
                return Err(ProbeError::ChannelsOutOfRange { channels: ch });
            }
        },
        None => {},
    }
    Ok(seconds)
}

/// Whether the stream is an audio stream.
pub fn stream_is_audio(stream: &FfprobeStream) -> (r: bool)
    ensures
        r == is_audio(*stream),
{
    match &stream.codec_type {
        Some(t) => text_eq(t.as_str(), "audio"),
        None => false,
    }
}

/// The position of the first audio stream, if there is one.
pub fn find_audio(streams: &Vec<FfprobeStream>) -> (r: Option<usize>)
    ensures
        match r {
            Some(i) => is_first_audio(streams@, i as int),
            None => !has_audio(streams@),
        },
{
    let mut i: usize = 0;
    while i < streams.len()
        invariant
            i <= streams@.len(),
            forall|j: int| 0 <= j < i ==> !is_audio(#[trigger] streams@[j]),
        decreases streams@.len() - i,
    {
        if stream_is_audio(&streams[i]) {
            return Some(i);
        }
        i += 1;
    }
    None
}

/// Read an optional numeral of at most 32 bits.
fn parse_u32(text: &Option<String>) -> (r: Option<u32>)
    ensures
        r == parsed_u32(*text),
{
    match text {
        Some(t) => match parse_unsigned(t.as_str(), 0xFFFF_FFFF) {
            Some(v) => Some(v as u32),
            None => None,
        },
        None => None,
    }
}

/// Read an optional numeral of at most 64 bits.
fn parse_u64(text: &Option<String>) -> (r: Option<u64>)
    ensures
        r == parsed_u64(*text),
{
    match text {
        Some(t) => parse_unsigned(t.as_str(), 0xFFFF_FFFF_FFFF_FFFF),
        None => None,
    }
}

/// Judge what the probing tool reported about a file: pick the first audio
/// stream, read its properties, and hold them against the policy bounds.
pub fn assess_probe(report: FfprobeOutput) -> (r: Result<ValidationResult, ProbeError>)
    ensures
        r == probe_judgement(report),
{
    let FfprobeOutput { streams, format } = report;
    let mut streams = match streams {
        Some(v) => v,
        None => {
            return Err(ProbeError::NoStreams);
        },
    };
    let index = match find_audio(&streams) {
        Some(i) => i,
        None => {
            return Err(ProbeError::NoAudioStream);
        },
    };
    proof {
        let chosen = choose|i: int| is_first_audio(streams@, i);
        assert(is_first_audio(streams@, index as int));
        assert(chosen == index) by {
            if chosen < index {
                assert(!is_audio(streams@[chosen]));
            } else if index < chosen {
                assert(!is_audio(streams@[index as int]));
            }
        }
    }
    let stream = streams.swap_remove(index);
    let sample_rate = parse_u32(&stream.sample_rate);
    let own_bit_rate = parse_u64(&stream.bit_rate);
    let (format_name, container_duration, container_bit_rate) = match format {
        Some(f) => {
            let rate = parse_u64(&f.bit_rate);
            (f.format_name, f.duration, rate)
        },
        None => (None, None, None),
    };
    let duration = match stream.duration {
        Some(d) => Some(d),
        None => container_duration,
    };
    let bit_rate = match own_bit_rate {
        Some(b) => Some(b),
        None => container_bit_rate,
    };
    match enforce_policy(duration, sample_rate, stream.channels) {
        Err(e) => Err(e),
        Ok(duration_secs) => Ok(
            ValidationResult {
                format_name,
                codec: stream.codec_name,
                sample_rate,
                channels: stream.channels,
                duration_secs,
                bit_rate,
            },
        ),
    }
}

/// The verdict on how the probing tool ended, given its trimmed diagnostics:
/// an unsuccessful end is a failure that carries them.
pub fn probe_exit_verdict(success: bool, diagnostics: &str) -> (r: Result<(), ProbeError>)
    ensures
        match r {
            Ok(_) => success,
            Err(ProbeError::ToolFailed { diagnostics: d }) => !success && d@ == diagnostics@,
            Err(_) => false,
        },
{
    if success {
        Ok(())
    } else {
        Err(ProbeError::ToolFailed { diagnostics: String::from_str(diagnostics) })
    }
}

/// The verdict on how the probing tool ended, given what it wrote to its
/// error stream.
pub fn assess_probe_exit(success: bool, stderr: &str) -> (r: Result<(), ProbeError>)
    ensures
        match r {
            Ok(_) => success,
            Err(ProbeError::ToolFailed { diagnostics: d }) => !success && d@ == trimmed(stderr@),
            Err(_) => false,
        },
{
    probe_exit_verdict(success, trim(stderr))
}

/// The first `MAX_DIAGNOSTIC_CHARS` characters of a text; all of it where it
/// is no longer.
pub open spec fn clipped(s: Seq<char>) -> Seq<char> {
    if s.len() > MAX_DIAGNOSTIC_CHARS {
        s.subrange(0, MAX_DIAGNOSTIC_CHARS as int)
    } else {
        s
    }
}

/// The verdict on a full decode pass, given the decoder's trimmed
/// diagnostics: the file is sound only if the decoder ended successfully and
/// reported nothing. Diagnostics, where there are any, take precedence over
/// the exit status as the reason.
pub fn decode_verdict(success: bool, diagnostics: &str, status: &str) -> (r: Result<
    (),
    DecodeError,
>)
    ensures
        match r {
            Ok(_) => success && diagnostics@.len() == 0,
            Err(DecodeError::Failed { status: st }) => !success && diagnostics@.len() == 0 && st@
                == status@,
            Err(DecodeError::Corrupt { diagnostics: d }) => diagnostics@.len() > 0 && d@ == clipped(
                diagnostics@,
            ),
            Err(DecodeError::LaunchFailed { .. }) => false,
        },
{
    let n: usize = diagnostics.unicode_len();
    if n == 0 {
        if success {
            Ok(())
        } else {
            Err(DecodeError::Failed { status: String::from_str(status) })
        }
    } else {
        let keep: usize = if n > MAX_DIAGNOSTIC_CHARS {
            MAX_DIAGNOSTIC_CHARS
        } else {
            n
        };
        let kept = diagnostics.substring_char(0, keep);
        proof {
            assert(diagnostics@.subrange(0, n as int) =~= diagnostics@);
        }
        Err(DecodeError::Corrupt { diagnostics: String::from_str(kept) })
    }
}

/// The verdict on a full decode pass, given what the decoder wrote to its
/// error stream.
pub fn assess_decode(success: bool, stderr: &str, status: &str) -> (r: Result<(), DecodeError>)
    ensures
        match r {
            Ok(_) => success && trimmed(stderr@).len() == 0,
            Err(DecodeError::Failed { status: st }) => !success && trimmed(stderr@).len() == 0
                && st@ == status@,
            Err(DecodeError::Corrupt { diagnostics: d }) => trimmed(stderr@).len() > 0 && d@
                == clipped(trimmed(stderr@)),
            Err(DecodeError::LaunchFailed { .. }) => false,
        },
{
    decode_verdict(success, trim(stderr), status)
}

impl ProbeError {
    /// The reason in words, for the person who sent the file.
    pub open spec fn message_text(self) -> Seq<char> {
        match self {
            ProbeError::LaunchFailed { reason } => "Не удалось запустить ffprobe: "@ + reason@
                + ". Установлен ли ffmpeg?"@,
            ProbeError::ToolFailed { diagnostics } => "ffprobe не смог прочитать файл: "@ + (
            if diagnostics@.len() == 0 {
                "неизвестная ошибка"@
            } else {
                diagnostics@
            }),
            ProbeError::Unparseable { reason } => "Не удалось распарсить вывод ffprobe: "@
                + reason@,
            ProbeError::NoStreams => "ffprobe не обнаружил потоков в файле"@,
            ProbeError::NoAudioStream => "Файл не содержит аудиопотока"@,
            ProbeError::NonPositiveDuration =>
                "Аудиофайл имеет нулевую или отрицательную длительность"@,
            ProbeError::DurationTooLong { rounded, .. } => "Аудиофайл слишком длинный: "@
                + rounded@ + " сек (максимум: 3600 сек)"@,
            ProbeError::DurationNotANumber => "Аудиофайл имеет некорректную длительность"@,
            ProbeError::SampleRateOutOfRange { sample_rate } => "Недопустимый sample rate: "@
                + decimal_text(sample_rate as nat) + " Hz (допустимо: 8000–192000 Hz)"@,
            ProbeError::ChannelsOutOfRange { channels } => "Недопустимое количество каналов: "@
                + decimal_text(channels as nat) + " (допустимо: 1–8)"@,
        }
    }

    /// The reason in words.
    pub fn message(&self) -> (r: String)
        ensures
            r@ == self.message_text(),
    {
        match self {
            ProbeError::LaunchFailed { reason } => concat3(
                "Не удалось запустить ffprobe: ",
                reason.as_str(),
                ". Установлен ли ffmpeg?",
            ),
            ProbeError::ToolFailed { diagnostics } => {
                let mut out = String::from_str("ffprobe не смог прочитать файл: ");
                if diagnostics.as_str().unicode_len() == 0 {
                    out.append("неизвестная ошибка");
                } else {
                    out.append(diagnostics.as_str());
                }
                out
            },
            ProbeError::Unparseable { reason } => {
                let mut out = String::from_str("Не удалось распарсить вывод ffprobe: ");
                out.append(reason.as_str());
                out
            },
            ProbeError::NoStreams => String::from_str("ffprobe не обнаружил потоков в файле"),
            ProbeError::NoAudioStream => String::from_str("Файл не содержит аудиопотока"),
            ProbeError::NonPositiveDuration => String::from_str(
                "Аудиофайл имеет нулевую или отрицательную длительность",
            ),
            ProbeError::DurationTooLong { rounded, .. } => concat3(
                "Аудиофайл слишком длинный: ",
                rounded.as_str(),
                " сек (максимум: 3600 сек)",
            ),
            ProbeError::DurationNotANumber => String::from_str(
                "Аудиофайл имеет некорректную длительность",
            ),
            ProbeError::SampleRateOutOfRange { sample_rate } => {
                let number = decimal(*sample_rate as u64);
                concat3(
                    "Недопустимый sample rate: ",
                    number.as_str(),
                    " Hz (допустимо: 8000–192000 Hz)",
                )
            },
            ProbeError::ChannelsOutOfRange { channels } => {
                let number = decimal(*channels as u64);
                concat3("Недопустимое количество каналов: ", number.as_str(), " (допустимо: 1–8)")
            },
        }
    }
}

impl DecodeError {
    /// The reason in words, for the person who sent the file.
    pub open spec fn message_text(self) -> Seq<char> {
        match self {
            DecodeError::LaunchFailed { reason } => "Не удалось запустить ffmpeg: "@ + reason@,
            DecodeError::Failed { status } => "ffmpeg завершился с кодом "@ + status@,
            DecodeError::Corrupt { diagnostics } => "Ошибки декодирования: "@ + diagnostics@,
        }
    }

    /// The reason in words.
    pub fn message(&self) -> (r: String)
        ensures
            r@ == self.message_text(),
    {
        match self {
            DecodeError::LaunchFailed { reason } => {
                let mut out = String::from_str("Не удалось запустить ffmpeg: ");
                out.append(reason.as_str());
                out
            },
            DecodeError::Failed { status } => {
                let mut out = String::from_str("ffmpeg завершился с кодом ");
                out.append(status.as_str());
                out
            },
            DecodeError::Corrupt { diagnostics } => {
                let mut out = String::from_str("Ошибки декодирования: ");
                out.append(diagnostics.as_str());
                out
            },
        }
    }
}

/// A reading that is accepted lies within the policy bounds in every part
/// that it has: its duration is a number above zero and at most one hour, its
/// sample rate from `MIN_SAMPLE_RATE` to `MAX_SAMPLE_RATE`, its channels from
/// one to `MAX_CHANNELS`.
pub proof fn law_accepted_reading_is_within_bounds(report: FfprobeOutput)
    ensures
        probe_judgement(report) matches Ok(found) ==> {
            &&& found.duration_secs matches Some(d) ==> d.is_acceptable()
            &&& found.sample_rate matches Some(rate) ==> MIN_SAMPLE_RATE <= rate <= MAX_SAMPLE_RATE
            &&& found.channels matches Some(count) ==> 1 <= count <= MAX_CHANNELS
        },
{
}

} // verus!
