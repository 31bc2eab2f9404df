//! The transcoder's side of the pipeline: how the encoder is invoked, what
//! its outcome means, and the staging package that a successful run leaves.

use vstd::prelude::*;
use vstd::string::StringExecFns;
use vstd::string::StrSliceExecFns;
use crate::text::{trim, trimmed};

verus! {

/// Name of the playlist that the encoder writes.
pub const PLAYLIST_NAME: &'static str = "playlist.m3u8";

/// Name pattern of the media segments that the encoder writes.
pub const SEGMENT_PATTERN: &'static str = "seg_%05d.m4s";

/// Two path components joined by a separator.
pub open spec fn joined(dir: Seq<char>, name: Seq<char>) -> Seq<char> {
    dir + "/"@ + name
}

/// Join a directory and a file name.
pub fn join(dir: &str, name: &str) -> (r: String)
    ensures
        r@ == joined(dir@, name@),
{
    let mut path = String::from_str(dir);
    path.append("/");
    path.append(name);
    path
}

/// A staging package: a directory of its own that holds one playlist and the
/// segments it refers to.
#[derive(Debug)]
pub struct HlsOutput {
    pub output_dir: String,
    pub playlist_name: String,
}

impl HlsOutput {
    /// Where the playlist lies.
    pub fn playlist_path(&self) -> (r: String)
        ensures
            r@ == joined(self.output_dir@, self.playlist_name@),
    {
        join(self.output_dir.as_str(), self.playlist_name.as_str())
    }

    /// Where the artifact called `name` lies.
    pub fn artifact_path(&self, name: &str) -> (r: String)
        ensures
            r@ == joined(self.output_dir@, name@),
    {
        join(self.output_dir.as_str(), name)
    }
}

/// Why transcoding failed.
#[derive(Debug)]
pub enum TranscodeError {
    /// The staging directory could not be made.
    StagingFailed { reason: String },
    /// The encoder could not be started.
    LaunchFailed { reason: String },
    /// The encoder ended unsuccessfully without saying why; its exit status.
    Failed { status: String },
    /// The encoder ended unsuccessfully; its trimmed diagnostics.
    EncoderFailed { diagnostics: String },
    /// The encoder ended successfully but left no playlist.
    PlaylistMissing,
}

/// The arguments of the encoder for one input: AAC at 128 kbit/s, two
/// channels, 48 kHz, cut into segments of six seconds in fragmented MP4, with
/// a playlist for video on demand.
pub open spec fn encoder_arguments(input: Seq<char>, staging_dir: Seq<char>) -> Seq<Seq<char>> {
    seq![
        "-i"@,
        input,
        "-v"@,
        "error"@,
        "-c:a"@,
        "aac"@,
        "-b:a"@,
        "128k"@,
        "-ac"@,
        "2"@,
        "-ar"@,
        "48000"@,
        "-f"@,
        "hls"@,
        "-hls_time"@,
        "6"@,
        "-hls_playlist_type"@,
        "vod"@,
        "-hls_segment_type"@,
        "fmp4"@,
        "-hls_segment_filename"@,
        joined(staging_dir, SEGMENT_PATTERN@),
        joined(staging_dir, PLAYLIST_NAME@),
    ]
}

/// The views of a list of texts.
pub open spec fn texts(list: Seq<String>) -> Seq<Seq<char>> {
    list.map_values(|s: String| s@)
}

/// Build the encoder's arguments for transcoding `input` into `staging_dir`.
pub fn transcode_arguments(input: &str, staging_dir: &str) -> (r: Vec<String>)
    ensures
        texts(r@) == encoder_arguments(input@, staging_dir@),
{
    let mut args: Vec<String> = Vec::new();
    args.push(String::from_str("-i"));
    args.push(String::from_str(input));
    args.push(String::from_str("-v"));
    args.push(String::from_str("error"));
    args.push(String::from_str("-c:a"));
    args.push(String::from_str("aac"));
    args.push(String::from_str("-b:a"));
    args.push(String::from_str("128k"));
    args.push(String::from_str("-ac"));
    args.push(String::from_str("2"));
    args.push(String::from_str("-ar"));
    args.push(String::from_str("48000"));
    args.push(String::from_str("-f"));
    args.push(String::from_str("hls"));
    args.push(String::from_str("-hls_time"));
    args.push(String::from_str("6"));
    args.push(String::from_str("-hls_playlist_type"));
    args.push(String::from_str("vod"));
    args.push(String::from_str("-hls_segment_type"));
    args.push(String::from_str("fmp4"));
    args.push(String::from_str("-hls_segment_filename"));
    args.push(join(staging_dir, SEGMENT_PATTERN));
    args.push(join(staging_dir, PLAYLIST_NAME));
    assert(texts(args@) =~= encoder_arguments(input@, staging_dir@));
    args
}

/// The verdict on a run of the encoder, given its trimmed diagnostics and
/// whether the playlist is there afterwards. On any failure the staging
/// directory is to be removed by the caller.
pub fn transcode_verdict(
    success: bool,
    diagnostics: &str,
    status: &str,
    playlist_exists: bool,
    staging_dir: &str,
) -> (r: Result<HlsOutput, TranscodeError>)
    ensures
        match r {
            Ok(package) => success && playlist_exists && package.output_dir@ == staging_dir@
                && package.playlist_name@ == PLAYLIST_NAME@,
            Err(TranscodeError::Failed { status: st }) => !success && diagnostics@.len() == 0 && st@
                == status@,
            Err(TranscodeError::EncoderFailed { diagnostics: d }) => !success && diagnostics@.len()
                > 0 && d@ == diagnostics@,
            Err(TranscodeError::PlaylistMissing) => success && !playlist_exists,
            Err(_) => false,
        },
{
    if !success {
        if diagnostics.unicode_len() == 0 {
            Err(TranscodeError::Failed { status: String::from_str(status) })
        } else {
            Err(TranscodeError::EncoderFailed { diagnostics: String::from_str(diagnostics) })
        }
    } else if !playlist_exists {
        Err(TranscodeError::PlaylistMissing)
    } else {
        Ok(
            HlsOutput {
                output_dir: String::from_str(staging_dir),
                playlist_name: String::from_str(PLAYLIST_NAME),
            },
        )
    }
}

/// The verdict on a run of the encoder, given what it wrote to its error
/// stream and whether the playlist is there afterwards.
pub fn assess_transcode(
    success: bool,
    stderr: &str,
    status: &str,
    playlist_exists: bool,
    staging_dir: &str,
) -> (r: Result<HlsOutput, TranscodeError>)
    ensures
        match r {
            Ok(package) => success && playlist_exists && package.output_dir@ == staging_dir@
                && package.playlist_name@ == PLAYLIST_NAME@,
            Err(TranscodeError::Failed { status: st }) => !success && trimmed(stderr@).len() == 0
                && st@ == status@,
            Err(TranscodeError::EncoderFailed { diagnostics: d }) => !success && trimmed(
                stderr@,
            ).len() > 0 && d@ == trimmed(stderr@),
            Err(TranscodeError::PlaylistMissing) => success && !playlist_exists,
            Err(_) => false,
        },
{
    transcode_verdict(success, trim(stderr), status, playlist_exists, staging_dir)
}

impl TranscodeError {
    /// The reason in words.
    pub open spec fn message_text(self) -> Seq<char> {
        match self {
            TranscodeError::StagingFailed { reason } => "Не удалось создать HLS директорию: "@
                + reason@,
            TranscodeError::LaunchFailed { reason } => "Не удалось запустить ffmpeg для HLS: "@
                + reason@,
            TranscodeError::Failed { status } => "ffmpeg HLS конвертация не удалась: exit code "@
                + status@,
            TranscodeError::EncoderFailed { diagnostics } =>
                "ffmpeg HLS конвертация не удалась: "@ + diagnostics@,
            TranscodeError::PlaylistMissing => "ffmpeg не создал HLS плейлист"@,
        }
    }

    /// The reason in words.
    pub fn message(&self) -> (r: String)
        ensures
            r@ == self.message_text(),
    {
        match self {
            TranscodeError::StagingFailed { reason } => {
                let mut out = String::from_str("Не удалось создать HLS директорию: ");
                out.append(reason.as_str());
                out
            },
            TranscodeError::LaunchFailed { reason } => {
                let mut out = String::from_str("Не удалось запустить ffmpeg для HLS: ");
                out.append(reason.as_str());
                out
            },
            TranscodeError::Failed { status } => {
                let mut out = String::from_str("ffmpeg HLS конвертация не удалась: exit code ");
                out.append(status.as_str());
                out
            },
            TranscodeError::EncoderFailed { diagnostics } => {
                let mut out = String::from_str("ffmpeg HLS конвертация не удалась: ");
                out.append(diagnostics.as_str());
                out
            },
            TranscodeError::PlaylistMissing => String::from_str("ffmpeg не создал HLS плейлист"),
        }
    }
}

} // verus!
