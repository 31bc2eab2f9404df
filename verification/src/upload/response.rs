//! The answers that an upload can get: their one shape, their statuses, and
//! the words in which a refusal is put.

use vstd::prelude::*;
use vstd::string::StringExecFns;
use crate::probe::Seconds;
use crate::text::{concat5, decimal, decimal_text};
use crate::validation::ValidationError;

verus! {

/// Bytes in a mebibyte.
pub const MEBIBYTE: usize = 1024 * 1024;

/// The largest payload that is accepted, in bytes.
pub const MAX_FILE_SIZE: usize = 50 * 1024 * 1024;

/// Status of a successful upload.
pub const STATUS_OK: u16 = 200;

/// Status of a request that is wrong in itself.
pub const STATUS_BAD_REQUEST: u16 = 400;

/// Status of a payload beyond `MAX_FILE_SIZE`.
pub const STATUS_PAYLOAD_TOO_LARGE: u16 = 413;

/// Status of a file that is not of an accepted format.
pub const STATUS_UNSUPPORTED_MEDIA_TYPE: u16 = 415;

/// Status of a file whose content breaks the policy or does not decode.
pub const STATUS_UNPROCESSABLE: u16 = 422;

/// Status of a failure on the service's side.
pub const STATUS_INTERNAL_ERROR: u16 = 500;

/// The one shape of every answer to an upload.
#[derive(Debug)]
pub struct UploadResponse {
    pub success: bool,
    pub message: Option<String>,
    pub filename: Option<String>,
    pub format: Option<String>,
    pub codec: Option<String>,
    pub sample_rate: Option<u32>,
    pub channels: Option<u32>,
    pub duration_secs: Option<Seconds>,
    pub bit_rate: Option<u64>,
    pub size_bytes: Option<usize>,
    pub hls_path: Option<String>,
    pub upload_id: Option<String>,
    pub error: Option<String>,
}

/// An `UploadResponse` with its texts as sequences of characters.
pub struct ResponseView {
    pub success: bool,
    pub message: Option<Seq<char>>,
    pub filename: Option<Seq<char>>,
    pub format: Option<Seq<char>>,
    pub codec: Option<Seq<char>>,
    pub sample_rate: Option<u32>,
    pub channels: Option<u32>,
    pub duration_secs: Option<Seconds>,
    pub bit_rate: Option<u64>,
    pub size_bytes: Option<usize>,
    pub hls_path: Option<Seq<char>>,
    pub upload_id: Option<Seq<char>>,
    pub error: Option<Seq<char>>,
}

/// The characters of an optional text.
pub open spec fn chars_of(t: Option<String>) -> Option<Seq<char>> {
    match t {
        Some(s) => Some(s@),
        None => None,
    }
}

impl View for UploadResponse {
    type V = ResponseView;

    open spec fn view(&self) -> ResponseView {
        ResponseView {
            success: self.success,
            message: chars_of(self.message),
            filename: chars_of(self.filename),
            format: chars_of(self.format),
            codec: chars_of(self.codec),
            sample_rate: self.sample_rate,
            channels: self.channels,
            duration_secs: self.duration_secs,
            bit_rate: self.bit_rate,
            size_bytes: self.size_bytes,
            hls_path: chars_of(self.hls_path),
            upload_id: chars_of(self.upload_id),
            error: chars_of(self.error),
        }
    }
}

/// The answer to an upload that was turned down: nothing but the reason.
pub open spec fn rejection(error: Seq<char>) -> ResponseView {
    ResponseView {
        success: false,
        message: None,
        filename: None,
        format: None,
        codec: None,
        sample_rate: None,
        channels: None,
        duration_secs: None,
        bit_rate: None,
        size_bytes: None,
        hls_path: None,
        upload_id: None,
        error: Some(error),
    }
}

/// What a successful upload is told.
pub open spec fn success_text() -> Seq<char> {
    "Аудиофайл прошёл валидацию, конвертирован в HLS и загружен в хранилище"@
}

/// Build the answer to an upload that was turned down.
pub fn error_response(status: u16, error: String) -> (r: (u16, UploadResponse))
    ensures
        r.0 == status,
        r.1@ == rejection(error@),
{
    (
        status,
        UploadResponse {
            success: false,
            message: None,
            filename: None,
            format: None,
            codec: None,
            sample_rate: None,
            channels: None,
            duration_secs: None,
            bit_rate: None,
            size_bytes: None,
            hls_path: None,
            upload_id: None,
            error: Some(error),
        },
    )
}

/// What is said of a payload of `total` bytes that is too large.
pub open spec fn too_large_text(total: usize) -> Seq<char> {
    "Файл слишком большой: "@ + decimal_text((total / MEBIBYTE) as nat) + " MB (максимум: "@
        + decimal_text((MAX_FILE_SIZE / MEBIBYTE) as nat) + " MB)"@
}

/// Say that a payload of `total` bytes is too large.
pub(crate) fn too_large_message(total: usize) -> (r: String)
    ensures
        r@ == too_large_text(total),
{
    let size = decimal((total / MEBIBYTE) as u64);
    let limit = decimal((MAX_FILE_SIZE / MEBIBYTE) as u64);
    concat5("Файл слишком большой: ", size.as_str(), " MB (максимум: ", limit.as_str(), " MB)")
}

/// A fixed text put in front of a reason.
pub(crate) fn prefixed(lead: &str, reason: &str) -> (r: String)
    ensures
        r@ == lead@ + reason@,
{
    let mut out = String::from_str(lead);
    out.append(reason);
    out
}

/// Why a request was turned down before a session was opened.
#[derive(Debug)]
pub enum Refusal {
    /// The request holds no file.
    MissingField,
    /// The request could not be read.
    Unreadable { reason: String },
    /// The name of the file has no accepted extension.
    Extension { error: ValidationError },
    /// The staging file could not be made.
    StagingCreate { reason: String },
    /// The staging file could not be opened for writing.
    StagingOpen { reason: String },
}

impl Refusal {
    /// The status with which the request is answered.
    pub open spec fn status(self) -> u16 {
        match self {
            Refusal::MissingField => STATUS_BAD_REQUEST,
            Refusal::Unreadable { .. } => STATUS_BAD_REQUEST,
            Refusal::Extension { .. } => STATUS_UNSUPPORTED_MEDIA_TYPE,
            Refusal::StagingCreate { .. } => STATUS_INTERNAL_ERROR,
            Refusal::StagingOpen { .. } => STATUS_INTERNAL_ERROR,
        }
    }

    /// The reason in words.
    pub open spec fn message_text(self) -> Seq<char> {
        match self {
            Refusal::MissingField => "Файл не найден в запросе"@,
            Refusal::Unreadable { reason } => "Ошибка чтения multipart: "@ + reason@,
            Refusal::Extension { error } => error.message_text(),
            Refusal::StagingCreate { reason } => "Не удалось создать временный файл: "@ + reason@,
            Refusal::StagingOpen { reason } => "Не удалось открыть временный файл для записи: "@
                + reason@,
        }
    }

    /// The answer to the request: its status and nothing but the reason.
    pub fn response(&self) -> (r: (u16, UploadResponse))
        ensures
            r.0 == self.status(),
            r.1@ == rejection(self.message_text()),
    {
        match self {
            Refusal::MissingField => error_response(
                STATUS_BAD_REQUEST,
                String::from_str("Файл не найден в запросе"),
            ),
            Refusal::Unreadable { reason } => error_response(
                STATUS_BAD_REQUEST,
                prefixed("Ошибка чтения multipart: ", reason.as_str()),
            ),
            Refusal::Extension { error } => error_response(
                STATUS_UNSUPPORTED_MEDIA_TYPE,
                error.message(),
            ),
            Refusal::StagingCreate { reason } => error_response(
                STATUS_INTERNAL_ERROR,
                prefixed("Не удалось создать временный файл: ", reason.as_str()),
            ),
            Refusal::StagingOpen { reason } => error_response(
                STATUS_INTERNAL_ERROR,
                prefixed("Не удалось открыть временный файл для записи: ", reason.as_str()),
            ),
        }
    }
}

} // verus!
