//! The cheap checks on a payload that is there as a whole.

use vstd::prelude::*;
use vstd::string::StringExecFns;
use crate::upload::response::{
    error_response,
    rejection,
    too_large_message,
    too_large_text,
    UploadResponse,
    MAX_FILE_SIZE,
    STATUS_BAD_REQUEST,
    STATUS_PAYLOAD_TOO_LARGE,
    STATUS_UNSUPPORTED_MEDIA_TYPE,
};
use crate::validation::{
    check_extension_magic_compatibility,
    compatible,
    sniffed_format,
    validate_magic_bytes,
    ValidationError,
    MAGIC_LEN,
};

verus! {

/// Why a payload that is there as a whole was turned down.
#[derive(Debug)]
pub enum PayloadError {
    /// The payload is empty.
    Empty,
    /// The payload is beyond `MAX_FILE_SIZE`.
    TooLarge { size: usize },
    /// The bytes or the extension are not acceptable.
    Invalid { error: ValidationError },
}

impl PayloadError {
    /// The status with which the request is answered.
    pub open spec fn status(self) -> u16 {
        match self {
            PayloadError::Empty => STATUS_BAD_REQUEST,
            PayloadError::TooLarge { .. } => STATUS_PAYLOAD_TOO_LARGE,
            PayloadError::Invalid { error: ValidationError::FormatMismatch { .. } } =>
                STATUS_BAD_REQUEST,
            PayloadError::Invalid { .. } => STATUS_UNSUPPORTED_MEDIA_TYPE,
        }
    }

    /// The reason in words.
    pub open spec fn message_text(self) -> Seq<char> {
        match self {
            PayloadError::Empty => "Файл пустой"@,
            PayloadError::TooLarge { size } => too_large_text(size),
            PayloadError::Invalid { error } => error.message_text(),
        }
    }

    /// The answer to the request: its status and nothing but the reason.
    pub fn response(&self) -> (r: (u16, UploadResponse))
        ensures
            r.0 == self.status(),
            r.1@ == rejection(self.message_text()),
    {
        match self {
            PayloadError::Empty => error_response(
                STATUS_BAD_REQUEST,
                String::from_str("Файл пустой"),
            ),
            PayloadError::TooLarge { size } => error_response(
                STATUS_PAYLOAD_TOO_LARGE,
                too_large_message(*size),
            ),
            PayloadError::Invalid { error } => {
                let status = match error {
                    ValidationError::FormatMismatch { .. } => STATUS_BAD_REQUEST,
                    _ => STATUS_UNSUPPORTED_MEDIA_TYPE,
                };
                error_response(status, error.message())
            },
        }
    }
}

/// Check a payload that is there as a whole against the cheap rules, in this
/// order: it is not empty, it is within `MAX_FILE_SIZE`, its leading bytes
/// announce a known format, and that format goes with the declared
/// extension. The format is returned.
pub fn check_payload(extension: &str, data: &[u8]) -> (r: Result<&'static str, PayloadError>)
    ensures
        match r {
            Ok(detected) => {
                &&& 0 < data@.len() <= MAX_FILE_SIZE
                &&& data@.len() >= MAGIC_LEN
                &&& sniffed_format(data@) == Some(detected@)
                &&& compatible(extension@, detected@)
            },
            Err(PayloadError::Empty) => data@.len() == 0,
            Err(PayloadError::TooLarge { size }) => size == data@.len() && size > MAX_FILE_SIZE,
            Err(PayloadError::Invalid { error: ValidationError::TooShort }) => 0 < data@.len()
                < MAGIC_LEN,
            Err(PayloadError::Invalid { error: ValidationError::UnknownFormat }) => MAGIC_LEN
                <= data@.len() <= MAX_FILE_SIZE && sniffed_format(data@).is_none(),
            Err(
                PayloadError::Invalid { error: ValidationError::FormatMismatch { extension: e, detected: d } },
            ) => {
                &&& MAGIC_LEN <= data@.len() <= MAX_FILE_SIZE
                &&& sniffed_format(data@) == Some(d@)
                &&& e@ == extension@
                &&& !compatible(extension@, d@)
            },
            Err(_) => false,
        },
{
    if data.len() == 0 {
        return Err(PayloadError::Empty);
    }
    if data.len() > MAX_FILE_SIZE {
        return Err(PayloadError::TooLarge { size: data.len() });
    }
    let detected = match validate_magic_bytes(data) {
        Ok(detected) => detected,
        Err(error) => {
            return Err(PayloadError::Invalid { error });
        },
    };
    match check_extension_magic_compatibility(extension, detected) {
        Ok(_) => Ok(detected),
        Err(error) => Err(PayloadError::Invalid { error }),
    }
}

} // verus!
