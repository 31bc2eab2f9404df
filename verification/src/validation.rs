//! Format validation of an uploaded audio file: the cheap in-memory checks on
//! its name and leading bytes, and the policy applied to what the probing tool
//! reports about its first audio stream.

use vstd::prelude::*;
use vstd::string::StringExecFns;
use vstd::string::StrSliceExecFns;
use crate::text::{text_eq, find_last, last_index_of, to_lowercase, lowercased, concat3, concat5};

verus! {

/// Number of leading bytes needed to recognise a container signature.
pub const MAGIC_LEN: usize = 12;

/// Why a file was turned down by the in-memory checks.
#[derive(Debug)]
pub enum ValidationError {
    /// The file name holds no `.`, so it has no extension.
    MissingExtension,
    /// The lower-cased extension is not an accepted one.
    UnsupportedExtension { extension: String },
    /// Fewer than `MAGIC_LEN` bytes are available.
    TooShort,
    /// The leading bytes match no known container signature.
    UnknownFormat,
    /// The declared extension does not go with the detected format.
    FormatMismatch { extension: String, detected: String },
}

/// The accepted extensions: `mp3`, `wav`, `ogg`, `flac`, `opus`, `m4a`, `aac`.
pub open spec fn allowed_extension(ext: Seq<char>) -> bool {
    ||| ext == "mp3"@
    ||| ext == "wav"@
    ||| ext == "ogg"@
    ||| ext == "flac"@
    ||| ext == "opus"@
    ||| ext == "m4a"@
    ||| ext == "aac"@
}

/// A file name has an extension where it holds a `.`.
pub open spec fn has_extension(name: Seq<char>) -> bool {
    last_index_of(name, '.') >= 0
}

/// The extension of a file name: the part behind its last `.`.
pub open spec fn extension_of(name: Seq<char>) -> Seq<char>
    recommends
        has_extension(name),
{
    name.subrange(last_index_of(name, '.') + 1, name.len() as int)
}

/// Whether `ext` is one of the accepted extensions.
pub fn is_allowed_extension(ext: &str) -> (r: bool)
    ensures
        r == allowed_extension(ext@),
{
    text_eq(ext, "mp3") || text_eq(ext, "wav") || text_eq(ext, "ogg") || text_eq(ext, "flac")
        || text_eq(ext, "opus") || text_eq(ext, "m4a") || text_eq(ext, "aac")
}

/// Accept an already lower-cased extension if it is on the list, and hand it
/// back; otherwise report it as unsupported.
pub fn accept_extension(ext: String) -> (r: Result<String, ValidationError>)
    ensures
        allowed_extension(ext@) ==> r == Ok::<String, ValidationError>(ext),
        !allowed_extension(ext@) ==> r == Err::<String, ValidationError>(
            ValidationError::UnsupportedExtension { extension: ext },
        ),
{
    if is_allowed_extension(ext.as_str()) {
        Ok(ext)
    } else {
        Err(ValidationError::UnsupportedExtension { extension: ext })
    }
}

/// The declared extension of `filename`, lower-cased, if it is an accepted
/// one. A name without a `.` has no extension and is rejected, whatever it
/// spells; a name with one is rejected where the extension is not accepted.
pub fn validate_extension(filename: &str) -> (r: Result<String, ValidationError>)
    ensures
        match r {
            Ok(ext) => has_extension(filename@) && ext@ == lowercased(extension_of(filename@))
                && allowed_extension(ext@),
            Err(ValidationError::MissingExtension) => !has_extension(filename@),
            Err(ValidationError::UnsupportedExtension { extension }) => has_extension(filename@)
                && extension@ == lowercased(extension_of(filename@)) && !allowed_extension(
                extension@,
            ),
            Err(_) => false,
        },
{
    let n: usize = filename.unicode_len();
    let start: usize = match find_last(filename, '.') {
        Some(i) => i + 1,
        None => {
            return Err(ValidationError::MissingExtension);
        },
    };
    let ext = to_lowercase(filename.substring_char(start, n));
    accept_extension(ext)
}

/// The container format that the leading bytes announce, by name, if any.
/// The signatures are tried in this order: `RIFF....WAVE`, `fLaC`, `OggS`,
/// `ID3`, an MPEG frame sync (AAC where the layer bits are zero and the high
/// nibble of the second byte is all ones, MP3 otherwise), and `ftyp` at
/// offset 4.
pub open spec fn sniffed_format(data: Seq<u8>) -> Option<Seq<char>>
    recommends
        data.len() >= MAGIC_LEN,
{
    if data[0] == 0x52 && data[1] == 0x49 && data[2] == 0x46 && data[3] == 0x46 && data[8] == 0x57
        && data[9] == 0x41 && data[10] == 0x56 && data[11] == 0x45 {
        Some("wav"@)
    } else if data[0] == 0x66 && data[1] == 0x4C && data[2] == 0x61 && data[3] == 0x43 {
        Some("flac"@)
    } else if data[0] == 0x4F && data[1] == 0x67 && data[2] == 0x67 && data[3] == 0x53 {
        Some("ogg"@)
    } else if data[0] == 0x49 && data[1] == 0x44 && data[2] == 0x33 {
        Some("mp3"@)
    } else if data[0] == 0xFF && (data[1] & 0xE0) == 0xE0 {
        if (data[1] & 0x06) == 0x00 && (data[1] & 0xF0) == 0xF0 {
            Some("aac"@)
        } else {
            Some("mp3"@)
        }
    } else if data[4] == 0x66 && data[5] == 0x74 && data[6] == 0x79 && data[7] == 0x70 {
        Some("m4a"@)
    } else {
        None
    }
}

/// Detect the container format from the first bytes of a file.
///
/// Fails with `TooShort` on fewer than `MAGIC_LEN` bytes and with
/// `UnknownFormat` where no signature matches; otherwise names the format.
pub fn validate_magic_bytes(data: &[u8]) -> (r: Result<&'static str, ValidationError>)
    ensures
        match r {
            Ok(name) => data@.len() >= MAGIC_LEN && sniffed_format(data@) == Some(name@),
            Err(ValidationError::TooShort) => data@.len() < MAGIC_LEN,
            Err(ValidationError::UnknownFormat) => data@.len() >= MAGIC_LEN && sniffed_format(
                data@,
            ).is_none(),
            Err(_) => false,
        },
{
    if data.len() < MAGIC_LEN {
        return Err(ValidationError::TooShort);
    }
    if data[0] == 0x52 && data[1] == 0x49 && data[2] == 0x46 && data[3] == 0x46 && data[8] == 0x57
        && data[9] == 0x41 && data[10] == 0x56 && data[11] == 0x45 {
        return Ok("wav");
    }
    if data[0] == 0x66 && data[1] == 0x4C && data[2] == 0x61 && data[3] == 0x43 {
        return Ok("flac");
    }
    if data[0] == 0x4F && data[1] == 0x67 && data[2] == 0x67 && data[3] == 0x53 {
        return Ok("ogg");
    }
    if data[0] == 0x49 && data[1] == 0x44 && data[2] == 0x33 {
        return Ok("mp3");
    }
    if data[0] == 0xFF && (data[1] & 0xE0) == 0xE0 {
        let layer_bits: u8 = data[1] & 0x06;
        if layer_bits == 0x00 && (data[1] & 0xF0) == 0xF0 {
            return Ok("aac");
        } else {
            return Ok("mp3");
        }
    }
    if data[4] == 0x66 && data[5] == 0x74 && data[6] == 0x79 && data[7] == 0x70 {
        return Ok("m4a");
    }
    Err(ValidationError::UnknownFormat)
}

/// A declared extension goes with a detected format when the two are the
/// same, or when the extension is `opus` and the format is `ogg`.
pub open spec fn compatible(extension: Seq<char>, detected: Seq<char>) -> bool {
    extension == detected || (extension == "opus"@ && detected == "ogg"@)
}

/// Check the declared extension against the format detected from the bytes.
pub fn check_extension_magic_compatibility(extension: &str, detected: &str) -> (r: Result<
    (),
    ValidationError,
>)
    ensures
        match r {
            Ok(_) => compatible(extension@, detected@),
            Err(ValidationError::FormatMismatch { extension: e, detected: d }) => !compatible(
                extension@,
                detected@,
            ) && e@ == extension@ && d@ == detected@,
            Err(_) => false,
        },
{
    if text_eq(extension, detected) || (text_eq(extension, "opus") && text_eq(detected, "ogg")) {
        Ok(())
    } else {
        Err(
            ValidationError::FormatMismatch {
                extension: String::from_str(extension),
                detected: String::from_str(detected),
            },
        )
    }
}

/// What is said of a file name without an extension.
pub open spec fn missing_extension_text() -> Seq<char> {
    "Файл не имеет расширения"@
}

/// What is said of an extension that is not accepted.
pub open spec fn unsupported_text(extension: Seq<char>) -> Seq<char> {
    "Недопустимое расширение '."@ + extension
        + "'. Разрешены: mp3, wav, ogg, flac, opus, m4a, aac"@
}

/// What is said of a file too short to tell its format.
pub open spec fn too_short_text() -> Seq<char> {
    "Файл слишком мал для определения формата"@
}

/// What is said of leading bytes that match no signature.
pub open spec fn unknown_format_text() -> Seq<char> {
    "Не удалось определить формат по заголовку файла. Файл не является аудио."@
}

/// What is said of an extension that does not go with the detected format.
pub open spec fn mismatch_text(extension: Seq<char>, detected: Seq<char>) -> Seq<char> {
    "Расширение '."@ + extension + "' не соответствует реальному формату '"@ + detected
        + "'. Файл переименован?"@
}

impl ValidationError {
    /// The reason in words, for the person who sent the file.
    pub open spec fn message_text(self) -> Seq<char> {
        match self {
            ValidationError::MissingExtension => missing_extension_text(),
            ValidationError::UnsupportedExtension { extension } => unsupported_text(extension@),
            ValidationError::TooShort => too_short_text(),
            ValidationError::UnknownFormat => unknown_format_text(),
            ValidationError::FormatMismatch { extension, detected } => mismatch_text(
                extension@,
                detected@,
            ),
        }
    }

    /// The reason in words.
    pub fn message(&self) -> (r: String)
        ensures
            r@ == self.message_text(),
    {
        match self {
            ValidationError::MissingExtension => String::from_str("Файл не имеет расширения"),
            ValidationError::UnsupportedExtension { extension } => concat3(
                "Недопустимое расширение '.",
                extension.as_str(),
                "'. Разрешены: mp3, wav, ogg, flac, opus, m4a, aac",
            ),
            ValidationError::TooShort => String::from_str(
                "Файл слишком мал для определения формата",
            ),
            ValidationError::UnknownFormat => String::from_str(
                "Не удалось определить формат по заголовку файла. Файл не является аудио.",
            ),
            ValidationError::FormatMismatch { extension, detected } => concat5(
                "Расширение '.",
                extension.as_str(),
                "' не соответствует реальному формату '",
                detected.as_str(),
                "'. Файл переименован?",
            ),
        }
    }
}

} // verus!
