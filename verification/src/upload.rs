//! The ingestion controller as a state machine: one session per upload,
//! advanced by what the surrounding service observes (a chunk, the end of the
//! body, the outcome of an external step), and answering each time with what
//! the service is to do next.

pub mod response;
pub mod session;
pub mod controller;
pub mod laws;
pub mod payload;

pub use response::{
    error_response, Refusal, ResponseView, UploadResponse, MAX_FILE_SIZE, MEBIBYTE,
    STATUS_BAD_REQUEST, STATUS_INTERNAL_ERROR, STATUS_OK, STATUS_PAYLOAD_TOO_LARGE,
    STATUS_UNPROCESSABLE, STATUS_UNSUPPORTED_MEDIA_TYPE,
};
pub use session::{
    ActionView, Phase, SessionView, StoreError, UploadAction, UploadEvent, UploadSession,
};
pub use controller::open_upload;
pub use payload::{check_payload, PayloadError};
