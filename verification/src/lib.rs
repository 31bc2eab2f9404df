//! The rules of an audio upload service, each stated with a contract and
//! proved: the validation of uploaded files, the session of an upload as a
//! state machine, the progress records that observers see, the layout of keys
//! in the object store, the lifecycle events, and the in-place sorting
//! routines that put a package's artifacts in order.

pub mod sorting;
pub mod text;
pub mod validation;
pub mod probe;
pub mod progress;
pub mod names;
pub mod hls;
pub mod storage;
pub mod events;
pub mod ident;
pub mod upload;
