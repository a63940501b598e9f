//! A batched, backpressure-aware writer of line records to an object store.
//!
//! Records are accumulated into size-bounded batches; each batch becomes one
//! write, and at most one write is outstanding at any time. The state machine
//! that decides admission, submission and drain is verified here; the network
//! writes themselves are performed by the caller, who reports their completion.
mod buffer;
mod config;
mod health;
pub mod laws;
mod record;
pub mod sink;

pub use buffer::Buffer;
pub use config::{RegionSetting, S3SinkConfig, S3SinkConfig2};
pub use health::{healthcheck, Healthcheck, ProbeResponse};
pub use record::Record;
pub use sink::{
    batch_key, new, Admission, Drain, PendingUpload, Progress, S3Sink, UploadFailure,
    UploadResult,
};
