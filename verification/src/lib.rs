//! Audio output stream management.
//!
//! The crate negotiates a device configuration, decides how an output stream is opened
//! and which fallbacks are tried when that fails, and renders mixed samples into the
//! device's buffer with silence on underflow.  Talking to the audio platform is left to
//! the caller: every decision here is a function of plain values, proved against its
//! contract.

pub mod builder;
pub mod config;
pub mod error;
pub mod format;
pub mod negotiation;
pub mod output;
pub mod render;
pub mod supported;

pub use builder::OutputStreamBuilder;
pub use config::{
    BufferSize, OutputStreamConfig, StreamConfig, SupportedBufferSize, SupportedStreamConfig,
    SupportedStreamConfigRange,
};
pub use error::{PlayError, StreamError};
pub use format::{NativeFormat, SampleFormat};
pub use negotiation::{BuildStep, Negotiation, Request, Response};
pub use output::OutputStream;
