//! The open output stream and the plan a stream is built from.

use std::sync::Arc;
use vstd::prelude::*;
use crate::config::{OutputStreamConfig, StreamConfig};
use crate::error::BuildStreamError;
use crate::format::NativeFormat;
use crate::negotiation::{Negotiation, NegotiationView, Strategy};

verus! {

/// What a device is asked to build: its configuration and the element type of the render
/// callback.
#[derive(Clone, Copy, Debug, PartialEq, Eq, Structural)]
pub struct StreamPlan {
    pub config: StreamConfig,
    pub native: NativeFormat,
}

/// The outcome of binding `config` to a render callback.
pub open spec fn stream_plan(config: OutputStreamConfig) -> Result<StreamPlan, BuildStreamError> {
    match config.sample_format.native_type() {
        Some(native) => Ok(StreamPlan { config: config.device_config(), native }),
        None => Err(BuildStreamError::StreamConfigNotSupported),
    }
}

/// Binds a configuration to the render callback of its sample format.  A format without
/// a callback is rejected with `StreamConfigNotSupported` before the device is asked for
/// anything.
pub fn init_stream(config: &OutputStreamConfig) -> (r: Result<StreamPlan, BuildStreamError>)
    ensures
        r == stream_plan(*config),
        r is Ok <==> config.sample_format.renderable(),
        r matches Ok(plan) ==> plan.native.format() == config.sample_format && plan.config
            == config.device_config(),
        r matches Err(err) ==> err == BuildStreamError::StreamConfigNotSupported,
{
    match config.sample_format.native() {
        Some(native) => Ok(StreamPlan { config: config.stream_config(), native }),
        None => Err(BuildStreamError::StreamConfigNotSupported),
    }
}

/// `Arc::clone`: another handle to the value that `handle` points to.
#[verifier::external_body]
fn share<M>(handle: &Arc<M>) -> (r: Arc<M>)
    ensures
        r == *handle,
{
    Arc::clone(handle)
}

/// A running output stream together with the producer side of its mixer.  `S` is the
/// platform's stream handle and `M` the mixer that sources are handed to.
///
/// Playback lasts as long as this value: dropping it drops the stream handle.
pub struct OutputStream<S, M> {
    _stream: S,
    mixer: Arc<M>,
}

impl<S, M> OutputStream<S, M> {
    /// The mixer handle this stream keeps alive.
    pub closed spec fn mixer_handle(&self) -> Arc<M> {
        self.mixer
    }

    /// The platform's stream handle.
    pub closed spec fn stream_handle(&self) -> S {
        self._stream
    }

    /// Joins a started stream and the producer side of the mixer it plays.
    pub fn new(stream: S, mixer: Arc<M>) -> (r: OutputStream<S, M>)
        ensures
            r.stream_handle() == stream,
            r.mixer_handle() == mixer,
    {
        OutputStream { _stream: stream, mixer }
    }

    /// Begins opening a stream with `config`: one attempt, whose error is the result when
    /// it fails.
    pub fn open(config: &OutputStreamConfig) -> (r: Negotiation)
        ensures
            r@ == NegotiationView::begin(Strategy::Once, *config),
    {
        Negotiation::begin(Strategy::Once, *config)
    }

    /// A handle to the mixer of this stream, shared with the stream itself.
    pub fn mixer(&self) -> (r: Arc<M>)
        ensures
            r == self.mixer_handle(),
    {
        share(&self.mixer)
    }
}

} // verus!
