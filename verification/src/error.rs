//! What can go wrong while an output stream is opened or a sound is played.

use vstd::prelude::*;

verus! {

/// A failure that only the audio backend can explain.
#[derive(Clone, Debug, PartialEq, Eq)]
pub struct BackendSpecificError {
    pub description: String,
}

/// A device did not report its default configuration.
#[derive(Clone, Debug, PartialEq, Eq)]
pub enum DefaultStreamConfigError {
    /// The device is gone.
    DeviceNotAvailable,
    /// The device has no output streams.
    StreamTypeNotSupported,
    BackendSpecific { err: BackendSpecificError },
}

/// A device did not list its supported configurations.
#[derive(Clone, Debug, PartialEq, Eq)]
pub enum SupportedStreamConfigsError {
    /// The device is gone.
    DeviceNotAvailable,
    /// The device rejected the query.
    InvalidArgument,
    BackendSpecific { err: BackendSpecificError },
}

/// A stream could not be built.
#[derive(Clone, Debug, PartialEq, Eq)]
pub enum BuildStreamError {
    /// The device is gone.
    DeviceNotAvailable,
    /// The device, or this library, cannot serve the configuration.
    StreamConfigNotSupported,
    /// The device rejected an argument.
    InvalidArgument,
    /// The backend ran out of stream identifiers.
    StreamIdOverflow,
    BackendSpecific { err: BackendSpecificError },
}

/// A stream was built but did not start.
#[derive(Clone, Debug, PartialEq, Eq)]
pub enum PlayStreamError {
    /// The device is gone.
    DeviceNotAvailable,
    BackendSpecific { err: BackendSpecificError },
}

/// Errors that may occur when opening an audio output.
#[derive(Clone, Debug, PartialEq, Eq)]
pub enum StreamError {
    /// The stream was built but could not be started.
    PlayStreamError(PlayStreamError),
    /// The device did not report a default configuration.
    DefaultStreamConfigError(DefaultStreamConfigError),
    /// The stream could not be built.
    BuildStreamError(BuildStreamError),
    /// The device did not list its supported configurations.
    SupportedStreamConfigsError(SupportedStreamConfigsError),
    /// No output device was found.
    NoDevice,
}

impl From<PlayStreamError> for StreamError {
    fn from(err: PlayStreamError) -> (r: StreamError) {
        StreamError::PlayStreamError(err)
    }
}

impl vstd::std_specs::convert::FromSpecImpl<PlayStreamError> for StreamError {
    open spec fn obeys_from_spec() -> bool {
        true
    }

    open spec fn from_spec(err: PlayStreamError) -> StreamError {
        StreamError::PlayStreamError(err)
    }
}

impl From<DefaultStreamConfigError> for StreamError {
    fn from(err: DefaultStreamConfigError) -> (r: StreamError) {
        StreamError::DefaultStreamConfigError(err)
    }
}

impl vstd::std_specs::convert::FromSpecImpl<DefaultStreamConfigError> for StreamError {
    open spec fn obeys_from_spec() -> bool {
        true
    }

    open spec fn from_spec(err: DefaultStreamConfigError) -> StreamError {
        StreamError::DefaultStreamConfigError(err)
    }
}

impl From<BuildStreamError> for StreamError {
    fn from(err: BuildStreamError) -> (r: StreamError) {
        StreamError::BuildStreamError(err)
    }
}

impl vstd::std_specs::convert::FromSpecImpl<BuildStreamError> for StreamError {
    open spec fn obeys_from_spec() -> bool {
        true
    }

    open spec fn from_spec(err: BuildStreamError) -> StreamError {
        StreamError::BuildStreamError(err)
    }
}

impl From<SupportedStreamConfigsError> for StreamError {
    fn from(err: SupportedStreamConfigsError) -> (r: StreamError) {
        StreamError::SupportedStreamConfigsError(err)
    }
}

impl vstd::std_specs::convert::FromSpecImpl<SupportedStreamConfigsError> for StreamError {
    open spec fn obeys_from_spec() -> bool {
        true
    }

    open spec fn from_spec(err: SupportedStreamConfigsError) -> StreamError {
        StreamError::SupportedStreamConfigsError(err)
    }
}

/// A sound could not be decoded.
#[derive(Clone, Debug, PartialEq, Eq)]
pub enum DecoderError {
    /// The input is not in a recognised audio format.
    UnrecognizedFormat,
}

/// An error occurred while attempting to play a sound.
#[derive(Clone, Debug, PartialEq, Eq)]
pub enum PlayError {
    /// Attempting to decode the audio failed.
    DecoderError(DecoderError),
    /// The output device was lost.
    NoDevice,
}

impl From<DecoderError> for PlayError {
    fn from(err: DecoderError) -> (r: PlayError) {
        PlayError::DecoderError(err)
    }
}

impl vstd::std_specs::convert::FromSpecImpl<DecoderError> for PlayError {
    open spec fn obeys_from_spec() -> bool {
        true
    }

    open spec fn from_spec(err: DecoderError) -> PlayError {
        PlayError::DecoderError(err)
    }
}

} // verus!
