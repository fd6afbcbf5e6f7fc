//! Collecting what an output stream is opened with.

use vstd::prelude::*;
use crate::config::{
    BufferSize,
    ChannelCount,
    OutputStreamConfig,
    SampleRate,
    StreamConfig,
    SupportedStreamConfig,
};
use crate::error::{DefaultStreamConfigError, StreamError};
use crate::format::SampleFormat;
use crate::negotiation::{Negotiation, NegotiationView, Strategy};

verus! {

/// Accumulates a device and a stream configuration.  `D` is the platform's device
/// handle; the builder only carries it.
#[derive(Debug)]
pub struct OutputStreamBuilder<D> {
    pub device: Option<D>,
    pub config: OutputStreamConfig,
}

impl<D> Default for OutputStreamBuilder<D> {
    /// A builder without a device and with the initial configuration.
    fn default() -> (r: Self)
        ensures
            r.device is None,
            r.config == OutputStreamConfig::initial(),
    {
        OutputStreamBuilder { device: None, config: OutputStreamConfig::default() }
    }
}

impl<D> OutputStreamBuilder<D> {
    /// What `from_device` returns for a device and that device's answer about its default
    /// output configuration.
    pub open spec fn for_device(
        device: D,
        default_config: Result<SupportedStreamConfig, DefaultStreamConfigError>,
    ) -> Result<OutputStreamBuilder<D>, StreamError> {
        match default_config {
            Ok(supported) => Ok(
                OutputStreamBuilder {
                    device: Some(device),
                    config: OutputStreamConfig::of_supported(supported@),
                },
            ),
            Err(err) => Err(StreamError::DefaultStreamConfigError(err)),
        }
    }

    /// A builder for `device`, seeded with the default output configuration the device
    /// reported.  Fails when the device reported none.
    pub fn from_device(
        device: D,
        default_config: Result<SupportedStreamConfig, DefaultStreamConfigError>,
    ) -> (r: Result<OutputStreamBuilder<D>, StreamError>)
        ensures
            r == Self::for_device(device, default_config),
    {
        match default_config {
            Ok(supported) => {
                let builder: OutputStreamBuilder<D> = OutputStreamBuilder::default();
                Ok(builder.with_device(device).with_supported_config(&supported))
            },
            Err(err) => Err(StreamError::DefaultStreamConfigError(err)),
        }
    }

    /// A builder for the host's default output device.  Fails with `NoDevice` when the
    /// host has none; otherwise the device is asked for its default output configuration
    /// through `default_config`, and the result is that of `from_device` for its answer.
    pub fn from_default_device<F>(default_device: Option<D>, default_config: F) -> (r: Result<
        OutputStreamBuilder<D>,
        StreamError,
    >) where F: FnOnce(&D) -> Result<SupportedStreamConfig, DefaultStreamConfigError>
        requires
            default_device matches Some(device) ==> call_requires(default_config, (&device,)),
        ensures
            default_device is None ==> r == Err::<OutputStreamBuilder<D>, StreamError>(StreamError::NoDevice),
            default_device matches Some(device) ==> exists|
                answer: Result<SupportedStreamConfig, DefaultStreamConfigError>,
            |
                call_ensures(default_config, (&device,), answer) && r == Self::for_device(device, answer),
    {
        match default_device {
            None => Err(StreamError::NoDevice),
            Some(device) => {
                let answer = default_config(&device);
                Self::from_device(device, answer)
            },
        }
    }

    /// Sets the device.
    pub fn with_device(self, device: D) -> (r: OutputStreamBuilder<D>)
        ensures
            r.device == Some(device),
            r.config == self.config,
    {
        OutputStreamBuilder { device: Some(device), config: self.config }
    }

    /// Sets the number of channels, which must be at least one.
    pub fn with_channels(self, channel_count: ChannelCount) -> (r: OutputStreamBuilder<D>)
        requires
            channel_count > 0,
        ensures
            r.device == self.device,
            r.config == (OutputStreamConfig { channel_count, ..self.config }),
            r.config.playable(),
    {
        let OutputStreamBuilder { device, config } = self;
        OutputStreamBuilder { device, config: OutputStreamConfig { channel_count, ..config } }
    }

    /// Sets the sample rate.
    pub fn with_sample_rate(self, sample_rate: SampleRate) -> (r: OutputStreamBuilder<D>)
        ensures
            r.device == self.device,
            r.config == (OutputStreamConfig { sample_rate, ..self.config }),
    {
        let OutputStreamBuilder { device, config } = self;
        OutputStreamBuilder { device, config: OutputStreamConfig { sample_rate, ..config } }
    }

    /// Sets the buffer size.
    pub fn with_buffer_size(self, buffer_size: BufferSize) -> (r: OutputStreamBuilder<D>)
        ensures
            r.device == self.device,
            r.config == (OutputStreamConfig { buffer_size, ..self.config }),
    {
        let OutputStreamBuilder { device, config } = self;
        OutputStreamBuilder { device, config: OutputStreamConfig { buffer_size, ..config } }
    }

    /// Sets the sample format.
    pub fn with_sample_format(self, sample_format: SampleFormat) -> (r: OutputStreamBuilder<D>)
        ensures
            r.device == self.device,
            r.config == (OutputStreamConfig { sample_format, ..self.config }),
    {
        let OutputStreamBuilder { device, config } = self;
        OutputStreamBuilder { device, config: OutputStreamConfig { sample_format, ..config } }
    }

    /// Takes channel count, sample rate and sample format from a supported configuration,
    /// and as buffer size the preferred size clamped into the supported range, or the
    /// device default where the range is unknown.
    pub fn with_supported_config(self, config: &SupportedStreamConfig) -> (r: OutputStreamBuilder<D>)
        ensures
            r.device == self.device,
            r.config == OutputStreamConfig::of_supported(config@),
    {
        OutputStreamBuilder { device: self.device, config: OutputStreamConfig::from_supported(config) }
    }

    /// Takes channel count, sample rate and buffer size from a device configuration.  The
    /// sample format stays as it is.
    pub fn with_config(self, config: &StreamConfig) -> (r: OutputStreamBuilder<D>)
        ensures
            r.device == self.device,
            r.config == (OutputStreamConfig {
                channel_count: config.channels,
                sample_rate: config.sample_rate,
                buffer_size: config.buffer_size,
                sample_format: self.config.sample_format,
            }),
            r.config.device_config() == *config,
    {
        let OutputStreamBuilder { device, config: current } = self;
        OutputStreamBuilder {
            device,
            config: OutputStreamConfig {
                channel_count: config.channels,
                sample_rate: config.sample_rate,
                buffer_size: config.buffer_size,
                sample_format: current.sample_format,
            },
        }
    }

    /// Begins opening a stream with the current configuration: one attempt, whose error
    /// is the result when it fails.  The device must be set.
    pub fn open_stream(&self) -> (r: Negotiation)
        requires
            self.device is Some,
        ensures
            r@ == NegotiationView::begin(Strategy::Once, self.config),
    {
        Negotiation::begin(Strategy::Once, self.config)
    }

    /// Begins opening a stream with the current configuration and, should that fail, with
    /// each configuration the device supports, in the order of their preference.  The
    /// device must be set.
    pub fn try_open_stream(&self) -> (r: Negotiation)
        requires
            self.device is Some,
        ensures
            r@ == NegotiationView::begin(Strategy::Fallback, self.config),
    {
        Negotiation::begin(Strategy::Fallback, self.config)
    }

    /// Begins opening a stream on the host's default output device and, should that fail,
    /// on any other output device.
    pub fn try_default_stream() -> (r: Negotiation)
        ensures
            r@ == NegotiationView::begin_default(),
    {
        Negotiation::begin_default()
    }
}

} // verus!
