//! Stream configurations: what a caller asks for and what a device reports.

use vstd::prelude::*;
use crate::format::SampleFormat;

verus! {

/// Number of channels.
pub type ChannelCount = u16;

/// Samples per second for one channel, in Hz.
pub type SampleRate = u32;

/// A number of frames of the hardware buffer.
pub type FrameCount = u32;

/// CD-quality sample rate.
pub const HZ_44100: SampleRate = 44_100;

/// The buffer size asked for when a device reports a range of sizes.  It keeps the
/// playback delay short on devices that advertise very large buffers.
pub const PREFERRED_BUFFER_FRAMES: FrameCount = 1024;

/// The buffer size of a stream.
#[derive(Clone, Copy, Debug, PartialEq, Eq, Structural)]
pub enum BufferSize {
    /// Whatever the device chooses.
    Default,
    /// Exactly this many frames.
    Fixed(FrameCount),
}

/// The buffer sizes a device can provide.
#[derive(Clone, Copy, Debug, PartialEq, Eq, Structural)]
pub enum SupportedBufferSize {
    /// Every size from `min` to `max`.
    Range { min: FrameCount, max: FrameCount },
    /// The device cannot tell before a stream is started.
    Unknown,
}

impl SupportedBufferSize {
    /// A range is ordered when its lower bound does not exceed its upper bound.
    pub open spec fn ordered(self) -> bool {
        match self {
            SupportedBufferSize::Range { min, max } => min <= max,
            SupportedBufferSize::Unknown => true,
        }
    }

    /// Tells whether the range is ordered.
    pub fn is_ordered(&self) -> (r: bool)
        ensures
            r == self.ordered(),
    {
        match self {
            SupportedBufferSize::Range { min, max } => *min <= *max,
            SupportedBufferSize::Unknown => true,
        }
    }
}

/// `preferred` moved into `[min, max]`.
pub open spec fn clamp_frames(preferred: FrameCount, min: FrameCount, max: FrameCount) -> FrameCount {
    if preferred < min {
        min
    } else if preferred > max {
        max
    } else {
        preferred
    }
}

/// The concrete buffer size chosen for a device capability.
pub open spec fn clamped_buffer_size(buffer_size: SupportedBufferSize, preferred: FrameCount) -> BufferSize {
    match buffer_size {
        SupportedBufferSize::Range { min, max } => BufferSize::Fixed(clamp_frames(preferred, min, max)),
        SupportedBufferSize::Unknown => BufferSize::Default,
    }
}

/// Turns a buffer-size capability into a concrete buffer size: `preferred_size` clamped
/// into a reported range, the device default where the range is unknown.
pub fn clamp_supported_buffer_size(buffer_size: &SupportedBufferSize, preferred_size: FrameCount) -> (r:
    BufferSize)
    requires
        buffer_size.ordered(),
    ensures
        r == clamped_buffer_size(*buffer_size, preferred_size),
        *buffer_size matches SupportedBufferSize::Range { min, max } ==> r matches BufferSize::Fixed(n)
            && min <= n <= max && (min <= preferred_size <= max ==> n == preferred_size),
        *buffer_size == SupportedBufferSize::Unknown ==> r == BufferSize::Default,
{
    match buffer_size {
        SupportedBufferSize::Range { min, max } => {
            let n: FrameCount = if preferred_size < *min {
                *min
            } else if preferred_size > *max {
                *max
            } else {
                preferred_size
            };
            BufferSize::Fixed(n)
        },
        SupportedBufferSize::Unknown => BufferSize::Default,
    }
}

/// The parameters a device needs to build a stream.  The sample format is not among
/// them: it is fixed by the element type of the render callback.
#[derive(Clone, Copy, Debug, PartialEq, Eq, Structural)]
pub struct StreamConfig {
    pub channels: ChannelCount,
    pub sample_rate: SampleRate,
    pub buffer_size: BufferSize,
}

/// What an output stream is opened with.
#[derive(Clone, Copy, Debug, PartialEq, Eq, Structural)]
pub struct OutputStreamConfig {
    pub channel_count: ChannelCount,
    pub sample_rate: SampleRate,
    pub buffer_size: BufferSize,
    pub sample_format: SampleFormat,
}

impl OutputStreamConfig {
    /// Two channels at 44 100 Hz with the device's buffer size.  The sample format is the
    /// coarsest one on purpose: callers are expected to replace it with a format the
    /// device reports.
    pub open spec fn initial() -> OutputStreamConfig {
        OutputStreamConfig {
            channel_count: 2,
            sample_rate: HZ_44100,
            buffer_size: BufferSize::Default,
            sample_format: SampleFormat::I8,
        }
    }

    /// A configuration is playable when it has at least one channel.
    pub open spec fn playable(self) -> bool {
        self.channel_count >= 1
    }

    /// The device-facing part of this configuration.
    pub open spec fn device_config(self) -> StreamConfig {
        StreamConfig {
            channels: self.channel_count,
            sample_rate: self.sample_rate,
            buffer_size: self.buffer_size,
        }
    }

    /// The configuration that takes everything from a supported configuration, with the
    /// buffer size clamped to the preferred size.
    pub open spec fn of_supported(supported: SupportedStreamConfigView) -> OutputStreamConfig {
        OutputStreamConfig {
            channel_count: supported.channels,
            sample_rate: supported.sample_rate,
            buffer_size: clamped_buffer_size(supported.buffer_size, PREFERRED_BUFFER_FRAMES),
            sample_format: supported.sample_format,
        }
    }

    /// Returns the device-facing part of this configuration.
    pub fn stream_config(&self) -> (r: StreamConfig)
        ensures
            r == self.device_config(),
    {
        StreamConfig {
            channels: self.channel_count,
            sample_rate: self.sample_rate,
            buffer_size: self.buffer_size,
        }
    }

    /// Builds the configuration for a supported configuration of a device.
    pub fn from_supported(supported: &SupportedStreamConfig) -> (r: OutputStreamConfig)
        ensures
            r == Self::of_supported(supported@),
    {
        let buffer_size: SupportedBufferSize = supported.buffer_size();
        OutputStreamConfig {
            channel_count: supported.channels(),
            sample_rate: supported.sample_rate(),
            buffer_size: clamp_supported_buffer_size(&buffer_size, PREFERRED_BUFFER_FRAMES),
            sample_format: supported.sample_format(),
        }
    }
}

impl<'a> From<&'a OutputStreamConfig> for StreamConfig {
    fn from(config: &'a OutputStreamConfig) -> (r: StreamConfig) {
        config.stream_config()
    }
}

impl<'a> vstd::std_specs::convert::FromSpecImpl<&'a OutputStreamConfig> for StreamConfig {
    open spec fn obeys_from_spec() -> bool {
        true
    }

    open spec fn from_spec(config: &'a OutputStreamConfig) -> StreamConfig {
        config.device_config()
    }
}

impl Default for OutputStreamConfig {
    fn default() -> (r: Self)
        ensures
            r == OutputStreamConfig::initial(),
    {
        OutputStreamConfig {
            channel_count: 2,
            sample_rate: HZ_44100,
            buffer_size: BufferSize::Default,
            sample_format: SampleFormat::I8,
        }
    }
}

/// What a `SupportedStreamConfig` holds.
pub struct SupportedStreamConfigView {
    pub channels: ChannelCount,
    pub sample_rate: SampleRate,
    pub buffer_size: SupportedBufferSize,
    pub sample_format: SampleFormat,
}

/// One configuration that a device supports.  Its buffer-size range is always ordered.
#[derive(Clone, Copy, Debug, PartialEq, Eq)]
pub struct SupportedStreamConfig {
    channels: ChannelCount,
    sample_rate: SampleRate,
    buffer_size: SupportedBufferSize,
    sample_format: SampleFormat,
}

impl View for SupportedStreamConfig {
    type V = SupportedStreamConfigView;

    closed spec fn view(&self) -> SupportedStreamConfigView {
        SupportedStreamConfigView {
            channels: self.channels,
            sample_rate: self.sample_rate,
            buffer_size: self.buffer_size,
            sample_format: self.sample_format,
        }
    }
}

impl SupportedStreamConfig {
    #[verifier::type_invariant]
    spec fn well_formed(self) -> bool {
        self.buffer_size.ordered()
    }

    /// Makes a supported configuration; `None` when the buffer-size range is not ordered.
    pub fn new(
        channels: ChannelCount,
        sample_rate: SampleRate,
        buffer_size: SupportedBufferSize,
        sample_format: SampleFormat,
    ) -> (r: Option<SupportedStreamConfig>)
        ensures
            r is Some <==> buffer_size.ordered(),
            r matches Some(config) ==> config@ == (SupportedStreamConfigView {
                channels,
                sample_rate,
                buffer_size,
                sample_format,
            }),
    {
        if buffer_size.is_ordered() {
            Some(SupportedStreamConfig { channels, sample_rate, buffer_size, sample_format })
        } else {
            None
        }
    }

    pub fn channels(&self) -> (r: ChannelCount)
        ensures
            r == self@.channels,
    {
        self.channels
    }

    pub fn sample_rate(&self) -> (r: SampleRate)
        ensures
            r == self@.sample_rate,
    {
        self.sample_rate
    }

    pub fn buffer_size(&self) -> (r: SupportedBufferSize)
        ensures
            r == self@.buffer_size,
            r.ordered(),
    {
        proof {
            use_type_invariant(self);
        }
        self.buffer_size
    }

    pub fn sample_format(&self) -> (r: SampleFormat)
        ensures
            r == self@.sample_format,
    {
        self.sample_format
    }
}

/// What a `SupportedStreamConfigRange` holds.
pub struct SupportedStreamConfigRangeView {
    pub channels: ChannelCount,
    pub min_sample_rate: SampleRate,
    pub max_sample_rate: SampleRate,
    pub buffer_size: SupportedBufferSize,
    pub sample_format: SampleFormat,
}

impl SupportedStreamConfigRangeView {
    /// The supported configuration of this range at `sample_rate`.
    pub open spec fn at(self, sample_rate: SampleRate) -> SupportedStreamConfigView {
        SupportedStreamConfigView {
            channels: self.channels,
            sample_rate,
            buffer_size: self.buffer_size,
            sample_format: self.sample_format,
        }
    }

    /// Whether `sample_rate` lies in the range, bounds included.
    pub open spec fn includes(self, sample_rate: SampleRate) -> bool {
        self.min_sample_rate <= sample_rate <= self.max_sample_rate
    }
}

/// A range of configurations that a device supports: one format and channel count over
/// every sample rate from a minimum to a maximum.  The minimum never exceeds the maximum
/// and the buffer-size range is ordered.
#[derive(Clone, Copy, Debug, PartialEq, Eq)]
pub struct SupportedStreamConfigRange {
    channels: ChannelCount,
    min_sample_rate: SampleRate,
    max_sample_rate: SampleRate,
    buffer_size: SupportedBufferSize,
    sample_format: SampleFormat,
}

impl View for SupportedStreamConfigRange {
    type V = SupportedStreamConfigRangeView;

    closed spec fn view(&self) -> SupportedStreamConfigRangeView {
        SupportedStreamConfigRangeView {
            channels: self.channels,
            min_sample_rate: self.min_sample_rate,
            max_sample_rate: self.max_sample_rate,
            buffer_size: self.buffer_size,
            sample_format: self.sample_format,
        }
    }
}

impl SupportedStreamConfigRange {
    #[verifier::type_invariant]
    spec fn well_formed(self) -> bool {
        self.min_sample_rate <= self.max_sample_rate && self.buffer_size.ordered()
    }

    /// Makes a range; `None` when the sample rates or the buffer sizes are not ordered.
    pub fn new(
        channels: ChannelCount,
        min_sample_rate: SampleRate,
        max_sample_rate: SampleRate,
        buffer_size: SupportedBufferSize,
        sample_format: SampleFormat,
    ) -> (r: Option<SupportedStreamConfigRange>)
        ensures
            r is Some <==> min_sample_rate <= max_sample_rate && buffer_size.ordered(),
            r matches Some(range) ==> range@ == (SupportedStreamConfigRangeView {
                channels,
                min_sample_rate,
                max_sample_rate,
                buffer_size,
                sample_format,
            }),
    {
        if min_sample_rate <= max_sample_rate && buffer_size.is_ordered() {
            Some(
                SupportedStreamConfigRange {
                    channels,
                    min_sample_rate,
                    max_sample_rate,
                    buffer_size,
                    sample_format,
                },
            )
        } else {
            None
        }
    }

    pub fn channels(&self) -> (r: ChannelCount)
        ensures
            r == self@.channels,
    {
        self.channels
    }

    pub fn min_sample_rate(&self) -> (r: SampleRate)
        ensures
            r == self@.min_sample_rate,
            r <= self@.max_sample_rate,
    {
        proof {
            use_type_invariant(self);
        }
        self.min_sample_rate
    }

    pub fn max_sample_rate(&self) -> (r: SampleRate)
        ensures
            r == self@.max_sample_rate,
            r >= self@.min_sample_rate,
    {
        proof {
            use_type_invariant(self);
        }
        self.max_sample_rate
    }

    pub fn buffer_size(&self) -> (r: SupportedBufferSize)
        ensures
            r == self@.buffer_size,
            r.ordered(),
    {
        proof {
            use_type_invariant(self);
        }
        self.buffer_size
    }

    pub fn sample_format(&self) -> (r: SampleFormat)
        ensures
            r == self@.sample_format,
    {
        self.sample_format
    }

    /// The supported configuration at `sample_rate`; `None` when the rate is outside the
    /// range.
    pub fn try_with_sample_rate(self, sample_rate: SampleRate) -> (r: Option<SupportedStreamConfig>)
        ensures
            r is Some <==> self@.includes(sample_rate),
            r matches Some(config) ==> config@ == self@.at(sample_rate),
    {
        proof {
            use_type_invariant(self);
        }
        if self.min_sample_rate <= sample_rate && sample_rate <= self.max_sample_rate {
            Some(
                SupportedStreamConfig {
                    channels: self.channels,
                    sample_rate,
                    buffer_size: self.buffer_size,
                    sample_format: self.sample_format,
                },
            )
        } else {
            None
        }
    }

    /// The supported configuration at `sample_rate`, which must lie in the range.
    pub fn with_sample_rate(self, sample_rate: SampleRate) -> (r: SupportedStreamConfig)
        requires
            self@.includes(sample_rate),
        ensures
            r@ == self@.at(sample_rate),
    {
        proof {
            use_type_invariant(self);
        }
        SupportedStreamConfig {
            channels: self.channels,
            sample_rate,
            buffer_size: self.buffer_size,
            sample_format: self.sample_format,
        }
    }

    /// The supported configuration at the highest sample rate of the range.
    pub fn with_max_sample_rate(self) -> (r: SupportedStreamConfig)
        ensures
            r@ == self@.at(self@.max_sample_rate),
    {
        proof {
            use_type_invariant(self);
        }
        SupportedStreamConfig {
            channels: self.channels,
            sample_rate: self.max_sample_rate,
            buffer_size: self.buffer_size,
            sample_format: self.sample_format,
        }
    }
}

} // verus!
