use std::sync::Arc;

use output_stream::builder::OutputStreamBuilder;
use output_stream::config::{
    BufferSize, OutputStreamConfig, StreamConfig, SupportedBufferSize, SupportedStreamConfig,
};
use output_stream::error::{
    BackendSpecificError, BuildStreamError, DecoderError, DefaultStreamConfigError, PlayError,
    PlayStreamError, StreamError, SupportedStreamConfigsError,
};
use output_stream::format::SampleFormat;
use output_stream::negotiation::Request;
use output_stream::output::OutputStream;

fn supported(channels: u16, rate: u32, min: u32, max: u32, format: SampleFormat) -> SupportedStreamConfig {
    SupportedStreamConfig::new(channels, rate, SupportedBufferSize::Range { min, max }, format).unwrap()
}

#[test]
fn default_builder_has_no_device() {
    let builder: OutputStreamBuilder<u32> = OutputStreamBuilder::default();
    assert_eq!(builder.device, None);
    assert_eq!(builder.config, OutputStreamConfig::default());
}

#[test]
fn from_default_device_without_device_is_no_device() {
    let r = OutputStreamBuilder::<u32>::from_default_device(None, |_| {
        Ok(supported(2, 48_000, 64, 8192, SampleFormat::F32))
    });
    assert_eq!(r.err(), Some(StreamError::NoDevice));
}

#[test]
fn from_default_device_asks_the_device_it_was_given() {
    let r = OutputStreamBuilder::from_default_device(Some(7u32), |device| {
        assert_eq!(*device, 7);
        Ok(supported(2, 48_000, 64, 8192, SampleFormat::F32))
    });
    let builder = r.unwrap();
    assert_eq!(builder.device, Some(7));
    assert_eq!(builder.config.buffer_size, BufferSize::Fixed(1024));
    assert_eq!(builder.config.sample_rate, 48_000);

    let r = OutputStreamBuilder::from_default_device(Some(7u32), |_| {
        Err(DefaultStreamConfigError::DeviceNotAvailable)
    });
    assert_eq!(
        r.err(),
        Some(StreamError::DefaultStreamConfigError(DefaultStreamConfigError::DeviceNotAvailable))
    );
}

#[test]
fn from_device_takes_the_device_default() {
    let builder =
        OutputStreamBuilder::from_device("speakers", Ok(supported(2, 48_000, 64, 8192, SampleFormat::F32)))
            .unwrap();
    assert_eq!(builder.device, Some("speakers"));
    assert_eq!(
        builder.config,
        OutputStreamConfig {
            channel_count: 2,
            sample_rate: 48_000,
            buffer_size: BufferSize::Fixed(1024),
            sample_format: SampleFormat::F32,
        }
    );
}

#[test]
fn from_device_clamps_buffer_down_to_device_max() {
    let builder =
        OutputStreamBuilder::from_device(1u8, Ok(supported(2, 48_000, 128, 256, SampleFormat::I16))).unwrap();
    assert_eq!(builder.config.buffer_size, BufferSize::Fixed(256));
    assert_eq!(builder.config.sample_format, SampleFormat::I16);
}

#[test]
fn from_device_without_default_config_fails() {
    let err = DefaultStreamConfigError::BackendSpecific {
        err: BackendSpecificError { description: String::from("busy") },
    };
    let r = OutputStreamBuilder::from_device(1u8, Err(err.clone()));
    assert_eq!(r.err(), Some(StreamError::DefaultStreamConfigError(err)));
    let r = OutputStreamBuilder::from_device(1u8, Err(DefaultStreamConfigError::StreamTypeNotSupported));
    assert_eq!(
        r.err(),
        Some(StreamError::DefaultStreamConfigError(DefaultStreamConfigError::StreamTypeNotSupported))
    );
}

#[test]
fn setters_change_one_field_each() {
    let base: OutputStreamBuilder<u8> = OutputStreamBuilder::default();
    let b = base.with_device(3);
    assert_eq!(b.device, Some(3));
    assert_eq!(b.config, OutputStreamConfig::default());
    let b = b.with_channels(1);
    assert_eq!(b.config, OutputStreamConfig { channel_count: 1, ..OutputStreamConfig::default() });
    let b = b.with_sample_rate(22_050);
    assert_eq!(b.config.sample_rate, 22_050);
    assert_eq!(b.config.channel_count, 1);
    let b = b.with_buffer_size(BufferSize::Fixed(512));
    assert_eq!(b.config.buffer_size, BufferSize::Fixed(512));
    assert_eq!(b.config.sample_rate, 22_050);
    let b = b.with_sample_format(SampleFormat::U8);
    assert_eq!(
        b.config,
        OutputStreamConfig {
            channel_count: 1,
            sample_rate: 22_050,
            buffer_size: BufferSize::Fixed(512),
            sample_format: SampleFormat::U8,
        }
    );
    assert_eq!(b.device, Some(3));
}

#[test]
fn with_channels_accepts_the_smallest_and_largest_count() {
    let b: OutputStreamBuilder<u8> = OutputStreamBuilder::default();
    assert_eq!(b.with_channels(1).config.channel_count, 1);
    let b: OutputStreamBuilder<u8> = OutputStreamBuilder::default();
    assert_eq!(b.with_channels(u16::MAX).config.channel_count, u16::MAX);
}

#[test]
fn with_supported_config_replaces_all_four_fields() {
    let b: OutputStreamBuilder<u8> = OutputStreamBuilder::default()
        .with_device(1)
        .with_buffer_size(BufferSize::Fixed(4096))
        .with_sample_format(SampleFormat::I64);
    let b = b.with_supported_config(&supported(6, 96_000, 2048, 4096, SampleFormat::I32));
    assert_eq!(
        b.config,
        OutputStreamConfig {
            channel_count: 6,
            sample_rate: 96_000,
            buffer_size: BufferSize::Fixed(2048),
            sample_format: SampleFormat::I32,
        }
    );
    assert_eq!(b.device, Some(1));
    let unknown = SupportedStreamConfig::new(1, 8_000, SupportedBufferSize::Unknown, SampleFormat::U16).unwrap();
    let b = b.with_supported_config(&unknown);
    assert_eq!(b.config.buffer_size, BufferSize::Default);
}

#[test]
fn with_config_keeps_the_sample_format() {
    let b: OutputStreamBuilder<u8> = OutputStreamBuilder::default().with_sample_format(SampleFormat::F64);
    let b = b.with_config(&StreamConfig {
        channels: 4,
        sample_rate: 32_000,
        buffer_size: BufferSize::Fixed(100),
    });
    assert_eq!(
        b.config,
        OutputStreamConfig {
            channel_count: 4,
            sample_rate: 32_000,
            buffer_size: BufferSize::Fixed(100),
            sample_format: SampleFormat::F64,
        }
    );
    assert_eq!(b.device, None);
}

#[test]
fn opening_begins_with_the_builder_config() {
    let b: OutputStreamBuilder<u8> = OutputStreamBuilder::default().with_device(1).with_sample_rate(48_000);
    let expected = Request::Build(OutputStreamConfig { sample_rate: 48_000, ..OutputStreamConfig::default() });
    assert_eq!(b.open_stream().request(), expected);
    assert_eq!(b.try_open_stream().request(), expected);
    assert_eq!(OutputStream::<u8, u8>::open(&b.config).request(), expected);
    assert_eq!(OutputStreamBuilder::<u8>::try_default_stream().request(), Request::DefaultDevice);
}

#[test]
fn stream_errors_wrap_their_cause() {
    assert_eq!(
        StreamError::from(PlayStreamError::DeviceNotAvailable),
        StreamError::PlayStreamError(PlayStreamError::DeviceNotAvailable)
    );
    assert_eq!(
        StreamError::from(BuildStreamError::InvalidArgument),
        StreamError::BuildStreamError(BuildStreamError::InvalidArgument)
    );
    assert_eq!(
        StreamError::from(DefaultStreamConfigError::StreamTypeNotSupported),
        StreamError::DefaultStreamConfigError(DefaultStreamConfigError::StreamTypeNotSupported)
    );
    assert_eq!(
        StreamError::from(SupportedStreamConfigsError::InvalidArgument),
        StreamError::SupportedStreamConfigsError(SupportedStreamConfigsError::InvalidArgument)
    );
    assert_ne!(StreamError::from(BuildStreamError::StreamIdOverflow), StreamError::NoDevice);
}

#[test]
fn play_error_wraps_a_decoder_error() {
    assert_eq!(
        PlayError::from(DecoderError::UnrecognizedFormat),
        PlayError::DecoderError(DecoderError::UnrecognizedFormat)
    );
    assert_ne!(PlayError::from(DecoderError::UnrecognizedFormat), PlayError::NoDevice);
}

#[test]
fn mixer_handle_is_shared_with_the_stream() {
    let mixer = Arc::new(String::from("mixer"));
    let stream = OutputStream::new(5u8, Arc::clone(&mixer));
    assert_eq!(Arc::strong_count(&mixer), 2);
    let first = stream.mixer();
    let second = stream.mixer();
    assert!(Arc::ptr_eq(&first, &mixer));
    assert!(Arc::ptr_eq(&second, &mixer));
    assert_eq!(Arc::strong_count(&mixer), 4);
    drop(stream);
    assert_eq!(Arc::strong_count(&mixer), 3);
    assert_eq!(*first, "mixer");
}
