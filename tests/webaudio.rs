use cpal::config::{DEFAULT_CHANNELS, DEFAULT_SAMPLE_RATE};
use cpal::render::{deinterleave, render_tick, scratch_buffer, SCRATCH_LEN, TICK_PERIOD_MS};
use cpal::webaudio::{output_device_if, DEVICE_NAME};
use cpal::{
    BuildStreamError, DefaultStreamConfigError, Device, Devices, Host, SampleFormat, SampleRate,
    StreamConfig, StreamId, SupportedStreamConfig, SupportedStreamConfigRange,
    SupportedStreamConfigsError,
};

fn expected_range() -> SupportedStreamConfigRange {
    SupportedStreamConfigRange {
        channels: 2,
        min_sample_rate: SampleRate(48000),
        max_sample_rate: SampleRate(48000),
        sample_format: SampleFormat::F32,
    }
}

fn stereo_config() -> StreamConfig {
    StreamConfig { channels: 2, sample_rate: SampleRate(48000) }
}

#[test]
fn devices_yield_the_device_once_when_available() {
    let mut devices = Devices::with_availability(true);
    assert_eq!(devices.next(), Some(Device));
    assert_eq!(devices.next(), None);
    assert_eq!(devices.next(), None);
}

#[test]
fn devices_yield_nothing_when_unavailable() {
    let mut devices = Devices::with_availability(false);
    assert_eq!(devices.next(), None);
    assert_eq!(devices.next(), None);
}

#[test]
fn output_device_follows_availability() {
    assert_eq!(output_device_if(true), Some(Device));
    assert_eq!(output_device_if(false), None);
}

#[test]
fn host_is_always_available() {
    assert!(Host::is_available());
    assert!(Host::new().is_ok());
}

#[test]
fn host_has_no_default_input_device() {
    let host = Host::new().unwrap();
    assert_eq!(host.default_input_device(), None);
    assert_eq!(host.default_input_device(), None);
}

#[test]
fn device_name_is_fixed() {
    assert_eq!(Device.name().unwrap(), "Default Device");
    assert_eq!(DEVICE_NAME, "Default Device");
}

#[test]
fn supported_output_configs_is_one_fixed_range() {
    let device = Device;
    for _ in 0..3 {
        let configs = device.supported_output_configs().unwrap();
        assert_eq!(configs, vec![expected_range()]);
    }
    let _ = device.build_output_stream_raw(&stereo_config(), SampleFormat::I16);
    assert_eq!(device.supported_output_configs().unwrap(), vec![expected_range()]);
}

#[test]
fn default_output_config_is_fixed() {
    let config = Device.default_output_config().unwrap();
    assert_eq!(
        config,
        SupportedStreamConfig {
            channels: 2,
            sample_rate: SampleRate(48000),
            sample_format: SampleFormat::F32,
        }
    );
    assert_eq!(config.config(), stereo_config());
}

#[test]
fn input_configs_are_unsupported() {
    let device = Device;
    for _ in 0..2 {
        assert!(matches!(
            device.supported_input_configs(),
            Err(SupportedStreamConfigsError::BackendSpecific { .. })
        ));
        assert_eq!(
            device.default_input_config(),
            Err(DefaultStreamConfigError::StreamTypeNotSupported)
        );
    }
}

#[test]
fn input_streams_are_unsupported() {
    let r = Device.build_input_stream_raw(&stereo_config(), SampleFormat::F32);
    assert!(matches!(r, Err(BuildStreamError::StreamConfigNotSupported)));
}

#[test]
fn output_stream_rejects_integer_formats() {
    let device = output_device_if(true).unwrap();
    let r = device.build_output_stream_raw(&stereo_config(), SampleFormat::I16);
    assert!(matches!(r, Err(BuildStreamError::StreamConfigNotSupported)));
    let r = device.build_output_stream_raw(&stereo_config(), SampleFormat::U16);
    assert!(matches!(r, Err(BuildStreamError::StreamConfigNotSupported)));
}

#[test]
fn only_f32_is_supported() {
    assert!(SampleFormat::F32.is_supported());
    assert!(!SampleFormat::I16.is_supported());
    assert!(!SampleFormat::U16.is_supported());
}

#[test]
fn deinterleave_two_channels() {
    let planes = deinterleave(&vec![1, 2, 3, 4, 5, 6], 2);
    assert_eq!(planes, vec![vec![1, 3, 5], vec![2, 4, 6]]);
}

#[test]
fn deinterleave_three_channels() {
    let planes = deinterleave(&vec![10u8, 20, 30, 11, 21, 31], 3);
    assert_eq!(planes, vec![vec![10, 11], vec![20, 21], vec![30, 31]]);
}

#[test]
fn deinterleave_one_channel_keeps_order() {
    let planes = deinterleave(&vec![7i16, -3, 9], 1);
    assert_eq!(planes, vec![vec![7, -3, 9]]);
}

#[test]
fn deinterleave_empty_gives_empty_planes() {
    let planes: Vec<Vec<u32>> = deinterleave(&Vec::new(), 2);
    assert_eq!(planes, vec![Vec::<u32>::new(), Vec::new()]);
}

#[test]
fn deinterleave_index_law() {
    let channels = 4usize;
    let frames = 25usize;
    let v: Vec<usize> = (0..channels * frames).map(|i| i * 7 + 1).collect();
    let planes = deinterleave(&v, channels);
    assert_eq!(planes.len(), channels);
    for c in 0..channels {
        assert_eq!(planes[c].len(), frames);
        for f in 0..frames {
            assert_eq!(planes[c][f], v[f * channels + c]);
        }
    }
}

#[test]
fn scratch_buffer_is_zeroed_and_sized() {
    let buf = scratch_buffer(0.0f32);
    assert_eq!(buf.len(), 32000);
    assert_eq!(SCRATCH_LEN, 32000);
    assert!(buf.iter().all(|s| *s == 0.0));
    assert_eq!(SCRATCH_LEN % DEFAULT_CHANNELS as usize, 0);
    assert_eq!(TICK_PERIOD_MS, 10);
    assert_eq!(DEFAULT_SAMPLE_RATE, 48000);
}

#[test]
fn render_of_constant_fill_gives_constant_planes() {
    let mut buf = scratch_buffer(0.0f32);
    for s in buf.iter_mut() {
        *s = 1.0;
    }
    let planes = deinterleave(&buf, DEFAULT_CHANNELS as usize);
    assert_eq!(planes.len(), 2);
    for plane in &planes {
        assert_eq!(plane.len(), 16000);
        assert!(plane.iter().all(|s| *s == 1.0));
    }
}

#[test]
fn render_keeps_left_and_right_apart() {
    let mut buf = scratch_buffer(0.0f32);
    for (i, s) in buf.iter_mut().enumerate() {
        *s = if i % 2 == 0 { 0.25 } else { -0.5 };
    }
    let planes = deinterleave(&buf, 2);
    assert!(planes[0].iter().all(|s| *s == 0.25));
    assert!(planes[1].iter().all(|s| *s == -0.5));
}

#[test]
fn stream_ids_compare_by_index() {
    assert_eq!(StreamId(3), StreamId(3));
    assert_ne!(StreamId(3), StreamId(4));
}

#[test]
fn render_tick_of_constant_fill_gives_constant_planes() {
    let mut fill = |buf: &mut [f32]| {
        for s in buf.iter_mut() {
            *s = 1.0;
        }
    };
    let (scratch, planes) = render_tick(0.0f32, &mut fill, 2);
    assert_eq!(scratch.len(), 32000);
    assert_eq!(planes.len(), 2);
    for plane in &planes {
        assert_eq!(plane.len(), 16000);
        assert!(plane.iter().all(|s| *s == 1.0));
    }
}

#[test]
fn render_tick_hands_fill_a_zeroed_buffer_once() {
    let mut calls = 0u32;
    let mut zeros_seen = 0usize;
    let mut fill = |buf: &mut [i32]| {
        calls += 1;
        zeros_seen = buf.iter().filter(|s| **s == 0).count();
        for (i, s) in buf.iter_mut().enumerate() {
            *s = i as i32;
        }
    };
    let (_, planes) = render_tick(0i32, &mut fill, 2);
    assert_eq!(calls, 1);
    assert_eq!(zeros_seen, 32000);
    assert_eq!(planes[0][0..3], [0, 2, 4]);
    assert_eq!(planes[1][0..3], [1, 3, 5]);
    assert_eq!(planes[1][15999], 31999);
}

#[test]
fn deinterleave_drops_a_partial_last_frame() {
    let planes = deinterleave(&vec![1, 2, 3, 4, 5], 2);
    assert_eq!(planes, vec![vec![1, 3], vec![2, 4]]);
}
