use audir::api::ChannelMask;
use audir::api::Channels;
use audir::api::DeviceDesc;
use audir::api::DriverId;
use audir::api::Error;
use audir::api::FormFactor;
use audir::api::Format;
use audir::api::FrameDesc;
use audir::api::InstanceProperties;
use audir::api::SampleDesc;
use audir::api::SharingMode;
use audir::api::SharingModeFlags;
use audir::api::StreamFlags;
use audir::api::StreamMode;
use audir::device::Device;
use audir::instance::Instance;
use audir::registry::EndpointReport;

fn stereo() -> ChannelMask {
    ChannelMask { front_left: true, front_right: true, front_center: false }
}

fn report(key: &str, input: bool, output: bool) -> EndpointReport {
    EndpointReport {
        key: key.to_string(),
        device_name: format!("endpoint {key}"),
        streams: StreamFlags { input, output },
        form_factor: FormFactor::Unknown,
        active: true,
        sample_rates: vec![44100, 48000],
        channel_counts: vec![1, 2],
        formats: vec![Format::F32],
        default_format: FrameDesc { format: Format::F32, sample_rate: 48000, channels: stereo() },
        buffer_size: 64,
        default_input: input,
        default_output: output,
    }
}

fn instance_with_mode(mode: StreamMode, input: bool, output: bool) -> Instance {
    let properties = InstanceProperties {
        driver_id: DriverId::Null,
        stream_mode: mode,
        sharing: SharingModeFlags { exclusive: true, concurrent: true },
    };
    Instance::create("test", properties, &vec![report("default", input, output)])
}

fn output_device(mode: StreamMode) -> Device {
    let instance = instance_with_mode(mode, false, true);
    let pd = instance.enumerate_physical_devices()[0];
    instance
        .create_device(
            DeviceDesc {
                physical_device: pd,
                sharing: SharingMode::Concurrent,
                sample_desc: SampleDesc { format: Format::F32, sample_rate: 48000 },
            },
            Channels { input: ChannelMask::empty(), output: stereo() },
        )
        .expect("a valid output request")
}

fn input_device(mode: StreamMode) -> Device {
    let instance = instance_with_mode(mode, true, false);
    let pd = instance.enumerate_physical_devices()[0];
    instance
        .create_device(
            DeviceDesc {
                physical_device: pd,
                sharing: SharingMode::Concurrent,
                sample_desc: SampleDesc { format: Format::F32, sample_rate: 48000 },
            },
            Channels { input: stereo(), output: ChannelMask::empty() },
        )
        .expect("a valid input request")
}

#[test]
fn stop_twice_then_start() {
    // stopping twice in succession does not error and leaves the device
    // stopped; a subsequent start succeeds
    let mut device = output_device(StreamMode::Polling);
    device.start();
    assert!(device.running);
    device.stop();
    device.stop();
    assert!(!device.running);
    device.start();
    assert!(device.running);
}

#[test]
fn polling_exchange_never_yields_zero_frames() {
    let mut device = output_device(StreamMode::Polling);
    device.start();
    let buffers = device.submit_buffers(10).expect("a fresh stream has room");
    assert!(buffers.frames > 0);
    let frames = buffers.frames;
    device.release_buffers(buffers, frames).expect("commit the exchange");

    // the stream is full now: the wait times out instead of returning an
    // empty view
    match device.submit_buffers(10) {
        Err(Error::Internal { .. }) => {}
        Ok(b) => panic!("expected a timeout, got {} frames", b.frames),
        Err(e) => panic!("expected a timeout, got {:?}", e),
    }

    // once the engine consumed something, the exchange works again
    device.consume_playback(16);
    let buffers = device.submit_buffers(10).expect("room again");
    assert_eq!(buffers.frames, 16);
}

#[test]
fn submit_on_callback_device_fails_validation() {
    // never panics, never blocks, changes nothing
    let mut device = output_device(StreamMode::Callback);
    for _ in 0..3 {
        match device.submit_buffers(u32::MAX) {
            Err(Error::Validation { ref description }) => {
                assert!(description.contains("callback"), "got: {description}");
            }
            _ => panic!("expected a validation failure"),
        }
    }
    // the backend side of a callback stream still exchanges through
    // acquire/release
    let buffers = device.acquire_buffers(0).expect("the backend may acquire");
    let frames = buffers.frames;
    device.release_buffers(buffers, frames).expect("the backend may release");
}

#[test]
fn at_most_one_view_is_live() {
    let mut device = output_device(StreamMode::Polling);
    let first = device.submit_buffers(0).expect("first view");
    match device.submit_buffers(0) {
        Err(Error::Validation { .. }) => {}
        _ => panic!("a second live view must be refused"),
    }
    let frames = first.frames;
    device.release_buffers(first, frames).expect("commit");
}

#[test]
fn release_without_view_fails_validation() {
    let mut device = output_device(StreamMode::Polling);
    let orphan = audir::api::StreamBuffers { frames: 4, input: Vec::new(), output: vec![0; 8] };
    match device.release_buffers(orphan, 4) {
        Err(Error::Validation { .. }) => {}
        _ => panic!("expected a validation failure"),
    }
}

#[test]
fn release_checks_frame_count_and_view_size() {
    let mut device = output_device(StreamMode::Polling);
    let view = device.submit_buffers(0).expect("a view");
    let frames = view.frames;
    // committing more frames than acquired is refused, and the device is
    // untouched, so the view can still be committed properly
    let too_many = audir::api::StreamBuffers {
        frames: view.frames,
        input: Vec::new(),
        output: view.output.clone(),
    };
    match device.release_buffers(too_many, frames + 1) {
        Err(Error::Validation { .. }) => {}
        _ => panic!("expected a validation failure"),
    }
    // a view of the wrong size is refused too
    let wrong_size = audir::api::StreamBuffers { frames, input: Vec::new(), output: vec![0; 3] };
    match device.release_buffers(wrong_size, frames) {
        Err(Error::Validation { .. }) => {}
        _ => panic!("expected a validation failure"),
    }
    device.release_buffers(view, frames).expect("the real view commits");
}

#[test]
fn ten_interleaved_stereo_cycles() {
    // a concurrent, 48 kHz, 32-bit float, stereo output device; ten
    // consecutive exchanges, each filling exactly frames * 2 interleaved
    // sample words
    let mut device = output_device(StreamMode::Polling);
    device.start();
    let mut expected_playback: Vec<u32> = Vec::new();
    let mut playback: Vec<u32> = Vec::new();
    for cycle in 0..10u32 {
        let mut buffers = device.submit_buffers(100).expect("an exchange per cycle");
        assert!(buffers.frames > 0);
        let frames = buffers.frames;
        assert_eq!(buffers.output.len(), frames * 2);
        for frame in 0..frames {
            let sample = ((cycle as f32) * 0.001 + (frame as f32) * 0.0001).to_bits();
            // interleaved: left then right per frame, no index out of bounds
            buffers.output[2 * frame] = sample;
            buffers.output[2 * frame + 1] = sample;
            expected_playback.push(sample);
            expected_playback.push(sample);
        }
        device.release_buffers(buffers, frames).expect("commit the cycle");
        let mut played = device.consume_playback(frames);
        assert_eq!(played.len(), frames * 2);
        playback.append(&mut played);
    }
    // everything written reached the engine, in order, nothing else
    assert_eq!(playback, expected_playback);
}

#[test]
fn playback_drains_in_order() {
    let mut device = output_device(StreamMode::Polling);
    let mut buffers = device.submit_buffers(0).expect("a view");
    let frames = buffers.frames;
    for k in 0..buffers.output.len() {
        buffers.output[k] = k as u32;
    }
    device.release_buffers(buffers, frames).expect("commit");
    let first = device.consume_playback(2);
    assert_eq!(first, vec![0, 1, 2, 3]);
    let second = device.consume_playback(1);
    assert_eq!(second, vec![4, 5]);
    assert_eq!(device.padding, frames - 3);
}

#[test]
fn capture_flows_through_the_exchange() {
    let mut device = input_device(StreamMode::Polling);

    // nothing captured yet: the wait times out
    match device.submit_buffers(5) {
        Err(Error::Internal { .. }) => {}
        _ => panic!("expected a timeout"),
    }

    let samples: Vec<u32> = (0..8u32).collect();
    device.feed_capture(&samples, 4).expect("whole frames fit");
    let buffers = device.submit_buffers(5).expect("captured frames are available");
    assert_eq!(buffers.frames, 4);
    assert_eq!(buffers.input, samples);
    assert_eq!(buffers.output.len(), 0);
    // read only three of the four frames; the fourth stays queued
    device.release_buffers(buffers, 3).expect("commit the read");
    assert_eq!(device.queued, 1);
    assert_eq!(device.captured, vec![6, 7]);
}

#[test]
fn capture_overrun_is_reported() {
    let mut device = input_device(StreamMode::Polling);
    let too_much: Vec<u32> = vec![0; 2 * 65];  // 65 frames into a 64-frame buffer
    match device.feed_capture(&too_much, 65) {
        Err(Error::Validation { .. }) => {}
        _ => panic!("expected an overrun report"),
    }
    let ragged: Vec<u32> = vec![0; 3];
    match device.feed_capture(&ragged, 2) {
        Err(Error::Validation { .. }) => {}
        _ => panic!("expected a whole-frames report"),
    }
    match output_device(StreamMode::Polling).feed_capture(&vec![0, 0], 1) {
        Err(Error::Validation { .. }) => {}
        _ => panic!("feeding an output stream must fail"),
    }
}
