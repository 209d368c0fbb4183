use audir::api::ChannelMask;
use audir::api::Error;
use audir::api::Format;
use audir::api::FrameDesc;
use audir::api::SampleDesc;
use audir::api::SharingMode;
use audir::api::SharingModeFlags;
use audir::api::StreamFlags;
use audir::api::StreamProperties;

fn mask(fl: bool, fr: bool, fc: bool) -> ChannelMask {
    ChannelMask { front_left: fl, front_right: fr, front_center: fc }
}

#[test]
fn channel_mask_count_and_empty() {
    assert_eq!(ChannelMask::empty().count(), 0);
    assert!(ChannelMask::empty().is_empty());
    assert_eq!(mask(true, false, false).count(), 1);
    assert_eq!(mask(true, true, false).count(), 2);
    assert_eq!(mask(true, true, true).count(), 3);
    assert!(!mask(false, false, true).is_empty());
}

#[test]
fn channel_mask_bits_roundtrip() {
    for bits in 0u32..8 {
        let m = ChannelMask::from_bits(bits);
        assert_eq!(m.bits(), bits);
        assert_eq!(ChannelMask::from_bits(m.bits()), m);
    }
    assert_eq!(mask(true, true, false).bits(), 0b011);
    assert_eq!(mask(false, false, true).bits(), 0b100);
    // bits above the known positions are dropped
    assert_eq!(ChannelMask::from_bits(0b1010), mask(false, true, false));
}

#[test]
fn channel_mask_union_and_contains() {
    let left = mask(true, false, false);
    let right = mask(false, true, false);
    let stereo = left.union(&right);
    assert_eq!(stereo, mask(true, true, false));
    assert!(stereo.contains(&left));
    assert!(stereo.contains(&right));
    assert!(!left.contains(&stereo));
    assert!(stereo.contains(&ChannelMask::empty()));
}

#[test]
fn stream_flags_ops() {
    let input = StreamFlags { input: true, output: false };
    let output = StreamFlags { input: false, output: true };
    assert_eq!(StreamFlags::all(), input.union(&output));
    assert!(StreamFlags::all().contains(&input));
    assert!(!input.contains(&output));
    assert!(input.contains(&StreamFlags::empty()));
}

#[test]
fn sharing_mode_flags() {
    let all = SharingModeFlags::all();
    assert!(all.contains_mode(SharingMode::Exclusive));
    assert!(all.contains_mode(SharingMode::Concurrent));
    let concurrent_only = SharingModeFlags { exclusive: false, concurrent: true };
    assert!(!concurrent_only.contains_mode(SharingMode::Exclusive));
    assert!(concurrent_only.contains_mode(SharingMode::Concurrent));
}

#[test]
fn frame_desc_queries() {
    let desc = FrameDesc {
        format: Format::F32,
        sample_rate: 48000,
        channels: mask(true, true, false),
    };
    assert_eq!(desc.num_channels(), 2);
    assert_eq!(desc.sample_desc(), SampleDesc { format: Format::F32, sample_rate: 48000 });
}

#[test]
fn stream_properties_num_channels() {
    let props = StreamProperties {
        channels: mask(true, true, true),
        sample_rate: 44100,
        buffer_size: 256,
    };
    assert_eq!(props.num_channels(), 3);
}

#[test]
fn error_validation_and_messages() {
    let r: Result<(), Error> = Error::validation("broken request");
    match r {
        Err(Error::Validation { ref description }) => assert_eq!(description, "broken request"),
        _ => panic!("expected a validation error"),
    }
    assert_eq!(Error::DeviceLost.message(), "device lost");
    assert_eq!(
        Error::Validation { description: "why".to_string() }.message(),
        "why"
    );
    assert_eq!(Error::Internal { cause: "backend".to_string() }.message(), "backend");
}
