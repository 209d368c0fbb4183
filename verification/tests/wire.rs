use audir::api::ChannelMask;
use audir::api::Error;
use audir::api::Format;
use audir::api::FrameDesc;
use audir::api::SharingMode;
use audir::wire::map_channel_mask;
use audir::wire::map_channels;
use audir::wire::map_format;
use audir::wire::map_frame_desc;
use audir::wire::map_sample_format;
use audir::wire::map_sharing_mode;
use audir::wire::map_waveformat;
use audir::wire::WaveFormat;
use audir::wire::WaveSubFormat;
use audir::wire::CHANNEL_POSITION_FRONT_CENTER;
use audir::wire::CHANNEL_POSITION_FRONT_LEFT;
use audir::wire::CHANNEL_POSITION_FRONT_RIGHT;
use audir::wire::SAMPLE_FORMAT_F32;
use audir::wire::SAMPLE_FORMAT_S16;
use audir::wire::SHARE_MODE_CONCURRENT;
use audir::wire::SHARE_MODE_EXCLUSIVE;

fn stereo() -> ChannelMask {
    ChannelMask { front_left: true, front_right: true, front_center: false }
}

#[test]
fn frame_desc_packs_exactly() {
    let desc = FrameDesc { format: Format::F32, sample_rate: 48000, channels: stereo() };
    let w = map_frame_desc(&desc).expect("float frames pack");
    assert_eq!(w.sub_format, WaveSubFormat::IeeeFloat);
    assert_eq!(w.channels, 2);
    assert_eq!(w.samples_per_sec, 48000);
    assert_eq!(w.avg_bytes_per_sec, 2 * 48000 * 4);
    assert_eq!(w.block_align, 8);
    assert_eq!(w.bits_per_sample, 32);
    assert_eq!(w.channel_mask, 0b011);
}

#[test]
fn unsigned_frames_do_not_pack() {
    let desc = FrameDesc { format: Format::U32, sample_rate: 48000, channels: stereo() };
    assert!(map_frame_desc(&desc).is_none());
}

#[test]
fn wave_format_roundtrip() {
    let desc = FrameDesc { format: Format::F32, sample_rate: 44100, channels: stereo() };
    let w = map_frame_desc(&desc).expect("float frames pack");
    let back = map_waveformat(&w).expect("a packed float format decodes");
    assert_eq!(back, desc);
}

#[test]
fn unknown_wave_format_is_internal() {
    let w = WaveFormat {
        sub_format: WaveSubFormat::Pcm,
        channels: 2,
        samples_per_sec: 48000,
        avg_bytes_per_sec: 384000,
        block_align: 8,
        bits_per_sample: 32,
        channel_mask: 0b011,
    };
    match map_waveformat(&w) {
        Err(Error::Internal { .. }) => {}
        _ => panic!("expected an internal error for an unknown packing"),
    }
}

#[test]
fn sharing_mode_codes() {
    assert_eq!(map_sharing_mode(SharingMode::Exclusive), SHARE_MODE_EXCLUSIVE);
    assert_eq!(map_sharing_mode(SharingMode::Concurrent), SHARE_MODE_CONCURRENT);
}

#[test]
fn sample_format_codes() {
    assert_eq!(map_format(Format::I16), SAMPLE_FORMAT_S16);
    assert_eq!(map_format(Format::F32), SAMPLE_FORMAT_F32);
}

#[test]
fn sample_format_codes_roundtrip() {
    for format in [Format::I16, Format::F32] {
        assert_eq!(map_sample_format(map_format(format)), Some(format));
    }
    assert_eq!(map_sample_format(0), None);
    assert_eq!(map_sample_format(999), None);
}

#[test]
fn channel_positions_fold_to_mask() {
    let positions = vec![CHANNEL_POSITION_FRONT_LEFT, CHANNEL_POSITION_FRONT_RIGHT];
    assert_eq!(map_channels(&positions), stereo());
    let all = vec![
        CHANNEL_POSITION_FRONT_LEFT,
        CHANNEL_POSITION_FRONT_RIGHT,
        CHANNEL_POSITION_FRONT_CENTER,
    ];
    assert_eq!(
        map_channels(&all),
        ChannelMask { front_left: true, front_right: true, front_center: true }
    );
    assert_eq!(map_channels(&Vec::new()), ChannelMask::empty());
}

#[test]
fn mask_to_speaker_bits() {
    assert_eq!(map_channel_mask(&stereo()), 0b011);
    assert_eq!(
        map_channel_mask(&ChannelMask { front_left: false, front_right: false, front_center: true }),
        0b100
    );
}
