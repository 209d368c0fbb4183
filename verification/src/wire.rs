//! Wire-level values exchanged with native backends: speaker-position bits,
//! sample-format codes, and the packed wave-format descriptor a backend
//! negotiates streams with. The library models these as plain values and
//! verifies the conversions in both directions.

use vstd::prelude::*;
use vstd::string::StringExecFns;

use crate::api::ChannelMask;
use crate::api::Error;
use crate::api::Format;
use crate::api::FrameDesc;
use crate::api::SharingMode;
use crate::api::MAX_SAMPLE_RATE;

verus! {

/// Speaker-position bit for the front-left channel in a wire channel mask.
pub const SPEAKER_FRONT_LEFT: u32 = 0x1;

/// Speaker-position bit for the front-right channel in a wire channel mask.
pub const SPEAKER_FRONT_RIGHT: u32 = 0x2;

/// Speaker-position bit for the front-center channel in a wire channel mask.
pub const SPEAKER_FRONT_CENTER: u32 = 0x4;

/// Wire code for concurrent (shared) stream access.
pub const SHARE_MODE_CONCURRENT: u32 = 0;

/// Wire code for exclusive stream access.
pub const SHARE_MODE_EXCLUSIVE: u32 = 1;

/// Wire code for 16-bit signed integer samples.
pub const SAMPLE_FORMAT_S16: u32 = 3;

/// Wire code for 32-bit float samples.
pub const SAMPLE_FORMAT_F32: u32 = 5;

/// Wire code for the front-left position in an enumerated channel map.
pub const CHANNEL_POSITION_FRONT_LEFT: u32 = 1;

/// Wire code for the front-right position in an enumerated channel map.
pub const CHANNEL_POSITION_FRONT_RIGHT: u32 = 2;

/// Wire code for the front-center position in an enumerated channel map.
pub const CHANNEL_POSITION_FRONT_CENTER: u32 = 5;

/// Bytes per sample in a packed wave format.
pub const WAVE_BYTES_PER_SAMPLE: u32 = 4;

/// Sample encoding tag of a packed wave format.
#[derive(Clone, Copy, Debug, PartialEq, Eq, Structural)]
pub enum WaveSubFormat {
    Pcm,
    IeeeFloat,
}

/// The packed stream descriptor a native backend negotiates with: channel
/// count, rate, derived byte rates, and the speaker-position mask.
#[derive(Clone, Copy, Debug, PartialEq, Eq, Structural)]
pub struct WaveFormat {
    pub sub_format: WaveSubFormat,
    pub channels: u16,
    pub samples_per_sec: u32,
    pub avg_bytes_per_sec: u32,
    pub block_align: u16,
    pub bits_per_sample: u16,
    pub channel_mask: u32,
}

/// The wave format a frame description packs to, or `None` where the
/// encoding has no packed representation.
pub open spec fn map_frame_desc_spec(desc: FrameDesc) -> Option<WaveFormat> {
    if desc.format == Format::F32 {
        Some(
            WaveFormat {
                sub_format: WaveSubFormat::IeeeFloat,
                channels: desc.channels.count_spec() as u16,
                samples_per_sec: desc.sample_rate as u32,
                avg_bytes_per_sec: (desc.channels.count_spec() as int * desc.sample_rate as int
                    * WAVE_BYTES_PER_SAMPLE as int) as u32,
                block_align: (desc.channels.count_spec() * WAVE_BYTES_PER_SAMPLE as nat) as u16,
                bits_per_sample: 32,
                channel_mask: desc.channels.bits_spec(),
            },
        )
    } else {
        None
    }
}

/// Pack a frame description for the backend.
///
/// 32-bit float frames pack exactly; 32-bit unsigned frames have no packed
/// representation and yield `None`.
pub fn map_frame_desc(desc: &FrameDesc) -> (r: Option<WaveFormat>)
    requires
        desc.format != Format::I16,
        desc.sample_rate <= MAX_SAMPLE_RATE,
    ensures
        r == map_frame_desc_spec(*desc),
{
    match desc.format {
        Format::F32 => {
            let num_channels = desc.num_channels();
            let rate = desc.sample_rate as u32;
            proof {
                assert(num_channels as int * rate as int * WAVE_BYTES_PER_SAMPLE as int <= 3
                    * MAX_SAMPLE_RATE as int * 4) by (nonlinear_arith)
                    requires
                        num_channels <= 3,
                        rate <= MAX_SAMPLE_RATE as u32,
                        WAVE_BYTES_PER_SAMPLE == 4,
                ;
            }
            Some(
                WaveFormat {
                    sub_format: WaveSubFormat::IeeeFloat,
                    channels: num_channels as u16,
                    samples_per_sec: rate,
                    avg_bytes_per_sec: (num_channels as u32) * rate * WAVE_BYTES_PER_SAMPLE,
                    block_align: (num_channels as u16) * (WAVE_BYTES_PER_SAMPLE as u16),
                    bits_per_sample: 32,
                    channel_mask: desc.channels.bits(),
                },
            )
        },
        Format::U32 => None,
        Format::I16 => None,
    }
}

/// The frame description a packed wave format decodes to, or `None` where
/// the library does not understand the packing.
pub open spec fn map_waveformat_spec(format: WaveFormat) -> Option<FrameDesc> {
    if format.sub_format == WaveSubFormat::IeeeFloat && format.bits_per_sample == 32 {
        Some(
            FrameDesc {
                format: Format::F32,
                sample_rate: format.samples_per_sec as usize,
                channels: ChannelMask::from_bits_spec(format.channel_mask),
            },
        )
    } else {
        None
    }
}

/// Decode a packed wave format handed back by the backend.
pub fn map_waveformat(format: &WaveFormat) -> (r: Result<FrameDesc, Error>)
    ensures
        match r {
            Ok(desc) => map_waveformat_spec(*format) == Some(desc),
            Err(e) => map_waveformat_spec(*format) is None && e is Internal,
        },
{
    if matches!(format.sub_format, WaveSubFormat::IeeeFloat) && format.bits_per_sample == 32 {
        Ok(
            FrameDesc {
                format: Format::F32,
                sample_rate: format.samples_per_sec as usize,
                channels: ChannelMask::from_bits(format.channel_mask),
            },
        )
    } else {
        Err(Error::Internal { cause: String::from_str("unsupported wave format") })
    }
}

/// The wire code of a sharing mode.
pub fn map_sharing_mode(sharing: SharingMode) -> (r: u32)
    ensures
        sharing is Exclusive ==> r == SHARE_MODE_EXCLUSIVE,
        sharing is Concurrent ==> r == SHARE_MODE_CONCURRENT,
{
    match sharing {
        SharingMode::Exclusive => SHARE_MODE_EXCLUSIVE,
        SharingMode::Concurrent => SHARE_MODE_CONCURRENT,
    }
}

/// The wire sample-format code of an encoding; 32-bit unsigned samples have
/// none.
pub fn map_format(format: Format) -> (r: u32)
    requires
        format != Format::U32,
    ensures
        format is I16 ==> r == SAMPLE_FORMAT_S16,
        format is F32 ==> r == SAMPLE_FORMAT_F32,
{
    match format {
        Format::I16 => SAMPLE_FORMAT_S16,
        Format::F32 => SAMPLE_FORMAT_F32,
        // excluded by the precondition: there is no wire code for it
        Format::U32 => 0,
    }
}

/// The encoding a wire sample-format code decodes to, as backends report
/// their mixing format; `None` for a code the library does not know.
pub fn map_sample_format(code: u32) -> (r: Option<Format>)
    ensures
        code == SAMPLE_FORMAT_S16 ==> r == Some(Format::I16),
        code == SAMPLE_FORMAT_F32 ==> r == Some(Format::F32),
        (code != SAMPLE_FORMAT_S16 && code != SAMPLE_FORMAT_F32) ==> r is None,
{
    if code == SAMPLE_FORMAT_S16 {
        Some(Format::I16)
    } else if code == SAMPLE_FORMAT_F32 {
        Some(Format::F32)
    } else {
        None
    }
}

/// The mask contribution of one enumerated channel-position code.
pub open spec fn position_mask_spec(code: u32) -> ChannelMask {
    ChannelMask {
        front_left: code == CHANNEL_POSITION_FRONT_LEFT,
        front_right: code == CHANNEL_POSITION_FRONT_RIGHT,
        front_center: code == CHANNEL_POSITION_FRONT_CENTER,
    }
}

/// Whether a channel-position code is one the library knows.
pub open spec fn known_position(code: u32) -> bool {
    code == CHANNEL_POSITION_FRONT_LEFT || code == CHANNEL_POSITION_FRONT_RIGHT || code
        == CHANNEL_POSITION_FRONT_CENTER
}

/// The mask an enumerated channel map folds to.
pub open spec fn map_channels_spec(positions: Seq<u32>) -> ChannelMask
    decreases positions.len(),
{
    if positions.len() == 0 {
        ChannelMask { front_left: false, front_right: false, front_center: false }
    } else {
        map_channels_spec(positions.drop_last()).union_spec(position_mask_spec(positions.last()))
    }
}

/// Fold an enumerated channel map, as backends report it, into a mask.
pub fn map_channels(positions: &Vec<u32>) -> (r: ChannelMask)
    requires
        forall|i: int| 0 <= i < positions@.len() ==> known_position(#[trigger] positions@[i]),
    ensures
        r == map_channels_spec(positions@),
{
    let mut mask = ChannelMask::empty();
    let mut i: usize = 0;
    while i < positions.len()
        invariant
            i <= positions@.len(),
            mask == map_channels_spec(positions@.take(i as int)),
        decreases positions@.len() - i,
    {
        let code = positions[i];
        let contribution = ChannelMask {
            front_left: code == CHANNEL_POSITION_FRONT_LEFT,
            front_right: code == CHANNEL_POSITION_FRONT_RIGHT,
            front_center: code == CHANNEL_POSITION_FRONT_CENTER,
        };
        mask = mask.union(&contribution);
        i = i + 1;
        proof {
            let taken = positions@.take(i as int);
            assert(taken.drop_last() =~= positions@.take(i as int - 1));
            assert(taken.last() == positions@[i as int - 1]);
        }
    }
    proof {
        assert(positions@.take(positions@.len() as int) =~= positions@);
    }
    mask
}

/// The speaker-position bits of a mask, as native stacks encode them.
pub fn map_channel_mask(mask: &ChannelMask) -> (r: u32)
    ensures
        r == mask.bits_spec(),
{
    mask.bits()
}

/// Decoding the bit encoding of a mask yields the mask back.
pub proof fn lemma_mask_bits_roundtrip(mask: ChannelMask)
    ensures
        ChannelMask::from_bits_spec(mask.bits_spec()) == mask,
{
    let b = mask.bits_spec();
    if mask.front_left {
        if mask.front_right {
            if mask.front_center {
                assert(7u32 & 1 == 1 && 7u32 & 2 == 2 && 7u32 & 4 == 4) by (bit_vector);
            } else {
                assert(3u32 & 1 == 1 && 3u32 & 2 == 2 && 3u32 & 4 != 4) by (bit_vector);
            }
        } else {
            if mask.front_center {
                assert(5u32 & 1 == 1 && 5u32 & 2 != 2 && 5u32 & 4 == 4) by (bit_vector);
            } else {
                assert(1u32 & 1 == 1 && 1u32 & 2 != 2 && 1u32 & 4 != 4) by (bit_vector);
            }
        }
    } else {
        if mask.front_right {
            if mask.front_center {
                assert(6u32 & 1 != 1 && 6u32 & 2 == 2 && 6u32 & 4 == 4) by (bit_vector);
            } else {
                assert(2u32 & 1 != 1 && 2u32 & 2 == 2 && 2u32 & 4 != 4) by (bit_vector);
            }
        } else {
            if mask.front_center {
                assert(4u32 & 1 != 1 && 4u32 & 2 != 2 && 4u32 & 4 == 4) by (bit_vector);
            } else {
                assert(0u32 & 1 != 1 && 0u32 & 2 != 2 && 0u32 & 4 != 4) by (bit_vector);
            }
        }
    }
}

/// Round trip: a 32-bit float frame description packs to a wave format that
/// decodes back to exactly the description it came from.
pub proof fn lemma_wave_format_roundtrip(desc: FrameDesc)
    requires
        desc.format == Format::F32,
        desc.sample_rate <= MAX_SAMPLE_RATE,
    ensures
        map_frame_desc_spec(desc) matches Some(w) && map_waveformat_spec(w) == Some(desc),
{
    lemma_mask_bits_roundtrip(desc.channels);
}

} // verus!
