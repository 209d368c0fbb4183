//! The capability model: value types describing sample formats, channel
//! masks, sharing modes, stream directions and negotiated stream properties,
//! together with the error taxonomy of the library.

use vstd::prelude::*;
use vstd::string::StringExecFns;

verus! {

/// Opaque physical device handle, as handed across the public surface.
pub type RawHandle = u64;

/// A physical device is referred to by its raw handle.
pub type PhysicalDevice = RawHandle;

/// Frame counts.
pub type Frames = usize;

/// Sentinel sample rate: "use the device's default concurrent rate".
pub const DEFAULT_SAMPLE_RATE: usize = 0;

/// Largest sample rate the library accepts from a backend report.
pub const MAX_SAMPLE_RATE: usize = 0x0100_0000;

/// Largest per-stream buffer size, in frames, the library accepts.
pub const MAX_BUFFER_FRAMES: usize = 0x0010_0000;

/// Driver implementations a backend may identify as.
#[derive(Clone, Copy, Debug, PartialEq, Eq, Structural)]
pub enum DriverId {
    Wasapi,
    PulseAudio,
    OpenSLES,
    AAudio,
    Null,
}

/// Physical device access.
///
/// Sharing mode specifies system-wide access to a physical device resource;
/// access is not isolated to the current process or instance.
#[derive(Clone, Copy, Debug, PartialEq, Eq, Structural)]
pub enum SharingMode {
    /// Exclusive device access.
    Exclusive,
    /// Concurrent device access shared by multiple processes.
    Concurrent,
}

/// Device stream operation mode.
#[derive(Clone, Copy, Debug, PartialEq, Eq, Structural)]
pub enum StreamMode {
    /// Explicit polling: the caller pumps the stream with `submit_buffers`.
    Polling,
    /// Callback based: the backend pumps the stream on its own thread.
    Callback,
}

/// Physical form factor of an endpoint.
#[derive(Clone, Copy, Debug, PartialEq, Eq, Structural)]
pub enum FormFactor {
    Unknown,
    Remote,
    LineLevel,
    Headphones,
    Headset,
    Microphone,
}

/// Sample encoding.
#[derive(Clone, Copy, Debug, PartialEq, Eq, Structural)]
pub enum Format {
    F32,
    I16,
    U32,
}

/// Set of named speaker positions; one sample per set position makes a frame.
#[derive(Clone, Copy, Debug, PartialEq, Eq, Structural)]
pub struct ChannelMask {
    pub front_left: bool,
    pub front_right: bool,
    pub front_center: bool,
}

impl ChannelMask {
    /// Number of channels selected by the mask.
    pub open spec fn count_spec(self) -> nat {
        (if self.front_left {
            1nat
        } else {
            0nat
        }) + (if self.front_right {
            1nat
        } else {
            0nat
        }) + (if self.front_center {
            1nat
        } else {
            0nat
        })
    }

    pub open spec fn is_empty_spec(self) -> bool {
        self.count_spec() == 0
    }

    /// Bit encoding of the mask, front-left in the lowest bit.
    pub open spec fn bits_spec(self) -> u32 {
        ((if self.front_left {
            1u32
        } else {
            0u32
        }) + (if self.front_right {
            2u32
        } else {
            0u32
        }) + (if self.front_center {
            4u32
        } else {
            0u32
        })) as u32
    }

    /// The union of two masks.
    pub open spec fn union_spec(self, other: Self) -> Self {
        ChannelMask {
            front_left: self.front_left || other.front_left,
            front_right: self.front_right || other.front_right,
            front_center: self.front_center || other.front_center,
        }
    }

    /// Whether every position of `other` is also set in `self`.
    pub open spec fn contains_spec(self, other: Self) -> bool {
        &&& (other.front_left ==> self.front_left)
        &&& (other.front_right ==> self.front_right)
        &&& (other.front_center ==> self.front_center)
    }

    /// The mask with no position set.
    pub fn empty() -> (r: Self)
        ensures
            r == (ChannelMask { front_left: false, front_right: false, front_center: false }),
    {
        ChannelMask { front_left: false, front_right: false, front_center: false }
    }

    pub fn is_empty(&self) -> (r: bool)
        ensures
            r == self.is_empty_spec(),
    {
        !self.front_left && !self.front_right && !self.front_center
    }

    /// Number of channels selected by the mask.
    pub fn count(&self) -> (n: usize)
        ensures
            n == self.count_spec(),
            n <= 3,
    {
        let mut n: usize = 0;
        if self.front_left {
            n = n + 1;
        }
        if self.front_right {
            n = n + 1;
        }
        if self.front_center {
            n = n + 1;
        }
        n
    }

    pub fn union(&self, other: &Self) -> (r: Self)
        ensures
            r == self.union_spec(*other),
    {
        ChannelMask {
            front_left: self.front_left || other.front_left,
            front_right: self.front_right || other.front_right,
            front_center: self.front_center || other.front_center,
        }
    }

    pub fn contains(&self, other: &Self) -> (r: bool)
        ensures
            r == self.contains_spec(*other),
    {
        (!other.front_left || self.front_left) && (!other.front_right || self.front_right) && (
        !other.front_center || self.front_center)
    }

    /// Bit encoding of the mask, front-left in the lowest bit.
    pub fn bits(&self) -> (r: u32)
        ensures
            r == self.bits_spec(),
    {
        let mut r: u32 = 0;
        if self.front_left {
            r = r + 1;
        }
        if self.front_right {
            r = r + 2;
        }
        if self.front_center {
            r = r + 4;
        }
        r
    }

    /// The mask a bit encoding decodes to; bits above the known positions
    /// are dropped.
    pub open spec fn from_bits_spec(bits: u32) -> Self {
        ChannelMask {
            front_left: bits & 1 == 1,
            front_right: bits & 2 == 2,
            front_center: bits & 4 == 4,
        }
    }

    /// Decode a bit encoding; bits above the known positions are dropped.
    pub fn from_bits(bits: u32) -> (r: Self)
        ensures
            r == ChannelMask::from_bits_spec(bits),
    {
        ChannelMask {
            front_left: bits & 1 == 1,
            front_right: bits & 2 == 2,
            front_center: bits & 4 == 4,
        }
    }
}

/// Stream directions a physical device is capable of.
#[derive(Clone, Copy, Debug, PartialEq, Eq, Structural)]
pub struct StreamFlags {
    pub input: bool,
    pub output: bool,
}

impl StreamFlags {
    pub open spec fn contains_spec(self, other: Self) -> bool {
        &&& (other.input ==> self.input)
        &&& (other.output ==> self.output)
    }

    pub open spec fn union_spec(self, other: Self) -> Self {
        StreamFlags { input: self.input || other.input, output: self.output || other.output }
    }

    pub fn empty() -> (r: Self)
        ensures
            r == (StreamFlags { input: false, output: false }),
    {
        StreamFlags { input: false, output: false }
    }

    pub fn all() -> (r: Self)
        ensures
            r == (StreamFlags { input: true, output: true }),
    {
        StreamFlags { input: true, output: true }
    }

    pub fn contains(&self, other: &Self) -> (r: bool)
        ensures
            r == self.contains_spec(*other),
    {
        (!other.input || self.input) && (!other.output || self.output)
    }

    pub fn union(&self, other: &Self) -> (r: Self)
        ensures
            r == self.union_spec(*other),
    {
        StreamFlags { input: self.input || other.input, output: self.output || other.output }
    }
}

/// Sharing modes a physical device or instance supports.
#[derive(Clone, Copy, Debug, PartialEq, Eq, Structural)]
pub struct SharingModeFlags {
    pub exclusive: bool,
    pub concurrent: bool,
}

impl SharingModeFlags {
    /// Whether the given mode is among the supported ones.
    pub open spec fn contains_mode_spec(self, mode: SharingMode) -> bool {
        match mode {
            SharingMode::Exclusive => self.exclusive,
            SharingMode::Concurrent => self.concurrent,
        }
    }

    pub fn all() -> (r: Self)
        ensures
            r == (SharingModeFlags { exclusive: true, concurrent: true }),
    {
        SharingModeFlags { exclusive: true, concurrent: true }
    }

    pub fn contains_mode(&self, mode: SharingMode) -> (r: bool)
        ensures
            r == self.contains_mode_spec(mode),
    {
        match mode {
            SharingMode::Exclusive => self.exclusive,
            SharingMode::Concurrent => self.concurrent,
        }
    }
}

/// Static properties of a physical device.
#[derive(Debug, Clone)]
pub struct PhysicalDeviceProperties {
    pub device_name: String,
    pub streams: StreamFlags,
    pub form_factor: FormFactor,
}

/// Sample description.
#[derive(Clone, Copy, Debug, PartialEq, Eq, Structural)]
pub struct SampleDesc {
    /// Sample format.
    pub format: Format,
    /// Sample rate.
    pub sample_rate: usize,
}

/// Frame description: a sample description plus a channel mask.
/// A frame is composed of one sample per channel.
#[derive(Clone, Copy, Debug, PartialEq, Eq, Structural)]
pub struct FrameDesc {
    /// Sample format.
    pub format: Format,
    /// Sample rate.
    pub sample_rate: usize,
    /// Channel mask.
    pub channels: ChannelMask,
}

impl FrameDesc {
    /// Number of channels for the channel mask.
    pub fn num_channels(&self) -> (n: usize)
        ensures
            n == self.channels.count_spec(),
            n <= 3,
    {
        self.channels.count()
    }

    /// Sample descriptor.
    pub fn sample_desc(&self) -> (r: SampleDesc)
        ensures
            r == (SampleDesc { format: self.format, sample_rate: self.sample_rate }),
    {
        SampleDesc { format: self.format, sample_rate: self.sample_rate }
    }
}

/// Properties of the instance implementation, fixed per backend.
#[derive(Clone, Copy, Debug, PartialEq, Eq, Structural)]
pub struct InstanceProperties {
    /// Driver identifier.
    pub driver_id: DriverId,
    /// Operation mode of the device streams.
    pub stream_mode: StreamMode,
    /// Device sharing modes the backend supports.
    pub sharing: SharingModeFlags,
}

/// Negotiated properties of a device stream.
#[derive(Clone, Copy, Debug, PartialEq, Eq, Structural)]
pub struct StreamProperties {
    pub channels: ChannelMask,
    pub sample_rate: usize,
    pub buffer_size: Frames,
}

impl StreamProperties {
    pub fn num_channels(&self) -> (n: usize)
        ensures
            n == self.channels.count_spec(),
            n <= 3,
    {
        self.channels.count()
    }
}

/// Error taxonomy of the library.
#[derive(Debug, Clone)]
pub enum Error {
    /// A previously valid device handle no longer resolves; recoverable by
    /// re-enumeration.
    DeviceLost,
    /// The caller violated a precondition of the operation.
    Validation { description: String },
    /// The backend rejected an operation for a reason opaque to this layer.
    Internal { cause: String },
}

impl Error {
    /// Build the `Err` case for a caller-side precondition violation.
    pub fn validation<O>(description: &str) -> (r: Result<O, Error>)
        ensures
            r matches Err(Error::Validation { description: d }) && d@ == description@,
    {
        Err(Error::Validation { description: String::from_str(description) })
    }

    /// A human-readable description of the error.
    pub fn message(&self) -> (r: String)
        ensures
            self is DeviceLost ==> r@ == "device lost"@,
            self matches Error::Validation { description } ==> r@ == description@,
            self matches Error::Internal { cause } ==> r@ == cause@,
    {
        match self {
            Error::DeviceLost => String::from_str("device lost"),
            Error::Validation { description } => description.clone(),
            Error::Internal { cause } => cause.clone(),
        }
    }
}

/// Hotplug and default-device notifications delivered by a backend.
#[derive(Clone, Copy, Debug, PartialEq, Eq, Structural)]
pub enum Event {
    Added(PhysicalDevice),
    Removed(PhysicalDevice),
    DefaultInputDevice(Option<PhysicalDevice>),
    DefaultOutputDevice(Option<PhysicalDevice>),
}

/// Description of the logical device to create.
#[derive(Clone, Copy, Debug, PartialEq, Eq, Structural)]
pub struct DeviceDesc {
    pub physical_device: PhysicalDevice,
    pub sharing: SharingMode,
    pub sample_desc: SampleDesc,
}

/// Requested channel masks per direction. Exactly one side must be non-empty
/// for streaming: duplex devices are not supported.
#[derive(Clone, Copy, Debug, PartialEq, Eq, Structural)]
pub struct Channels {
    pub input: ChannelMask,
    pub output: ChannelMask,
}

/// One batch of frames exchanged with the backend.
///
/// The view is valid for one exchange cycle: it is produced by an acquire and
/// consumed by the matching release. An input stream fills `input` with the
/// captured sample words; an output stream expects the caller to fill
/// `output` with exactly `frames` frames of interleaved sample words. Sample
/// words are 32-bit containers, interpreted according to the stream format.
#[derive(Debug)]
pub struct StreamBuffers {
    /// Number of frames in the batch.
    pub frames: Frames,
    /// Captured frames of an input stream; empty for output streams.
    pub input: Vec<u32>,
    /// Frames to render for an output stream; empty for input streams.
    pub output: Vec<u32>,
}

} // verus!
