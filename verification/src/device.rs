//! The logical device: a physical endpoint bound to one negotiated stream,
//! with the acquire/produce-or-consume/release buffer-exchange protocol.
//!
//! The native stream's state is modeled explicitly: for an output stream,
//! the frames committed and not yet played (the backend's padding); for an
//! input stream, the frames captured and not yet read. The backend side of
//! the exchange — playback progress and capture arrival — is driven through
//! `consume_playback` and `feed_capture`, so every decision the protocol
//! takes on that state is verified for every possible backend behaviour.

use vstd::prelude::*;
use vstd::string::StringExecFns;

use crate::api::Error;
use crate::api::Frames;
use crate::api::StreamBuffers;
use crate::api::StreamMode;
use crate::api::StreamProperties;
use crate::api::MAX_BUFFER_FRAMES;

verus! {

/// A logical audio device with its negotiated stream.
pub struct Device {
    /// The negotiated stream properties.
    pub properties: StreamProperties,
    /// Operation mode inherited from the instance that created the device.
    pub mode: StreamMode,
    /// Whether the stream captures (true) or renders (false).
    pub is_input: bool,
    /// Whether the native stream is running.
    pub running: bool,
    /// Output streams: frames committed and not yet consumed by the engine.
    pub padding: Frames,
    /// Output streams: the committed, unplayed sample words.
    pub pending: Vec<u32>,
    /// Input streams: frames captured and not yet read.
    pub queued: Frames,
    /// Input streams: the captured, unread sample words.
    pub captured: Vec<u32>,
    /// Frame count of the live buffer view, if one is out.
    pub acquired: Option<Frames>,
}

impl Device {
    /// Number of channels of the negotiated stream.
    pub open spec fn nc(self) -> nat {
        self.properties.channels.count_spec()
    }

    /// Frames currently available for exchange: captured unread frames for
    /// an input stream, free buffer space for an output stream.
    pub open spec fn avail_frames_spec(self) -> nat {
        if self.is_input {
            self.queued as nat
        } else {
            (self.properties.buffer_size - self.padding) as nat
        }
    }

    /// Internal consistency of the device.
    pub open spec fn wf(self) -> bool {
        &&& 1 <= self.nc() <= 3
        &&& 1 <= self.properties.buffer_size <= MAX_BUFFER_FRAMES
        &&& self.padding <= self.properties.buffer_size
        &&& self.queued <= self.properties.buffer_size
        &&& (if self.is_input {
            &&& self.padding == 0
            &&& self.pending@.len() == 0
            &&& self.captured@.len() == self.queued * self.nc()
        } else {
            &&& self.queued == 0
            &&& self.captured@.len() == 0
            &&& self.pending@.len() == self.padding * self.nc()
        })
        &&& (self.acquired matches Some(n) ==> {
            &&& 1 <= n
            &&& (if self.is_input {
                n <= self.queued
            } else {
                n + self.padding <= self.properties.buffer_size
            })
        })
    }

    /// A freshly created device: stopped, with an empty stream and no live
    /// buffer view.
    pub fn new(properties: StreamProperties, mode: StreamMode, is_input: bool) -> (d: Device)
        requires
            1 <= properties.channels.count_spec(),
            1 <= properties.buffer_size <= MAX_BUFFER_FRAMES,
        ensures
            d.wf(),
            d.properties == properties,
            d.mode == mode,
            d.is_input == is_input,
            !d.running,
            d.padding == 0,
            d.queued == 0,
            d.pending@.len() == 0,
            d.captured@.len() == 0,
            d.acquired is None,
    {
        proof {
            let c = properties.channels.count_spec() as int;
            assert(0int * c == 0) by (nonlinear_arith);
        }
        Device {
            properties,
            mode,
            is_input,
            running: false,
            padding: 0,
            pending: Vec::new(),
            queued: 0,
            captured: Vec::new(),
            acquired: None,
        }
    }

    /// The device after `start`.
    pub open spec fn start_spec(d: Device) -> Device {
        Device { running: true, ..d }
    }

    /// The device after `stop`.
    pub open spec fn stop_spec(d: Device) -> Device {
        Device { running: false, ..d }
    }

    /// Start the native stream. Starting an already started device is
    /// harmless.
    pub fn start(&mut self)
        ensures
            *final(self) == Device::start_spec(*old(self)),
    {
        self.running = true;
    }

    /// Stop the native stream. Stopping an already stopped device is
    /// harmless; only future exchanges are prevented, never one in progress.
    pub fn stop(&mut self)
        ensures
            *final(self) == Device::stop_spec(*old(self)),
    {
        self.running = false;
    }

    /// The negotiated stream properties.
    pub fn stream_properties(&self) -> (r: StreamProperties)
        ensures
            r == self.properties,
    {
        self.properties
    }

    /// Wait for buffer availability and take the exchange view.
    ///
    /// Succeeds exactly when no view is live and the backend has frames to
    /// exchange; the view then covers every available frame, and its frame
    /// count is never zero. When the backend has nothing, the wait elapses
    /// and the call reports a timeout without touching the stream,
    /// whatever `timeout_ms` was.
    pub fn acquire_buffers(&mut self, timeout_ms: u32) -> (r: Result<StreamBuffers, Error>)
        requires
            old(self).wf(),
        ensures
            final(self).wf(),
            r is Ok <==> (old(self).acquired is None && old(self).avail_frames_spec() > 0),
            r matches Ok(b) ==> {
                &&& b.frames == old(self).avail_frames_spec()
                &&& b.frames > 0
                &&& *final(self) == (Device { acquired: Some(b.frames), ..*old(self) })
                &&& (if old(self).is_input {
                    &&& b.input@ == old(self).captured@.take((b.frames * old(self).nc()) as int)
                    &&& b.output@.len() == 0
                } else {
                    &&& b.input@.len() == 0
                    &&& b.output@.len() == b.frames * old(self).nc()
                    &&& forall|k: int| 0 <= k < b.output@.len() ==> b.output@[k] == 0
                })
            },
            r matches Err(e) ==> {
                &&& *final(self) == *old(self)
                &&& (if old(self).acquired is Some {
                    e is Validation
                } else {
                    e is Internal
                })
            },
    {
        if self.acquired.is_some() {
            return Error::validation("a buffer view is already live for this device");
        }
        let nc = self.properties.num_channels();
        let avail: usize = if self.is_input {
            self.queued
        } else {
            self.properties.buffer_size - self.padding
        };
        if avail == 0 {
            return Err(Error::Internal { cause: String::from_str("wait for buffers timed out") });
        }
        proof {
            let a = avail as int;
            let c = nc as int;
            let q = self.queued as int;
            let cap = self.captured@.len() as int;
            assert(a * c <= MAX_BUFFER_FRAMES * 3 && (self.is_input ==> a * c <= cap))
                by (nonlinear_arith)
                requires
                    0 <= a <= MAX_BUFFER_FRAMES,
                    1 <= c <= 3,
                    self.is_input ==> a <= q && cap == q * c,
            ;
        }
        let (input, output) = if self.is_input {
            (copy_prefix(&self.captured, avail * nc), Vec::new())
        } else {
            (Vec::new(), zero_samples(avail * nc))
        };
        self.acquired = Some(avail);
        Ok(StreamBuffers { frames: avail, input, output })
    }

    /// One polling-mode exchange: wait for availability and take the view.
    ///
    /// Only polling devices may be pumped by the caller; on a callback-mode
    /// device the call fails validation, blocks on nothing and changes
    /// nothing. On success the returned view never holds zero frames.
    pub fn submit_buffers(&mut self, timeout_ms: u32) -> (r: Result<StreamBuffers, Error>)
        requires
            old(self).wf(),
        ensures
            final(self).wf(),
            old(self).mode is Callback ==> (r matches Err(e) && e is Validation && *final(self)
                == *old(self)),
            old(self).mode is Polling ==> {
                &&& (r is Ok <==> (old(self).acquired is None && old(self).avail_frames_spec()
                    > 0))
                &&& (r matches Ok(b) ==> {
                    &&& b.frames == old(self).avail_frames_spec()
                    &&& b.frames > 0
                    &&& *final(self) == (Device { acquired: Some(b.frames), ..*old(self) })
                    &&& (if old(self).is_input {
                        &&& b.input@ == old(self).captured@.take(
                            (b.frames * old(self).nc()) as int,
                        )
                        &&& b.output@.len() == 0
                    } else {
                        &&& b.input@.len() == 0
                        &&& b.output@.len() == b.frames * old(self).nc()
                        &&& forall|k: int| 0 <= k < b.output@.len() ==> b.output@[k] == 0
                    })
                })
                &&& (r is Err ==> *final(self) == *old(self))
                &&& (r matches Err(e) ==> (if old(self).acquired is Some {
                    e is Validation
                } else {
                    e is Internal
                }))
            },
    {
        if matches!(self.mode, StreamMode::Callback) {
            return Error::validation("`submit_buffers` is not allowed for callback based devices");
        }
        self.acquire_buffers(timeout_ms)
    }

    /// Commit the exchange: the first `num_frames` frames of the view are
    /// handed to the backend (rendered output is queued for playback, read
    /// input is consumed), and the view stops being live.
    ///
    /// Fails validation when no view is live, when more frames are committed
    /// than the view holds, or when an output view does not carry exactly
    /// the sample words it was acquired with.
    pub fn release_buffers(&mut self, buffers: StreamBuffers, num_frames: Frames) -> (r: Result<
        (),
        Error,
    >)
        requires
            old(self).wf(),
        ensures
            final(self).wf(),
            r is Ok <==> (old(self).acquired matches Some(a) && num_frames <= a && (!old(
                self,
            ).is_input ==> buffers.output@.len() == a * old(self).nc())),
            r is Ok ==> {
                &&& final(self).acquired is None
                &&& final(self).properties == old(self).properties
                &&& final(self).mode == old(self).mode
                &&& final(self).is_input == old(self).is_input
                &&& final(self).running == old(self).running
                &&& (if old(self).is_input {
                    &&& final(self).captured@ == old(self).captured@.skip(
                        (num_frames * old(self).nc()) as int,
                    )
                    &&& final(self).queued == old(self).queued - num_frames
                    &&& final(self).padding == old(self).padding
                    &&& final(self).pending@ == old(self).pending@
                } else {
                    &&& final(self).pending@ == old(self).pending@ + buffers.output@.take(
                        (num_frames * old(self).nc()) as int,
                    )
                    &&& final(self).padding == old(self).padding + num_frames
                    &&& final(self).queued == old(self).queued
                    &&& final(self).captured@ == old(self).captured@
                })
            },
            r is Err ==> *final(self) == *old(self),
    {
        let a = match self.acquired {
            Some(a) => a,
            None => {
                return Error::validation("no buffer view is live for this device");
            },
        };
        if num_frames > a {
            return Error::validation("more frames committed than the view holds");
        }
        let nc = self.properties.num_channels();
        proof {
            let n = num_frames as int;
            let av = a as int;
            let c = nc as int;
            assert(n * c <= av * c && av * c <= MAX_BUFFER_FRAMES * 3 && 0 <= n * c)
                by (nonlinear_arith)
                requires
                    0 <= n <= av,
                    1 <= c <= 3,
                    av <= MAX_BUFFER_FRAMES,
            ;
        }
        if self.is_input {
            proof {
                let n = num_frames as int;
                let c = nc as int;
                let q = self.queued as int;
                let cap = self.captured@.len() as int;
                assert(n * c <= cap) by (nonlinear_arith)
                    requires
                        0 <= n <= q,
                        cap == q * c,
                        1 <= c,
                ;
            }
            drop_prefix(&mut self.captured, num_frames * nc);
            self.queued = self.queued - num_frames;
            self.acquired = None;
            proof {
                let c = self.nc() as int;
                let len_now = self.captured@.len() as int;
                let len_before = old(self).captured@.len() as int;
                let q_now = self.queued as int;
                let q_before = old(self).queued as int;
                let n = num_frames as int;
                assert(len_now == q_now * c) by (nonlinear_arith)
                    requires
                        len_now == len_before - n * c,
                        len_before == q_before * c,
                        q_now == q_before - n,
                ;
            }
            Ok(())
        } else {
            if buffers.output.len() != a * nc {
                return Error::validation("the committed view does not match the acquired one");
            }
            push_prefix(&mut self.pending, &buffers.output, num_frames * nc);
            self.padding = self.padding + num_frames;
            self.acquired = None;
            proof {
                let c = self.nc() as int;
                let len_now = self.pending@.len() as int;
                let len_before = old(self).pending@.len() as int;
                let p_now = self.padding as int;
                let p_before = old(self).padding as int;
                let n = num_frames as int;
                assert(len_now == p_now * c) by (nonlinear_arith)
                    requires
                        len_now == len_before + n * c,
                        len_before == p_before * c,
                        p_now == p_before + n,
                ;
            }
            Ok(())
        }
    }

    /// Backend side of an output stream: the engine plays up to `frames`
    /// committed frames and frees their buffer space. Returns the sample
    /// words actually played. On an input stream there is nothing to play
    /// and the call is a no-op.
    pub fn consume_playback(&mut self, frames: Frames) -> (played: Vec<u32>)
        requires
            old(self).wf(),
        ensures
            final(self).wf(),
            ({
                let consumed = if frames <= old(self).padding {
                    frames as int
                } else {
                    old(self).padding as int
                };
                let consumed_words = consumed * old(self).nc();
                if old(self).is_input {
                    played@.len() == 0 && *final(self) == *old(self)
                } else {
                    &&& played@ == old(self).pending@.take(consumed_words)
                    &&& final(self).pending@ == old(self).pending@.skip(consumed_words)
                    &&& final(self).padding == old(self).padding - consumed
                    &&& *final(self) == (Device {
                        padding: final(self).padding,
                        pending: final(self).pending,
                        ..*old(self)
                    })
                }
            }),
    {
        if self.is_input {
            return Vec::new();
        }
        let consumed = if frames <= self.padding {
            frames
        } else {
            self.padding
        };
        let nc = self.properties.num_channels();
        proof {
            let n = consumed as int;
            let p = self.padding as int;
            let c = nc as int;
            let len = self.pending@.len() as int;
            assert(n * c <= len && len <= MAX_BUFFER_FRAMES * 3 && 0 <= n * c)
                by (nonlinear_arith)
                requires
                    0 <= n <= p,
                    len == p * c,
                    p <= MAX_BUFFER_FRAMES,
                    1 <= c <= 3,
            ;
        }
        let played = copy_prefix(&self.pending, consumed * nc);
        drop_prefix(&mut self.pending, consumed * nc);
        self.padding = self.padding - consumed;
        proof {
            let c = self.nc() as int;
            let len_now = self.pending@.len() as int;
            let len_before = old(self).pending@.len() as int;
            let p_now = self.padding as int;
            let p_before = old(self).padding as int;
            let n = consumed as int;
            assert(len_now == p_now * c) by (nonlinear_arith)
                requires
                    len_now == len_before - n * c,
                    len_before == p_before * c,
                    p_now == p_before - n,
            ;
        }
        played
    }

    /// Backend side of an input stream: the hardware captured `frames`
    /// whole frames, as `samples` interleaved sample words. Capture beyond
    /// the stream's buffer size is an overrun and is reported instead of
    /// queued; on an output stream there is nothing to capture and the call
    /// fails validation.
    pub fn feed_capture(&mut self, samples: &Vec<u32>, frames: Frames) -> (r: Result<(), Error>)
        requires
            old(self).wf(),
        ensures
            final(self).wf(),
            r is Ok <==> (old(self).is_input && samples@.len() == frames * old(self).nc() && old(
                self,
            ).queued + frames <= old(self).properties.buffer_size),
            r is Ok ==> (*final(self) == (Device {
                queued: final(self).queued,
                captured: final(self).captured,
                ..*old(self)
            }) && final(self).captured@ == old(self).captured@ + samples@ && final(self).queued
                == old(self).queued + frames),
            r is Err ==> *final(self) == *old(self),
    {
        if !self.is_input {
            return Error::validation("cannot feed capture data into an output stream");
        }
        let nc = self.properties.num_channels();
        proof {
            let f = frames as int;
            let c = nc as int;
            assert(0 <= f * c && (f <= MAX_BUFFER_FRAMES ==> f * c <= MAX_BUFFER_FRAMES * 3))
                by (nonlinear_arith)
                requires
                    0 <= f,
                    1 <= c <= 3,
            ;
        }
        if frames > self.properties.buffer_size || samples.len() != frames * nc {
            return Error::validation("captured data must be whole frames");
        }
        if self.queued > self.properties.buffer_size - frames {
            return Error::validation("capture overrun: the stream buffer is full");
        }
        push_prefix(&mut self.captured, samples, samples.len());
        self.queued = self.queued + frames;
        proof {
            assert(old(self).captured@ + samples@.take(samples@.len() as int) =~= old(
                self,
            ).captured@ + samples@);
            let c = self.nc() as int;
            let len_now = self.captured@.len() as int;
            let len_before = old(self).captured@.len() as int;
            let q_now = self.queued as int;
            let q_before = old(self).queued as int;
            let f = frames as int;
            assert(len_now == q_now * c) by (nonlinear_arith)
                requires
                    len_now == len_before + f * c,
                    len_before == q_before * c,
                    q_now == q_before + f,
            ;
        }
        Ok(())
    }
}

/// The first `n` sample words of `v`, as a fresh vector.
fn copy_prefix(v: &Vec<u32>, n: usize) -> (r: Vec<u32>)
    requires
        n <= v@.len(),
    ensures
        r@ == v@.take(n as int),
{
    let mut r: Vec<u32> = Vec::new();
    let mut i: usize = 0;
    while i < n
        invariant
            i <= n <= v@.len(),
            r@ == v@.take(i as int),
        decreases n - i,
    {
        r.push(v[i]);
        assert(r@ =~= v@.take(i as int + 1));
        i = i + 1;
    }
    r
}

/// A vector of `n` zero sample words.
fn zero_samples(n: usize) -> (r: Vec<u32>)
    ensures
        r@.len() == n,
        forall|k: int| 0 <= k < n ==> r@[k] == 0,
{
    let mut r: Vec<u32> = Vec::new();
    let mut i: usize = 0;
    while i < n
        invariant
            i <= n,
            r@.len() == i,
            forall|k: int| 0 <= k < i ==> r@[k] == 0,
        decreases n - i,
    {
        r.push(0);
        i = i + 1;
    }
    r
}

/// Remove the first `n` sample words of `v`.
fn drop_prefix(v: &mut Vec<u32>, n: usize)
    requires
        n <= old(v)@.len(),
    ensures
        final(v)@ == old(v)@.skip(n as int),
{
    let mut i: usize = 0;
    while i < n
        invariant
            i <= n <= old(v)@.len(),
            v@ == old(v)@.skip(i as int),
        decreases n - i,
    {
        v.remove(0);
        assert(v@ =~= old(v)@.skip(i as int + 1));
        i = i + 1;
    }
}

/// Append the first `n` sample words of `src` to `dst`.
fn push_prefix(dst: &mut Vec<u32>, src: &Vec<u32>, n: usize)
    requires
        n <= src@.len(),
    ensures
        final(dst)@ == old(dst)@ + src@.take(n as int),
{
    let mut i: usize = 0;
    while i < n
        invariant
            i <= n <= src@.len(),
            dst@ == old(dst)@ + src@.take(i as int),
        decreases n - i,
    {
        dst.push(src[i]);
        assert(dst@ =~= old(dst)@ + src@.take(i as int + 1));
        i = i + 1;
    }
    assert(dst@ =~= old(dst)@ + src@.take(n as int));
}

/// Stopping a device is idempotent and never corrupts it: a second `stop`
/// changes nothing, the device ends up stopped either way, and a subsequent
/// `start` behaves exactly as on a device stopped once.
pub proof fn lemma_stop_idempotent(d: Device)
    ensures
        Device::stop_spec(Device::stop_spec(d)) == Device::stop_spec(d),
        !Device::stop_spec(d).running,
        d.wf() ==> Device::stop_spec(d).wf(),
        Device::start_spec(Device::stop_spec(Device::stop_spec(d))) == Device::start_spec(d),
        Device::start_spec(Device::stop_spec(Device::stop_spec(d))).running,
{
}

} // verus!
