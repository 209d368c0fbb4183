//! The instance: one backend connection, owning the physical device
//! registry and the event channel, and creating logical devices after
//! validating and negotiating each request.

use vstd::prelude::*;
use vstd::string::StringExecFns;

use crate::api::ChannelMask;
use crate::api::Channels;
use crate::api::DeviceDesc;
use crate::api::Error;
use crate::api::Event;
use crate::api::FrameDesc;
use crate::api::InstanceProperties;
use crate::api::PhysicalDevice;
use crate::api::PhysicalDeviceProperties;
use crate::api::SharingMode;
use crate::api::StreamProperties;
use crate::api::DEFAULT_SAMPLE_RATE;
use crate::device::Device;
use crate::registry::contains_format;
use crate::registry::contains_usize;
use crate::registry::copy_vec;
use crate::registry::find_key_spec;
use crate::registry::lemma_find_key_from_in_range;
use crate::registry::lemma_find_key_from_push;
use crate::registry::lemma_find_key_preserved;
use crate::registry::lemma_handle_of_resolves;
use crate::registry::lemma_merge_seq_rel_snoc;
use crate::registry::merge_seq_rel;
use crate::registry::merge_step_rel;
use crate::registry::Endpoint;
use crate::registry::EndpointReport;
use crate::registry::Registry;

verus! {

/// A connection to one backend: its fixed properties, the physical device
/// registry, and the hotplug event channel.
pub struct Instance {
    /// The backend's fixed properties.
    pub props: InstanceProperties,
    /// The name the connection was established under.
    pub name: String,
    /// The physical device registry.
    pub registry: Registry,
    /// Events delivered and not yet polled.
    pub events: Vec<Event>,
    /// Whether an event subscription is in place.
    pub events_enabled: bool,
    /// Whether hotplug activity made the cached registry possibly stale, so
    /// that a re-enumeration is advised.
    pub pending_rescan: bool,
}

impl Instance {
    pub open spec fn wf(self) -> bool {
        self.registry.wf()
    }

    /// Whether the handle still refers to a live endpoint.
    pub open spec fn live_spec(self, pd: PhysicalDevice) -> bool {
        match self.registry.resolve_spec(pd) {
            Some(i) => self.registry.entries@[i].active,
            None => false,
        }
    }

    /// The registry slot of a live handle.
    pub open spec fn slot_spec(self, pd: PhysicalDevice) -> int {
        self.registry.resolve_spec(pd)->0
    }

    /// Establish the connection and take over the backend's initial endpoint
    /// scan. Invalid reports are rejected, every other one is merged into
    /// the fresh registry.
    pub fn create(name: &str, properties: InstanceProperties, reports: &Vec<EndpointReport>) -> (r:
        Instance)
        ensures
            r.wf(),
            r.props == properties,
            r.name@ == name@,
            r.events@.len() == 0,
            !r.events_enabled,
            !r.pending_rescan,
            merge_seq_rel(Seq::<Endpoint>::empty(), reports@, r.registry.entries@),
            forall|k: int|
                0 <= k < reports@.len() && (#[trigger] reports@[k]).wf() ==> find_key_spec(
                    r.registry.entries@,
                    reports@[k].key@,
                ) is Some || r.registry.entries@.len() == u32::MAX as int,
    {
        let mut instance = Instance {
            props: properties,
            name: String::from_str(name),
            registry: Registry::new(),
            events: Vec::new(),
            events_enabled: false,
            pending_rescan: false,
        };
        proof {
            assert(instance.registry.entries@ =~= Seq::<Endpoint>::empty());
        }
        instance.refresh(reports);
        instance
    }

    /// The backend's fixed properties.
    pub fn properties(&self) -> (r: InstanceProperties)
        ensures
            r == self.props,
    {
        self.props
    }

    /// Merge a fresh endpoint scan into the registry. Slots are never
    /// dropped; endpoints that stopped being reported stay, inactive or
    /// stale, until invalidated by events. After a refresh the registry is
    /// current again.
    pub fn refresh(&mut self, reports: &Vec<EndpointReport>)
        requires
            old(self).wf(),
        ensures
            final(self).wf(),
            final(self).props == old(self).props,
            final(self).name == old(self).name,
            final(self).events@ == old(self).events@,
            final(self).events_enabled == old(self).events_enabled,
            !final(self).pending_rescan,
            final(self).registry.entries@.len() >= old(self).registry.entries@.len(),
            merge_seq_rel(old(self).registry.entries@, reports@, final(self).registry.entries@),
            forall|k: int|
                0 <= k < reports@.len() && (#[trigger] reports@[k]).wf() ==> find_key_spec(
                    final(self).registry.entries@,
                    reports@[k].key@,
                ) is Some || final(self).registry.entries@.len() == u32::MAX as int,
    {
        let mut i: usize = 0;
        while i < reports.len()
            invariant
                self.registry.wf(),
                i <= reports@.len(),
                merge_seq_rel(
                    old(self).registry.entries@,
                    reports@.take(i as int),
                    self.registry.entries@,
                ),
                self.props == old(self).props,
                self.name == old(self).name,
                self.events@ == old(self).events@,
                self.events_enabled == old(self).events_enabled,
                self.pending_rescan == old(self).pending_rescan,
                self.registry.entries@.len() >= old(self).registry.entries@.len(),
                forall|k: int|
                    0 <= k < i && (#[trigger] reports@[k]).wf() ==> find_key_spec(
                        self.registry.entries@,
                        reports@[k].key@,
                    ) is Some || self.registry.entries@.len() == u32::MAX as int,
            decreases reports@.len() - i,
        {
            let ghost entries_before = self.registry.entries@;
            self.registry.merge_report(&reports[i]);
            proof {
                let entries_after = self.registry.entries@;
                let report = reports@[i as int];
                assert(!report.wf() ==> entries_after == entries_before);
                if report.wf() {
                    match find_key_spec(entries_before, report.key@) {
                        Some(j) => {
                            lemma_find_key_from_in_range(entries_before, report.key@, 0);
                            assert(entries_after == entries_before.update(
                                j,
                                entries_before[j].merged_with(report),
                            ));
                        },
                        None => {
                            if entries_before.len() < u32::MAX as int {
                                assert(entries_after.len() == entries_before.len() + 1);
                            } else {
                                assert(entries_after == entries_before);
                            }
                        },
                    }
                }
                assert(entries_before.len() <= entries_after.len());
                assert(forall|m: int|
                    0 <= m < entries_before.len() ==> entries_after[m].key@ == entries_before[m].key@);
                if report.wf() {
                    match find_key_spec(entries_before, report.key@) {
                        Some(j) => {
                            lemma_find_key_preserved(entries_before, entries_after, report.key@);
                        },
                        None => {
                            if entries_before.len() < u32::MAX as int {
                                assert(entries_after.last().key@ == report.key@);
                                assert(entries_after =~= entries_after.drop_last().push(
                                    entries_after.last(),
                                ));
                                lemma_find_key_from_push(
                                    entries_after.drop_last(),
                                    entries_after.last(),
                                    report.key@,
                                    0,
                                );
                            }
                        },
                    }
                }
                assert(merge_step_rel(entries_before, report, entries_after));
                lemma_merge_seq_rel_snoc(
                    old(self).registry.entries@,
                    reports@.take(i as int),
                    entries_before,
                    report,
                    entries_after,
                );
                assert(reports@.take(i as int).push(report) =~= reports@.take(i as int + 1));
                assert(forall|k: int|
                    0 <= k < i && (#[trigger] reports@[k]).wf() ==> find_key_spec(
                        entries_after,
                        reports@[k].key@,
                    ) is Some || entries_after.len() == u32::MAX as int) by {
                    assert forall|k: int|
                        0 <= k < i && (#[trigger] reports@[k]).wf() && entries_after.len()
                            != u32::MAX as int implies find_key_spec(
                        entries_after,
                        reports@[k].key@,
                    ) is Some by {
                        assert(entries_before.len() != u32::MAX as int);
                        assert(find_key_spec(entries_before, reports@[k].key@) is Some);
                        lemma_find_key_preserved(entries_before, entries_after, reports@[k].key@);
                    }
                }
            }
            i = i + 1;
        }
        proof {
            assert(reports@.take(reports@.len() as int) =~= reports@);
        }
        self.pending_rescan = false;
    }

    /// The raw handles of every live endpoint, in registry order. The list
    /// reflects the scans merged so far; after hotplug activity, refresh
    /// with a new scan first.
    pub fn enumerate_physical_devices(&self) -> (r: Vec<PhysicalDevice>)
        requires
            self.wf(),
        ensures
            r@ == self.registry.active_handles_spec(),
    {
        self.registry.active_handles()
    }

    /// The backend's preferred capture endpoint, while one is live.
    pub fn default_physical_input_device(&self) -> (r: Option<PhysicalDevice>)
        requires
            self.wf(),
        ensures
            match r {
                Some(pd) => self.registry.find_default_from(true, 0) matches Some(i) && pd
                    == self.registry.handle_of_spec(i),
                None => self.registry.find_default_from(true, 0) is None,
            },
    {
        match self.registry.find_default(true) {
            Some(i) => Some(self.registry.handle_of(i)),
            None => None,
        }
    }

    /// The backend's preferred render endpoint, while one is live.
    pub fn default_physical_output_device(&self) -> (r: Option<PhysicalDevice>)
        requires
            self.wf(),
        ensures
            match r {
                Some(pd) => self.registry.find_default_from(false, 0) matches Some(i) && pd
                    == self.registry.handle_of_spec(i),
                None => self.registry.find_default_from(false, 0) is None,
            },
    {
        match self.registry.find_default(false) {
            Some(i) => Some(self.registry.handle_of(i)),
            None => None,
        }
    }

    /// The static properties of a physical device. Fails with `DeviceLost`
    /// exactly when the handle no longer refers to a live endpoint.
    pub fn physical_device_properties(&self, physical_device: PhysicalDevice) -> (r: Result<
        PhysicalDeviceProperties,
        Error,
    >)
        requires
            self.wf(),
        ensures
            r is Ok <==> self.live_spec(physical_device),
            r matches Ok(p) ==> {
                let e = self.registry.entries@[self.slot_spec(physical_device)];
                &&& p.device_name@ == e.device_name@
                &&& p.streams == e.streams
                &&& p.form_factor == e.form_factor
            },
            r matches Err(e) ==> e is DeviceLost,
    {
        match self.registry.resolve(physical_device) {
            Some(i) if self.registry.entries[i].active => {
                let e = &self.registry.entries[i];
                Ok(
                    PhysicalDeviceProperties {
                        device_name: e.device_name.clone(),
                        streams: e.streams,
                        form_factor: e.form_factor,
                    },
                )
            },
            _ => Err(Error::DeviceLost),
        }
    }

    /// Whether a live endpoint supports the frame description under the
    /// sharing mode: the mode must be one the backend offers, and the
    /// format, rate and channel count must all be among the endpoint's
    /// advertised capabilities. Nothing is assumed beyond what the endpoint
    /// advertised.
    pub open spec fn supports_format_spec(self, i: int, sharing: SharingMode, fd: FrameDesc) -> bool {
        let e = self.registry.entries@[i];
        &&& self.props.sharing.contains_mode_spec(sharing)
        &&& fd.channels.count_spec() > 0
        &&& e.formats@.contains(fd.format)
        &&& e.sample_rates@.contains(fd.sample_rate)
        &&& e.channel_counts@.contains(fd.channels.count_spec() as usize)
    }

    /// Pure capability predicate: no side effects, false on a dead handle.
    pub fn physical_device_supports_format(
        &self,
        physical_device: PhysicalDevice,
        sharing: SharingMode,
        frame_desc: FrameDesc,
    ) -> (r: bool)
        requires
            self.wf(),
        ensures
            r == (self.live_spec(physical_device) && self.supports_format_spec(
                self.slot_spec(physical_device),
                sharing,
                frame_desc,
            )),
    {
        match self.registry.resolve(physical_device) {
            Some(i) if self.registry.entries[i].active => {
                let e = &self.registry.entries[i];
                let nc = frame_desc.num_channels();
                self.props.sharing.contains_mode(sharing) && nc > 0 && contains_format(
                    &e.formats,
                    frame_desc.format,
                ) && contains_usize(&e.sample_rates, frame_desc.sample_rate) && contains_usize(
                    &e.channel_counts,
                    nc,
                )
            },
            _ => false,
        }
    }

    /// The format the backend mixes this endpoint at in concurrent mode.
    /// Fails with `DeviceLost` exactly when the handle no longer refers to
    /// a live endpoint.
    pub fn physical_device_default_concurrent_format(
        &self,
        physical_device: PhysicalDevice,
    ) -> (r: Result<FrameDesc, Error>)
        requires
            self.wf(),
        ensures
            r is Ok <==> self.live_spec(physical_device),
            r matches Ok(fd) ==> fd == self.registry.entries@[self.slot_spec(
                physical_device,
            )].default_format,
            r matches Err(e) ==> e is DeviceLost,
    {
        match self.registry.resolve(physical_device) {
            Some(i) if self.registry.entries[i].active => Ok(
                self.registry.entries[i].default_format,
            ),
            _ => Err(Error::DeviceLost),
        }
    }

    /// Whether both channel masks are non-empty: a duplex request, which no
    /// backend supports.
    pub open spec fn duplex_spec(channels: Channels) -> bool {
        !channels.input.is_empty_spec() && !channels.output.is_empty_spec()
    }

    /// Whether neither mask selects a channel, leaving nothing to stream.
    pub open spec fn no_direction_spec(channels: Channels) -> bool {
        channels.input.is_empty_spec() && channels.output.is_empty_spec()
    }

    /// The sentinel rate may not be combined with exclusive sharing:
    /// exclusive streams need an explicit rate.
    pub open spec fn default_rate_exclusive_spec(desc: DeviceDesc) -> bool {
        desc.sample_desc.sample_rate == DEFAULT_SAMPLE_RATE && desc.sharing is Exclusive
    }

    /// The mask the stream will use: the non-empty side of the request.
    pub open spec fn requested_mask_spec(channels: Channels) -> ChannelMask {
        if !channels.input.is_empty_spec() {
            channels.input
        } else {
            channels.output
        }
    }

    /// Whether the endpoint is capable of the requested direction.
    pub open spec fn direction_ok_spec(self, i: int, channels: Channels) -> bool {
        if !channels.input.is_empty_spec() {
            self.registry.entries@[i].streams.input
        } else {
            self.registry.entries@[i].streams.output
        }
    }

    /// The rate the stream is negotiated at: the requested rate, or the
    /// endpoint's default concurrent rate where the request left it to the
    /// sentinel.
    pub open spec fn resolved_rate_spec(self, i: int, desc: DeviceDesc) -> usize {
        if desc.sample_desc.sample_rate == DEFAULT_SAMPLE_RATE {
            self.registry.entries@[i].default_format.sample_rate
        } else {
            desc.sample_desc.sample_rate
        }
    }

    /// Everything `create_device` checks, in one predicate: the request is
    /// not duplex and not empty, the sentinel rate is not combined with
    /// exclusive sharing, the endpoint is live and capable of the
    /// direction, and the backend accepts the resolved format.
    pub open spec fn create_device_ok_spec(self, desc: DeviceDesc, channels: Channels) -> bool {
        &&& !Instance::duplex_spec(channels)
        &&& !Instance::default_rate_exclusive_spec(desc)
        &&& !Instance::no_direction_spec(channels)
        &&& self.live_spec(desc.physical_device)
        &&& self.direction_ok_spec(self.slot_spec(desc.physical_device), channels)
        &&& self.supports_format_spec(
            self.slot_spec(desc.physical_device),
            desc.sharing,
            FrameDesc {
                format: desc.sample_desc.format,
                sample_rate: self.resolved_rate_spec(self.slot_spec(desc.physical_device), desc),
                channels: Instance::requested_mask_spec(channels),
            },
        )
    }

    /// Create a logical device: validate the request, resolve the sentinel
    /// rate against the endpoint's default concurrent format, negotiate the
    /// resolved format against the endpoint's capabilities, and bind the
    /// stream.
    ///
    /// Validation failures are reported, never fatal: a duplex request, an
    /// empty request, or the sentinel rate under exclusive sharing fail for
    /// every backend and every handle; a dead handle is `DeviceLost`; a
    /// request for a direction the endpoint lacks fails validation; a
    /// format the endpoint does not support is a backend rejection,
    /// reported as `Internal`.
    pub fn create_device(&self, desc: DeviceDesc, channels: Channels) -> (r: Result<Device, Error>)
        requires
            self.wf(),
        ensures
            r is Ok <==> self.create_device_ok_spec(desc, channels),
            Instance::duplex_spec(channels) ==> (r matches Err(e) && e is Validation),
            !Instance::duplex_spec(channels) && Instance::default_rate_exclusive_spec(desc) ==> (
            r matches Err(e) && e is Validation),
            !Instance::duplex_spec(channels) && !Instance::default_rate_exclusive_spec(desc)
                && Instance::no_direction_spec(channels) ==> (r matches Err(e)
                && e is Validation),
            !Instance::duplex_spec(channels) && !Instance::default_rate_exclusive_spec(desc)
                && !Instance::no_direction_spec(channels) && !self.live_spec(desc.physical_device)
                ==> (r matches Err(e) && e is DeviceLost),
            !Instance::duplex_spec(channels) && !Instance::default_rate_exclusive_spec(desc)
                && !Instance::no_direction_spec(channels) && self.live_spec(desc.physical_device)
                && !self.direction_ok_spec(self.slot_spec(desc.physical_device), channels) ==> (
            r matches Err(e) && e is Validation),
            !Instance::duplex_spec(channels) && !Instance::default_rate_exclusive_spec(desc)
                && !Instance::no_direction_spec(channels) && self.live_spec(desc.physical_device)
                && self.direction_ok_spec(self.slot_spec(desc.physical_device), channels) && !(r
                is Ok) ==> (r matches Err(e) && e is Internal),
            r matches Ok(d) ==> {
                let i = self.slot_spec(desc.physical_device);
                &&& d.wf()
                &&& d.properties.channels == Instance::requested_mask_spec(channels)
                &&& d.properties.channels.count_spec() > 0
                &&& d.properties.sample_rate == self.resolved_rate_spec(i, desc)
                &&& d.properties.buffer_size == self.registry.entries@[i].buffer_size
                &&& d.mode == self.props.stream_mode
                &&& d.is_input == !channels.input.is_empty_spec()
                &&& !d.running
                &&& d.acquired is None
                &&& d.padding == 0
                &&& d.queued == 0
            },
    {
        if !channels.input.is_empty() && !channels.output.is_empty() {
            return Error::validation("duplex devices are not supported");
        }
        let use_default_rate = desc.sample_desc.sample_rate == DEFAULT_SAMPLE_RATE;
        if use_default_rate && matches!(desc.sharing, SharingMode::Exclusive) {
            return Error::validation(
                "the default sample rate cannot be used with exclusive sharing",
            );
        }
        let is_input = !channels.input.is_empty();
        if !is_input && channels.output.is_empty() {
            return Error::validation("one channel mask must be non-empty");
        }
        let i = match self.registry.resolve(desc.physical_device) {
            Some(i) if self.registry.entries[i].active => i,
            _ => {
                return Err(Error::DeviceLost);
            },
        };
        let e = &self.registry.entries[i];
        if is_input && !e.streams.input {
            return Error::validation("the physical device has no input capability");
        }
        if !is_input && !e.streams.output {
            return Error::validation("the physical device has no output capability");
        }
        let mask = if is_input {
            channels.input
        } else {
            channels.output
        };
        let sample_rate = if use_default_rate {
            e.default_format.sample_rate
        } else {
            desc.sample_desc.sample_rate
        };
        let nc = mask.count();
        let negotiable = self.props.sharing.contains_mode(desc.sharing) && nc > 0
            && contains_format(&e.formats, desc.sample_desc.format) && contains_usize(
            &e.sample_rates,
            sample_rate,
        ) && contains_usize(&e.channel_counts, nc);
        if !negotiable {
            return Err(
                Error::Internal { cause: String::from_str("the backend rejected the stream format") },
            );
        }
        let properties = StreamProperties {
            channels: mask,
            sample_rate,
            buffer_size: e.buffer_size,
        };
        Ok(Device::new(properties, self.props.stream_mode, is_input))
    }

    /// Replace the hotplug subscription; unsubscribing also drops events
    /// that were delivered and never polled.
    pub fn set_event_callback(&mut self, enabled: bool)
        requires
            old(self).wf(),
        ensures
            final(self).wf(),
            final(self).events_enabled == enabled,
            enabled ==> final(self).events@ == old(self).events@,
            !enabled ==> final(self).events@.len() == 0,
            final(self).props == old(self).props,
            final(self).name == old(self).name,
            final(self).registry == old(self).registry,
            final(self).pending_rescan == old(self).pending_rescan,
    {
        self.events_enabled = enabled;
        if !enabled {
            self.events.clear();
        }
    }

    /// Deliver one backend event. Without a subscription the event is
    /// dropped. A removal invalidates the endpoint's slot at once, so its
    /// handles turn into "device lost"; every hotplug event marks the
    /// registry for re-enumeration, since incremental deltas are not to be
    /// trusted across ambiguous orderings.
    pub fn push_event(&mut self, event: Event)
        requires
            old(self).wf(),
        ensures
            final(self).wf(),
            final(self).props == old(self).props,
            final(self).name == old(self).name,
            final(self).events_enabled == old(self).events_enabled,
            !old(self).events_enabled ==> *final(self) == *old(self),
            old(self).events_enabled ==> {
                &&& final(self).events@ == old(self).events@.push(event)
                &&& final(self).pending_rescan
                &&& (event matches Event::Removed(pd) ==> {
                    &&& !final(self).live_spec(pd)
                    &&& (match old(self).registry.resolve_spec(pd) {
                        Some(i) => {
                            &&& final(self).registry.entries@ == old(self).registry.entries@.update(i, final(self).registry.entries@[i])
                            &&& final(self).registry.entries@[i] == (Endpoint {
                                active: false,
                                generation: final(self).registry.entries@[i].generation,
                                ..old(self).registry.entries@[i]
                            })
                            &&& (old(self).registry.entries@[i].generation < u32::MAX ==> final(self).registry.entries@[i].generation == old(self).registry.entries@[i].generation + 1)
                        },
                        None => final(self).registry == old(self).registry,
                    })
                })
                &&& (!(event is Removed) ==> final(self).registry == old(self).registry)
            },
    {
        if !self.events_enabled {
            return ;
        }
        self.events.push(event);
        self.pending_rescan = true;
        match event {
            Event::Removed(pd) => {
                let slot = self.registry.resolve(pd);
                match slot {
                    Some(i) => {
                        self.registry.invalidate(i);
                        proof {
                            let h = crate::handle::Handle::from_raw_spec(pd);
                            if old(self).registry.entries@[i as int].generation < u32::MAX {
                                assert(final(self).registry.resolve_spec(pd) is None);
                            } else {
                                assert(!final(self).registry.entries@[i as int].active);
                            }
                        }
                    },
                    None => {},
                }
            },
            _ => {},
        }
    }

    /// Drain the events delivered since the last poll, oldest first.
    pub fn poll_events(&mut self) -> (r: Vec<Event>)
        requires
            old(self).wf(),
        ensures
            final(self).wf(),
            r@ == old(self).events@,
            final(self).events@.len() == 0,
            final(self).props == old(self).props,
            final(self).name == old(self).name,
            final(self).registry == old(self).registry,
            final(self).events_enabled == old(self).events_enabled,
            final(self).pending_rescan == old(self).pending_rescan,
    {
        let drained = copy_vec(&self.events);
        self.events.clear();
        drained
    }

    /// Whether hotplug activity since the last refresh advises
    /// re-enumeration.
    pub fn needs_rescan(&self) -> (r: bool)
        ensures
            r == self.pending_rescan,
    {
        self.pending_rescan
    }
}

/// Every handle an enumeration returns refers to a live endpoint: property
/// queries on a freshly enumerated handle do not report "device lost".
pub proof fn lemma_enumerated_devices_live(inst: Instance, k: int)
    requires
        inst.wf(),
        0 <= k < inst.registry.active_handles_spec().len(),
    ensures
        inst.live_spec(inst.registry.active_handles_spec()[k]),
{
    crate::registry::lemma_enumerated_handles_resolve(inst.registry, k);
}

/// A reported default endpoint is live and actually capable of the
/// direction it is the default for.
pub proof fn lemma_default_device_live(inst: Instance, want_input: bool)
    requires
        inst.wf(),
        inst.registry.find_default_from(want_input, 0) is Some,
    ensures
        ({
            let i = inst.registry.find_default_from(want_input, 0)->0;
            &&& 0 <= i < inst.registry.entries@.len()
            &&& inst.live_spec(inst.registry.handle_of_spec(i))
            &&& (want_input ==> inst.registry.entries@[i].streams.input)
            &&& (!want_input ==> inst.registry.entries@[i].streams.output)
        }),
{
    crate::registry::lemma_find_default_from_in_range(inst.registry, want_input, 0);
    let i = inst.registry.find_default_from(want_input, 0)->0;
    lemma_handle_of_resolves(inst.registry, i);
}

/// Round trip through the default rate: a request that leaves the sample
/// rate to the sentinel under concurrent sharing succeeds whenever the rest
/// of the request is valid — the endpoint's default concurrent format is
/// itself among its advertised capabilities — and the stream is then
/// negotiated at exactly the rate the default-concurrent-format query
/// returns at creation time.
pub proof fn lemma_default_rate_round_trip(inst: Instance, desc: DeviceDesc, channels: Channels)
    requires
        inst.wf(),
        desc.sample_desc.sample_rate == DEFAULT_SAMPLE_RATE,
        desc.sharing is Concurrent,
        inst.props.sharing.concurrent,
        !Instance::duplex_spec(channels),
        !Instance::no_direction_spec(channels),
        inst.live_spec(desc.physical_device),
        inst.direction_ok_spec(inst.slot_spec(desc.physical_device), channels),
        inst.registry.entries@[inst.slot_spec(desc.physical_device)].formats@.contains(
            desc.sample_desc.format,
        ),
        inst.registry.entries@[inst.slot_spec(desc.physical_device)].channel_counts@.contains(
            Instance::requested_mask_spec(channels).count_spec() as usize,
        ),
    ensures
        inst.create_device_ok_spec(desc, channels),
        inst.resolved_rate_spec(inst.slot_spec(desc.physical_device), desc)
            == inst.registry.entries@[inst.slot_spec(
            desc.physical_device,
        )].default_format.sample_rate,
{
    let i = inst.slot_spec(desc.physical_device);
    assert(0 <= i < inst.registry.entries@.len());
    assert(inst.registry.entries@[i].wf());
}

} // verus!
