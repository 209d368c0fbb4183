//! The physical device registry: a per-instance arena of endpoint slots.
//!
//! Backends hand the instance endpoint reports (one per endpoint and
//! direction scanned); the registry merges them, issuing one slot per
//! endpoint key and unioning the direction capability of repeated reports.
//! Slots are never removed: a removed endpoint is invalidated, which bumps
//! the slot's generation so that stale handles resolve to "device lost"
//! instead of another device.

use vstd::prelude::*;

use crate::api::Format;
use crate::api::FormFactor;
use crate::api::FrameDesc;
use crate::api::Frames;
use crate::api::StreamFlags;
use crate::api::MAX_BUFFER_FRAMES;
use crate::api::MAX_SAMPLE_RATE;
use crate::handle::lemma_handle_raw_roundtrip;
use crate::handle::Handle;

verus! {

/// Validity of one endpoint's capability data: every advertised rate and
/// channel count is in range, the lists are non-empty, and the default
/// concurrent format is itself among the advertised capabilities.
pub open spec fn caps_wf(
    sample_rates: Seq<usize>,
    channel_counts: Seq<usize>,
    formats: Seq<Format>,
    default_format: FrameDesc,
    buffer_size: usize,
) -> bool {
    &&& sample_rates.len() > 0
    &&& forall|i: int|
        0 <= i < sample_rates.len() ==> 1 <= #[trigger] sample_rates[i] <= MAX_SAMPLE_RATE
    &&& channel_counts.len() > 0
    &&& forall|i: int| 0 <= i < channel_counts.len() ==> 1 <= #[trigger] channel_counts[i] <= 3
    &&& formats.len() > 0
    &&& default_format.channels.count_spec() > 0
    &&& sample_rates.contains(default_format.sample_rate)
    &&& formats.contains(default_format.format)
    &&& channel_counts.contains(default_format.channels.count_spec() as usize)
    &&& 1 <= buffer_size <= MAX_BUFFER_FRAMES
}

/// What one backend scan says about one endpoint in one direction.
pub struct EndpointReport {
    /// Backend-native identifier of the endpoint; reports with the same key
    /// describe the same endpoint.
    pub key: String,
    /// Human-readable endpoint name.
    pub device_name: String,
    /// Direction capability this report grants.
    pub streams: StreamFlags,
    pub form_factor: FormFactor,
    /// Whether the endpoint is currently usable.
    pub active: bool,
    pub sample_rates: Vec<usize>,
    pub channel_counts: Vec<usize>,
    pub formats: Vec<Format>,
    /// The format the backend mixes at in concurrent mode.
    pub default_format: FrameDesc,
    /// Buffer size, in frames, the backend would negotiate.
    pub buffer_size: Frames,
    /// Whether the backend marks this endpoint as preferred for capture.
    pub default_input: bool,
    /// Whether the backend marks this endpoint as preferred for rendering.
    pub default_output: bool,
}

impl EndpointReport {
    pub open spec fn wf(self) -> bool {
        caps_wf(
            self.sample_rates@,
            self.channel_counts@,
            self.formats@,
            self.default_format,
            self.buffer_size,
        )
    }

    /// Runtime check of `wf`: reports that fail it are rejected rather than
    /// trusted.
    pub fn wf_check(&self) -> (r: bool)
        ensures
            r == self.wf(),
    {
        let rates_ok = all_in_range(&self.sample_rates, 1, MAX_SAMPLE_RATE);
        let counts_ok = all_in_range(&self.channel_counts, 1, 3);
        let nc = self.default_format.num_channels();
        rates_ok && counts_ok && self.sample_rates.len() > 0 && self.channel_counts.len() > 0
            && self.formats.len() > 0 && nc > 0 && contains_usize(
            &self.sample_rates,
            self.default_format.sample_rate,
        ) && contains_format(&self.formats, self.default_format.format) && contains_usize(
            &self.channel_counts,
            nc,
        ) && 1 <= self.buffer_size && self.buffer_size <= MAX_BUFFER_FRAMES
    }
}

/// One registry slot.
pub struct Endpoint {
    pub key: String,
    pub device_name: String,
    /// Union of the direction capabilities reported for this endpoint.
    pub streams: StreamFlags,
    pub form_factor: FormFactor,
    /// False once the endpoint was reported gone or removed.
    pub active: bool,
    /// Bumped on invalidation; handles carry the generation they were issued
    /// for.
    pub generation: u32,
    pub sample_rates: Vec<usize>,
    pub channel_counts: Vec<usize>,
    pub formats: Vec<Format>,
    pub default_format: FrameDesc,
    pub buffer_size: Frames,
    pub default_input: bool,
    pub default_output: bool,
}

impl Endpoint {
    pub open spec fn wf(self) -> bool {
        caps_wf(
            self.sample_rates@,
            self.channel_counts@,
            self.formats@,
            self.default_format,
            self.buffer_size,
        )
    }

    /// Whether this slot holds exactly the data of a fresh report, at
    /// generation zero.
    pub open spec fn matches_report(self, report: EndpointReport) -> bool {
        &&& self.key@ == report.key@
        &&& self.device_name@ == report.device_name@
        &&& self.streams == report.streams
        &&& self.form_factor == report.form_factor
        &&& self.active == report.active
        &&& self.generation == 0
        &&& self.sample_rates@ == report.sample_rates@
        &&& self.channel_counts@ == report.channel_counts@
        &&& self.formats@ == report.formats@
        &&& self.default_format == report.default_format
        &&& self.buffer_size == report.buffer_size
        &&& self.default_input == report.default_input
        &&& self.default_output == report.default_output
    }

    /// The slot after a repeated report for the same endpoint: the direction
    /// capability is unioned, liveness and default marks follow the report,
    /// and everything else keeps the first report's data.
    pub open spec fn merged_with(self, report: EndpointReport) -> Endpoint {
        Endpoint {
            streams: self.streams.union_spec(report.streams),
            active: report.active,
            default_input: report.default_input,
            default_output: report.default_output,
            ..self
        }
    }
}

/// Whether `v` holds a value in `[lo, hi]` at every position.
fn all_in_range(v: &Vec<usize>, lo: usize, hi: usize) -> (r: bool)
    ensures
        r == forall|i: int| 0 <= i < v@.len() ==> lo <= #[trigger] v@[i] <= hi,
{
    let mut i: usize = 0;
    while i < v.len()
        invariant
            i <= v@.len(),
            forall|k: int| 0 <= k < i ==> lo <= #[trigger] v@[k] <= hi,
        decreases v@.len() - i,
    {
        if v[i] < lo || v[i] > hi {
            return false;
        }
        i = i + 1;
    }
    true
}

/// Whether `v` contains `x`.
pub fn contains_usize(v: &Vec<usize>, x: usize) -> (r: bool)
    ensures
        r == v@.contains(x),
{
    let mut i: usize = 0;
    while i < v.len()
        invariant
            i <= v@.len(),
            forall|k: int| 0 <= k < i ==> v@[k] != x,
        decreases v@.len() - i,
    {
        if v[i] == x {
            assert(v@[i as int] == x);
            return true;
        }
        i = i + 1;
    }
    assert(!v@.contains(x));
    false
}

/// Whether `v` contains `x`.
pub fn contains_format(v: &Vec<Format>, x: Format) -> (r: bool)
    ensures
        r == v@.contains(x),
{
    let mut i: usize = 0;
    while i < v.len()
        invariant
            i <= v@.len(),
            forall|k: int| 0 <= k < i ==> v@[k] != x,
        decreases v@.len() - i,
    {
        if v[i] == x {
            assert(v@[i as int] == x);
            return true;
        }
        i = i + 1;
    }
    assert(!v@.contains(x));
    false
}

/// Copy of a vector of copyable values.
pub(crate) fn copy_vec<T: Copy>(v: &Vec<T>) -> (r: Vec<T>)
    ensures
        r@ == v@,
{
    let mut r: Vec<T> = Vec::new();
    let mut i: usize = 0;
    while i < v.len()
        invariant
            i <= v@.len(),
            r@ == v@.take(i as int),
        decreases v@.len() - i,
    {
        r.push(v[i]);
        assert(r@ =~= v@.take(i as int + 1));
        i = i + 1;
    }
    assert(r@ =~= v@);
    r
}

/// Index of the first slot with the given key at or after position `i`.
pub open spec fn find_key_from(entries: Seq<Endpoint>, key: Seq<char>, i: int) -> Option<int>
    decreases entries.len() - i,
{
    if i < 0 || i >= entries.len() {
        None
    } else if entries[i].key@ == key {
        Some(i)
    } else {
        find_key_from(entries, key, i + 1)
    }
}

/// Index of the slot with the given key, if any.
pub open spec fn find_key_spec(entries: Seq<Endpoint>, key: Seq<char>) -> Option<int> {
    find_key_from(entries, key, 0)
}

/// What merging one report does to the arena: an invalid report changes
/// nothing; a report for a known key updates that slot by `merged_with`; a
/// report for a new key appends a generation-zero slot carrying exactly the
/// report's data, unless every index is already in use.
pub open spec fn merge_step_rel(
    before: Seq<Endpoint>,
    report: EndpointReport,
    after: Seq<Endpoint>,
) -> bool {
    if !report.wf() {
        after == before
    } else {
        match find_key_spec(before, report.key@) {
            Some(j) => after == before.update(j, before[j].merged_with(report)),
            None => {
                if before.len() < u32::MAX as int {
                    &&& after.len() == before.len() + 1
                    &&& (forall|k: int| 0 <= k < before.len() ==> after[k] == before[k])
                    &&& after.last().matches_report(report)
                } else {
                    after == before
                }
            },
        }
    }
}

/// What merging a whole scan does to the arena: the reports fold in, first
/// to last, each by `merge_step_rel`.
pub open spec fn merge_seq_rel(
    before: Seq<Endpoint>,
    reports: Seq<EndpointReport>,
    after: Seq<Endpoint>,
) -> bool
    decreases reports.len(),
{
    if reports.len() == 0 {
        after == before
    } else {
        exists|mid: Seq<Endpoint>|
            #[trigger] merge_step_rel(before, reports[0], mid) && merge_seq_rel(
                mid,
                reports.drop_first(),
                after,
            )
    }
}

/// Folding one more report onto a finished fold extends the fold.
pub proof fn lemma_merge_seq_rel_snoc(
    before: Seq<Endpoint>,
    reports: Seq<EndpointReport>,
    mid: Seq<Endpoint>,
    report: EndpointReport,
    after: Seq<Endpoint>,
)
    requires
        merge_seq_rel(before, reports, mid),
        merge_step_rel(mid, report, after),
    ensures
        merge_seq_rel(before, reports.push(report), after),
    decreases reports.len(),
{
    let extended = reports.push(report);
    if reports.len() == 0 {
        assert(extended[0] == report);
        assert(extended.drop_first() =~= Seq::<EndpointReport>::empty());
        assert(mid == before);
        assert(merge_step_rel(before, extended[0], after));
        assert(merge_seq_rel(after, extended.drop_first(), after));
    } else {
        let first_mid = choose|m: Seq<Endpoint>|
            #[trigger] merge_step_rel(before, reports[0], m) && merge_seq_rel(
                m,
                reports.drop_first(),
                mid,
            );
        lemma_merge_seq_rel_snoc(first_mid, reports.drop_first(), mid, report, after);
        assert(extended[0] == reports[0]);
        assert(extended.drop_first() =~= reports.drop_first().push(report));
        assert(merge_step_rel(before, extended[0], first_mid));
        assert(merge_seq_rel(first_mid, extended.drop_first(), after));
    }
}

/// The per-instance arena of endpoint slots.
pub struct Registry {
    pub entries: Vec<Endpoint>,
}

impl Registry {
    /// Every slot's capability data is valid, keys are unique, and the slot
    /// count leaves every index expressible in a handle.
    pub open spec fn wf(self) -> bool {
        &&& self.entries@.len() <= u32::MAX as int
        &&& forall|i: int| 0 <= i < self.entries@.len() ==> (#[trigger] self.entries@[i]).wf()
        &&& forall|i: int, j: int|
            0 <= i < j < self.entries@.len() ==> self.entries@[i].key@ != self.entries@[j].key@
    }

    pub fn new() -> (r: Registry)
        ensures
            r.wf(),
            r.entries@.len() == 0,
    {
        Registry { entries: Vec::new() }
    }

    /// The raw handle issued for a slot.
    pub open spec fn handle_of_spec(self, index: int) -> u64 {
        Handle {
            index: index as u32,
            generation: self.entries@[index].generation,
        }.raw_spec()
    }

    pub fn handle_of(&self, index: usize) -> (r: u64)
        requires
            self.wf(),
            index < self.entries@.len(),
        ensures
            r == self.handle_of_spec(index as int),
    {
        Handle::new(index as u32, self.entries[index].generation).raw()
    }

    /// The slot a raw handle resolves to: its index must be in range and its
    /// generation must still match.
    pub open spec fn resolve_spec(self, pd: u64) -> Option<int> {
        let h = Handle::from_raw_spec(pd);
        if h.index < self.entries@.len() && self.entries@[h.index as int].generation
            == h.generation {
            Some(h.index as int)
        } else {
            None
        }
    }

    pub fn resolve(&self, pd: u64) -> (r: Option<usize>)
        ensures
            match r {
                Some(i) => self.resolve_spec(pd) == Some(i as int) && i < self.entries@.len(),
                None => self.resolve_spec(pd) is None,
            },
    {
        let h = Handle::from_raw(pd);
        let index = h.index as usize;
        if index < self.entries.len() && self.entries[index].generation == h.generation {
            Some(index)
        } else {
            None
        }
    }

    /// Runtime key search, faithful to `find_key_spec`.
    pub fn find_key(&self, key: &String) -> (r: Option<usize>)
        ensures
            match r {
                Some(j) => find_key_spec(self.entries@, key@) == Some(j as int) && j
                    < self.entries@.len() && self.entries@[j as int].key@ == key@,
                None => find_key_spec(self.entries@, key@) is None && forall|k: int|
                    0 <= k < self.entries@.len() ==> self.entries@[k].key@ != key@,
            },
    {
        let mut i: usize = 0;
        while i < self.entries.len()
            invariant
                i <= self.entries@.len(),
                forall|k: int| 0 <= k < i ==> self.entries@[k].key@ != key@,
                find_key_spec(self.entries@, key@) == find_key_from(self.entries@, key@, i as int),
            decreases self.entries@.len() - i,
        {
            if self.entries[i].key == *key {
                return Some(i);
            }
            i = i + 1;
        }
        None
    }

    /// Merge one report into the registry. An invalid report is rejected; a
    /// report for a known key updates that slot; a report for a new key takes
    /// a fresh slot, unless every index is already in use.
    pub fn merge_report(&mut self, report: &EndpointReport) -> (merged: bool)
        requires
            old(self).wf(),
        ensures
            final(self).wf(),
            merge_step_rel(old(self).entries@, *report, final(self).entries@),
            merged == (report.wf() && (find_key_spec(old(self).entries@, report.key@) is Some
                || old(self).entries@.len() < u32::MAX as int)),
    {
        if !report.wf_check() {
            return false;
        }
        match self.find_key(&report.key) {
            Some(j) => {
                let streams = self.entries[j].streams.union(&report.streams);
                let entry = &mut self.entries[j];
                entry.streams = streams;
                entry.active = report.active;
                entry.default_input = report.default_input;
                entry.default_output = report.default_output;
                true
            },
            None => {
                if self.entries.len() < u32::MAX as usize {
                    let entry = Endpoint {
                        key: report.key.clone(),
                        device_name: report.device_name.clone(),
                        streams: report.streams,
                        form_factor: report.form_factor,
                        active: report.active,
                        generation: 0,
                        sample_rates: copy_vec(&report.sample_rates),
                        channel_counts: copy_vec(&report.channel_counts),
                        formats: copy_vec(&report.formats),
                        default_format: report.default_format,
                        buffer_size: report.buffer_size,
                        default_input: report.default_input,
                        default_output: report.default_output,
                    };
                    assert(entry.key@ == report.key@);
                    self.entries.push(entry);
                    true
                } else {
                    false
                }
            },
        }
    }

    /// Invalidate a slot: it stops being live and its generation is bumped,
    /// so handles issued for it stop resolving. At the last expressible
    /// generation the slot merely goes inactive.
    pub fn invalidate(&mut self, index: usize)
        requires
            old(self).wf(),
            index < old(self).entries@.len(),
        ensures
            final(self).wf(),
            final(self).entries@.len() == old(self).entries@.len(),
            final(self).entries@ == old(self).entries@.update(
                index as int,
                final(self).entries@[index as int],
            ),
            final(self).entries@[index as int] == (Endpoint {
                active: false,
                generation: final(self).entries@[index as int].generation,
                ..old(self).entries@[index as int]
            }),
            old(self).entries@[index as int].generation < u32::MAX ==> final(self).entries@[
                index as int
            ].generation == old(self).entries@[index as int].generation + 1,
    {
        let gen = self.entries[index].generation;
        let entry = &mut self.entries[index];
        entry.active = false;
        if gen < u32::MAX {
            entry.generation = gen + 1;
        }
        assert(self.entries@ =~= old(self).entries@.update(
            index as int,
            self.entries@[index as int],
        ));
    }

    /// The raw handles of the live slots among the first `n`.
    pub open spec fn active_handles_upto(self, n: int) -> Seq<u64>
        decreases n,
    {
        if n <= 0 {
            Seq::empty()
        } else {
            self.active_handles_upto(n - 1) + (if self.entries@[n - 1].active {
                seq![self.handle_of_spec(n - 1)]
            } else {
                Seq::empty()
            })
        }
    }

    /// The raw handles of all live slots, in slot order.
    pub open spec fn active_handles_spec(self) -> Seq<u64> {
        self.active_handles_upto(self.entries@.len() as int)
    }

    /// Collect the raw handles of all live slots.
    pub fn active_handles(&self) -> (r: Vec<u64>)
        requires
            self.wf(),
        ensures
            r@ == self.active_handles_spec(),
    {
        let mut r: Vec<u64> = Vec::new();
        let mut i: usize = 0;
        while i < self.entries.len()
            invariant
                self.wf(),
                i <= self.entries@.len(),
                r@ == self.active_handles_upto(i as int),
            decreases self.entries@.len() - i,
        {
            if self.entries[i].active {
                r.push(self.handle_of(i));
            }
            i = i + 1;
            assert(r@ =~= self.active_handles_upto(i as int));
        }
        r
    }

    /// First live slot marked as the preferred endpoint for the direction, at
    /// or after position `i`.
    pub open spec fn find_default_from(self, want_input: bool, i: int) -> Option<int>
        decreases self.entries@.len() - i,
    {
        if i < 0 || i >= self.entries@.len() {
            None
        } else if self.default_candidate(want_input, i) {
            Some(i)
        } else {
            self.find_default_from(want_input, i + 1)
        }
    }

    /// Whether slot `i` is live, preferred for the direction, and actually
    /// capable of it.
    pub open spec fn default_candidate(self, want_input: bool, i: int) -> bool {
        &&& self.entries@[i].active
        &&& (if want_input {
            self.entries@[i].default_input && self.entries@[i].streams.input
        } else {
            self.entries@[i].default_output && self.entries@[i].streams.output
        })
    }

    /// The backend's preferred endpoint for a direction, if one is live.
    pub fn find_default(&self, want_input: bool) -> (r: Option<usize>)
        requires
            self.wf(),
        ensures
            match r {
                Some(i) => self.find_default_from(want_input, 0) == Some(i as int) && i
                    < self.entries@.len(),
                None => self.find_default_from(want_input, 0) is None,
            },
    {
        let mut i: usize = 0;
        while i < self.entries.len()
            invariant
                i <= self.entries@.len(),
                self.find_default_from(want_input, 0) == self.find_default_from(
                    want_input,
                    i as int,
                ),
            decreases self.entries@.len() - i,
        {
            let e = &self.entries[i];
            let hit = e.active && (if want_input {
                e.default_input && e.streams.input
            } else {
                e.default_output && e.streams.output
            });
            if hit {
                return Some(i);
            }
            i = i + 1;
        }
        None
    }
}

/// A found key names a slot in range, and that slot carries the key.
pub proof fn lemma_find_key_from_in_range(entries: Seq<Endpoint>, key: Seq<char>, i: int)
    requires
        0 <= i,
        find_key_from(entries, key, i) is Some,
    ensures
        find_key_from(entries, key, i) matches Some(j) && i <= j < entries.len() && entries[j].key@
            == key,
    decreases entries.len() - i,
{
    if i < entries.len() && entries[i].key@ != key {
        lemma_find_key_from_in_range(entries, key, i + 1);
    }
}

/// A key that is found stays found when the slots keep their keys and the
/// arena only grows.
pub proof fn lemma_find_key_from_preserved(
    s1: Seq<Endpoint>,
    s2: Seq<Endpoint>,
    key: Seq<char>,
    i: int,
)
    requires
        0 <= i <= s1.len(),
        s1.len() <= s2.len(),
        forall|m: int| 0 <= m < s1.len() ==> s2[m].key@ == s1[m].key@,
        find_key_from(s1, key, i) is Some,
    ensures
        find_key_from(s2, key, i) is Some,
    decreases s1.len() - i,
{
    if i < s1.len() {
        if s2[i].key@ == key {
        } else {
            lemma_find_key_from_preserved(s1, s2, key, i + 1);
        }
    }
}

/// See `lemma_find_key_from_preserved`, for a search over the whole arena.
pub proof fn lemma_find_key_preserved(s1: Seq<Endpoint>, s2: Seq<Endpoint>, key: Seq<char>)
    requires
        s1.len() <= s2.len(),
        forall|m: int| 0 <= m < s1.len() ==> s2[m].key@ == s1[m].key@,
        find_key_spec(s1, key) is Some,
    ensures
        find_key_spec(s2, key) is Some,
{
    lemma_find_key_from_preserved(s1, s2, key, 0);
}

/// After a slot with the sought key is appended, the key is found.
pub proof fn lemma_find_key_from_push(s: Seq<Endpoint>, e: Endpoint, key: Seq<char>, i: int)
    requires
        0 <= i <= s.len(),
        e.key@ == key,
    ensures
        find_key_from(s.push(e), key, i) is Some,
    decreases s.len() - i,
{
    let s2 = s.push(e);
    if i == s.len() {
        assert(s2[i].key@ == key);
    } else if s2[i].key@ == key {
    } else {
        lemma_find_key_from_push(s, e, key, i + 1);
    }
}

/// A found default names a slot in range that is live, preferred and
/// capable of the direction.
pub proof fn lemma_find_default_from_in_range(reg: Registry, want_input: bool, i: int)
    requires
        0 <= i,
        reg.find_default_from(want_input, i) is Some,
    ensures
        reg.find_default_from(want_input, i) matches Some(j) && i <= j < reg.entries@.len()
            && reg.default_candidate(want_input, j),
    decreases reg.entries@.len() - i,
{
    if i < reg.entries@.len() && !reg.default_candidate(want_input, i) {
        lemma_find_default_from_in_range(reg, want_input, i + 1);
    }
}

/// Every handle among the first `n` slots' live handles belongs to a live
/// slot below `n`.
pub proof fn lemma_active_handles_upto_live(reg: Registry, n: int, k: int)
    requires
        reg.wf(),
        0 <= n <= reg.entries@.len(),
        0 <= k < reg.active_handles_upto(n).len(),
    ensures
        exists|i: int|
            0 <= i < n && (#[trigger] reg.entries@[i]).active && reg.active_handles_upto(n)[k]
                == reg.handle_of_spec(i),
    decreases n,
{
    if n > 0 {
        let prefix = reg.active_handles_upto(n - 1);
        if k < prefix.len() {
            lemma_active_handles_upto_live(reg, n - 1, k);
        } else {
            assert(reg.entries@[n - 1].active);
            assert(reg.active_handles_upto(n)[k] == reg.handle_of_spec(n - 1));
        }
    }
}

/// Every enumerated handle resolves to a live slot: property queries on the
/// handles an enumeration returned succeed until the device is lost.
pub proof fn lemma_enumerated_handles_resolve(reg: Registry, k: int)
    requires
        reg.wf(),
        0 <= k < reg.active_handles_spec().len(),
    ensures
        exists|i: int|
            0 <= i < reg.entries@.len() && (#[trigger] reg.entries@[i]).active
                && reg.resolve_spec(reg.active_handles_spec()[k]) == Some(i),
{
    lemma_active_handles_upto_live(reg, reg.entries@.len() as int, k);
    let i = choose|i: int|
        0 <= i < reg.entries@.len() && (#[trigger] reg.entries@[i]).active
            && reg.active_handles_spec()[k] == reg.handle_of_spec(i);
    lemma_handle_of_resolves(reg, i);
}

/// A handle issued for a slot resolves back to that slot: the registry's
/// handles are faithful until the slot is invalidated.
pub proof fn lemma_handle_of_resolves(reg: Registry, index: int)
    requires
        reg.wf(),
        0 <= index < reg.entries@.len(),
    ensures
        reg.resolve_spec(reg.handle_of_spec(index)) == Some(index),
{
    let h = Handle { index: index as u32, generation: reg.entries@[index].generation };
    lemma_handle_raw_roundtrip(h);
}

} // verus!
