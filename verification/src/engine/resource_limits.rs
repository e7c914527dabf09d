//! Batched resource limits.
//!
//! A [`ResourceLimitBatch`] queues `(kind, value)` changes; applying it
//! reduces the queue to one effective value per kind, the last one queued,
//! and applies each exactly once. [`OptimizedResourceLimits`] pairs a preset
//! [`ResourceProfile`] with overrides that take precedence over the preset.

use crate::clock::{elapsed_since, now};
use crate::text::{decimal, push_decimal, str_eq};
use std::time::Duration;
use vstd::prelude::*;
use vstd::string::*;

verus! {

/// One mebibyte, in bytes.
pub const MIB: u64 = 1024 * 1024;

/// One gibibyte, in bytes.
pub const GIB: u64 = 1024 * 1024 * 1024;

/// Identifies a single control-group resource parameter.
#[derive(Debug, Clone, Copy, PartialEq, Eq, Hash, Structural)]
pub enum ResourceKind {
    /// Memory hard limit in bytes (`memory.max`).
    MemoryMax,
    /// Memory soft limit, the high watermark (`memory.high`).
    MemoryHigh,
    /// CPU weight (`cpu.weight`).
    CpuWeight,
    /// CPU bandwidth in microseconds per period (`cpu.max`).
    CpuMaxMicros,
    /// I/O weight (`io.weight`).
    IoWeight,
    /// Maximum number of processes (`pids.max`).
    PidsMax,
}

/// Number of resource kinds.
pub const KIND_COUNT: usize = 6;

impl ResourceKind {
    /// Position of the kind in declaration order.
    pub open spec fn index(self) -> int {
        match self {
            ResourceKind::MemoryMax => 0,
            ResourceKind::MemoryHigh => 1,
            ResourceKind::CpuWeight => 2,
            ResourceKind::CpuMaxMicros => 3,
            ResourceKind::IoWeight => 4,
            ResourceKind::PidsMax => 5,
        }
    }

    /// The kind at position `i` of the declaration order.
    pub open spec fn at(i: int) -> ResourceKind {
        if i == 0 {
            ResourceKind::MemoryMax
        } else if i == 1 {
            ResourceKind::MemoryHigh
        } else if i == 2 {
            ResourceKind::CpuWeight
        } else if i == 3 {
            ResourceKind::CpuMaxMicros
        } else if i == 4 {
            ResourceKind::IoWeight
        } else {
            ResourceKind::PidsMax
        }
    }

    /// Name of the control file of the kind.
    pub open spec fn spec_name(self) -> Seq<char> {
        match self {
            ResourceKind::MemoryMax => "memory.max"@,
            ResourceKind::MemoryHigh => "memory.high"@,
            ResourceKind::CpuWeight => "cpu.weight"@,
            ResourceKind::CpuMaxMicros => "cpu.max"@,
            ResourceKind::IoWeight => "io.weight"@,
            ResourceKind::PidsMax => "pids.max"@,
        }
    }

    /// The kind whose control file is called `key`, if there is one.
    pub open spec fn spec_parse(key: Seq<char>) -> Option<ResourceKind> {
        if key == "memory.max"@ {
            Some(ResourceKind::MemoryMax)
        } else if key == "memory.high"@ {
            Some(ResourceKind::MemoryHigh)
        } else if key == "cpu.weight"@ {
            Some(ResourceKind::CpuWeight)
        } else if key == "cpu.max"@ {
            Some(ResourceKind::CpuMaxMicros)
        } else if key == "io.weight"@ {
            Some(ResourceKind::IoWeight)
        } else if key == "pids.max"@ {
            Some(ResourceKind::PidsMax)
        } else {
            None
        }
    }

    /// The kind at position `i` of the declaration order, and the last kind
    /// for a position beyond the end.
    pub fn from_index(i: usize) -> (kind: ResourceKind)
        ensures
            kind == Self::at(i as int),
            i < KIND_COUNT ==> kind.index() == i,
    {
        if i == 0 {
            ResourceKind::MemoryMax
        } else if i == 1 {
            ResourceKind::MemoryHigh
        } else if i == 2 {
            ResourceKind::CpuWeight
        } else if i == 3 {
            ResourceKind::CpuMaxMicros
        } else if i == 4 {
            ResourceKind::IoWeight
        } else {
            ResourceKind::PidsMax
        }
    }

    /// Name of the control file of the kind.
    pub fn name(&self) -> (s: &'static str)
        ensures
            s@ == self.spec_name(),
    {
        match self {
            ResourceKind::MemoryMax => "memory.max",
            ResourceKind::MemoryHigh => "memory.high",
            ResourceKind::CpuWeight => "cpu.weight",
            ResourceKind::CpuMaxMicros => "cpu.max",
            ResourceKind::IoWeight => "io.weight",
            ResourceKind::PidsMax => "pids.max",
        }
    }

    /// Name of the control file of the kind, as an owned string.
    pub fn to_string(&self) -> (s: String)
        ensures
            s@ == self.spec_name(),
    {
        String::from_str(self.name())
    }
}

/// Every kind has a position below [`KIND_COUNT`], and `at` inverts `index`.
pub proof fn lemma_kind_index(kind: ResourceKind)
    ensures
        0 <= kind.index() < KIND_COUNT,
        ResourceKind::at(kind.index()) == kind,
{
}

/// The six control-file names are pairwise different, so parsing the name
/// of a kind gives the kind back.
pub proof fn lemma_parse_name(kind: ResourceKind)
    ensures
        ResourceKind::spec_parse(kind.spec_name()) == Some(kind),
{
    reveal_strlit("memory.max");
    reveal_strlit("memory.high");
    reveal_strlit("cpu.weight");
    reveal_strlit("cpu.max");
    reveal_strlit("io.weight");
    reveal_strlit("pids.max");
    let mm = "memory.max"@;
    let mh = "memory.high"@;
    let cw = "cpu.weight"@;
    let cm = "cpu.max"@;
    let iw = "io.weight"@;
    let pm = "pids.max"@;
    assert(mm.len() == 10 && mh.len() == 11 && cw.len() == 10 && cm.len() == 7 && iw.len() == 9
        && pm.len() == 8);
    assert(mm[0] == 'm' && cw[0] == 'c');
}

/// A key that parses names the kind it parses to.
pub proof fn lemma_parse_is_name(key: Seq<char>)
    ensures
        ResourceKind::spec_parse(key) matches Some(kind) ==> kind.spec_name() == key,
{
}

/// The map obtained from `base` by writing the entries of `entries` in
/// order: a later entry overwrites an earlier one of the same kind.
pub open spec fn overlay(base: Map<ResourceKind, u64>, entries: Seq<(ResourceKind, u64)>) -> Map<
    ResourceKind,
    u64,
>
    decreases entries.len(),
{
    if entries.len() == 0 {
        base
    } else {
        overlay(base, entries.drop_last()).insert(entries.last().0, entries.last().1)
    }
}

/// The effective value of each kind that occurs in `entries`: the value of
/// its last occurrence.
pub open spec fn effective_limits(entries: Seq<(ResourceKind, u64)>) -> Map<ResourceKind, u64> {
    overlay(Map::empty(), entries)
}

/// `writes` holds one entry for each kind of `limits` and no other, with the
/// value that `limits` gives the kind, in declaration order of the kinds.
pub open spec fn lists_exactly(
    writes: Seq<(ResourceKind, u64)>,
    limits: Map<ResourceKind, u64>,
) -> bool {
    &&& forall|i: int, j: int|
        0 <= i < j < writes.len() ==> (#[trigger] writes[i]).0.index() < (#[trigger] writes[j]).0.index()
    &&& forall|i: int|
        0 <= i < writes.len() ==> limits.contains_key((#[trigger] writes[i]).0) && limits[writes[i].0]
            == writes[i].1
    &&& forall|kind: ResourceKind| #[trigger]
        limits.contains_key(kind) ==> exists|i: int|
            0 <= i < writes.len() && (#[trigger] writes[i]).0 == kind
}

/// Writing one more entry overwrites the value of its kind and nothing else.
pub proof fn lemma_overlay_push(
    base: Map<ResourceKind, u64>,
    entries: Seq<(ResourceKind, u64)>,
    kind: ResourceKind,
    value: u64,
)
    ensures
        overlay(base, entries.push((kind, value))) == overlay(base, entries).insert(kind, value),
{
    assert(entries.push((kind, value)).drop_last() =~= entries);
}

/// The kind of the entry at position `i`.
pub open spec fn kind_of(entries: Seq<(ResourceKind, u64)>, i: int) -> ResourceKind {
    entries[i].0
}

/// Whether some entry is of kind `kind`.
pub open spec fn occurs(entries: Seq<(ResourceKind, u64)>, kind: ResourceKind) -> bool {
    exists|i: int| 0 <= i < entries.len() && #[trigger] kind_of(entries, i) == kind
}

/// Whether the entry at position `i` is the last one of kind `kind`.
pub open spec fn is_last_of(entries: Seq<(ResourceKind, u64)>, i: int, kind: ResourceKind) -> bool {
    &&& 0 <= i < entries.len()
    &&& entries[i].0 == kind
    &&& forall|j: int| i < j < entries.len() ==> #[trigger] kind_of(entries, j) != kind
}

/// A kind is in the overlay exactly if it is in the base or occurs in the
/// entries.
pub proof fn lemma_overlay_contains(
    base: Map<ResourceKind, u64>,
    entries: Seq<(ResourceKind, u64)>,
    kind: ResourceKind,
)
    ensures
        overlay(base, entries).contains_key(kind) <==> (base.contains_key(kind) || occurs(
            entries,
            kind,
        )),
    decreases entries.len(),
{
    if entries.len() > 0 {
        let rest = entries.drop_last();
        lemma_overlay_contains(base, rest, kind);
        if occurs(rest, kind) {
            let i = choose|i: int| 0 <= i < rest.len() && #[trigger] kind_of(rest, i) == kind;
            assert(kind_of(entries, i) == kind);
        }
        if entries.last().0 == kind {
            assert(kind_of(entries, entries.len() - 1) == kind);
        }
        if occurs(entries, kind) && entries.last().0 != kind {
            let i = choose|i: int| 0 <= i < entries.len() && #[trigger] kind_of(entries, i) == kind;
            assert(kind_of(rest, i) == kind);
        }
    }
}

/// Last write wins: the overlay gives a kind the value of its last entry.
pub proof fn lemma_overlay_last_write_wins(
    base: Map<ResourceKind, u64>,
    entries: Seq<(ResourceKind, u64)>,
    i: int,
    kind: ResourceKind,
)
    requires
        is_last_of(entries, i, kind),
    ensures
        overlay(base, entries).contains_key(kind),
        overlay(base, entries)[kind] == entries[i].1,
    decreases entries.len(),
{
    let rest = entries.drop_last();
    if i < entries.len() - 1 {
        assert(kind_of(entries, entries.len() - 1) != kind);
        assert forall|j: int| i < j < rest.len() implies #[trigger] kind_of(rest, j) != kind by {
            assert(kind_of(entries, j) != kind);
        }
        lemma_overlay_last_write_wins(base, rest, i, kind);
    }
}

/// A kind that does not occur in the entries keeps what the base says of it.
pub proof fn lemma_overlay_keeps_base(
    base: Map<ResourceKind, u64>,
    entries: Seq<(ResourceKind, u64)>,
    kind: ResourceKind,
)
    requires
        !occurs(entries, kind),
    ensures
        overlay(base, entries).contains_key(kind) == base.contains_key(kind),
        overlay(base, entries)[kind] == base[kind],
    decreases entries.len(),
{
    if entries.len() > 0 {
        let rest = entries.drop_last();
        assert(kind_of(entries, entries.len() - 1) != kind);
        if occurs(rest, kind) {
            let i = choose|i: int| 0 <= i < rest.len() && #[trigger] kind_of(rest, i) == kind;
            assert(kind_of(entries, i) == kind);
        }
        lemma_overlay_keeps_base(base, rest, kind);
    }
}

/// Writing two runs of entries one after the other is writing their
/// concatenation.
pub proof fn lemma_overlay_concat(
    base: Map<ResourceKind, u64>,
    first: Seq<(ResourceKind, u64)>,
    second: Seq<(ResourceKind, u64)>,
)
    ensures
        overlay(base, first + second) == overlay(overlay(base, first), second),
    decreases second.len(),
{
    if second.len() == 0 {
        assert(first + second =~= first);
    } else {
        lemma_overlay_concat(base, first, second.drop_last());
        assert((first + second).drop_last() =~= first + second.drop_last());
        assert((first + second).last() == second.last());
    }
}

/// Entries that list a map exactly write that map.
pub proof fn lemma_overlay_of_listing(
    writes: Seq<(ResourceKind, u64)>,
    limits: Map<ResourceKind, u64>,
)
    requires
        lists_exactly(writes, limits),
    ensures
        effective_limits(writes) == limits,
{
    let got = effective_limits(writes);
    assert forall|kind: ResourceKind|
        (#[trigger] got.dom().contains(kind)) == limits.dom().contains(kind) && (
        limits.dom().contains(kind) ==> got[kind] == limits[kind]) by {
        lemma_overlay_contains(Map::empty(), writes, kind);
        if limits.contains_key(kind) {
            let i = choose|i: int| 0 <= i < writes.len() && (#[trigger] writes[i]).0 == kind;
            assert(kind_of(writes, i) == kind);
            assert forall|j: int| i < j < writes.len() implies #[trigger] kind_of(writes, j)
                != kind by {
                assert(writes[i].0.index() < writes[j].0.index());
            }
            lemma_overlay_last_write_wins(Map::empty(), writes, i, kind);
        } else {
            if occurs(writes, kind) {
                let i = choose|i: int| 0 <= i < writes.len() && #[trigger] kind_of(writes, i) == kind;
                assert(limits.contains_key(writes[i].0));
            }
        }
    }
    assert(got =~= limits);
}

/// At most one value per resource kind.
#[derive(Debug, Clone, Copy, PartialEq, Eq)]
pub struct LimitMap {
    memory_max: Option<u64>,
    memory_high: Option<u64>,
    cpu_weight: Option<u64>,
    cpu_max_micros: Option<u64>,
    io_weight: Option<u64>,
    pids_max: Option<u64>,
}

impl View for LimitMap {
    type V = Map<ResourceKind, u64>;

    closed spec fn view(&self) -> Map<ResourceKind, u64> {
        Map::new(|kind: ResourceKind| self.slot(kind).is_some(), |kind: ResourceKind| self.slot(kind).unwrap())
    }
}

impl LimitMap {
    spec fn slot(self, kind: ResourceKind) -> Option<u64> {
        match kind {
            ResourceKind::MemoryMax => self.memory_max,
            ResourceKind::MemoryHigh => self.memory_high,
            ResourceKind::CpuWeight => self.cpu_weight,
            ResourceKind::CpuMaxMicros => self.cpu_max_micros,
            ResourceKind::IoWeight => self.io_weight,
            ResourceKind::PidsMax => self.pids_max,
        }
    }

    /// The kinds of the map whose position is below `n`.
    pub open spec fn kinds_below(limits: Map<ResourceKind, u64>, n: int) -> Set<ResourceKind> {
        Set::new(|kind: ResourceKind| limits.contains_key(kind) && kind.index() < n)
    }

    /// A map without entries.
    pub fn new() -> (limits: LimitMap)
        ensures
            limits@ == Map::<ResourceKind, u64>::empty(),
    {
        let limits = LimitMap {
            memory_max: None,
            memory_high: None,
            cpu_weight: None,
            cpu_max_micros: None,
            io_weight: None,
            pids_max: None,
        };
        assert(limits@ =~= Map::<ResourceKind, u64>::empty());
        limits
    }

    /// Sets the value of `kind`, replacing an earlier one.
    pub fn insert(&mut self, kind: ResourceKind, value: u64)
        ensures
            final(self)@ == old(self)@.insert(kind, value),
    {
        match kind {
            ResourceKind::MemoryMax => {
                self.memory_max = Some(value);
            },
            ResourceKind::MemoryHigh => {
                self.memory_high = Some(value);
            },
            ResourceKind::CpuWeight => {
                self.cpu_weight = Some(value);
            },
            ResourceKind::CpuMaxMicros => {
                self.cpu_max_micros = Some(value);
            },
            ResourceKind::IoWeight => {
                self.io_weight = Some(value);
            },
            ResourceKind::PidsMax => {
                self.pids_max = Some(value);
            },
        }
        assert(self@ =~= old(self)@.insert(kind, value));
    }

    /// The value of `kind`, if the map has one.
    pub fn get(&self, kind: ResourceKind) -> (value: Option<u64>)
        ensures
            value == (if self@.contains_key(kind) {
                Some(self@[kind])
            } else {
                None
            }),
    {
        match kind {
            ResourceKind::MemoryMax => self.memory_max,
            ResourceKind::MemoryHigh => self.memory_high,
            ResourceKind::CpuWeight => self.cpu_weight,
            ResourceKind::CpuMaxMicros => self.cpu_max_micros,
            ResourceKind::IoWeight => self.io_weight,
            ResourceKind::PidsMax => self.pids_max,
        }
    }

    /// Whether the map has a value for `kind`.
    pub fn contains_key(&self, kind: ResourceKind) -> (found: bool)
        ensures
            found == self@.contains_key(kind),
    {
        self.get(kind).is_some()
    }

    /// The entries of the map, in declaration order of the kinds.
    pub fn entries(&self) -> (writes: Vec<(ResourceKind, u64)>)
        ensures
            lists_exactly(writes@, self@),
            writes@.len() == self@.len(),
            self@.dom().finite(),
    {
        let mut writes: Vec<(ResourceKind, u64)> = Vec::new();
        let mut i: usize = 0;
        proof {
            assert(Self::kinds_below(self@, 0) =~= Set::<ResourceKind>::empty());
        }
        while i < KIND_COUNT
            invariant
                i <= KIND_COUNT,
                forall|a: int, b: int|
                    0 <= a < b < writes@.len() ==> (#[trigger] writes@[a]).0.index() < (
                    #[trigger] writes@[b]).0.index(),
                forall|a: int|
                    0 <= a < writes@.len() ==> (#[trigger] writes@[a]).0.index() < i
                        && self@.contains_key(writes@[a].0) && self@[writes@[a].0] == writes@[a].1,
                forall|kind: ResourceKind| #[trigger]
                    self@.contains_key(kind) && kind.index() < i ==> exists|a: int|
                        0 <= a < writes@.len() && (#[trigger] writes@[a]).0 == kind,
                Self::kinds_below(self@, i as int).finite(),
                Self::kinds_below(self@, i as int).len() == writes@.len(),
            decreases KIND_COUNT - i,
        {
            let kind = ResourceKind::from_index(i);
            let ghost before = writes@;
            let ghost seen = Self::kinds_below(self@, i as int);
            match self.get(kind) {
                Some(value) => {
                    writes.push((kind, value));
                    proof {
                        assert(Self::kinds_below(self@, i + 1) =~= seen.insert(kind));
                        assert forall|k: ResourceKind| #[trigger]
                            self@.contains_key(k) && k.index() < i + 1 implies exists|a: int|
                            0 <= a < writes@.len() && (#[trigger] writes@[a]).0 == k by {
                            if k.index() < i {
                                let a = choose|a: int|
                                    0 <= a < before.len() && (#[trigger] before[a]).0 == k;
                                assert(writes@[a].0 == k);
                            } else {
                                assert(writes@[before.len() as int].0 == k);
                            }
                        }
                    }
                },
                None => {
                    proof {
                        assert(Self::kinds_below(self@, i + 1) =~= seen);
                    }
                },
            }
            i += 1;
        }
        proof {
            assert(Self::kinds_below(self@, KIND_COUNT as int) =~= self@.dom());
        }
        writes
    }

    /// Number of kinds that have a value.
    pub fn len(&self) -> (n: usize)
        ensures
            n == self@.len(),
            self@.dom().finite(),
            n <= KIND_COUNT,
    {
        let writes = self.entries();
        proof {
            assert forall|a: int| 0 <= a < writes@.len() implies (#[trigger] writes@[a]).0.index()
                >= a by {
                Self::lemma_increasing_from(writes@, a);
            }
            if writes@.len() > KIND_COUNT {
                assert(writes@[6].0.index() >= 6);
            }
        }
        writes.len()
    }

    /// Whether no kind has a value.
    pub fn is_empty(&self) -> (empty: bool)
        ensures
            empty == (self@.len() == 0),
            empty == (self@ == Map::<ResourceKind, u64>::empty()),
    {
        let n = self.len();
        proof {
            if n == 0 {
                assert(self@.dom() =~= Set::<ResourceKind>::empty()) by {
                    vstd::set_lib::lemma_set_empty_equivalency_len(self@.dom());
                }
                assert(self@ =~= Map::<ResourceKind, u64>::empty());
            }
        }
        n == 0
    }

    proof fn lemma_increasing_from(writes: Seq<(ResourceKind, u64)>, a: int)
        requires
            0 <= a < writes.len(),
            forall|x: int, y: int|
                0 <= x < y < writes.len() ==> (#[trigger] writes[x]).0.index() < (
                #[trigger] writes[y]).0.index(),
        ensures
            writes[a].0.index() >= a,
        decreases a,
    {
        if a > 0 {
            Self::lemma_increasing_from(writes, a - 1);
            assert(writes[a - 1].0.index() < writes[a].0.index());
        }
    }
}

/// A limit map is what its view says: two maps with the same view are the
/// same map.
pub proof fn lemma_limit_map_is_its_view(a: LimitMap, b: LimitMap)
    requires
        a@ == b@,
    ensures
        a == b,
{
    assert forall|kind: ResourceKind| a.slot(kind) == b.slot(kind) by {
        assert(a@.dom().contains(kind) == a.slot(kind).is_some());
        assert(b@.dom().contains(kind) == b.slot(kind).is_some());
        if a.slot(kind).is_some() {
            assert(a@[kind] == a.slot(kind).unwrap());
            assert(b@[kind] == b.slot(kind).unwrap());
        }
    }
    assert(a.slot(ResourceKind::MemoryMax) == b.slot(ResourceKind::MemoryMax));
    assert(a.slot(ResourceKind::MemoryHigh) == b.slot(ResourceKind::MemoryHigh));
    assert(a.slot(ResourceKind::CpuWeight) == b.slot(ResourceKind::CpuWeight));
    assert(a.slot(ResourceKind::CpuMaxMicros) == b.slot(ResourceKind::CpuMaxMicros));
    assert(a.slot(ResourceKind::IoWeight) == b.slot(ResourceKind::IoWeight));
    assert(a.slot(ResourceKind::PidsMax) == b.slot(ResourceKind::PidsMax));
}

/// A single queued limit change.
#[derive(Debug, Clone, Copy)]
struct LimitEntry {
    kind: ResourceKind,
    value: u64,
}

spec fn entry_pairs(entries: Seq<LimitEntry>) -> Seq<(ResourceKind, u64)> {
    entries.map_values(|e: LimitEntry| (e.kind, e.value))
}

/// A limit could not be applied.
#[derive(Debug, Clone, Copy, PartialEq, Eq)]
pub struct LimitError {
    /// The kind whose control file could not be written.
    pub kind: ResourceKind,
}

impl LimitError {
    /// Says which limit failed.
    pub fn message(&self) -> (text: String)
        ensures
            text@ == "Failed to apply "@ + self.kind.spec_name(),
    {
        let mut text = String::from_str("Failed to apply ");
        text.append(self.kind.name());
        text
    }
}

/// Result of applying a single resource limit.
#[derive(Debug, Clone, Copy)]
pub struct LimitApplyResult {
    /// Which resource was set.
    pub kind: ResourceKind,
    /// The value that was written.
    pub value: u64,
    /// Time spent on this single write.
    pub duration: Duration,
}

/// What one application of a batch did.
#[derive(Debug)]
pub struct BatchApplyReport {
    /// One result per applied limit.
    pub results: Vec<LimitApplyResult>,
    /// Wall-clock time of the whole batch.
    pub total_duration: Duration,
}

impl BatchApplyReport {
    /// The kinds and values that were applied, in the order of application.
    pub open spec fn applied(&self) -> Seq<(ResourceKind, u64)> {
        self.results@.map_values(|r: LimitApplyResult| (r.kind, r.value))
    }
}

/// Collects resource limit changes and applies them in a single pass.
pub struct ResourceLimitBatch {
    entries: Vec<LimitEntry>,
}

impl View for ResourceLimitBatch {
    type V = Seq<(ResourceKind, u64)>;

    /// The queued changes, oldest first.
    closed spec fn view(&self) -> Seq<(ResourceKind, u64)> {
        entry_pairs(self.entries@)
    }
}

impl ResourceLimitBatch {
    /// An empty batch.
    pub fn new() -> (batch: Self)
        ensures
            batch@ == Seq::<(ResourceKind, u64)>::empty(),
    {
        let batch = Self { entries: Vec::new() };
        assert(batch@ =~= Seq::<(ResourceKind, u64)>::empty());
        batch
    }

    /// Queues a limit change. A kind may be queued more than once; the last
    /// value queued is the one that counts when the batch is applied.
    pub fn add_limit(&mut self, kind: ResourceKind, value: u64)
        ensures
            final(self)@ == old(self)@.push((kind, value)),
    {
        self.entries.push(LimitEntry { kind, value });
        assert(self@ =~= old(self)@.push((kind, value)));
    }

    /// The effective value of each queued kind: the last one queued.
    pub fn effective(&self) -> (limits: LimitMap)
        ensures
            limits@ == effective_limits(self@),
    {
        let mut limits = LimitMap::new();
        let mut i: usize = 0;
        while i < self.entries.len()
            invariant
                i <= self.entries.len(),
                limits@ == effective_limits(self@.take(i as int)),
            decreases self.entries.len() - i,
        {
            let entry = self.entries[i];
            proof {
                lemma_overlay_push(Map::empty(), self@.take(i as int), entry.kind, entry.value);
                assert(self@.take(i as int).push((entry.kind, entry.value)) =~= self@.take(i + 1));
            }
            limits.insert(entry.kind, entry.value);
            i += 1;
        }
        assert(self@.take(self.entries.len() as int) =~= self@);
        limits
    }

    /// The writes that applying the batch makes: one per queued kind, with
    /// its effective value, in declaration order of the kinds.
    pub fn effective_entries(&self) -> (writes: Vec<(ResourceKind, u64)>)
        ensures
            lists_exactly(writes@, effective_limits(self@)),
            writes@.len() == effective_limits(self@).len(),
    {
        self.effective().entries()
    }

    /// Opens the application of the batch through the caller's write
    /// primitive: the run makes the writes of
    /// [`effective_entries`](Self::effective_entries).
    pub fn begin_apply(&self) -> (session: ApplySession)
        ensures
            session.well_formed(),
            lists_exactly(session@.writes, effective_limits(self@)),
            session@.done == 0,
            !session@.refused,
    {
        ApplySession { writes: self.effective_entries(), done: 0, refused: false }
    }

    /// Applies the queued changes in one pass: each queued kind exactly once,
    /// with the last value queued for it. An empty batch gives an empty
    /// report. The durations of the report are measured, and arbitrary.
    pub fn apply_batch(&self) -> (outcome: Result<BatchApplyReport, LimitError>)
        ensures
            outcome is Ok,
            outcome matches Ok(report) ==> lists_exactly(
                report.applied(),
                effective_limits(self@),
            ) && report.results@.len() == effective_limits(self@).len(),
    {
        let start = now();
        let writes = self.effective_entries();
        let mut results: Vec<LimitApplyResult> = Vec::with_capacity(writes.len());
        let mut i: usize = 0;
        while i < writes.len()
            invariant
                i <= writes.len(),
                results@.len() == i,
                forall|j: int|
                    0 <= j < i ==> (#[trigger] results@[j]).kind == writes@[j].0 && results@[j].value
                        == writes@[j].1,
            decreases writes.len() - i,
        {
            let (kind, value) = writes[i];
            let entry_start = now();
            match Self::apply_single(&kind, value) {
                Ok(()) => {},
                Err(e) => {
                    return Err(e);
                },
            }
            results.push(LimitApplyResult { kind, value, duration: elapsed_since(&entry_start) });
            i += 1;
        }
        let report = BatchApplyReport { results, total_duration: elapsed_since(&start) };
        assert(report.applied() =~= writes@);
        Ok(report)
    }

    /// Applies a single limit. The write is simulated and always succeeds.
    fn apply_single(kind: &ResourceKind, value: u64) -> (outcome: Result<(), LimitError>)
        ensures
            outcome is Ok,
    {
        Ok(())
    }

    /// Number of queued changes.
    pub fn len(&self) -> (n: usize)
        ensures
            n == self@.len(),
    {
        self.entries.len()
    }

    /// Whether no change is queued.
    pub fn is_empty(&self) -> (empty: bool)
        ensures
            empty == (self@.len() == 0),
    {
        self.entries.len() == 0
    }
}

impl Default for ResourceLimitBatch {
    fn default() -> (batch: Self)
        ensures
            batch@ == Seq::<(ResourceKind, u64)>::empty(),
    {
        Self::new()
    }
}

/// Applying a batch changes nothing but the kinds queued: a batch whose queue
/// is empty has no effective limit at all.
pub proof fn lemma_empty_batch_applies_nothing(writes: Seq<(ResourceKind, u64)>)
    requires
        lists_exactly(writes, effective_limits(Seq::empty())),
    ensures
        writes.len() == 0,
{
    if writes.len() > 0 {
        assert(effective_limits(Seq::empty()).contains_key(writes[0].0));
    }
}

/// One write of a control file of the control group: the name of the file
/// and the value, as a decimal numeral.
#[derive(Debug, PartialEq, Eq)]
pub struct LimitWrite {
    pub file: String,
    pub payload: String,
}

/// What a run of writes has come to.
pub struct ApplyModel {
    /// The writes to make, in their order.
    pub writes: Seq<(ResourceKind, u64)>,
    /// Number of writes that were made and accepted.
    pub done: nat,
    /// Whether the write after those was refused.
    pub refused: bool,
}

impl ApplyModel {
    /// Whether a write is to be made next.
    pub open spec fn pending(self) -> bool {
        !self.refused && self.done < self.writes.len()
    }

    /// The run after the pending write was accepted or refused. A run
    /// without a pending write stays as it is.
    pub open spec fn after(self, accepted: bool) -> ApplyModel {
        if !self.pending() {
            self
        } else if accepted {
            ApplyModel { done: self.done + 1, ..self }
        } else {
            ApplyModel { refused: true, ..self }
        }
    }
}

/// The application of limits through the caller's write primitive, write by
/// write: each effective limit is written once, in declaration order of the
/// kinds, and the first write that is refused ends the run.
pub struct ApplySession {
    writes: Vec<(ResourceKind, u64)>,
    done: usize,
    refused: bool,
}

impl View for ApplySession {
    type V = ApplyModel;

    closed spec fn view(&self) -> ApplyModel {
        ApplyModel { writes: self.writes@, done: self.done as nat, refused: self.refused }
    }
}

impl ApplySession {
    /// No more writes are counted as made than there are, and a refused
    /// write is one of them.
    pub closed spec fn well_formed(&self) -> bool {
        &&& self.done <= self.writes@.len()
        &&& self.refused ==> self.done < self.writes@.len()
    }

    /// The write to make next, if the run has not ended: the control file of
    /// the kind, and its value as a decimal numeral.
    pub fn next_write(&self) -> (write: Option<LimitWrite>)
        requires
            self.well_formed(),
        ensures
            write is Some == self@.pending(),
            write matches Some(w) ==> w.file@ == self@.writes[self@.done as int].0.spec_name()
                && w.payload@ == decimal(self@.writes[self@.done as int].1 as nat),
    {
        if self.refused || self.done >= self.writes.len() {
            None
        } else {
            let (kind, value) = self.writes[self.done];
            let mut payload = String::new();
            push_decimal(&mut payload, value);
            assert(payload@ =~= decimal(value as nat));
            Some(LimitWrite { file: kind.to_string(), payload })
        }
    }

    /// Takes note of whether the pending write was accepted.
    pub fn record(&mut self, accepted: bool)
        requires
            old(self).well_formed(),
        ensures
            final(self).well_formed(),
            final(self)@ == old(self)@.after(accepted),
    {
        if !self.refused && self.done < self.writes.len() {
            if accepted {
                self.done = self.done + 1;
            } else {
                self.refused = true;
            }
        }
    }

    /// Makes the writes that are left as writes that are accepted without
    /// being made anywhere: the simulated application.
    pub fn accept_all(self) -> (outcome: Result<Vec<(ResourceKind, u64)>, LimitError>)
        requires
            self.well_formed(),
        ensures
            outcome is Ok == !self@.refused,
            outcome matches Ok(applied) ==> applied@ == self@.writes,
            outcome matches Err(error) ==> error.kind == self@.writes[self@.done as int].0,
    {
        let mut session = self;
        while session.next_write().is_some()
            invariant
                session.well_formed(),
                session@.writes == self@.writes,
                session@.refused == self@.refused,
                self@.refused ==> session@.done == self@.done,
            decreases session@.writes.len() - session@.done,
        {
            session.record(true);
        }
        session.finish()
    }

    /// The outcome of the run: the limits that were applied, once every
    /// write was made and accepted, and otherwise the kind whose write was
    /// refused or is still to be made.
    pub fn finish(self) -> (outcome: Result<Vec<(ResourceKind, u64)>, LimitError>)
        requires
            self.well_formed(),
        ensures
            outcome is Ok == (self@.done == self@.writes.len()),
            outcome is Ok ==> !self@.refused,
            outcome matches Ok(applied) ==> applied@ == self@.writes,
            outcome matches Err(error) ==> error.kind == self@.writes[self@.done as int].0,
    {
        if self.done == self.writes.len() {
            Ok(self.writes)
        } else {
            Err(LimitError { kind: self.writes[self.done].0 })
        }
    }
}

/// A run in which every write is accepted applies every limit, and a
/// refused write is the last one made: after it nothing is pending, whatever
/// is recorded.
pub proof fn lemma_refusal_ends_the_run(run: ApplyModel, accepted: bool)
    requires
        run.done <= run.writes.len(),
    ensures
        run.refused ==> run.after(accepted) == run,
        run.pending() && !accepted ==> !run.after(accepted).pending() && run.after(accepted).done
            == run.done,
        run.pending() && accepted ==> run.after(accepted).done == run.done + 1,
        run.after(accepted).done <= run.writes.len(),
{
}

/// Preset resource profiles for common workload shapes.
#[derive(Debug, Clone, PartialEq, Eq)]
pub enum ResourceProfile {
    /// Low-resource profile for sidecar and init containers.
    Minimal,
    /// Balanced defaults suitable for most workloads.
    Standard,
    /// High-resource profile for compute-intensive tasks.
    Performance,
    /// User-defined limits: values by control-file name. Where a name occurs
    /// more than once its last value counts; names of no known control file
    /// are ignored.
    Custom(Vec<(String, u64)>),
}

/// The limits that a list of named values defines: each name of a known
/// control file gives its kind the value, a later pair overwriting an
/// earlier one.
pub open spec fn custom_limits(pairs: Seq<(String, u64)>) -> Map<ResourceKind, u64>
    decreases pairs.len(),
{
    if pairs.len() == 0 {
        Map::empty()
    } else {
        let rest = custom_limits(pairs.drop_last());
        match ResourceKind::spec_parse(pairs.last().0@) {
            Some(kind) => rest.insert(kind, pairs.last().1),
            None => rest,
        }
    }
}

/// The limits of the six kinds, as a map.
pub open spec fn preset(
    memory_max: u64,
    memory_high: u64,
    cpu_weight: u64,
    cpu_max_micros: u64,
    io_weight: u64,
    pids_max: u64,
) -> Map<ResourceKind, u64> {
    Map::empty().insert(ResourceKind::MemoryMax, memory_max).insert(
        ResourceKind::MemoryHigh,
        memory_high,
    ).insert(ResourceKind::CpuWeight, cpu_weight).insert(
        ResourceKind::CpuMaxMicros,
        cpu_max_micros,
    ).insert(ResourceKind::IoWeight, io_weight).insert(ResourceKind::PidsMax, pids_max)
}

impl ResourceProfile {
    /// The fixed default limits of the profile.
    pub open spec fn defaults(self) -> Map<ResourceKind, u64> {
        match self {
            ResourceProfile::Minimal => preset(
                (128 * MIB) as u64,
                (96 * MIB) as u64,
                50,
                50_000,
                50,
                64,
            ),
            ResourceProfile::Standard => preset(
                (512 * MIB) as u64,
                (384 * MIB) as u64,
                100,
                100_000,
                100,
                512,
            ),
            ResourceProfile::Performance => preset(
                (4 * GIB) as u64,
                (3 * GIB) as u64,
                1000,
                1_000_000,
                500,
                4096,
            ),
            ResourceProfile::Custom(pairs) => custom_limits(pairs@),
        }
    }
}

/// A resource profile together with overrides of single limits.
pub struct OptimizedResourceLimits {
    profile: ResourceProfile,
    overrides: Vec<LimitEntry>,
}

impl OptimizedResourceLimits {
    /// The profile the limits were made from.
    pub closed spec fn spec_profile(&self) -> ResourceProfile {
        self.profile
    }

    /// The overrides set so far, oldest first.
    pub closed spec fn spec_overrides(&self) -> Seq<(ResourceKind, u64)> {
        entry_pairs(self.overrides@)
    }

    /// The effective limits: the defaults of the profile, overwritten by the
    /// overrides in the order in which they were set.
    pub open spec fn spec_current_limits(&self) -> Map<ResourceKind, u64> {
        overlay(self.spec_profile().defaults(), self.spec_overrides())
    }

    /// Limits from a preset profile, without overrides.
    pub fn from_profile(profile: ResourceProfile) -> (limits: Self)
        ensures
            limits.spec_profile() == profile,
            limits.spec_overrides() == Seq::<(ResourceKind, u64)>::empty(),
            limits.spec_current_limits() == profile.defaults(),
    {
        let limits = Self { profile, overrides: Vec::new() };
        assert(limits.spec_overrides() =~= Seq::<(ResourceKind, u64)>::empty());
        limits
    }

    /// Overrides a single limit: the value of `kind` in the effective limits
    /// becomes `value`, and no other kind changes.
    pub fn set_override(&mut self, kind: ResourceKind, value: u64)
        ensures
            final(self).spec_profile() == old(self).spec_profile(),
            final(self).spec_overrides() == old(self).spec_overrides().push((kind, value)),
            final(self).spec_current_limits() == old(self).spec_current_limits().insert(
                kind,
                value,
            ),
    {
        self.overrides.push(LimitEntry { kind, value });
        proof {
            assert(self.spec_overrides() =~= old(self).spec_overrides().push((kind, value)));
            lemma_overlay_push(
                self.spec_profile().defaults(),
                old(self).spec_overrides(),
                kind,
                value,
            );
        }
    }

    /// Applies the defaults of the profile with the overrides on top: each
    /// kind of the effective limits exactly once, with its effective value.
    /// The limits themselves are left as they are.
    pub fn apply(&self) -> (outcome: Result<BatchApplyReport, LimitError>)
        ensures
            outcome is Ok,
            outcome matches Ok(report) ==> lists_exactly(
                report.applied(),
                self.spec_current_limits(),
            ) && report.results@.len() == self.spec_current_limits().len(),
    {
        let mut batch = self.build_batch();
        let ghost defaults = batch@;
        let mut i: usize = 0;
        while i < self.overrides.len()
            invariant
                i <= self.overrides.len(),
                batch@ == defaults + self.spec_overrides().take(i as int),
            decreases self.overrides.len() - i,
        {
            let entry = self.overrides[i];
            batch.add_limit(entry.kind, entry.value);
            proof {
                assert((defaults + self.spec_overrides().take(i as int)).push(
                    (entry.kind, entry.value),
                ) =~= defaults + self.spec_overrides().take(i + 1));
            }
            i += 1;
        }
        proof {
            assert(self.spec_overrides().take(self.overrides.len() as int)
                =~= self.spec_overrides());
            lemma_overlay_concat(Map::empty(), defaults, self.spec_overrides());
            lemma_overlay_of_listing(defaults, self.spec_profile().defaults());
        }
        batch.apply_batch()
    }

    /// Opens the application of the effective limits through the caller's
    /// write primitive.
    pub fn begin_apply(&self) -> (session: ApplySession)
        ensures
            session.well_formed(),
            lists_exactly(session@.writes, self.spec_current_limits()),
            session@.done == 0,
            !session@.refused,
    {
        ApplySession { writes: self.get_current_limits().entries(), done: 0, refused: false }
    }

    /// The effective limits, without applying anything: the map that
    /// [`apply`](Self::apply) uses.
    pub fn get_current_limits(&self) -> (limits: LimitMap)
        ensures
            limits@ == self.spec_current_limits(),
    {
        let mut limits = self.profile_defaults();
        let mut i: usize = 0;
        while i < self.overrides.len()
            invariant
                i <= self.overrides.len(),
                limits@ == overlay(
                    self.spec_profile().defaults(),
                    self.spec_overrides().take(i as int),
                ),
            decreases self.overrides.len() - i,
        {
            let entry = self.overrides[i];
            proof {
                lemma_overlay_push(
                    self.spec_profile().defaults(),
                    self.spec_overrides().take(i as int),
                    entry.kind,
                    entry.value,
                );
                assert(self.spec_overrides().take(i as int).push((entry.kind, entry.value))
                    =~= self.spec_overrides().take(i + 1));
            }
            limits.insert(entry.kind, entry.value);
            i += 1;
        }
        assert(self.spec_overrides().take(self.overrides.len() as int) =~= self.spec_overrides());
        limits
    }

    /// The active profile.
    pub fn profile(&self) -> (profile: &ResourceProfile)
        ensures
            *profile == self.spec_profile(),
    {
        &self.profile
    }

    /// A batch that queues the defaults of the profile, one entry per kind.
    fn build_batch(&self) -> (batch: ResourceLimitBatch)
        ensures
            lists_exactly(batch@, self.spec_profile().defaults()),
    {
        let defaults = self.profile_defaults().entries();
        let mut batch = ResourceLimitBatch::new();
        let mut i: usize = 0;
        while i < defaults.len()
            invariant
                i <= defaults.len(),
                batch@ == defaults@.take(i as int),
            decreases defaults.len() - i,
        {
            let (kind, value) = defaults[i];
            batch.add_limit(kind, value);
            assert(defaults@.take(i as int).push((kind, value)) =~= defaults@.take(i + 1));
            i += 1;
        }
        assert(defaults@.take(defaults.len() as int) =~= defaults@);
        batch
    }

    /// The fixed default limits of the profile.
    fn profile_defaults(&self) -> (limits: LimitMap)
        ensures
            limits@ == self.spec_profile().defaults(),
    {
        let mut limits = LimitMap::new();
        match &self.profile {
            ResourceProfile::Minimal => {
                limits.insert(ResourceKind::MemoryMax, 128 * MIB);
                limits.insert(ResourceKind::MemoryHigh, 96 * MIB);
                limits.insert(ResourceKind::CpuWeight, 50);
                limits.insert(ResourceKind::CpuMaxMicros, 50_000);
                limits.insert(ResourceKind::IoWeight, 50);
                limits.insert(ResourceKind::PidsMax, 64);
            },
            ResourceProfile::Standard => {
                limits.insert(ResourceKind::MemoryMax, 512 * MIB);
                limits.insert(ResourceKind::MemoryHigh, 384 * MIB);
                limits.insert(ResourceKind::CpuWeight, 100);
                limits.insert(ResourceKind::CpuMaxMicros, 100_000);
                limits.insert(ResourceKind::IoWeight, 100);
                limits.insert(ResourceKind::PidsMax, 512);
            },
            ResourceProfile::Performance => {
                limits.insert(ResourceKind::MemoryMax, 4 * GIB);
                limits.insert(ResourceKind::MemoryHigh, 3 * GIB);
                limits.insert(ResourceKind::CpuWeight, 1000);
                limits.insert(ResourceKind::CpuMaxMicros, 1_000_000);
                limits.insert(ResourceKind::IoWeight, 500);
                limits.insert(ResourceKind::PidsMax, 4096);
            },
            ResourceProfile::Custom(pairs) => {
                let mut i: usize = 0;
                while i < pairs.len()
                    invariant
                        i <= pairs.len(),
                        limits@ == custom_limits(pairs@.take(i as int)),
                    decreases pairs.len() - i,
                {
                    proof {
                        assert(pairs@.take(i + 1).drop_last() =~= pairs@.take(i as int));
                    }
                    match Self::parse_kind(pairs[i].0.as_str()) {
                        Some(kind) => {
                            limits.insert(kind, pairs[i].1);
                        },
                        None => {},
                    }
                    i += 1;
                }
                assert(pairs@.take(pairs.len() as int) =~= pairs@);
            },
        }
        limits
    }

    /// The kind whose control file is called `key`, if there is one.
    pub fn parse_kind(key: &str) -> (kind: Option<ResourceKind>)
        ensures
            kind == ResourceKind::spec_parse(key@),
    {
        if str_eq(key, "memory.max") {
            Some(ResourceKind::MemoryMax)
        } else if str_eq(key, "memory.high") {
            Some(ResourceKind::MemoryHigh)
        } else if str_eq(key, "cpu.weight") {
            Some(ResourceKind::CpuWeight)
        } else if str_eq(key, "cpu.max") {
            Some(ResourceKind::CpuMaxMicros)
        } else if str_eq(key, "io.weight") {
            Some(ResourceKind::IoWeight)
        } else if str_eq(key, "pids.max") {
            Some(ResourceKind::PidsMax)
        } else {
            None
        }
    }
}

/// Dry-run fidelity: the limits read before an application and after it
/// are the same map, and what the application applied, read as a map, is
/// that map too.
pub proof fn lemma_dry_run_fidelity(
    limits: OptimizedResourceLimits,
    before: LimitMap,
    report: BatchApplyReport,
    after: LimitMap,
)
    requires
        before@ == limits.spec_current_limits(),
        lists_exactly(report.applied(), limits.spec_current_limits()),
        after@ == limits.spec_current_limits(),
    ensures
        before == after,
        effective_limits(report.applied()) == before@,
{
    lemma_limit_map_is_its_view(before, after);
    lemma_overlay_of_listing(report.applied(), limits.spec_current_limits());
}

} // verus!
