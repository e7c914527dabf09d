//! Cache of namespace templates.
//!
//! A [`NamespaceCache`] stores isolation configurations by name. A lookup of
//! a stored name is a hit and hands out a copy; a lookup of any other name is
//! a miss, runs the caller's builder once and stores what it built.

use vstd::hash_map::StringHashMap;
use vstd::prelude::*;
use vstd::string::*;

verus! {

/// Number of IDs that a template maps unless told otherwise.
pub const DEFAULT_ID_RANGE: u32 = 65536;

/// Host identity that a new template maps container root onto.
pub const DEFAULT_HOST_ID: u32 = 1000;

/// A named isolation configuration that can be applied to new containers.
#[derive(Debug, PartialEq, Eq)]
pub struct NamespaceTemplate {
    /// Name of the template, the key under which it is cached.
    pub name: String,
    /// Host UID mapped to container root.
    pub host_uid: u32,
    /// Host GID mapped to container root.
    pub host_gid: u32,
    /// Number of UIDs to map.
    pub uid_range: u32,
    /// Number of GIDs to map.
    pub gid_range: u32,
    /// Isolate the network namespace.
    pub isolate_network: bool,
    /// Isolate the mount namespace.
    pub isolate_mount: bool,
    /// Isolate the PID namespace.
    pub isolate_pid: bool,
}

impl NamespaceTemplate {
    /// A template is valid if it maps at least one UID and one GID.
    pub open spec fn valid(&self) -> bool {
        self.uid_range > 0 && self.gid_range > 0
    }

    /// A template of the given name with the default settings: host identity
    /// 1000, full ID ranges, and network, mount and PID isolation.
    pub fn new(name: &str) -> (template: Self)
        ensures
            template.name@ == name@,
            template.host_uid == DEFAULT_HOST_ID,
            template.host_gid == DEFAULT_HOST_ID,
            template.uid_range == DEFAULT_ID_RANGE,
            template.gid_range == DEFAULT_ID_RANGE,
            template.isolate_network,
            template.isolate_mount,
            template.isolate_pid,
            template.valid(),
    {
        Self {
            name: String::from_str(name),
            host_uid: DEFAULT_HOST_ID,
            host_gid: DEFAULT_HOST_ID,
            uid_range: DEFAULT_ID_RANGE,
            gid_range: DEFAULT_ID_RANGE,
            isolate_network: true,
            isolate_mount: true,
            isolate_pid: true,
        }
    }

    /// A template with the given settings, or nothing where a range is
    /// empty: every template made here is valid.
    pub fn custom(
        name: &str,
        host_uid: u32,
        host_gid: u32,
        uid_range: u32,
        gid_range: u32,
        isolate_network: bool,
        isolate_mount: bool,
        isolate_pid: bool,
    ) -> (template: Option<Self>)
        ensures
            template is Some == (uid_range > 0 && gid_range > 0),
            template matches Some(t) ==> {
                &&& t.valid()
                &&& t.name@ == name@
                &&& t.host_uid == host_uid
                &&& t.host_gid == host_gid
                &&& t.uid_range == uid_range
                &&& t.gid_range == gid_range
                &&& t.isolate_network == isolate_network
                &&& t.isolate_mount == isolate_mount
                &&& t.isolate_pid == isolate_pid
            },
    {
        if uid_range == 0 || gid_range == 0 {
            None
        } else {
            Some(
                Self {
                    name: String::from_str(name),
                    host_uid,
                    host_gid,
                    uid_range,
                    gid_range,
                    isolate_network,
                    isolate_mount,
                    isolate_pid,
                },
            )
        }
    }

    /// Whether the template maps at least one UID and one GID.
    pub fn is_valid(&self) -> (ok: bool)
        ensures
            ok == self.valid(),
    {
        self.uid_range > 0 && self.gid_range > 0
    }
}

impl Clone for NamespaceTemplate {
    fn clone(&self) -> (copy: Self)
        ensures
            copy == *self,
    {
        Self {
            name: self.name.clone(),
            host_uid: self.host_uid,
            host_gid: self.host_gid,
            uid_range: self.uid_range,
            gid_range: self.gid_range,
            isolate_network: self.isolate_network,
            isolate_mount: self.isolate_mount,
            isolate_pid: self.isolate_pid,
        }
    }
}

/// Runtime statistics of a [`NamespaceCache`].
#[derive(Debug, Clone, Copy, PartialEq, Eq)]
pub struct CacheStats {
    /// Number of lookups that found a stored template.
    pub hits: usize,
    /// Number of lookups that had to build a template.
    pub misses: usize,
    /// Number of templates stored now.
    pub cached_count: usize,
}

/// What a cache holds: the stored templates by name, and the two counters.
pub struct CacheModel {
    pub templates: Map<Seq<char>, NamespaceTemplate>,
    pub hits: nat,
    pub misses: nat,
}

impl CacheModel {
    /// The cache that holds nothing and has counted nothing.
    pub open spec fn empty() -> CacheModel {
        CacheModel { templates: Map::empty(), hits: 0, misses: 0 }
    }

    /// The template that a lookup of `name` hands out, where `built` is what
    /// the builder would build.
    pub open spec fn looked_up(self, name: Seq<char>, built: NamespaceTemplate) -> NamespaceTemplate {
        if self.templates.contains_key(name) {
            self.templates[name]
        } else {
            built
        }
    }

    /// The cache after a lookup of `name`: a hit leaves the templates as they
    /// are, a miss stores `built` under `name`.
    pub open spec fn get_or_create(self, name: Seq<char>, built: NamespaceTemplate) -> CacheModel {
        if self.templates.contains_key(name) {
            CacheModel { hits: self.hits + 1, ..self }
        } else {
            CacheModel {
                templates: self.templates.insert(name, built),
                misses: self.misses + 1,
                ..self
            }
        }
    }

    /// The cache after `name` was invalidated.
    pub open spec fn invalidate(self, name: Seq<char>) -> CacheModel {
        CacheModel { templates: self.templates.remove(name), ..self }
    }

    /// Every stored template is valid: its ranges are above zero.
    pub open spec fn all_valid(self) -> bool {
        forall|name: Seq<char>| #[trigger]
            self.templates.contains_key(name) ==> self.templates[name].valid()
    }
}

/// A cache of valid templates stays one: a lookup whose builder builds a
/// valid template hands out a valid template, with both ranges above zero,
/// and leaves every stored template valid; so does an invalidation.
pub proof fn lemma_lookups_keep_templates_valid(
    cache: CacheModel,
    name: Seq<char>,
    built: NamespaceTemplate,
)
    requires
        cache.all_valid(),
        !cache.templates.contains_key(name) ==> built.valid(),
    ensures
        cache.looked_up(name, built).valid(),
        cache.looked_up(name, built).uid_range > 0 && cache.looked_up(name, built).gid_range > 0,
        cache.get_or_create(name, built).all_valid(),
        cache.invalidate(name).all_valid(),
        CacheModel::empty().all_valid(),
{
    let after = cache.get_or_create(name, built);
    assert forall|other: Seq<char>| #[trigger] after.templates.contains_key(other) implies after.templates[other].valid() by {
        if other != name {
            assert(cache.templates.contains_key(other));
        }
    }
    let removed = cache.invalidate(name);
    assert forall|other: Seq<char>| #[trigger] removed.templates.contains_key(other) implies removed.templates[other].valid() by {
        assert(cache.templates.contains_key(other));
    }
}

/// A hit: the lookup of a stored name hands out the stored template
/// whatever the builder would build, leaves every entry as it is, and
/// raises the hits by one; misses and the number of stored templates stay.
pub proof fn lemma_hit(cache: CacheModel, name: Seq<char>, built: NamespaceTemplate)
    requires
        cache.templates.contains_key(name),
    ensures
        cache.looked_up(name, built) == cache.templates[name],
        cache.get_or_create(name, built).templates == cache.templates,
        cache.get_or_create(name, built).hits == cache.hits + 1,
        cache.get_or_create(name, built).misses == cache.misses,
        cache.get_or_create(name, built).templates.len() == cache.templates.len(),
{
}

/// A miss: the lookup of a name that is not stored hands out what the
/// builder built, stores it under the name, leaves every other entry as it
/// is, and raises the misses and the number of stored templates by one; the
/// hits stay.
pub proof fn lemma_miss(cache: CacheModel, name: Seq<char>, built: NamespaceTemplate)
    requires
        !cache.templates.contains_key(name),
        cache.templates.dom().finite(),
    ensures
        cache.looked_up(name, built) == built,
        cache.get_or_create(name, built).templates == cache.templates.insert(name, built),
        forall|other: Seq<char>|
            other != name ==> (#[trigger] cache.get_or_create(name, built).templates.contains_key(
                other,
            )) == cache.templates.contains_key(other) && cache.get_or_create(
                name,
                built,
            ).templates[other] == cache.templates[other],
        cache.get_or_create(name, built).misses == cache.misses + 1,
        cache.get_or_create(name, built).hits == cache.hits,
        cache.get_or_create(name, built).templates.len() == cache.templates.len() + 1,
{
}

/// Cache of previously built [`NamespaceTemplate`]s, by name.
pub struct NamespaceCache {
    entries: StringHashMap<NamespaceTemplate>,
    hits: usize,
    misses: usize,
}

impl View for NamespaceCache {
    type V = CacheModel;

    closed spec fn view(&self) -> CacheModel {
        CacheModel {
            templates: self.entries@,
            hits: self.hits as nat,
            misses: self.misses as nat,
        }
    }
}

impl NamespaceCache {
    /// The cache stores finitely many templates. Every cache that this
    /// library hands out is well formed, and every operation keeps it so.
    pub closed spec fn well_formed(&self) -> bool {
        self.entries@.dom().finite()
    }

    /// An empty cache.
    pub fn new() -> (cache: Self)
        ensures
            cache.well_formed(),
            cache@ == CacheModel::empty(),
    {
        Self { entries: StringHashMap::new(), hits: 0, misses: 0 }
    }

    /// The template stored under `name`, or, where there is none, the one
    /// that `init` builds, which is then stored under `name`.
    ///
    /// On a hit `init` is not called and the hit counter goes up by one; on a
    /// miss `init` is called once and the miss counter goes up by one. The
    /// template handed out is a copy: changing it does not change the cache.
    pub fn get_or_create<F>(&mut self, name: &str, init: F) -> (template: NamespaceTemplate) where
        F: FnOnce() -> NamespaceTemplate,

        requires
            old(self).well_formed(),
            !old(self)@.templates.contains_key(name@) ==> init.requires(()),
            old(self)@.templates.contains_key(name@) ==> old(self)@.hits < usize::MAX,
            !old(self)@.templates.contains_key(name@) ==> old(self)@.misses < usize::MAX,
        ensures
            final(self).well_formed(),
            final(self)@ == old(self)@.get_or_create(name@, template),
            template == old(self)@.looked_up(name@, template),
            !old(self)@.templates.contains_key(name@) ==> init.ensures((), template),
    {
        let found = match self.entries.get(name) {
            Some(stored) => Some(stored.clone()),
            None => None,
        };
        match found {
            Some(template) => {
                self.hits = self.hits + 1;
                template
            },
            None => {
                self.misses = self.misses + 1;
                let template = init();
                self.entries.insert(String::from_str(name), template.clone());
                template
            },
        }
    }

    /// Removes the template stored under `name`. Says whether there was one.
    /// The counters stay as they are.
    pub fn invalidate(&mut self, name: &str) -> (removed: bool)
        requires
            old(self).well_formed(),
        ensures
            final(self).well_formed(),
            removed == old(self)@.templates.contains_key(name@),
            final(self)@ == old(self)@.invalidate(name@),
    {
        let removed = self.entries.contains_key(name);
        self.entries.remove(name);
        removed
    }

    /// The counters and the number of stored templates. Reading them changes
    /// nothing.
    pub fn cache_stats(&self) -> (stats: CacheStats)
        requires
            self.well_formed(),
        ensures
            stats.hits == self@.hits,
            stats.misses == self@.misses,
            stats.cached_count == self@.templates.len(),
            self@.templates.dom().finite(),
    {
        CacheStats { hits: self.hits, misses: self.misses, cached_count: self.entries.len() }
    }
}

impl Default for NamespaceCache {
    fn default() -> (cache: Self)
        ensures
            cache.well_formed(),
            cache@ == CacheModel::empty(),
    {
        Self::new()
    }
}

/// One call on a cache: a lookup of a name, with what the builder would
/// build, or the invalidation of a name.
pub enum CacheOp {
    Lookup { name: Seq<char>, built: NamespaceTemplate },
    Invalidate { name: Seq<char> },
}

impl CacheOp {
    /// The name that the call is about.
    pub open spec fn name(self) -> Seq<char> {
        match self {
            CacheOp::Lookup { name, .. } => name,
            CacheOp::Invalidate { name } => name,
        }
    }
}

impl CacheModel {
    /// The cache after one call.
    pub open spec fn step(self, op: CacheOp) -> CacheModel {
        match op {
            CacheOp::Lookup { name, built } => self.get_or_create(name, built),
            CacheOp::Invalidate { name } => self.invalidate(name),
        }
    }

    /// The cache after a sequence of calls, made in order.
    pub open spec fn run(self, ops: Seq<CacheOp>) -> CacheModel
        decreases ops.len(),
    {
        if ops.len() == 0 {
            self
        } else {
            self.run(ops.drop_last()).step(ops.last())
        }
    }
}

/// Number of lookups among the calls.
pub open spec fn lookups(ops: Seq<CacheOp>) -> nat
    decreases ops.len(),
{
    if ops.len() == 0 {
        0
    } else {
        lookups(ops.drop_last()) + (if ops.last() is Lookup {
            1nat
        } else {
            0nat
        })
    }
}

/// Whether the last call about `name` is a lookup: the name was looked up
/// and not invalidated since.
pub open spec fn looked_up_last(ops: Seq<CacheOp>, name: Seq<char>) -> bool
    decreases ops.len(),
{
    if ops.len() == 0 {
        false
    } else if ops.last().name() == name {
        ops.last() is Lookup
    } else {
        looked_up_last(ops.drop_last(), name)
    }
}

/// Every lookup is counted exactly once, as a hit or as a miss: after any
/// sequence of calls, hits and misses together have grown by the number of
/// lookups.
pub proof fn lemma_hits_and_misses_count_lookups(start: CacheModel, ops: Seq<CacheOp>)
    ensures
        start.run(ops).hits + start.run(ops).misses == start.hits + start.misses + lookups(ops),
        start.run(ops).hits >= start.hits,
        start.run(ops).misses >= start.misses,
    decreases ops.len(),
{
    if ops.len() > 0 {
        lemma_hits_and_misses_count_lookups(start, ops.drop_last());
    }
}

/// A stored template stays stored, unchanged, until its name is invalidated:
/// whatever else is looked up or invalidated, every lookup of the name in
/// between is a hit and hands out the stored template, and no builder is
/// consulted for it.
pub proof fn lemma_cached_until_invalidated(start: CacheModel, ops: Seq<CacheOp>, name: Seq<char>)
    requires
        start.templates.contains_key(name),
        forall|i: int| 0 <= i < ops.len() ==> #[trigger] ops[i] != (CacheOp::Invalidate { name }),
    ensures
        start.run(ops).templates.contains_key(name),
        start.run(ops).templates[name] == start.templates[name],
        forall|built: NamespaceTemplate|
            #[trigger] start.run(ops).looked_up(name, built) == start.templates[name],
    decreases ops.len(),
{
    if ops.len() > 0 {
        let rest = ops.drop_last();
        assert forall|i: int| 0 <= i < rest.len() implies #[trigger] rest[i] != (
        CacheOp::Invalidate { name }) by {
            assert(rest[i] == ops[i]);
        }
        lemma_cached_until_invalidated(start, rest, name);
        assert(ops[ops.len() - 1] != (CacheOp::Invalidate { name }));
    }
}

/// Repeated lookups of one name build once: of `builds.len()` lookups of a
/// name that is not stored, the first is a miss that stores what its builder
/// built, and all the others are hits that hand that template out.
pub proof fn lemma_builder_runs_once(
    start: CacheModel,
    name: Seq<char>,
    builds: Seq<NamespaceTemplate>,
)
    requires
        !start.templates.contains_key(name),
        builds.len() >= 1,
    ensures
        ({
            let ops = builds.map_values(|built: NamespaceTemplate| CacheOp::Lookup { name, built });
            let end = start.run(ops);
            &&& end.misses == start.misses + 1
            &&& end.hits == start.hits + builds.len() - 1
            &&& end.templates == start.templates.insert(name, builds[0])
        }),
    decreases builds.len(),
{
    let ops = builds.map_values(|built: NamespaceTemplate| CacheOp::Lookup { name, built });
    let rest = builds.drop_last();
    let rest_ops = rest.map_values(|built: NamespaceTemplate| CacheOp::Lookup { name, built });
    assert(ops.drop_last() =~= rest_ops);
    assert(ops.last() == CacheOp::Lookup { name, built: builds.last() });
    if builds.len() == 1 {
        assert(start.run(rest_ops) == start);
    } else {
        lemma_builder_runs_once(start, name, rest);
    }
}

/// The names stored after a sequence of calls on an empty cache are those
/// that were looked up and not invalidated since, so the number of stored
/// templates is the number of distinct such names.
pub proof fn lemma_cached_names(ops: Seq<CacheOp>)
    ensures
        forall|name: Seq<char>| #[trigger]
            CacheModel::empty().run(ops).templates.contains_key(name) == looked_up_last(ops, name),
        CacheModel::empty().run(ops).templates.dom().finite(),
        CacheModel::empty().run(ops).templates.len() == Set::new(
            |name: Seq<char>| looked_up_last(ops, name),
        ).len(),
    decreases ops.len(),
{
    let end = CacheModel::empty().run(ops);
    if ops.len() > 0 {
        lemma_cached_names(ops.drop_last());
    }
    assert(end.templates.dom() =~= Set::new(|name: Seq<char>| looked_up_last(ops, name)));
}

/// On a cache that started empty, hits and misses together are the number
/// of lookups made, whatever was invalidated in between: after one more
/// lookup they are one more than the lookups before it.
pub proof fn lemma_lookups_from_empty(ops: Seq<CacheOp>, name: Seq<char>, built: NamespaceTemplate)
    ensures
        CacheModel::empty().run(ops).hits + CacheModel::empty().run(ops).misses == lookups(ops),
        ({
            let after = CacheModel::empty().run(ops).get_or_create(name, built);
            after.hits + after.misses == lookups(ops) + 1
        }),
{
    lemma_hits_and_misses_count_lookups(CacheModel::empty(), ops);
}

} // verus!
