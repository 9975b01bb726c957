//! Cached remote identities, with a time to live and eviction on proof of
//! staleness.
use std::collections::HashMap;
use vstd::prelude::*;

verus! {

broadcast use vstd::std_specs::hash::group_hash_axioms;

/// Whether an entry names a directory or a file; each kind has its own time to
/// live.
#[derive(Clone, Copy, Debug, PartialEq, Eq, Structural)]
pub enum EntryKind {
    Directory,
    File,
}

/// What marks one generation of a remote object: a version, its size and its
/// modification time (milliseconds since the epoch).
#[derive(Clone, Copy, Debug, PartialEq, Eq, Structural)]
pub struct RemoteIdentity {
    pub version: u64,
    pub size: u64,
    pub mtime: u64,
}

/// How lookups are cached. Times to live are in milliseconds.
#[derive(Clone, Copy, Debug, PartialEq, Eq, Structural)]
pub struct CacheConfig {
    pub serve_lookup_from_cache: bool,
    pub dir_ttl_ms: u64,
    pub file_ttl_ms: u64,
}

impl CacheConfig {
    pub open spec fn spec_ttl(&self, kind: EntryKind) -> u64 {
        match kind {
            EntryKind::Directory => self.dir_ttl_ms,
            EntryKind::File => self.file_ttl_ms,
        }
    }

    /// The time to live of an entry of the given kind.
    pub fn ttl(&self, kind: EntryKind) -> (r: u64)
        ensures
            r == self.spec_ttl(kind),
    {
        match kind {
            EntryKind::Directory => self.dir_ttl_ms,
            EntryKind::File => self.file_ttl_ms,
        }
    }
}

/// One cached lookup: the identity found, when it was found, and for how long
/// it may be trusted.
#[derive(Clone, Copy, Debug, PartialEq, Eq, Structural)]
pub struct CacheEntry {
    pub identity: RemoteIdentity,
    pub kind: EntryKind,
    pub cached_at: u64,
    pub ttl: u64,
}

impl CacheEntry {
    /// The entry may be trusted at `now` unless `now > cached_at + ttl`.
    pub open spec fn spec_valid_at(&self, now: u64) -> bool {
        now <= self.cached_at + self.ttl
    }

    /// Whether the entry may still be trusted at `now`.
    pub fn is_valid_at(&self, now: u64) -> (r: bool)
        ensures
            r == self.spec_valid_at(now),
    {
        now <= self.cached_at || now - self.cached_at <= self.ttl
    }
}

/// Where an entry stands at a given time.
#[derive(Clone, Copy, Debug, PartialEq, Eq, Structural)]
pub enum EntryState {
    Absent,
    CachedValid(RemoteIdentity),
    CachedExpired(RemoteIdentity),
}

/// What a read against a bound identity reported.
#[derive(Clone, Copy, Debug, PartialEq, Eq, Structural)]
pub enum FetchOutcome {
    /// The bytes were read.
    Complete,
    /// The object is gone.
    RemoteNotFound,
    /// The object is there, but is no longer the generation that was bound.
    RemoteMismatch,
    /// The transport failed; nothing is learnt about the object.
    RemoteTransportError,
}

impl FetchOutcome {
    /// A not-found or a mismatch proves a cached identity stale.
    pub open spec fn spec_proves_stale(&self) -> bool {
        self is RemoteNotFound || self is RemoteMismatch
    }

    /// Whether this outcome proves a cached identity stale.
    pub fn proves_stale(&self) -> (r: bool)
        ensures
            r == self.spec_proves_stale(),
    {
        match self {
            FetchOutcome::RemoteNotFound | FetchOutcome::RemoteMismatch => true,
            _ => false,
        }
    }
}

/// The state of `key` at `now` in the entries `m`.
pub open spec fn state_in(m: Map<u64, CacheEntry>, key: u64, now: u64) -> EntryState {
    if !m.contains_key(key) {
        EntryState::Absent
    } else if m[key].spec_valid_at(now) {
        EntryState::CachedValid(m[key].identity)
    } else {
        EntryState::CachedExpired(m[key].identity)
    }
}

/// What a lookup of `key` at `now` may take from the cache without asking the
/// remote store.
pub open spec fn hit_in(
    config: CacheConfig,
    m: Map<u64, CacheEntry>,
    key: u64,
    now: u64,
) -> Option<RemoteIdentity> {
    if config.serve_lookup_from_cache && m.contains_key(key) && m[key].spec_valid_at(now) {
        Some(m[key].identity)
    } else {
        None
    }
}

/// The entries after a successful remote lookup of `key` at `now`.
pub open spec fn recorded_in(
    config: CacheConfig,
    m: Map<u64, CacheEntry>,
    key: u64,
    kind: EntryKind,
    identity: RemoteIdentity,
    now: u64,
) -> Map<u64, CacheEntry> {
    if config.serve_lookup_from_cache {
        m.insert(
            key,
            CacheEntry { identity, kind, cached_at: now, ttl: config.spec_ttl(kind) },
        )
    } else {
        m
    }
}

/// The lookup cache, keyed by inode number.
pub struct LookupCache {
    config: CacheConfig,
    entries: HashMap<u64, CacheEntry>,
}

impl View for LookupCache {
    type V = Map<u64, CacheEntry>;

    closed spec fn view(&self) -> Map<u64, CacheEntry> {
        self.entries@
    }
}

impl LookupCache {
    pub closed spec fn spec_config(&self) -> CacheConfig {
        self.config
    }

    /// Nothing is cached while caching is switched off.
    pub open spec fn wf(&self) -> bool {
        !self.spec_config().serve_lookup_from_cache ==> self@.is_empty()
    }

    /// An empty cache.
    pub fn new(config: CacheConfig) -> (r: Self)
        ensures
            r.wf(),
            r.spec_config() == config,
            r@ == Map::<u64, CacheEntry>::empty(),
    {
        LookupCache { config, entries: HashMap::new() }
    }

    /// The configuration the cache was made with.
    pub fn config(&self) -> (r: CacheConfig)
        ensures
            r == self.spec_config(),
    {
        self.config
    }

    /// Where the entry of `key` stands at `now`.
    pub fn state(&self, key: u64, now: u64) -> (r: EntryState)
        ensures
            r == state_in(self@, key, now),
    {
        match self.entries.get(&key) {
            None => EntryState::Absent,
            Some(entry) => {
                if entry.is_valid_at(now) {
                    EntryState::CachedValid(entry.identity)
                } else {
                    EntryState::CachedExpired(entry.identity)
                }
            },
        }
    }

    /// The cached identity of `key` if it may be served at `now`; `None` means
    /// that the caller must ask the remote store.
    pub fn lookup(&self, key: u64, now: u64) -> (r: Option<RemoteIdentity>)
        ensures
            r == hit_in(self.spec_config(), self@, key, now),
    {
        if !self.config.serve_lookup_from_cache {
            return None;
        }
        match self.entries.get(&key) {
            Some(entry) => {
                if entry.is_valid_at(now) {
                    Some(entry.identity)
                } else {
                    None
                }
            },
            None => None,
        }
    }

    /// Records what a successful remote lookup of `key` at `now` found; the
    /// entry is (re)made valid from `now` for its kind's time to live.
    pub fn record_lookup(&mut self, key: u64, kind: EntryKind, identity: RemoteIdentity, now: u64)
        requires
            old(self).wf(),
        ensures
            final(self).wf(),
            final(self).spec_config() == old(self).spec_config(),
            final(self)@ == recorded_in(old(self).spec_config(), old(self)@, key, kind, identity, now),
    {
        if self.config.serve_lookup_from_cache {
            let ttl = self.config.ttl(kind);
            self.entries.insert(key, CacheEntry { identity, kind, cached_at: now, ttl });
        }
    }

    /// Removes the entry of `key` outright; returns whether there was one.
    pub fn evict(&mut self, key: u64) -> (r: bool)
        requires
            old(self).wf(),
        ensures
            final(self).wf(),
            final(self).spec_config() == old(self).spec_config(),
            final(self)@ == old(self)@.remove(key),
            r == old(self)@.contains_key(key),
    {
        self.entries.remove(&key).is_some()
    }

    /// Takes in what a read bound to the entry of `key` reported: a not-found
    /// or a mismatch evicts the entry, anything else leaves the cache as it was.
    /// Returns whether the entry was evicted.
    pub fn record_fetch(&mut self, key: u64, outcome: FetchOutcome) -> (r: bool)
        requires
            old(self).wf(),
        ensures
            final(self).wf(),
            final(self).spec_config() == old(self).spec_config(),
            final(self)@ == if outcome.spec_proves_stale() {
                old(self)@.remove(key)
            } else {
                old(self)@
            },
            r == (outcome.spec_proves_stale() && old(self)@.contains_key(key)),
    {
        if outcome.proves_stale() {
            self.evict(key)
        } else {
            false
        }
    }
}

/// How many remote lookups a run of lookups of `key` at the given `times`
/// makes, starting from the entries `m`: each lookup is served from the cache
/// when it may be, and otherwise asks the store, which reports `identity`, and
/// records the answer.
pub open spec fn remote_lookups(
    config: CacheConfig,
    m: Map<u64, CacheEntry>,
    key: u64,
    kind: EntryKind,
    identity: RemoteIdentity,
    times: Seq<u64>,
) -> nat
    decreases times.len(),
{
    if times.len() == 0 {
        0
    } else {
        let now = times[0];
        match hit_in(config, m, key, now) {
            Some(_) => remote_lookups(config, m, key, kind, identity, times.drop_first()),
            None => 1 + remote_lookups(
                config,
                recorded_in(config, m, key, kind, identity, now),
                key,
                kind,
                identity,
                times.drop_first(),
            ),
        }
    }
}

proof fn lemma_no_lookups_while_valid(
    config: CacheConfig,
    m: Map<u64, CacheEntry>,
    key: u64,
    kind: EntryKind,
    identity: RemoteIdentity,
    times: Seq<u64>,
)
    requires
        config.serve_lookup_from_cache,
        m.contains_key(key),
        forall|i: int| 0 <= i < times.len() ==> m[key].spec_valid_at(#[trigger] times[i]),
    ensures
        remote_lookups(config, m, key, kind, identity, times) == 0,
    decreases times.len(),
{
    if times.len() > 0 {
        assert forall|i: int| 0 <= i < times.drop_first().len() implies m[key].spec_valid_at(
            #[trigger] times.drop_first()[i],
        ) by {
            assert(times.drop_first()[i] == times[i + 1]);
        }
        lemma_no_lookups_while_valid(config, m, key, kind, identity, times.drop_first());
    }
}

/// With caching on, any number of lookups of one path that all fall within one
/// time-to-live window `[start, start + ttl]` ask the remote store at most
/// once, whatever the cache held before.
pub proof fn lemma_one_remote_lookup_per_window(
    config: CacheConfig,
    m: Map<u64, CacheEntry>,
    key: u64,
    kind: EntryKind,
    identity: RemoteIdentity,
    start: u64,
    times: Seq<u64>,
)
    requires
        config.serve_lookup_from_cache,
        forall|i: int|
            0 <= i < times.len() ==> start <= #[trigger] times[i] <= start + config.spec_ttl(kind),
    ensures
        remote_lookups(config, m, key, kind, identity, times) <= 1,
    decreases times.len(),
{
    if times.len() > 0 {
        let rest = times.drop_first();
        assert forall|i: int| 0 <= i < rest.len() implies start <= #[trigger] rest[i] <= start
            + config.spec_ttl(kind) by {
            assert(rest[i] == times[i + 1]);
        }
        match hit_in(config, m, key, times[0]) {
            Some(_) => {
                lemma_one_remote_lookup_per_window(config, m, key, kind, identity, start, rest);
            },
            None => {
                let m2 = recorded_in(config, m, key, kind, identity, times[0]);
                assert(times[0] >= start);
                lemma_no_lookups_while_valid(config, m2, key, kind, identity, rest);
            },
        }
    }
}

/// Once an entry is evicted, no lookup of it is served from the cache, at any
/// time: the next open of the path asks the remote store.
pub proof fn lemma_evicted_entry_not_served(
    config: CacheConfig,
    m: Map<u64, CacheEntry>,
    key: u64,
    now: u64,
)
    ensures
        hit_in(config, m.remove(key), key, now) is None,
        state_in(m.remove(key), key, now) == EntryState::Absent,
{
}

/// After an entry is evicted and the path is looked up afresh at `now`, lookups
/// within the new time to live are served the fresh identity, never the
/// evicted one, when caching is on; with caching off none is served.
pub proof fn lemma_fresh_identity_after_eviction(
    config: CacheConfig,
    m: Map<u64, CacheEntry>,
    key: u64,
    kind: EntryKind,
    fresh: RemoteIdentity,
    now: u64,
    later: u64,
)
    requires
        now <= later <= now + config.spec_ttl(kind),
    ensures
        hit_in(config, recorded_in(config, m.remove(key), key, kind, fresh, now), key, later) == (
        if config.serve_lookup_from_cache {
            Some(fresh)
        } else {
            None
        }),
{
}

} // verus!
