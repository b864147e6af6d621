//! Cache orchestrator: one lookup and one write over the three tiers.
//!
//! The memory tier lives inside the orchestrator. The distributed and the
//! persistent tier are reached over the network and the disk, which is the
//! caller's work, so a lookup proceeds in steps: `get` probes the memory
//! tier and says which tier to ask next, and the caller hands each tier's
//! answer back through `distributed_reply` or `persistent_reply`. A tier
//! that is switched off, cannot be reached or answers with something that
//! is no JSON counts as a tier that has no entry.

use vstd::prelude::*;
use crate::cache_repo::{
    expiry_second, size_budget, CacheRecord, CacheRepo, Persisted, RowTimes,
};
use crate::config::CacheSettings;
use crate::instant::Instant;
use crate::json::{is_json, parses_as_json};
use crate::memory_tier::{
    after_read, after_write, lemma_promoted, lemma_read_after_write, lemma_with_item,
    lemma_without_key, read_value, stored_until, well_formed, Contents, MemoryTier,
};
use crate::redis_repo::{RedisRepo, RedisWrite};
use crate::text::{blank, is_blank, text_of};

verus! {

/// A tier that may be absent.
#[derive(Debug, Clone, Copy)]
pub enum Tier<T> {
    Disabled,
    Active(T),
}

/// The tier that served a value.
#[derive(Debug, Clone, Copy, PartialEq, Eq, Structural)]
pub enum CacheSource {
    Memory,
    Redis,
    Sqlite,
}

impl CacheSource {
    /// The name under which a response reports the tier.
    pub open spec fn name(self) -> Seq<char> {
        match self {
            CacheSource::Memory => "memory"@,
            CacheSource::Redis => "redis"@,
            CacheSource::Sqlite => "sqlite"@,
        }
    }

    pub fn as_str(&self) -> (name: &'static str)
        ensures
            name@ == self.name(),
    {
        match self {
            CacheSource::Memory => "memory",
            CacheSource::Redis => "redis",
            CacheSource::Sqlite => "sqlite",
        }
    }
}

/// One more on a counter, which stays at its largest value once it is there.
pub open spec fn counted(n: u64) -> u64 {
    if n < u64::MAX {
        (n + 1) as u64
    } else {
        n
    }
}

/// How many lookups there were, and how many of them each tier served.
#[derive(Debug, Clone, Copy, PartialEq, Eq, Structural)]
pub struct CacheStats {
    pub total_requests: u64,
    pub memory_hits: u64,
    pub redis_hits: u64,
    pub sqlite_hits: u64,
}

impl CacheStats {
    pub fn new() -> (stats: CacheStats)
        ensures
            stats == (CacheStats { total_requests: 0, memory_hits: 0, redis_hits: 0, sqlite_hits: 0 }),
    {
        CacheStats { total_requests: 0, memory_hits: 0, redis_hits: 0, sqlite_hits: 0 }
    }

    /// The counters after one more lookup has begun.
    pub open spec fn with_request(self) -> CacheStats {
        CacheStats { total_requests: counted(self.total_requests), ..self }
    }

    /// The counters after `source` has served a value.
    pub open spec fn with_hit(self, source: CacheSource) -> CacheStats {
        match source {
            CacheSource::Memory => CacheStats { memory_hits: counted(self.memory_hits), ..self },
            CacheSource::Redis => CacheStats { redis_hits: counted(self.redis_hits), ..self },
            CacheSource::Sqlite => CacheStats { sqlite_hits: counted(self.sqlite_hits), ..self },
        }
    }

    /// No counter of `earlier` is above its counterpart in `self`.
    pub open spec fn not_below(self, earlier: CacheStats) -> bool {
        &&& earlier.total_requests <= self.total_requests
        &&& earlier.memory_hits <= self.memory_hits
        &&& earlier.redis_hits <= self.redis_hits
        &&& earlier.sqlite_hits <= self.sqlite_hits
    }

    fn record_request(&mut self)
        ensures
            *final(self) == old(self).with_request(),
    {
        if self.total_requests < u64::MAX {
            self.total_requests = self.total_requests + 1;
        }
    }

    fn record_hit(&mut self, source: CacheSource)
        ensures
            *final(self) == old(self).with_hit(source),
    {
        match source {
            CacheSource::Memory => {
                if self.memory_hits < u64::MAX {
                    self.memory_hits = self.memory_hits + 1;
                }
            },
            CacheSource::Redis => {
                if self.redis_hits < u64::MAX {
                    self.redis_hits = self.redis_hits + 1;
                }
            },
            CacheSource::Sqlite => {
                if self.sqlite_hits < u64::MAX {
                    self.sqlite_hits = self.sqlite_hits + 1;
                }
            },
        }
    }
}

/// The orchestrator as its contracts see it.
pub struct ServiceState {
    /// The entries of the memory tier, most recently used first.
    pub memory: Contents,
    /// The largest number of entries of the memory tier.
    pub capacity: nat,
    /// The lifetime of an entry of the memory tier, in seconds.
    pub memory_ttl: u64,
    /// The distributed tier, where it is active.
    pub distributed: Option<RedisRepo>,
    /// The persistent tier, where it is active.
    pub persistent: Option<Persisted>,
    pub stats: CacheStats,
}

/// Where a lookup stands after a step.
pub enum Outcome {
    /// The value is found; the lookup is over.
    Hit { value: Seq<char>, source: CacheSource },
    /// The distributed tier is to be asked next.
    AskDistributed,
    /// The persistent tier is to be asked next.
    AskPersistent,
    /// No tier holds the key; the lookup is over.
    Miss,
}

/// The tier to ask once the memory tier has missed.
pub open spec fn after_memory_miss(state: ServiceState) -> Outcome {
    if state.distributed is Some {
        Outcome::AskDistributed
    } else if state.persistent is Some {
        Outcome::AskPersistent
    } else {
        Outcome::Miss
    }
}

/// The tier to ask once the distributed tier has missed.
pub open spec fn after_distributed_miss(state: ServiceState) -> Outcome {
    if state.persistent is Some {
        Outcome::AskPersistent
    } else {
        Outcome::Miss
    }
}

/// The first step of a lookup: one more request is counted and the memory
/// tier is read.
pub open spec fn probe_memory(state: ServiceState, key: Seq<char>, now: Instant) -> (
    ServiceState,
    Outcome,
) {
    let memory = after_read(state.memory, key, now);
    match read_value(state.memory, key, now) {
        Some(value) => (
            ServiceState {
                memory,
                stats: state.stats.with_request().with_hit(CacheSource::Memory),
                ..state
            },
            Outcome::Hit { value, source: CacheSource::Memory },
        ),
        None => (
            ServiceState { memory, stats: state.stats.with_request(), ..state },
            after_memory_miss(state),
        ),
    }
}

/// A hit in a slower tier: the hit is counted and the value is written to
/// the memory tier.
pub open spec fn promote(
    state: ServiceState,
    key: Seq<char>,
    value: Seq<char>,
    source: CacheSource,
    now: Instant,
) -> (ServiceState, Outcome) {
    (
        ServiceState {
            memory: after_write(state.memory, state.capacity, key, value, now, state.memory_ttl),
            stats: state.stats.with_hit(source),
            ..state
        },
        Outcome::Hit { value, source },
    )
}

/// The step that takes the distributed tier's answer. `reply` is the text
/// it holds under the key, if it answered and holds any, and `valid` says
/// whether that text is JSON.
pub open spec fn take_distributed(
    state: ServiceState,
    key: Seq<char>,
    reply: Option<Seq<char>>,
    valid: bool,
    now: Instant,
) -> (ServiceState, Outcome) {
    if state.distributed is Some && reply is Some && valid {
        promote(state, key, reply->0, CacheSource::Redis, now)
    } else {
        (state, after_distributed_miss(state))
    }
}

/// The step that takes the persistent tier's answer. `reply` is the text of
/// the live row of the key, if the tier answered and has one, and `valid`
/// says whether that text is JSON.
pub open spec fn take_persistent(
    state: ServiceState,
    key: Seq<char>,
    reply: Option<Seq<char>>,
    valid: bool,
    now: Instant,
) -> (ServiceState, Outcome) {
    if state.persistent is Some && reply is Some && valid {
        promote(state, key, reply->0, CacheSource::Sqlite, now)
    } else {
        (state, Outcome::Miss)
    }
}

/// What a slower tier answered: the text it holds, if any, and whether that
/// text is JSON.
pub struct TierAnswer {
    pub reply: Option<Seq<char>>,
    pub valid: bool,
}

/// A whole lookup: the steps from the memory tier on, each slower tier
/// asked only where the step before says so.
pub open spec fn lookup(
    state: ServiceState,
    key: Seq<char>,
    now: Instant,
    distributed: TierAnswer,
    persistent: TierAnswer,
) -> (ServiceState, Outcome) {
    let first = probe_memory(state, key, now);
    let second = if first.1 is AskDistributed {
        take_distributed(first.0, key, distributed.reply, distributed.valid, now)
    } else {
        first
    };
    if second.1 is AskPersistent {
        take_persistent(second.0, key, persistent.reply, persistent.valid, now)
    } else {
        second
    }
}

/// The writes that follow a write to the memory tier.
#[derive(Debug, Clone, Copy, PartialEq, Eq, Structural)]
pub struct WritePlan {
    /// The write to the distributed tier, where that tier is active.
    pub distributed: Option<RedisWrite>,
    /// The timestamps of the row for the persistent tier, where that tier
    /// is active.
    pub persistent: Option<RowTimes>,
}

/// The writes that follow a write at `now`.
pub open spec fn plan_writes(state: ServiceState, now: Instant) -> WritePlan {
    WritePlan {
        distributed: match state.distributed {
            Some(repo) => Some(repo.write_kind()),
            None => None,
        },
        persistent: match state.persistent {
            Some(tier) => Some(
                RowTimes {
                    created_at: now.secs,
                    expires_at: expiry_second(now.secs, tier.ttl_days),
                },
            ),
            None => None,
        },
    }
}

/// A write: the value goes to the memory tier at once.
pub open spec fn store(state: ServiceState, key: Seq<char>, value: Seq<char>, now: Instant) -> (
    ServiceState,
    WritePlan,
) {
    (
        ServiceState {
            memory: after_write(state.memory, state.capacity, key, value, now, state.memory_ttl),
            ..state
        },
        plan_writes(state, now),
    )
}

/// A state that the orchestrator can be in.
pub open spec fn valid_state(state: ServiceState) -> bool {
    well_formed(state.memory, state.capacity)
}

/// `state` with the distributed tier switched off.
pub open spec fn without_distributed(state: ServiceState) -> ServiceState {
    ServiceState { distributed: None, ..state }
}

/// Every step of a lookup and every write leaves a valid state valid.
pub proof fn lemma_steps_keep_state_valid(
    state: ServiceState,
    key: Seq<char>,
    value: Seq<char>,
    source: CacheSource,
    reply: Option<Seq<char>>,
    valid: bool,
    now: Instant,
)
    requires
        valid_state(state),
    ensures
        valid_state(probe_memory(state, key, now).0),
        valid_state(promote(state, key, value, source, now).0),
        valid_state(take_distributed(state, key, reply, valid, now).0),
        valid_state(take_persistent(state, key, reply, valid, now).0),
        valid_state(store(state, key, value, now).0),
{
    lemma_promoted(state.memory, state.capacity, key);
    lemma_without_key(state.memory, state.capacity, key);
    lemma_with_item(
        state.memory,
        state.capacity,
        key,
        stored_until(value, now.plus_seconds(state.memory_ttl)),
    );
    if reply is Some {
        lemma_with_item(
            state.memory,
            state.capacity,
            key,
            stored_until(reply->0, now.plus_seconds(state.memory_ttl)),
        );
    }
}

/// A whole lookup leaves a valid state valid.
pub proof fn lemma_lookup_keeps_state_valid(
    state: ServiceState,
    key: Seq<char>,
    now: Instant,
    distributed: TierAnswer,
    persistent: TierAnswer,
)
    requires
        valid_state(state),
    ensures
        valid_state(lookup(state, key, now, distributed, persistent).0),
{
    let first = probe_memory(state, key, now);
    lemma_steps_keep_state_valid(
        state,
        key,
        Seq::empty(),
        CacheSource::Memory,
        distributed.reply,
        distributed.valid,
        now,
    );
    lemma_steps_keep_state_valid(
        first.0,
        key,
        Seq::empty(),
        CacheSource::Memory,
        distributed.reply,
        distributed.valid,
        now,
    );
    let second = if first.1 is AskDistributed {
        take_distributed(first.0, key, distributed.reply, distributed.valid, now)
    } else {
        first
    };
    lemma_steps_keep_state_valid(
        second.0,
        key,
        Seq::empty(),
        CacheSource::Memory,
        persistent.reply,
        persistent.valid,
        now,
    );
}

/// Promotion, one step: a value that a slower tier served at `now` is
/// served by the memory tier at every `later` instant before the promoted
/// entry expires. The lookup ends at its first step and asks no other tier.
pub proof fn lemma_promoted_value_is_served_from_memory(
    state: ServiceState,
    key: Seq<char>,
    value: Seq<char>,
    source: CacheSource,
    now: Instant,
    later: Instant,
)
    requires
        valid_state(state),
        now.plus_seconds(state.memory_ttl).is_after(later),
    ensures
        probe_memory(promote(state, key, value, source, now).0, key, later).1 == (Outcome::Hit {
            value,
            source: CacheSource::Memory,
        }),
{
    lemma_read_after_write(
        state.memory,
        state.capacity,
        key,
        value,
        now,
        state.memory_ttl,
        later,
    );
}

/// Promotion: where a lookup at `now` finds its value in the persistent
/// tier, a lookup of the same key at a `later` instant before the promoted
/// entry expires is a hit from the memory tier, whatever the other tiers
/// hold by then: they are not asked.
pub proof fn lemma_persistent_hit_is_promoted(
    state: ServiceState,
    key: Seq<char>,
    value: Seq<char>,
    now: Instant,
    later: Instant,
    distributed: TierAnswer,
    persistent: TierAnswer,
    distributed_later: TierAnswer,
    persistent_later: TierAnswer,
)
    requires
        valid_state(state),
        lookup(state, key, now, distributed, persistent).1 == (Outcome::Hit {
            value,
            source: CacheSource::Sqlite,
        }),
        now.plus_seconds(state.memory_ttl).is_after(later),
    ensures
        lookup(
            lookup(state, key, now, distributed, persistent).0,
            key,
            later,
            distributed_later,
            persistent_later,
        ).1 == (Outcome::Hit { value, source: CacheSource::Memory }),
{
    let first = probe_memory(state, key, now);
    lemma_steps_keep_state_valid(
        state,
        key,
        value,
        CacheSource::Sqlite,
        distributed.reply,
        distributed.valid,
        now,
    );
    let second = if first.1 is AskDistributed {
        take_distributed(first.0, key, distributed.reply, distributed.valid, now)
    } else {
        first
    };
    lemma_steps_keep_state_valid(
        first.0,
        key,
        value,
        CacheSource::Sqlite,
        distributed.reply,
        distributed.valid,
        now,
    );
    assert(second.1 is AskPersistent);
    assert(lookup(state, key, now, distributed, persistent) == promote(
        second.0,
        key,
        value,
        CacheSource::Sqlite,
        now,
    ));
    lemma_promoted_value_is_served_from_memory(
        second.0,
        key,
        value,
        CacheSource::Sqlite,
        now,
        later,
    );
}

/// Tier isolation: a distributed tier that holds nothing for the key,
/// cannot be reached or answers with something that is no JSON changes
/// nothing. The lookup ends as it does with that tier switched off, with
/// the same value from the same tier or the same miss, and it leaves the
/// same memory tier and the same counters.
pub proof fn lemma_distributed_tier_isolated(
    state: ServiceState,
    key: Seq<char>,
    now: Instant,
    distributed: TierAnswer,
    persistent: TierAnswer,
)
    requires
        distributed.reply is None || !distributed.valid,
    ensures
        lookup(state, key, now, distributed, persistent).1 == lookup(
            without_distributed(state),
            key,
            now,
            distributed,
            persistent,
        ).1,
        without_distributed(lookup(state, key, now, distributed, persistent).0) == lookup(
            without_distributed(state),
            key,
            now,
            distributed,
            persistent,
        ).0,
        lookup(state, key, now, distributed, persistent).0.distributed == state.distributed,
{
}

/// A tier that is switched off is never heard: with the distributed tier
/// off, a lookup does not depend on what that tier would answer.
pub proof fn lemma_disabled_tier_is_not_asked(
    state: ServiceState,
    key: Seq<char>,
    now: Instant,
    distributed: TierAnswer,
    other: TierAnswer,
    persistent: TierAnswer,
)
    requires
        state.distributed is None,
    ensures
        lookup(state, key, now, distributed, persistent) == lookup(
            state,
            key,
            now,
            other,
            persistent,
        ),
{
}

/// Counting: a whole lookup counts one request, however many tiers it
/// asks, and one hit for the tier that served the value, if any did. No
/// counter ever goes down.
pub proof fn lemma_lookup_counts_once(
    state: ServiceState,
    key: Seq<char>,
    now: Instant,
    distributed: TierAnswer,
    persistent: TierAnswer,
)
    ensures
        lookup(state, key, now, distributed, persistent).0.stats == match lookup(
            state,
            key,
            now,
            distributed,
            persistent,
        ).1 {
            Outcome::Hit { value, source } => state.stats.with_request().with_hit(source),
            _ => state.stats.with_request(),
        },
        lookup(state, key, now, distributed, persistent).0.stats.total_requests == counted(
            state.stats.total_requests,
        ),
        lookup(state, key, now, distributed, persistent).0.stats.not_below(state.stats),
        lookup(state, key, now, distributed, persistent).1 is Hit || lookup(
            state,
            key,
            now,
            distributed,
            persistent,
        ).1 is Miss,
{
}

/// A value that was written is served by the memory tier until its entry
/// there expires.
pub proof fn lemma_written_value_is_served_from_memory(
    state: ServiceState,
    key: Seq<char>,
    value: Seq<char>,
    now: Instant,
    later: Instant,
)
    requires
        valid_state(state),
        now.plus_seconds(state.memory_ttl).is_after(later),
    ensures
        probe_memory(store(state, key, value, now).0, key, later).1 == (Outcome::Hit {
            value,
            source: CacheSource::Memory,
        }),
{
    lemma_read_after_write(
        state.memory,
        state.capacity,
        key,
        value,
        now,
        state.memory_ttl,
        later,
    );
}

/// Where a lookup stands after a step, with the value found.
#[derive(Debug)]
pub enum Lookup {
    Hit { value: String, source: CacheSource },
    AskDistributed,
    AskPersistent,
    Miss,
}

impl View for Lookup {
    type V = Outcome;

    open spec fn view(&self) -> Outcome {
        match self {
            Lookup::Hit { value, source } => Outcome::Hit { value: value@, source: *source },
            Lookup::AskDistributed => Outcome::AskDistributed,
            Lookup::AskPersistent => Outcome::AskPersistent,
            Lookup::Miss => Outcome::Miss,
        }
    }
}

/// The three tiers behind one lookup and one write, with their counters.
pub struct CacheService {
    settings: CacheSettings,
    memory_cache: MemoryTier,
    redis_repo: Tier<RedisRepo>,
    sqlite_repo: Tier<CacheRepo>,
    stats: CacheStats,
}

impl View for CacheService {
    type V = ServiceState;

    closed spec fn view(&self) -> ServiceState {
        ServiceState {
            memory: self.memory_cache.contents(),
            capacity: self.memory_cache.capacity(),
            memory_ttl: self.memory_cache.ttl(),
            distributed: match self.redis_repo {
                Tier::Active(repo) => Some(repo),
                Tier::Disabled => None,
            },
            persistent: match self.sqlite_repo {
                Tier::Active(repo) => Some(repo@),
                Tier::Disabled => None,
            },
            stats: self.stats,
        }
    }
}

impl CacheService {
    /// The orchestrator's invariant.
    pub closed spec fn wf(&self) -> bool {
        self.memory_cache.wf()
    }

    /// The settings that the orchestrator was made with.
    pub closed spec fn configured(&self) -> CacheSettings {
        self.settings
    }

    /// A valid orchestrator is in a valid state.
    pub proof fn lemma_wf_state(&self)
        requires
            self.wf(),
        ensures
            valid_state(self@),
    {
        self.memory_cache.lemma_wf_contents();
    }

    /// Whether `settings` name a distributed store to connect to.
    pub fn wants_distributed(settings: &CacheSettings) -> (wanted: bool)
        ensures
            wanted == !blank(settings.redis_url@),
    {
        !is_blank(settings.redis_url.as_str())
    }

    /// Whether `settings` name a database file to open.
    pub fn wants_persistent(settings: &CacheSettings) -> (wanted: bool)
        ensures
            wanted == !blank(settings.sqlite_path@),
    {
        !is_blank(settings.sqlite_path.as_str())
    }

    /// The orchestrator for `settings`, with an empty memory tier and all
    /// counters at zero. A slower tier is active where the settings name it
    /// and the caller has reached it.
    pub fn new(settings: CacheSettings, distributed_reached: bool, persistent_reached: bool) -> (service:
        CacheService)
        ensures
            service.wf(),
            service.configured() == settings,
            service@.memory == Seq::<(Seq<char>, (Seq<char>, i64, u32))>::empty(),
            service@.capacity == if settings.memory_cache_entries == 0 {
                1
            } else {
                settings.memory_cache_entries as nat
            },
            service@.memory_ttl == settings.memory_ttl_seconds,
            service@.distributed == if !blank(settings.redis_url@) && distributed_reached {
                Some(RedisRepo { ttl_seconds: settings.redis_ttl_seconds })
            } else {
                None
            },
            service@.persistent == if !blank(settings.sqlite_path@) && persistent_reached {
                Some(
                    Persisted {
                        path: settings.sqlite_path@,
                        ttl_days: settings.sqlite_ttl_days as i64,
                        max_size_bytes: size_budget(settings.sqlite_max_size_gb),
                    },
                )
            } else {
                None
            },
            service@.stats == (CacheStats {
                total_requests: 0,
                memory_hits: 0,
                redis_hits: 0,
                sqlite_hits: 0,
            }),
    {
        let memory_cache = MemoryTier::new(settings.memory_cache_entries, settings.memory_ttl_seconds);
        let redis_repo = if !is_blank(settings.redis_url.as_str()) && distributed_reached {
            Tier::Active(RedisRepo::new(settings.redis_ttl_seconds))
        } else {
            Tier::Disabled
        };
        let sqlite_repo = if !is_blank(settings.sqlite_path.as_str()) && persistent_reached {
            Tier::Active(
                CacheRepo::new(
                    settings.sqlite_path.clone(),
                    settings.sqlite_ttl_days,
                    settings.sqlite_max_size_gb,
                ),
            )
        } else {
            Tier::Disabled
        };
        CacheService { settings, memory_cache, redis_repo, sqlite_repo, stats: CacheStats::new() }
    }

    /// The counters.
    pub fn stats(&self) -> (stats: CacheStats)
        ensures
            stats == self@.stats,
    {
        self.stats
    }

    /// The settings that the orchestrator was made with.
    pub fn settings(&self) -> (settings: &CacheSettings)
        ensures
            *settings == self.configured(),
    {
        &self.settings
    }

    /// The distributed tier.
    pub fn redis_repo(&self) -> (tier: Tier<RedisRepo>)
        ensures
            (tier is Active) == (self@.distributed is Some),
            tier matches Tier::Active(repo) ==> self@.distributed == Some(repo),
    {
        self.redis_repo
    }

    /// The persistent tier.
    pub fn sqlite_repo(&self) -> (tier: &Tier<CacheRepo>)
        ensures
            (tier is Active) == (self@.persistent is Some),
            tier matches Tier::Active(repo) ==> self@.persistent == Some(repo@),
    {
        &self.sqlite_repo
    }

    /// Begins a lookup of `key` at `now`: counts the request and probes the
    /// memory tier.
    pub fn get(&mut self, key: &str, now: Instant) -> (step: Lookup)
        requires
            old(self).wf(),
        ensures
            final(self).wf(),
            final(self).configured() == old(self).configured(),
            (final(self)@, step@) == probe_memory(old(self)@, key@, now),
    {
        self.stats.record_request();
        match self.memory_cache.get(key, now) {
            Some(value) => {
                self.stats.record_hit(CacheSource::Memory);
                Lookup::Hit { value, source: CacheSource::Memory }
            },
            None => {
                match self.redis_repo {
                    Tier::Active(_) => Lookup::AskDistributed,
                    Tier::Disabled => match self.sqlite_repo {
                        Tier::Active(_) => Lookup::AskPersistent,
                        Tier::Disabled => Lookup::Miss,
                    },
                }
            },
        }
    }

    /// Takes the distributed tier's answer for `key`, given whether the
    /// text it holds is JSON.
    pub fn accept_distributed(&mut self, key: &str, reply: Option<String>, valid: bool, now: Instant) -> (step:
        Lookup)
        requires
            old(self).wf(),
        ensures
            final(self).wf(),
            final(self).configured() == old(self).configured(),
            (final(self)@, step@) == take_distributed(
                old(self)@,
                key@,
                text_of(reply),
                valid,
                now,
            ),
    {
        let active = match self.redis_repo {
            Tier::Active(_) => true,
            Tier::Disabled => false,
        };
        match reply {
            Some(text) => {
                if active && valid {
                    self.stats.record_hit(CacheSource::Redis);
                    self.memory_cache.set(key, text.clone(), now);
                    return Lookup::Hit { value: text, source: CacheSource::Redis };
                }
            },
            None => {},
        }
        match self.sqlite_repo {
            Tier::Active(_) => Lookup::AskPersistent,
            Tier::Disabled => Lookup::Miss,
        }
    }

    /// Takes the distributed tier's answer for `key`: the text it holds
    /// under the key, or nothing where it holds none, could not be reached
    /// or failed.
    pub fn distributed_reply(&mut self, key: &str, reply: Option<String>, now: Instant) -> (step:
        Lookup)
        requires
            old(self).wf(),
        ensures
            final(self).wf(),
            final(self).configured() == old(self).configured(),
            (final(self)@, step@) == take_distributed(
                old(self)@,
                key@,
                text_of(reply),
                reply is Some && is_json(reply->0@),
                now,
            ),
    {
        let valid = match &reply {
            Some(text) => parses_as_json(text.as_str()),
            None => false,
        };
        self.accept_distributed(key, reply, valid, now)
    }

    /// Takes the persistent tier's answer for `key`, given whether the
    /// text of the row is JSON.
    pub fn accept_persistent(&mut self, key: &str, reply: Option<String>, valid: bool, now: Instant) -> (step:
        Lookup)
        requires
            old(self).wf(),
        ensures
            final(self).wf(),
            final(self).configured() == old(self).configured(),
            (final(self)@, step@) == take_persistent(
                old(self)@,
                key@,
                text_of(reply),
                valid,
                now,
            ),
    {
        let active = match self.sqlite_repo {
            Tier::Active(_) => true,
            Tier::Disabled => false,
        };
        match reply {
            Some(text) => {
                if active && valid {
                    self.stats.record_hit(CacheSource::Sqlite);
                    self.memory_cache.set(key, text.clone(), now);
                    return Lookup::Hit { value: text, source: CacheSource::Sqlite };
                }
            },
            None => {},
        }
        Lookup::Miss
    }

    /// Takes the persistent tier's answer for `key`: the live row of the
    /// key, or nothing where there is none or the tier failed.
    pub fn persistent_reply(&mut self, key: &str, reply: Option<CacheRecord>, now: Instant) -> (step:
        Lookup)
        requires
            old(self).wf(),
        ensures
            final(self).wf(),
            final(self).configured() == old(self).configured(),
            (final(self)@, step@) == take_persistent(
                old(self)@,
                key@,
                match reply {
                    Some(record) => Some(record.value_json@),
                    None => None,
                },
                reply is Some && is_json(reply->0.value_json@),
                now,
            ),
    {
        match reply {
            Some(record) => {
                let valid = parses_as_json(record.value_json.as_str());
                self.accept_persistent(key, Some(record.value_json), valid, now)
            },
            None => self.accept_persistent(key, None, false, now),
        }
    }

    /// Writes `value` under `key` at `now`: to the memory tier at once, and
    /// by the returned plan to each slower tier that is active. The caller
    /// carries the plan out; a write of it that fails changes nothing
    /// here.
    pub fn set(&mut self, key: &str, value: &str, now: Instant) -> (plan: WritePlan)
        requires
            old(self).wf(),
        ensures
            final(self).wf(),
            final(self).configured() == old(self).configured(),
            (final(self)@, plan) == store(old(self)@, key@, value@, now),
    {
        self.memory_cache.set(key, value.to_owned(), now);
        let distributed = match self.redis_repo {
            Tier::Active(repo) => Some(repo.write_command()),
            Tier::Disabled => None,
        };
        let persistent = match &self.sqlite_repo {
            Tier::Active(repo) => Some(repo.row_times(now.secs)),
            Tier::Disabled => None,
        };
        WritePlan { distributed, persistent }
    }
}

} // verus!
