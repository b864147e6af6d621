use gateway_core::cache_repo::{CacheRecord, RowTimes};
use gateway_core::cache_service::{CacheService, CacheSource, CacheStats, Lookup, Tier, WritePlan};
use gateway_core::config::{CacheSettings, Config};
use gateway_core::instant::Instant;
use gateway_core::redis_repo::RedisWrite;

fn at(secs: i64) -> Instant {
    Instant::new(secs, 0)
}

fn settings() -> CacheSettings {
    let mut cache = Config::defaults(1).cache;
    cache.memory_cache_entries = 8;
    cache.memory_ttl_seconds = 60;
    cache
}

fn service(distributed: bool, persistent: bool) -> CacheService {
    CacheService::new(settings(), distributed, persistent)
}

fn record(key: &str, value_json: &str) -> CacheRecord {
    CacheRecord {
        key: key.to_string(),
        value_json: value_json.to_string(),
        created_at: 0,
        expires_at: 1_000_000,
        hits: 1,
    }
}

fn expect_hit(step: Lookup, value: &str, source: CacheSource) {
    match step {
        Lookup::Hit { value: found, source: from } => {
            assert_eq!(found, value);
            assert_eq!(from, source);
        }
        other => panic!("expected a hit, found {:?}", other),
    }
}

#[test]
fn source_names() {
    assert_eq!(CacheSource::Memory.as_str(), "memory");
    assert_eq!(CacheSource::Redis.as_str(), "redis");
    assert_eq!(CacheSource::Sqlite.as_str(), "sqlite");
}

#[test]
fn counters_start_at_zero() {
    let stats = CacheStats::new();
    assert_eq!(stats.total_requests, 0);
    assert_eq!(stats.memory_hits, 0);
    assert_eq!(stats.redis_hits, 0);
    assert_eq!(stats.sqlite_hits, 0);
    assert_eq!(service(true, true).stats(), stats);
}

#[test]
fn tiers_are_active_where_configured_and_reached() {
    let both = service(true, true);
    assert!(matches!(both.redis_repo(), Tier::Active(repo) if repo.ttl_seconds == 86_400));
    assert!(matches!(both.sqlite_repo(), Tier::Active(repo)
        if repo.ttl_days == 30 && repo.max_size_bytes == 10 * 1024 * 1024 * 1024
            && repo.path == "data/ai_cache.sqlite"));
    let none = service(false, false);
    assert!(matches!(none.redis_repo(), Tier::Disabled));
    assert!(matches!(none.sqlite_repo(), Tier::Disabled));
}

#[test]
fn tier_without_address_is_disabled_even_if_reached() {
    let mut cache = settings();
    cache.redis_url = "   ".to_string();
    cache.sqlite_path = String::new();
    assert!(!CacheService::wants_distributed(&cache));
    assert!(!CacheService::wants_persistent(&cache));
    let service = CacheService::new(cache, true, true);
    assert!(matches!(service.redis_repo(), Tier::Disabled));
    assert!(matches!(service.sqlite_repo(), Tier::Disabled));
    assert!(CacheService::wants_distributed(&settings()));
    assert!(CacheService::wants_persistent(&settings()));
}

#[test]
fn miss_walks_through_the_active_tiers() {
    let mut all = service(true, true);
    assert!(matches!(all.get("k", at(0)), Lookup::AskDistributed));
    assert!(matches!(all.distributed_reply("k", None, at(0)), Lookup::AskPersistent));
    assert!(matches!(all.persistent_reply("k", None, at(0)), Lookup::Miss));

    let mut memory_only = service(false, false);
    assert!(matches!(memory_only.get("k", at(0)), Lookup::Miss));

    let mut with_persistent = service(false, true);
    assert!(matches!(with_persistent.get("k", at(0)), Lookup::AskPersistent));

    let mut with_distributed = service(true, false);
    assert!(matches!(with_distributed.get("k", at(0)), Lookup::AskDistributed));
    assert!(matches!(with_distributed.distributed_reply("k", None, at(0)), Lookup::Miss));
}

#[test]
fn written_value_is_a_memory_hit() {
    let mut service = service(true, true);
    let plan = service.set("k", "{\"response\":\"hello\"}", at(100));
    assert_eq!(
        plan,
        WritePlan {
            distributed: Some(RedisWrite::Expiring { seconds: 86_400 }),
            persistent: Some(RowTimes { created_at: 100, expires_at: 100 + 30 * 86_400 }),
        }
    );
    expect_hit(service.get("k", at(100)), "{\"response\":\"hello\"}", CacheSource::Memory);
    let stats = service.stats();
    assert_eq!(stats.total_requests, 1);
    assert_eq!(stats.memory_hits, 1);
    assert_eq!(stats.redis_hits, 0);
    assert_eq!(stats.sqlite_hits, 0);
}

#[test]
fn write_plan_names_only_active_tiers() {
    let mut service = service(false, false);
    assert_eq!(
        service.set("k", "1", at(5)),
        WritePlan { distributed: None, persistent: None }
    );
    let mut cache = settings();
    cache.redis_ttl_seconds = 0;
    let mut lasting = CacheService::new(cache, true, false);
    assert_eq!(
        lasting.set("k", "1", at(5)),
        WritePlan { distributed: Some(RedisWrite::Lasting), persistent: None }
    );
}

#[test]
fn value_found_only_in_the_persistent_tier_is_promoted() {
    let mut service = service(true, true);
    assert!(matches!(service.get("k", at(100)), Lookup::AskDistributed));
    assert!(matches!(service.distributed_reply("k", None, at(100)), Lookup::AskPersistent));
    let step = service.persistent_reply("k", Some(record("k", "{\"a\":1}")), at(100));
    expect_hit(step, "{\"a\":1}", CacheSource::Sqlite);
    expect_hit(service.get("k", at(101)), "{\"a\":1}", CacheSource::Memory);
    let stats = service.stats();
    assert_eq!(stats.total_requests, 2);
    assert_eq!(stats.sqlite_hits, 1);
    assert_eq!(stats.memory_hits, 1);
    assert_eq!(stats.redis_hits, 0);
}

#[test]
fn value_found_in_the_distributed_tier_is_promoted() {
    let mut service = service(true, true);
    assert!(matches!(service.get("k", at(100)), Lookup::AskDistributed));
    let step = service.distributed_reply("k", Some("[1,2]".to_string()), at(100));
    expect_hit(step, "[1,2]", CacheSource::Redis);
    expect_hit(service.get("k", at(159)), "[1,2]", CacheSource::Memory);
    assert!(matches!(service.get("k", at(160)), Lookup::AskDistributed));
    let stats = service.stats();
    assert_eq!(stats.total_requests, 3);
    assert_eq!(stats.redis_hits, 1);
    assert_eq!(stats.memory_hits, 1);
}

#[test]
fn reply_that_is_no_json_counts_as_no_entry() {
    let mut service = service(true, true);
    assert!(matches!(service.get("k", at(0)), Lookup::AskDistributed));
    assert!(matches!(
        service.distributed_reply("k", Some("not json".to_string()), at(0)),
        Lookup::AskPersistent
    ));
    assert!(matches!(
        service.persistent_reply("k", Some(record("k", "{\"a\":")), at(0)),
        Lookup::Miss
    ));
    assert!(matches!(service.get("k", at(0)), Lookup::AskDistributed));
    assert_eq!(service.stats().redis_hits, 0);
    assert_eq!(service.stats().sqlite_hits, 0);
    assert_eq!(service.stats().total_requests, 2);
}

#[test]
fn failing_distributed_tier_changes_no_outcome() {
    let mut failing = service(true, true);
    let mut disabled = service(false, true);

    assert!(matches!(failing.get("k", at(0)), Lookup::AskDistributed));
    assert!(matches!(failing.distributed_reply("k", None, at(0)), Lookup::AskPersistent));
    assert!(matches!(disabled.get("k", at(0)), Lookup::AskPersistent));
    let from_failing = failing.persistent_reply("k", Some(record("k", "\"v\"")), at(0));
    let from_disabled = disabled.persistent_reply("k", Some(record("k", "\"v\"")), at(0));
    expect_hit(from_failing, "\"v\"", CacheSource::Sqlite);
    expect_hit(from_disabled, "\"v\"", CacheSource::Sqlite);
    expect_hit(failing.get("k", at(1)), "\"v\"", CacheSource::Memory);
    expect_hit(disabled.get("k", at(1)), "\"v\"", CacheSource::Memory);
    assert_eq!(failing.stats(), disabled.stats());

    assert!(matches!(failing.get("absent", at(1)), Lookup::AskDistributed));
    assert!(matches!(failing.distributed_reply("absent", None, at(1)), Lookup::AskPersistent));
    assert!(matches!(failing.persistent_reply("absent", None, at(1)), Lookup::Miss));
    assert!(matches!(disabled.get("absent", at(1)), Lookup::AskPersistent));
    assert!(matches!(disabled.persistent_reply("absent", None, at(1)), Lookup::Miss));
}

#[test]
fn reply_for_a_disabled_tier_is_not_heard() {
    let mut service = service(false, false);
    assert!(matches!(service.get("k", at(0)), Lookup::Miss));
    assert!(matches!(
        service.distributed_reply("k", Some("1".to_string()), at(0)),
        Lookup::Miss
    ));
    assert!(matches!(
        service.persistent_reply("k", Some(record("k", "1")), at(0)),
        Lookup::Miss
    ));
    assert!(matches!(service.get("k", at(0)), Lookup::Miss));
    assert_eq!(service.stats().redis_hits, 0);
    assert_eq!(service.stats().sqlite_hits, 0);
}

#[test]
fn accepting_a_reply_goes_by_the_validity_given() {
    let mut service = service(true, true);
    assert!(matches!(
        service.accept_distributed("k", Some("1".to_string()), false, at(0)),
        Lookup::AskPersistent
    ));
    expect_hit(
        service.accept_distributed("k", Some("x".to_string()), true, at(0)),
        "x",
        CacheSource::Redis,
    );
    assert!(matches!(
        service.accept_persistent("p", Some("1".to_string()), false, at(0)),
        Lookup::Miss
    ));
    assert!(matches!(service.accept_persistent("p", None, true, at(0)), Lookup::Miss));
    expect_hit(
        service.accept_persistent("p", Some("y".to_string()), true, at(0)),
        "y",
        CacheSource::Sqlite,
    );
}

#[test]
fn promoted_value_lives_as_long_as_the_memory_tier_lets_it() {
    let mut service = service(false, true);
    assert!(matches!(service.get("k", at(0)), Lookup::AskPersistent));
    expect_hit(
        service.persistent_reply("k", Some(record("k", "true")), at(0)),
        "true",
        CacheSource::Sqlite,
    );
    expect_hit(service.get("k", at(59)), "true", CacheSource::Memory);
    assert!(matches!(service.get("k", at(60)), Lookup::AskPersistent));
}

#[test]
fn memory_tier_of_the_service_evicts_the_least_recently_used() {
    let mut cache = settings();
    cache.memory_cache_entries = 2;
    let mut service = CacheService::new(cache, false, false);
    service.set("a", "1", at(0));
    service.set("b", "2", at(0));
    service.set("c", "3", at(0));
    assert!(matches!(service.get("a", at(0)), Lookup::Miss));
    expect_hit(service.get("b", at(0)), "2", CacheSource::Memory);
    expect_hit(service.get("c", at(0)), "3", CacheSource::Memory);
    assert_eq!(service.stats().total_requests, 3);
    assert_eq!(service.stats().memory_hits, 2);
}

#[test]
fn settings_are_kept() {
    let service = service(true, true);
    assert_eq!(service.settings().memory_cache_entries, 8);
    assert_eq!(service.settings().memory_ttl_seconds, 60);
    assert_eq!(service.settings().cache_probability, "0.3");
}
