use gateway_core::instant::Instant;
use gateway_core::memory_tier::MemoryTier;

fn at(secs: i64) -> Instant {
    Instant::new(secs, 0)
}

#[test]
fn instant_orders_by_second_then_nanosecond() {
    assert!(Instant::new(2, 0).later_than(&Instant::new(1, 999_999_999)));
    assert!(Instant::new(1, 5).later_than(&Instant::new(1, 4)));
    assert!(!Instant::new(1, 4).later_than(&Instant::new(1, 4)));
    assert!(!Instant::new(1, 4).later_than(&Instant::new(1, 5)));
    assert!(!Instant::new(-1, 0).later_than(&Instant::new(0, 0)));
}

#[test]
fn instant_adds_seconds_and_stops_at_the_last_second() {
    assert_eq!(Instant::new(100, 7).add_seconds(3600), Instant::new(3700, 7));
    assert_eq!(Instant::new(-10, 0).add_seconds(4), Instant::new(-6, 0));
    assert_eq!(Instant::new(100, 7).add_seconds(0), Instant::new(100, 7));
    assert_eq!(Instant::new(i64::MAX - 1, 3).add_seconds(5), Instant::new(i64::MAX, 3));
    assert_eq!(Instant::new(0, 0).add_seconds(u64::MAX), Instant::new(i64::MAX, 0));
}

#[test]
fn instant_is_written_in_rfc_3339() {
    assert_eq!(
        Instant::new(1_431_648_000, 0).to_rfc3339(),
        Some("2015-05-15T00:00:00.000000000Z".to_string())
    );
    assert_eq!(
        Instant::new(1_516_991_409, 453_829_000).to_rfc3339(),
        Some("2018-01-26T18:30:09.453829000Z".to_string())
    );
}

#[test]
fn instant_outside_the_calendar_has_no_written_form() {
    assert_eq!(Instant::new(i64::MAX, 0).to_rfc3339(), None);
    assert_eq!(Instant::new(0, 2_000_000_000).to_rfc3339(), None);
}

#[test]
fn entry_is_read_back_at_once() {
    let mut tier = MemoryTier::new(4, 60);
    tier.set("k", "v".to_string(), at(1000));
    assert_eq!(tier.get("k", at(1000)), Some("v".to_string()));
}

#[test]
fn entry_is_read_back_until_it_expires() {
    let mut tier = MemoryTier::new(4, 60);
    tier.set("k", "v".to_string(), at(1000));
    assert_eq!(tier.get("k", Instant::new(1059, 999_999_999)), Some("v".to_string()));
}

#[test]
fn entry_is_a_miss_once_its_lifetime_has_passed() {
    let mut tier = MemoryTier::new(4, 60);
    tier.set("k", "v".to_string(), at(1000));
    assert_eq!(tier.get("k", at(1060)), None);
    let mut other = MemoryTier::new(4, 60);
    other.set("k", "v".to_string(), at(1000));
    assert_eq!(other.get("k", at(5000)), None);
}

#[test]
fn expiry_counts_nanoseconds() {
    let mut tier = MemoryTier::new(4, 1);
    tier.set("k", "v".to_string(), Instant::new(10, 500));
    assert_eq!(tier.get("k", Instant::new(11, 499)), Some("v".to_string()));
    assert_eq!(tier.get("k", Instant::new(11, 500)), None);
}

#[test]
fn expired_entry_is_removed_by_the_read() {
    let mut tier = MemoryTier::new(4, 60);
    tier.set("k", "v".to_string(), at(1000));
    assert_eq!(tier.get("k", at(1060)), None);
    assert_eq!(tier.get("k", at(1000)), None);
}

#[test]
fn entry_with_no_lifetime_is_never_read() {
    let mut tier = MemoryTier::new(4, 0);
    tier.set("k", "v".to_string(), at(1000));
    assert_eq!(tier.get("k", at(1000)), None);
}

#[test]
fn missing_key_is_a_miss() {
    let mut tier = MemoryTier::new(4, 60);
    assert_eq!(tier.get("k", at(0)), None);
    tier.set("k", "v".to_string(), at(0));
    assert_eq!(tier.get("other", at(0)), None);
    assert_eq!(tier.get("k", at(0)), Some("v".to_string()));
}

#[test]
fn write_replaces_the_value_and_the_expiry() {
    let mut tier = MemoryTier::new(4, 60);
    tier.set("k", "old".to_string(), at(1000));
    tier.set("k", "new".to_string(), at(1050));
    assert_eq!(tier.get("k", at(1100)), Some("new".to_string()));
    assert_eq!(tier.get("k", at(1110)), None);
}

#[test]
fn one_key_too_many_evicts_the_least_recently_used() {
    let mut tier = MemoryTier::new(3, 60);
    tier.set("a", "1".to_string(), at(0));
    tier.set("b", "2".to_string(), at(0));
    tier.set("c", "3".to_string(), at(0));
    tier.set("d", "4".to_string(), at(0));
    assert_eq!(tier.get("a", at(1)), None);
    assert_eq!(tier.get("b", at(1)), Some("2".to_string()));
    assert_eq!(tier.get("c", at(1)), Some("3".to_string()));
    assert_eq!(tier.get("d", at(1)), Some("4".to_string()));
}

#[test]
fn a_read_makes_a_key_recently_used() {
    let mut tier = MemoryTier::new(2, 60);
    tier.set("a", "1".to_string(), at(0));
    tier.set("b", "2".to_string(), at(0));
    assert_eq!(tier.get("a", at(1)), Some("1".to_string()));
    tier.set("c", "3".to_string(), at(1));
    assert_eq!(tier.get("b", at(2)), None);
    assert_eq!(tier.get("a", at(2)), Some("1".to_string()));
    assert_eq!(tier.get("c", at(2)), Some("3".to_string()));
}

#[test]
fn a_rewrite_makes_a_key_recently_used_and_evicts_nothing() {
    let mut tier = MemoryTier::new(2, 60);
    tier.set("a", "1".to_string(), at(0));
    tier.set("b", "2".to_string(), at(0));
    tier.set("a", "one".to_string(), at(0));
    assert_eq!(tier.get("b", at(1)), Some("2".to_string()));
    tier.set("a", "uno".to_string(), at(1));
    tier.set("c", "3".to_string(), at(1));
    assert_eq!(tier.get("b", at(2)), None);
    assert_eq!(tier.get("a", at(2)), Some("uno".to_string()));
}

#[test]
fn capacity_of_zero_holds_one_entry() {
    let mut tier = MemoryTier::new(0, 60);
    tier.set("a", "1".to_string(), at(0));
    assert_eq!(tier.get("a", at(0)), Some("1".to_string()));
    tier.set("b", "2".to_string(), at(0));
    assert_eq!(tier.get("a", at(0)), None);
    assert_eq!(tier.get("b", at(0)), Some("2".to_string()));
}

#[test]
fn capacity_of_one_keeps_the_latest_key() {
    let mut tier = MemoryTier::new(1, 60);
    tier.set("a", "1".to_string(), at(0));
    tier.set("b", "2".to_string(), at(0));
    assert_eq!(tier.get("a", at(0)), None);
    assert_eq!(tier.get("b", at(0)), Some("2".to_string()));
}

#[test]
fn very_large_capacity_is_accepted() {
    let mut tier = MemoryTier::new(usize::MAX, 60);
    tier.set("a", "1".to_string(), at(0));
    assert_eq!(tier.get("a", at(0)), Some("1".to_string()));
}
