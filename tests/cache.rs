use llocg_catalog::cache::{lookup_canonical, lookup_rarity, must_reload, KeyedCache};
use llocg_catalog::errors::{DbError, StorageFailure};
use llocg_catalog::models::RarityType;

fn s(x: &str) -> String {
    x.to_string()
}

fn rarities() -> KeyedCache<RarityType> {
    KeyedCache::from_rows(vec![(s("P"), RarityType::Parallel), (s("LLE"), RarityType::Parallel)])
}

#[test]
fn unmapped_rarity_is_regular() {
    let cache = rarities();
    assert_eq!(lookup_rarity(&cache, &s("R")), RarityType::Regular);
    assert_eq!(lookup_rarity(&cache, &s("P")), RarityType::Parallel);
    assert_eq!(lookup_rarity(&KeyedCache::new(), &s("P")), RarityType::Regular);
}

#[test]
fn unmapped_variant_is_returned_unchanged() {
    let cache = KeyedCache::from_rows(vec![(s("Kanon Shibuya"), s("Shibuya Kanon"))]);
    assert_eq!(lookup_canonical(&cache, &s("Kanon Shibuya")), "Shibuya Kanon");
    assert_eq!(lookup_canonical(&cache, &s("Tang Keke")), "Tang Keke");
    assert_eq!(lookup_canonical(&cache, &s("")), "");
}

#[test]
fn later_rows_win_when_loading() {
    let cache = KeyedCache::from_rows(vec![(s("a"), 1u32), (s("b"), 2), (s("a"), 3)]);
    assert_eq!(cache.get(&s("a")), Some(&3));
    assert_eq!(cache.get(&s("b")), Some(&2));
    assert_eq!(cache.snapshot().len(), 2);
}

#[test]
fn rarity_add_then_delete_cycle() {
    let mut cache = rarities();
    assert_eq!(cache.snapshot().len(), 2);
    assert_eq!(cache.check_absent(&s("TEST")), Ok(()));
    assert_eq!(cache.finish_insert(s("TEST"), RarityType::Regular, Ok(())), Ok(()));
    assert_eq!(cache.snapshot().len(), 3);
    assert_eq!(cache.get(&s("TEST")), Some(&RarityType::Regular));
    assert_eq!(cache.get(&s("P")), Some(&RarityType::Parallel));
    cache.finish_remove(&s("TEST"), 1);
    assert_eq!(cache.snapshot().len(), 2);
    assert_eq!(cache.get(&s("TEST")), None);
    assert_eq!(cache.get(&s("LLE")), Some(&RarityType::Parallel));
}

#[test]
fn second_upsert_of_a_key_conflicts() {
    let mut cache: KeyedCache<String> = KeyedCache::new();
    assert_eq!(cache.check_absent(&s("Test Variant")), Ok(()));
    assert_eq!(cache.finish_insert(s("Test Variant"), s("Test Canonical"), Ok(())), Ok(()));
    assert_eq!(cache.check_absent(&s("Test Variant")), Err(DbError::Conflict(s("Test Variant"))));
    assert_eq!(cache.get(&s("Test Variant")), Some(&s("Test Canonical")));
    assert_eq!(cache.snapshot().len(), 1);
}

#[test]
fn refused_write_leaves_the_mirror_alone() {
    let mut cache = rarities();
    let r = cache.finish_insert(s("NEW"), RarityType::Parallel, Err(StorageFailure::UniqueViolation));
    assert_eq!(r, Err(DbError::Conflict(s("NEW"))));
    assert_eq!(cache.get(&s("NEW")), None);
    let r = cache.finish_insert(s("NEW"), RarityType::Parallel, Err(StorageFailure::Other(s("disk full"))));
    assert_eq!(r, Err(DbError::Storage(StorageFailure::Other(s("disk full")))));
    assert_eq!(cache.snapshot().len(), 2);
    cache.reload(vec![(s("NEW"), RarityType::Parallel)]);
    assert_eq!(cache.get(&s("NEW")), Some(&RarityType::Parallel));
    assert_eq!(cache.get(&s("P")), None);
}

#[test]
fn delete_that_affected_nothing_keeps_the_mirror() {
    let mut cache = rarities();
    cache.finish_remove(&s("P"), 0);
    assert_eq!(cache.get(&s("P")), Some(&RarityType::Parallel));
    cache.finish_remove(&s("absent"), 1);
    assert_eq!(cache.snapshot().len(), 2);
}

#[test]
fn insert_of_a_present_key_replaces_its_value() {
    let mut cache = rarities();
    assert_eq!(cache.finish_insert(s("P"), RarityType::Regular, Ok(())), Ok(()));
    assert_eq!(cache.get(&s("P")), Some(&RarityType::Regular));
    assert_eq!(cache.snapshot().len(), 2);
}

#[test]
fn error_status_codes() {
    assert_eq!(DbError::GroupNotFound(s("g")).status_code(), 404);
    assert_eq!(DbError::UnitNotFound(s("u")).status_code(), 404);
    assert_eq!(DbError::CardNotFound(7).status_code(), 404);
    assert_eq!(DbError::Conflict(s("k")).status_code(), 409);
    assert_eq!(DbError::Storage(StorageFailure::RowNotFound).status_code(), 500);
}

#[test]
fn write_failures_map_to_errors() {
    assert_eq!(DbError::from_write_failure(StorageFailure::UniqueViolation, &s("bp1")), DbError::Conflict(s("bp1")));
    assert_eq!(
        DbError::from_write_failure(StorageFailure::RowNotFound, &s("bp1")),
        DbError::Storage(StorageFailure::RowNotFound)
    );
}

#[test]
fn only_a_refused_duplicate_calls_for_a_reload() {
    assert!(must_reload(&Err(StorageFailure::UniqueViolation)));
    assert!(!must_reload(&Ok(())));
    assert!(!must_reload(&Err(StorageFailure::RowNotFound)));
    assert!(!must_reload(&Err(StorageFailure::Other(s("io")))));
    assert_eq!(DbError::Inconsistent(1).status_code(), 500);
}
