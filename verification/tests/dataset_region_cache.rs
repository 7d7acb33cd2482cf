use topk_cli::dataset_region_cache::{
    CachedDatasetRegion, DatasetRegionCache, DatasetRegionStore,
    DATASET_REGION_CACHE_TTL_SECS,
};

const NOW: u64 = 1_700_000_000;

fn clock() -> u64 {
    std::time::SystemTime::now()
        .duration_since(std::time::UNIX_EPOCH)
        .unwrap()
        .as_secs()
}

fn later() -> u64 {
    NOW + DATASET_REGION_CACHE_TTL_SECS + 1
}

fn create_store(datasets: &[(&str, &str)], cached_at_epoch_seconds: u64) -> DatasetRegionStore {
    DatasetRegionStore::from_records(
        datasets
            .iter()
            .map(|(name, region)| {
                CachedDatasetRegion::new(
                    (*name).to_string(),
                    (*region).to_string(),
                    cached_at_epoch_seconds,
                )
            })
            .collect(),
    )
}

#[test]
fn lookup_returns_region_for_known_name() {
    let store = create_store(&[("ds", "aws-us-east-1-elastica")], NOW);
    assert_eq!(store.lookup("ds", NOW), Some("aws-us-east-1-elastica"));
}

#[test]
fn dataset_region_cache_lookup_returns_none_for_unknown_name() {
    let store = create_store(&[("other", "aws-us-east-1-elastica")], NOW);
    assert_eq!(store.lookup("missing", NOW), None);
}

#[test]
fn lookup_returns_none_for_expired_entry() {
    let store = create_store(&[("ds", "aws-us-east-1-elastica")], NOW);
    assert_eq!(store.lookup("ds", later()), None);
}

#[test]
fn dataset_region_cache_set_all_replaces_existing_entries() {
    let mut store = create_store(&[("old", "aws-us-east-1-elastica")], NOW);
    store.set_all(
        vec![("new".to_string(), "aws-eu-central-1-monstera".to_string())],
        NOW,
    );
    assert_eq!(store.lookup("new", NOW), Some("aws-eu-central-1-monstera"));
    assert_eq!(store.lookup("old", NOW), None);
}

#[test]
fn dataset_region_cache_insert_adds_entry_without_clearing_others() {
    let mut store = create_store(&[("a", "aws-us-east-1-elastica")], NOW);
    store.insert(
        "b".to_string(),
        "aws-eu-central-1-monstera".to_string(),
        NOW,
    );
    assert_eq!(store.lookup("a", NOW), Some("aws-us-east-1-elastica"));
    assert_eq!(store.lookup("b", NOW), Some("aws-eu-central-1-monstera"));
}

#[test]
fn dataset_region_cache_insert_replaces_same_name() {
    let mut store = create_store(&[("a", "aws-us-east-1-elastica")], NOW);
    store.insert(
        "a".to_string(),
        "aws-eu-central-1-monstera".to_string(),
        NOW,
    );
    assert_eq!(store.lookup("a", NOW), Some("aws-eu-central-1-monstera"));
}

#[test]
fn dataset_region_cache_remove_deletes_entry_for_name() {
    let mut store = create_store(
        &[
            ("a", "aws-us-east-1-elastica"),
            ("b", "aws-eu-central-1-monstera"),
        ],
        NOW,
    );
    store.remove("a");
    assert_eq!(store.lookup("a", NOW), None);
    assert_eq!(store.lookup("b", NOW), Some("aws-eu-central-1-monstera"));
}

#[test]
fn cache_uses_ttl_when_reading_entries() {
    let mut cache = DatasetRegionCache::default();
    cache.insert("ds", "aws-us-east-1-elastica");
    assert_eq!(cache.get("ds"), Some("aws-us-east-1-elastica"));

    let stale = create_store(
        &[("ds", "aws-us-east-1-elastica")],
        clock() - DATASET_REGION_CACHE_TTL_SECS - 1,
    );
    let cache = DatasetRegionCache::new(None, stale);
    assert_eq!(cache.get("ds"), None);
}

#[test]
fn lookup_is_fresh_exactly_until_the_ttl_ends() {
    let store = create_store(&[("ds", "r")], NOW);
    assert_eq!(store.lookup("ds", NOW + DATASET_REGION_CACHE_TTL_SECS), Some("r"));
    assert_eq!(store.lookup("ds", NOW + DATASET_REGION_CACHE_TTL_SECS + 1), None);
    // A clock that reads earlier than the record still trusts it.
    assert_eq!(store.lookup("ds", NOW - 1000), Some("r"));
}

#[test]
fn prune_expired_keeps_only_fresh_records() {
    let mut store = create_store(&[("fresh", "r1")], NOW);
    store.insert("stale".to_string(), "r2".to_string(), NOW - DATASET_REGION_CACHE_TTL_SECS - 1);
    store.prune_expired(NOW);
    assert_eq!(store.datasets().len(), 1);
    assert_eq!(store.datasets()[0].name, "fresh");
}

#[test]
fn save_prunes_expired_entries() {
    let now = clock();
    let mut store = create_store(&[("fresh", "r1")], now);
    store.insert("stale".to_string(), "r2".to_string(), now - DATASET_REGION_CACHE_TTL_SECS - 100);
    let mut cache = DatasetRegionCache::new(Some("/tmp/regions.toml".to_string()), store);
    let (path, records) = cache.save();
    assert_eq!(path.as_deref(), Some("/tmp/regions.toml"));
    assert_eq!(records.len(), 1);
    assert_eq!(records[0].name, "fresh");
}

#[test]
fn is_fresh_uses_the_ttl() {
    let r = CachedDatasetRegion::new("ds".into(), "r".into(), NOW);
    assert!(r.is_fresh(NOW + 300));
    assert!(!r.is_fresh(NOW + 301));
}
