use topk_cli::cache::{Cache, DatasetEntry, DatasetIndex};

fn entry(name: &str, region: &str) -> DatasetEntry {
    DatasetEntry {
        name: name.to_string(),
        region: region.to_string(),
    }
}

fn index(datasets: &[(&str, &str)]) -> DatasetIndex {
    let mut i = DatasetIndex::new();
    i.set_all(datasets.iter().map(|(n, r)| entry(n, r)).collect());
    i
}

#[test]
fn lookup_returns_entry_for_known_name() {
    let idx = index(&[("ds", "aws-us-east-1-elastica")]);
    assert_eq!(
        idx.lookup("ds").map(|d| d.region.as_str()),
        Some("aws-us-east-1-elastica")
    );
}

#[test]
fn cache_lookup_returns_none_for_unknown_name() {
    let idx = index(&[("other", "aws-us-east-1-elastica")]);
    assert!(idx.lookup("missing").is_none());
}

#[test]
fn cache_set_all_replaces_existing_entries() {
    let mut idx = index(&[("old", "aws-us-east-1-elastica")]);
    idx.set_all(vec![entry("new", "aws-eu-central-1-monstera")]);
    assert!(idx.lookup("new").is_some());
    assert!(idx.lookup("old").is_none());
}

#[test]
fn cache_insert_adds_entry_without_clearing_others() {
    let mut idx = index(&[("a", "aws-us-east-1-elastica")]);
    idx.insert(entry("b", "aws-eu-central-1-monstera"));
    assert!(idx.lookup("a").is_some());
    assert!(idx.lookup("b").is_some());
}

#[test]
fn cache_insert_replaces_same_name() {
    let mut idx = index(&[("a", "aws-us-east-1-elastica")]);
    let updated = entry("a", "aws-eu-central-1-monstera");
    idx.insert(updated);
    let entry = idx.lookup("a").unwrap();
    assert_eq!(entry.region, "aws-eu-central-1-monstera");
}

#[test]
fn cache_remove_deletes_entry_for_name() {
    let mut idx = index(&[
        ("a", "aws-us-east-1-elastica"),
        ("b", "aws-eu-central-1-monstera"),
    ]);
    idx.remove("a");
    assert!(idx.lookup("a").is_none());
    assert!(idx.lookup("b").is_some());
}

#[test]
fn cache_lookup_takes_first_of_duplicate_names() {
    let idx = index(&[("a", "first"), ("a", "second")]);
    assert_eq!(idx.lookup("a").map(|d| d.region.as_str()), Some("first"));
}

#[test]
fn cache_insert_moves_entry_to_the_end_and_drops_duplicates() {
    let mut idx = index(&[("a", "r1"), ("b", "r2"), ("a", "r3")]);
    idx.insert(entry("a", "r4"));
    let names: Vec<(&str, &str)> = idx
        .datasets()
        .iter()
        .map(|d| (d.name.as_str(), d.region.as_str()))
        .collect();
    assert_eq!(names, vec![("b", "r2"), ("a", "r4")]);
}

#[test]
fn cache_keeps_its_location_and_hands_entries_to_save() {
    let mut cache = Cache::new(Some("/tmp/datasets.toml".to_string()), vec![entry("a", "r1")]);
    cache.insert(entry("b", "r2"));
    cache.remove("a");
    assert_eq!(cache.lookup("b").map(|d| d.region.as_str()), Some("r2"));
    let (path, entries) = cache.save();
    assert_eq!(path.as_deref(), Some("/tmp/datasets.toml"));
    assert_eq!(entries.len(), 1);
    assert_eq!(entries[0].name, "b");
}
