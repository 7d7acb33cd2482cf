//! The short-lived local record of which region each dataset lives in.

use vstd::prelude::*;
use crate::text::{owned, same_text};

verus! {

/// How long a recorded region is trusted, in seconds (five minutes).
pub const DATASET_REGION_CACHE_TTL_SECS: u64 = 300;

/// Seconds since the Unix epoch on this machine's clock, through std's
/// `SystemTime::elapsed` (zero if the clock reads before the epoch). Nothing is promised of the value: it is the time.
#[verifier::external_body]
pub(crate) fn now_epoch_seconds() -> (r: u64) {
    std::time::UNIX_EPOCH.elapsed().unwrap_or_default().as_secs()
}

/// A dataset's region, with the time it was recorded.
pub struct CachedDatasetRegion {
    pub name: String,
    pub region: String,
    pub cached_at: u64,
}

impl Clone for CachedDatasetRegion {
    fn clone(&self) -> (r: Self)
        ensures
            r == *self,
    {
        CachedDatasetRegion {
            name: self.name.clone(),
            region: self.region.clone(),
            cached_at: self.cached_at,
        }
    }
}

/// A record taken at `cached_at` is still trusted at `now`.
pub open spec fn fresh_at(cached_at: u64, now: u64) -> bool {
    now <= cached_at + DATASET_REGION_CACHE_TTL_SECS
}

impl CachedDatasetRegion {
    /// A record of `region` for `name`, taken at `cached_at`.
    pub fn new(name: String, region: String, cached_at: u64) -> (r: Self)
        ensures
            r.name == name,
            r.region == region,
            r.cached_at == cached_at,
    {
        CachedDatasetRegion { name, region, cached_at }
    }

    /// Whether the record is still trusted at `now_epoch_seconds`.
    pub fn is_fresh(&self, now_epoch_seconds: u64) -> (r: bool)
        ensures
            r == fresh_at(self.cached_at, now_epoch_seconds),
    {
        now_epoch_seconds.saturating_sub(self.cached_at) <= DATASET_REGION_CACHE_TTL_SECS
    }
}

/// The region of the first record for `name` that is fresh at `now`.
pub open spec fn fresh_region(s: Seq<CachedDatasetRegion>, name: Seq<char>, now: u64) -> Option<Seq<char>>
    decreases s.len(),
{
    if s.len() == 0 {
        None
    } else {
        let earlier = fresh_region(s.drop_last(), name, now);
        if earlier is Some {
            earlier
        } else if s.last().name@ == name && fresh_at(s.last().cached_at, now) {
            Some(s.last().region@)
        } else {
            None
        }
    }
}

/// `s` without the records for `name`, the rest in order.
pub open spec fn without_region_of(s: Seq<CachedDatasetRegion>, name: Seq<char>) -> Seq<CachedDatasetRegion>
    decreases s.len(),
{
    if s.len() == 0 {
        s
    } else {
        let rest = without_region_of(s.drop_last(), name);
        if s.last().name@ == name { rest } else { rest.push(s.last()) }
    }
}

/// The records of `s` that are fresh at `now`, in order.
pub open spec fn fresh_only(s: Seq<CachedDatasetRegion>, now: u64) -> Seq<CachedDatasetRegion>
    decreases s.len(),
{
    if s.len() == 0 {
        s
    } else {
        let rest = fresh_only(s.drop_last(), now);
        if fresh_at(s.last().cached_at, now) { rest.push(s.last()) } else { rest }
    }
}

/// Records for each `(name, region)` pair, all taken at `now`.
pub open spec fn stamped(pairs: Seq<(String, String)>, now: u64) -> Seq<CachedDatasetRegion> {
    pairs.map_values(|p: (String, String)| CachedDatasetRegion { name: p.0, region: p.1, cached_at: now })
}

proof fn lemma_fresh_region_prefix(s: Seq<CachedDatasetRegion>, k: int, name: Seq<char>, now: u64)
    requires
        0 <= k <= s.len(),
        fresh_region(s.take(k), name, now) is Some,
    ensures
        fresh_region(s, name, now) == fresh_region(s.take(k), name, now),
    decreases s.len(),
{
    if k == s.len() {
        assert(s.take(k) =~= s);
    } else {
        assert(s.drop_last().take(k) =~= s.take(k));
        lemma_fresh_region_prefix(s.drop_last(), k, name, now);
    }
}

proof fn lemma_without_region_of(s: Seq<CachedDatasetRegion>, name: Seq<char>, other: Seq<char>, now: u64)
    ensures
        fresh_region(without_region_of(s, name), name, now) is None,
        other != name ==> fresh_region(without_region_of(s, name), other, now) == fresh_region(s, other, now),
    decreases s.len(),
{
    if s.len() > 0 {
        lemma_without_region_of(s.drop_last(), name, other, now);
        let rest = without_region_of(s.drop_last(), name);
        if s.last().name@ != name {
            assert(rest.push(s.last()).drop_last() =~= rest);
        }
    }
}

proof fn lemma_fresh_only(s: Seq<CachedDatasetRegion>, name: Seq<char>, now: u64)
    ensures
        fresh_region(fresh_only(s, now), name, now) == fresh_region(s, name, now),
        forall|i: int| 0 <= i < fresh_only(s, now).len() ==> fresh_at(#[trigger] fresh_only(s, now)[i].cached_at, now),
    decreases s.len(),
{
    if s.len() > 0 {
        lemma_fresh_only(s.drop_last(), name, now);
        let rest = fresh_only(s.drop_last(), now);
        if fresh_at(s.last().cached_at, now) {
            assert(rest.push(s.last()).drop_last() =~= rest);
            assert forall|i: int| 0 <= i < rest.push(s.last()).len() implies fresh_at(#[trigger] rest.push(s.last())[i].cached_at, now) by {
                if i < rest.len() {
                    assert(rest.push(s.last())[i] == rest[i]);
                }
            }
        }
    }
}

/// The recorded regions, in the order they were recorded.
pub struct DatasetRegionStore {
    datasets: Vec<CachedDatasetRegion>,
}

impl DatasetRegionStore {
    /// The records, in order.
    pub closed spec fn records(&self) -> Seq<CachedDatasetRegion> {
        self.datasets@
    }

    /// An empty store.
    pub fn new() -> (r: Self)
        ensures
            r.records() == Seq::<CachedDatasetRegion>::empty(),
    {
        DatasetRegionStore { datasets: Vec::new() }
    }

    /// A store holding `datasets`, as read back from disk.
    pub fn from_records(datasets: Vec<CachedDatasetRegion>) -> (r: Self)
        ensures
            r.records() == datasets@,
    {
        DatasetRegionStore { datasets }
    }

    /// The records, in order.
    pub fn datasets(&self) -> (r: &Vec<CachedDatasetRegion>)
        ensures
            r@ == self.records(),
    {
        &self.datasets
    }

    /// The region of the first record for `name` still fresh at `now_epoch_seconds`.
    pub fn lookup(&self, name: &str, now_epoch_seconds: u64) -> (r: Option<&str>)
        ensures
            r matches Some(s) ==> fresh_region(self.records(), name@, now_epoch_seconds) == Some(s@),
            r is None ==> fresh_region(self.records(), name@, now_epoch_seconds) is None,
    {
        let n = self.datasets.len();
        let mut i: usize = 0;
        while i < n
            invariant
                n == self.datasets@.len(),
                i <= n,
                fresh_region(self.datasets@.take(i as int), name@, now_epoch_seconds) is None,
            decreases n - i,
        {
            let ghost t = self.datasets@.take(i + 1);
            assert(t.drop_last() =~= self.datasets@.take(i as int));
            if same_text(self.datasets[i].name.as_str(), name) && self.datasets[i].is_fresh(now_epoch_seconds) {
                proof {
                    lemma_fresh_region_prefix(self.datasets@, i + 1, name@, now_epoch_seconds);
                }
                return Some(self.datasets[i].region.as_str());
            }
            i = i + 1;
        }
        assert(self.datasets@.take(n as int) =~= self.datasets@);
        None
    }

    /// Replaces every record with one per pair, all taken at `now_epoch_seconds`.
    pub fn set_all(&mut self, datasets: Vec<(String, String)>, now_epoch_seconds: u64)
        ensures
            final(self).records() == stamped(datasets@, now_epoch_seconds),
    {
        let n = datasets.len();
        let mut out: Vec<CachedDatasetRegion> = Vec::new();
        let mut i: usize = 0;
        while i < n
            invariant
                n == datasets@.len(),
                i <= n,
                out@ =~= stamped(datasets@, now_epoch_seconds).take(i as int),
            decreases n - i,
        {
            let pair = &datasets[i];
            out.push(CachedDatasetRegion::new(pair.0.clone(), pair.1.clone(), now_epoch_seconds));
            i = i + 1;
        }
        self.datasets = out;
    }

    /// Records `region` for `name` at `now_epoch_seconds`, replacing older records for it.
    pub fn insert(&mut self, name: String, region: String, now_epoch_seconds: u64)
        ensures
            final(self).records() == without_region_of(old(self).records(), name@).push(
                CachedDatasetRegion { name, region, cached_at: now_epoch_seconds },
            ),
    {
        self.remove(name.as_str());
        self.datasets.push(CachedDatasetRegion::new(name, region, now_epoch_seconds));
    }

    /// Forgets every record for `name`.
    pub fn remove(&mut self, name: &str)
        ensures
            final(self).records() == without_region_of(old(self).records(), name@),
    {
        let old_records = self.datasets.clone();
        let n = old_records.len();
        let mut kept: Vec<CachedDatasetRegion> = Vec::new();
        let mut i: usize = 0;
        while i < n
            invariant
                n == old_records@.len(),
                old_records@ == old(self).datasets@,
                i <= n,
                kept@ == without_region_of(old_records@.take(i as int), name@),
            decreases n - i,
        {
            let ghost t = old_records@.take(i + 1);
            assert(t.drop_last() =~= old_records@.take(i as int));
            if !same_text(old_records[i].name.as_str(), name) {
                kept.push(old_records[i].clone());
            }
            i = i + 1;
        }
        assert(old_records@.take(n as int) =~= old_records@);
        self.datasets = kept;
    }

    /// Drops every record no longer fresh at `now_epoch_seconds`.
    pub fn prune_expired(&mut self, now_epoch_seconds: u64)
        ensures
            final(self).records() == fresh_only(old(self).records(), now_epoch_seconds),
    {
        let old_records = self.datasets.clone();
        let n = old_records.len();
        let mut kept: Vec<CachedDatasetRegion> = Vec::new();
        let mut i: usize = 0;
        while i < n
            invariant
                n == old_records@.len(),
                old_records@ == old(self).datasets@,
                i <= n,
                kept@ == fresh_only(old_records@.take(i as int), now_epoch_seconds),
            decreases n - i,
        {
            let ghost t = old_records@.take(i + 1);
            assert(t.drop_last() =~= old_records@.take(i as int));
            if old_records[i].is_fresh(now_epoch_seconds) {
                kept.push(old_records[i].clone());
            }
            i = i + 1;
        }
        assert(old_records@.take(n as int) =~= old_records@);
        self.datasets = kept;
    }
}

/// The region store together with where it is kept on disk.
pub struct DatasetRegionCache {
    path: Option<String>,
    store: DatasetRegionStore,
}

impl DatasetRegionCache {
    /// The records the cache holds.
    pub closed spec fn records(&self) -> Seq<CachedDatasetRegion> {
        self.store.records()
    }

    /// The file the cache is kept in, if any.
    pub closed spec fn location(&self) -> Option<String> {
        self.path
    }

    /// A cache kept at `path` holding the store read from it.
    pub fn new(path: Option<String>, store: DatasetRegionStore) -> (r: Self)
        ensures
            r.records() == store.records(),
            r.location() == path,
    {
        DatasetRegionCache { path, store }
    }

    /// An empty cache kept nowhere.
    pub fn default() -> (r: Self)
        ensures
            r.records() == Seq::<CachedDatasetRegion>::empty(),
            r.location() is None,
    {
        DatasetRegionCache { path: None, store: DatasetRegionStore::new() }
    }

    /// The time on this machine's clock, in seconds since the epoch.
    fn current_epoch_seconds(&self) -> u64 {
        now_epoch_seconds()
    }

    /// Drops the records that have expired by now, and hands back the file to
    /// write and the records to write to it.
    pub fn save(&mut self) -> (r: (&Option<String>, &Vec<CachedDatasetRegion>))
        ensures
            exists|now: u64| final(self).records() == fresh_only(old(self).records(), now),
            final(self).location() == old(self).location(),
            *r.0 == final(self).location(),
            r.1@ == final(self).records(),
    {
        let now = self.current_epoch_seconds();
        self.store.prune_expired(now);
        assert(self.records() == fresh_only(old(self).records(), now));
        (&self.path, self.store.datasets())
    }

    /// The region recorded for `name`, if it is still fresh now.
    pub fn get(&self, name: &str) -> (r: Option<&str>)
        ensures
            exists|now: u64| (match r {
                Some(s) => fresh_region(self.records(), name@, now) == Some(s@),
                None => fresh_region(self.records(), name@, now) is None,
            }),
    {
        let now = self.current_epoch_seconds();
        self.get_at(name, now)
    }

    /// The region recorded for `name`, if it is fresh at `now_epoch_seconds`.
    pub fn get_at(&self, name: &str, now_epoch_seconds: u64) -> (r: Option<&str>)
        ensures
            r matches Some(s) ==> fresh_region(self.records(), name@, now_epoch_seconds) == Some(s@),
            r is None ==> fresh_region(self.records(), name@, now_epoch_seconds) is None,
    {
        self.store.lookup(name, now_epoch_seconds)
    }

    /// Replaces every record with one per pair, all taken now.
    pub fn set_all(&mut self, datasets: Vec<(String, String)>)
        ensures
            exists|now: u64| final(self).records() == stamped(datasets@, now),
            final(self).location() == old(self).location(),
    {
        let now = self.current_epoch_seconds();
        self.store.set_all(datasets, now);
    }

    /// Records `region` for `name` now, replacing older records for it.
    pub fn insert(&mut self, name: &str, region: &str)
        ensures
            exists|now: u64| final(self).records() == without_region_of(old(self).records(), name@).push(
                CachedDatasetRegion { name: final(self).records().last().name, region: final(self).records().last().region, cached_at: now },
            ),
            final(self).records().last().name@ == name@,
            final(self).records().last().region@ == region@,
            final(self).location() == old(self).location(),
    {
        let now = self.current_epoch_seconds();
        self.insert_at(name, region, now);
    }

    /// Records `region` for `name` at `now_epoch_seconds`, replacing older records for it.
    pub fn insert_at(&mut self, name: &str, region: &str, now_epoch_seconds: u64)
        ensures
            final(self).records() == without_region_of(old(self).records(), name@).push(
                CachedDatasetRegion { name: final(self).records().last().name, region: final(self).records().last().region, cached_at: now_epoch_seconds },
            ),
            final(self).records().last().name@ == name@,
            final(self).records().last().region@ == region@,
            final(self).location() == old(self).location(),
    {
        self.store.insert(owned(name), owned(region), now_epoch_seconds);
    }

    /// Forgets every record for `name`.
    pub fn remove(&mut self, name: &str)
        ensures
            final(self).records() == without_region_of(old(self).records(), name@),
            final(self).location() == old(self).location(),
    {
        self.store.remove(name);
    }
}

/// A region recorded at `now` is found for its name at any time up to the
/// end of its lifetime.
pub proof fn law_insert_then_lookup(records: Seq<CachedDatasetRegion>, entry: CachedDatasetRegion, at: u64)
    requires
        fresh_at(entry.cached_at, at),
    ensures
        fresh_region(without_region_of(records, entry.name@).push(entry), entry.name@, at) == Some(entry.region@),
{
    let s = without_region_of(records, entry.name@).push(entry);
    lemma_without_region_of(records, entry.name@, entry.name@, at);
    assert(s.drop_last() =~= without_region_of(records, entry.name@));
}

/// Recording a region for one name leaves every other name's lookup as it was.
pub proof fn law_insert_keeps_others(records: Seq<CachedDatasetRegion>, entry: CachedDatasetRegion, other: Seq<char>, at: u64)
    requires
        other != entry.name@,
    ensures
        fresh_region(without_region_of(records, entry.name@).push(entry), other, at) == fresh_region(records, other, at),
{
    let s = without_region_of(records, entry.name@).push(entry);
    lemma_without_region_of(records, entry.name@, other, at);
    assert(s.drop_last() =~= without_region_of(records, entry.name@));
}

/// Once its lifetime has passed, a record is no longer found.
pub proof fn law_expired_is_not_found(records: Seq<CachedDatasetRegion>, name: Seq<char>, at: u64)
    requires
        forall|i: int| 0 <= i < records.len() ==> !fresh_at(#[trigger] records[i].cached_at, at),
    ensures
        fresh_region(records, name, at) is None,
    decreases records.len(),
{
    if records.len() > 0 {
        assert forall|i: int| 0 <= i < records.drop_last().len() implies !fresh_at(#[trigger] records.drop_last()[i].cached_at, at) by {
            assert(records.drop_last()[i] == records[i]);
        }
        law_expired_is_not_found(records.drop_last(), name, at);
    }
}

/// After removing a name nothing is found under it, and other names are found as before.
pub proof fn law_remove(records: Seq<CachedDatasetRegion>, name: Seq<char>, other: Seq<char>, at: u64)
    ensures
        fresh_region(without_region_of(records, name), name, at) is None,
        other != name ==> fresh_region(without_region_of(records, name), other, at) == fresh_region(records, other, at),
{
    lemma_without_region_of(records, name, other, at);
}

/// Pruning at a time keeps only fresh records and changes no lookup made at that time.
pub proof fn law_prune_keeps_lookups(records: Seq<CachedDatasetRegion>, name: Seq<char>, at: u64)
    ensures
        fresh_region(fresh_only(records, at), name, at) == fresh_region(records, name, at),
        forall|i: int| 0 <= i < fresh_only(records, at).len() ==> fresh_at(#[trigger] fresh_only(records, at)[i].cached_at, at),
{
    lemma_fresh_only(records, name, at);
}

} // verus!
