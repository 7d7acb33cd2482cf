//! Datasets and their regions: keeping the region cache in step with what
//! the service answers, and the one region a query across datasets runs in.

use vstd::prelude::*;
use crate::commands::dataset::Dataset;
use crate::dataset_region_cache::{CachedDatasetRegion, DatasetRegionCache, fresh_region, stamped, without_region_of};
use crate::text::{join, join_seqs, same_text, views};

verus! {

/// The `(name, region)` pairs of `datasets`, in order.
pub fn regions_of(datasets: &Vec<Dataset>) -> (r: Vec<(String, String)>)
    ensures
        r@.len() == datasets@.len(),
        forall|i: int| 0 <= i < r@.len() ==>
            (#[trigger] r@[i]).0@ == datasets@[i].name@ && r@[i].1@ == datasets@[i].region@,
{
    let mut r: Vec<(String, String)> = Vec::new();
    let mut i: usize = 0;
    while i < datasets.len()
        invariant
            i <= datasets@.len(),
            r@.len() == i,
            forall|j: int| 0 <= j < i ==>
                (#[trigger] r@[j]).0@ == datasets@[j].name@ && r@[j].1@ == datasets@[j].region@,
        decreases datasets.len() - i,
    {
        r.push((datasets[i].name.clone(), datasets[i].region.clone()));
        i = i + 1;
    }
    r
}

/// After listing: the cache holds exactly the listed datasets.
pub fn after_list(cache: &mut DatasetRegionCache, datasets: &Vec<Dataset>)
    ensures
        final(cache).location() == old(cache).location(),
        exists|now: u64, pairs: Seq<(String, String)>|
            pairs.len() == datasets@.len()
            && (forall|i: int| 0 <= i < pairs.len() ==> (#[trigger] pairs[i]).0@ == datasets@[i].name@ && pairs[i].1@ == datasets@[i].region@)
            && #[trigger] final(cache).records() == stamped(pairs, now),
{
    let pairs = regions_of(datasets);
    cache.set_all(pairs);
}

/// After reading or creating a dataset: its region is cached.
pub fn after_fetch(cache: &mut DatasetRegionCache, dataset: Option<&Dataset>)
    ensures
        final(cache).location() == old(cache).location(),
        dataset is None ==> final(cache).records() == old(cache).records(),
        dataset matches Some(d) ==> final(cache).records().last().name@ == d.name@
            && final(cache).records().last().region@ == d.region@
            && exists|now: u64| final(cache).records() == without_region_of(old(cache).records(), d.name@).push(
                CachedDatasetRegion { name: final(cache).records().last().name, region: final(cache).records().last().region, cached_at: now }),
{
    match dataset {
        Some(d) => cache.insert(d.name.as_str(), d.region.as_str()),
        None => {},
    }
}

/// Whether every pair has the first pair's region.
pub open spec fn one_region(pairs: Seq<(String, String)>) -> bool {
    forall|i: int| 0 <= i < pairs.len() ==> (#[trigger] pairs[i]).1@ == pairs[0].1@
}

/// `name (region)` for each pair, separated by commas.
pub open spec fn region_details(pairs: Seq<(String, String)>) -> Seq<char> {
    join_seqs(pairs.map_values(|p: (String, String)| p.0@ + " ("@ + p.1@ + ")"@), ", "@)
}

/// The one region shared by the datasets of `pairs` (each with its
/// region). An error without datasets, and one naming every dataset and its
/// region when they are in more than one.
pub fn unique_region(pairs: &Vec<(String, String)>) -> (r: Result<String, String>)
    ensures
        pairs@.len() == 0 ==> (r matches Err(m) && m@ == "at least one dataset is required"@),
        pairs@.len() > 0 && one_region(pairs@) ==> (r matches Ok(region) && region@ == pairs@[0].1@),
        pairs@.len() > 0 && !one_region(pairs@) ==> (r matches Err(m)
            && m@ == "cannot query datasets across regions: "@ + region_details(pairs@)),
{
    if pairs.len() == 0 {
        return Err("at least one dataset is required".to_owned());
    }
    let first = pairs[0].1.as_str();
    let mut i: usize = 1;
    let mut same = true;
    while i < pairs.len()
        invariant
            1 <= i <= pairs@.len(),
            first@ == pairs@[0].1@,
            same == (forall|j: int| 0 <= j < i ==> (#[trigger] pairs@[j]).1@ == pairs@[0].1@),
        decreases pairs.len() - i,
    {
        if !same_text(pairs[i].1.as_str(), first) {
            same = false;
        }
        i = i + 1;
    }
    if same {
        return Ok(first.to_owned());
    }
    let mut parts: Vec<String> = Vec::new();
    let mut k: usize = 0;
    while k < pairs.len()
        invariant
            k <= pairs@.len(),
            views(parts@) =~= pairs@.take(k as int).map_values(|p: (String, String)| p.0@ + " ("@ + p.1@ + ")"@),
        decreases pairs.len() - k,
    {
        let ghost before = parts@;
        let mut s = pairs[k].0.clone();
        s.append(" (");
        s.append(pairs[k].1.as_str());
        s.append(")");
        parts.push(s);
        assert(pairs@.take(k + 1) =~= pairs@.take(k as int).push(pairs@[k as int]));
        assert(views(parts@) =~= views(before).push(pairs@[k as int].0@ + " ("@ + pairs@[k as int].1@ + ")"@));
        k = k + 1;
    }
    assert(pairs@.take(pairs@.len() as int) =~= pairs@);
    let details = join(&parts, ", ");
    let mut m = "cannot query datasets across regions: ".to_owned();
    m.append(details.as_str());
    Err(m)
}


/// How a dataset's region is found.
pub enum RegionStep {
    /// The region, known from the cache: the service is not asked.
    Answer(String),
    /// The cache holds no fresh region: ask the service.
    Fetch,
}

/// The first step of finding `name`'s region: the cached region while it is
/// fresh, with no call to the service; else a fetch.
pub fn region_step(cache: &DatasetRegionCache, name: &str) -> (r: RegionStep)
    ensures
        exists|now: u64| match #[trigger] fresh_region(cache.records(), name@, now) {
            Some(region) => r matches RegionStep::Answer(x) && x@ == region,
            None => r is Fetch,
        },
{
    match cache.get(name) {
        Some(region) => RegionStep::Answer(region.to_owned()),
        None => RegionStep::Fetch,
    }
}

/// What a fetch of `name`'s region gave: a region is recorded in the cache
/// and handed on; an error leaves the cache as it was and is handed on.
pub fn after_region_fetch<E>(cache: &mut DatasetRegionCache, name: &str, fetched: Result<String, E>) -> (r: Result<String, E>)
    ensures
        r == fetched,
        final(cache).location() == old(cache).location(),
        fetched is Err ==> final(cache).records() == old(cache).records(),
        match fetched {
            Ok(region) => final(cache).records().last().name@ == name@
                && final(cache).records().last().region@ == region@
                && exists|now: u64| final(cache).records() == without_region_of(old(cache).records(), name@).push(
                    CachedDatasetRegion { name: final(cache).records().last().name, region: final(cache).records().last().region, cached_at: now }),
            Err(_) => true,
        },
{
    match fetched {
        Ok(region) => {
            cache.insert(name, region.as_str());
            Ok(region)
        },
        Err(e) => Err(e),
    }
}

/// Adds one dataset's resolved region to `pairs`; an error adds nothing and
/// is handed on, and resolving stops there.
pub fn record_resolved<E>(pairs: &mut Vec<(String, String)>, name: String, resolved: Result<String, E>) -> (r: Result<(), E>)
    ensures
        match resolved {
            Ok(region) => r is Ok && final(pairs)@ == old(pairs)@.push((name, region)),
            Err(e) => r == Err::<(), E>(e) && final(pairs)@ == old(pairs)@,
        },
{
    match resolved {
        Ok(region) => {
            pairs.push((name, region));
            Ok(())
        },
        Err(e) => Err(e),
    }
}

} // verus!
