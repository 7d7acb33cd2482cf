//! The local index of datasets and the regions they live in.

use vstd::prelude::*;
use crate::text::same_text;

verus! {

/// A dataset and the region it lives in.
pub struct DatasetEntry {
    pub name: String,
    pub region: String,
}

impl Clone for DatasetEntry {
    fn clone(&self) -> (r: Self)
        ensures
            r == *self,
    {
        DatasetEntry { name: self.name.clone(), region: self.region.clone() }
    }
}

/// The first entry of `s` named `name`, if any.
pub open spec fn first_named(s: Seq<DatasetEntry>, name: Seq<char>) -> Option<DatasetEntry>
    decreases s.len(),
{
    if s.len() == 0 {
        None
    } else {
        let earlier = first_named(s.drop_last(), name);
        if earlier is Some {
            earlier
        } else if s.last().name@ == name {
            Some(s.last())
        } else {
            None
        }
    }
}

/// The entry a lookup handed out, by value.
pub open spec fn found(r: Option<&DatasetEntry>) -> Option<DatasetEntry> {
    match r {
        Some(e) => Some(*e),
        None => None,
    }
}

/// `s` with every entry named `name` removed, the rest in order.
pub open spec fn without_name(s: Seq<DatasetEntry>, name: Seq<char>) -> Seq<DatasetEntry>
    decreases s.len(),
{
    if s.len() == 0 {
        s
    } else {
        let rest = without_name(s.drop_last(), name);
        if s.last().name@ == name {
            rest
        } else {
            rest.push(s.last())
        }
    }
}

/// A match in a prefix is the match of the whole sequence.
pub proof fn lemma_first_named_prefix(s: Seq<DatasetEntry>, k: int, name: Seq<char>)
    requires
        0 <= k <= s.len(),
        first_named(s.take(k), name) is Some,
    ensures
        first_named(s, name) == first_named(s.take(k), name),
    decreases s.len(),
{
    if k == s.len() {
        assert(s.take(k) =~= s);
    } else {
        assert(s.drop_last().take(k) =~= s.take(k));
        lemma_first_named_prefix(s.drop_last(), k, name);
    }
}

/// A lookup finds nothing exactly when no entry has the name, and what it
/// finds has the name.
pub proof fn law_lookup_finds_by_name(s: Seq<DatasetEntry>, name: Seq<char>)
    ensures
        first_named(s, name) is None <==> forall|i: int| 0 <= i < s.len() ==> s[i].name@ != name,
        first_named(s, name) matches Some(e) ==> e.name@ == name,
    decreases s.len(),
{
    if s.len() > 0 {
        law_lookup_finds_by_name(s.drop_last(), name);
        if first_named(s.drop_last(), name) is None && s.last().name@ != name {
            assert forall|i: int| 0 <= i < s.len() implies s[i].name@ != name by {
                if i < s.len() - 1 {
                    assert(s[i] == s.drop_last()[i]);
                }
            }
        }
        if first_named(s.drop_last(), name) is Some {
            let j = choose|j: int| 0 <= j < s.drop_last().len() && s.drop_last()[j].name@ == name;
            assert(s[j] == s.drop_last()[j]);
        }
    }
}

/// Dropping one name leaves the searches for every other name unchanged,
/// and finds nothing for that name.
pub proof fn lemma_without_name(s: Seq<DatasetEntry>, name: Seq<char>, other: Seq<char>)
    ensures
        first_named(without_name(s, name), name) is None,
        other != name ==> first_named(without_name(s, name), other) == first_named(s, other),
    decreases s.len(),
{
    if s.len() > 0 {
        lemma_without_name(s.drop_last(), name, other);
        let rest = without_name(s.drop_last(), name);
        if s.last().name@ != name {
            assert(rest.push(s.last()).drop_last() =~= rest);
        }
    }
}

/// The index of datasets known locally, in the order they were recorded.
pub struct DatasetIndex {
    datasets: Vec<DatasetEntry>,
}

impl DatasetIndex {
    /// The recorded entries, in order.
    pub closed spec fn entries(&self) -> Seq<DatasetEntry> {
        self.datasets@
    }

    /// An empty index.
    pub fn new() -> (r: Self)
        ensures
            r.entries() == Seq::<DatasetEntry>::empty(),
    {
        DatasetIndex { datasets: Vec::new() }
    }

    /// The recorded entries, in order.
    pub fn datasets(&self) -> (r: &Vec<DatasetEntry>)
        ensures
            r@ == self.entries(),
    {
        &self.datasets
    }

    /// The first entry recorded under `name`.
    pub fn lookup(&self, name: &str) -> (r: Option<&DatasetEntry>)
        ensures
            found(r) == first_named(self.entries(), name@),
    {
        let n = self.datasets.len();
        let mut i: usize = 0;
        while i < n
            invariant
                n == self.datasets@.len(),
                i <= n,
                first_named(self.datasets@.take(i as int), name@) is None,
            decreases n - i,
        {
            let ghost t = self.datasets@.take(i + 1);
            assert(t.drop_last() =~= self.datasets@.take(i as int));
            if same_text(self.datasets[i].name.as_str(), name) {
                proof {
                    lemma_first_named_prefix(self.datasets@, i + 1, name@);
                }
                return Some(&self.datasets[i]);
            }
            i = i + 1;
        }
        assert(self.datasets@.take(n as int) =~= self.datasets@);
        None
    }

    /// Replaces every entry with `datasets`, in their order.
    pub fn set_all(&mut self, datasets: Vec<DatasetEntry>)
        ensures
            final(self).entries() == datasets@,
    {
        self.datasets = datasets;
    }

    /// Records `entry`, replacing any entry with the same name.
    pub fn insert(&mut self, entry: DatasetEntry)
        ensures
            final(self).entries() == without_name(old(self).entries(), entry.name@).push(entry),
    {
        self.remove(entry.name.as_str());
        self.datasets.push(entry);
    }

    /// Forgets every entry named `name`.
    pub fn remove(&mut self, name: &str)
        ensures
            final(self).entries() == without_name(old(self).entries(), name@),
    {
        let old_entries = self.datasets.clone();
        let n = old_entries.len();
        let mut kept: Vec<DatasetEntry> = Vec::new();
        let mut i: usize = 0;
        while i < n
            invariant
                n == old_entries@.len(),
                old_entries@ == old(self).datasets@,
                i <= n,
                kept@ == without_name(old_entries@.take(i as int), name@),
            decreases n - i,
        {
            let ghost t = old_entries@.take(i + 1);
            assert(t.drop_last() =~= old_entries@.take(i as int));
            if !same_text(old_entries[i].name.as_str(), name) {
                kept.push(old_entries[i].clone());
            }
            i = i + 1;
        }
        assert(old_entries@.take(n as int) =~= old_entries@);
        self.datasets = kept;
    }
}

/// The dataset index together with where it is kept on disk.
pub struct Cache {
    path: Option<String>,
    index: DatasetIndex,
}

impl Cache {
    /// The entries the cache holds.
    pub closed spec fn entries(&self) -> Seq<DatasetEntry> {
        self.index.entries()
    }

    /// The file the cache is kept in, if any.
    pub closed spec fn location(&self) -> Option<String> {
        self.path
    }

    /// A cache kept at `path` holding the entries read from it.
    pub fn new(path: Option<String>, datasets: Vec<DatasetEntry>) -> (r: Self)
        ensures
            r.entries() == datasets@,
            r.location() == path,
    {
        let mut index = DatasetIndex::new();
        index.set_all(datasets);
        Cache { path, index }
    }

    /// The file to write and the entries to write to it.
    pub fn save(&self) -> (r: (&Option<String>, &Vec<DatasetEntry>))
        ensures
            *r.0 == self.location(),
            r.1@ == self.entries(),
    {
        (&self.path, self.index.datasets())
    }

    /// The first entry recorded under `name`.
    pub fn lookup(&self, name: &str) -> (r: Option<&DatasetEntry>)
        ensures
            found(r) == first_named(self.entries(), name@),
    {
        self.index.lookup(name)
    }

    /// Replaces every entry with `datasets`.
    pub fn set_all(&mut self, datasets: Vec<DatasetEntry>)
        ensures
            final(self).entries() == datasets@,
            final(self).location() == old(self).location(),
    {
        self.index.set_all(datasets);
    }

    /// Records `entry`, replacing any entry with the same name.
    pub fn insert(&mut self, entry: DatasetEntry)
        ensures
            final(self).entries() == without_name(old(self).entries(), entry.name@).push(entry),
            final(self).location() == old(self).location(),
    {
        self.index.insert(entry);
    }

    /// Forgets every entry named `name`.
    pub fn remove(&mut self, name: &str)
        ensures
            final(self).entries() == without_name(old(self).entries(), name@),
            final(self).location() == old(self).location(),
    {
        self.index.remove(name);
    }
}

/// After recording an entry, looking up its name finds exactly it.
pub proof fn law_insert_then_lookup(entries: Seq<DatasetEntry>, entry: DatasetEntry)
    ensures
        first_named(without_name(entries, entry.name@).push(entry), entry.name@) == Some(entry),
{
    let s = without_name(entries, entry.name@).push(entry);
    lemma_without_name(entries, entry.name@, entry.name@);
    assert(s.drop_last() =~= without_name(entries, entry.name@));
}

/// Recording an entry leaves every other name's lookup as it was.
pub proof fn law_insert_keeps_others(entries: Seq<DatasetEntry>, entry: DatasetEntry, other: Seq<char>)
    requires
        other != entry.name@,
    ensures
        first_named(without_name(entries, entry.name@).push(entry), other) == first_named(entries, other),
{
    let s = without_name(entries, entry.name@).push(entry);
    lemma_without_name(entries, entry.name@, other);
    assert(s.drop_last() =~= without_name(entries, entry.name@));
}

/// After removing a name, nothing is found under it, and other names are
/// found as before.
pub proof fn law_remove(entries: Seq<DatasetEntry>, name: Seq<char>, other: Seq<char>)
    ensures
        first_named(without_name(entries, name), name) is None,
        other != name ==> first_named(without_name(entries, name), other) == first_named(entries, other),
{
    lemma_without_name(entries, name, other);
}

} // verus!
