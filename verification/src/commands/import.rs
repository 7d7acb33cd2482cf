//! `topk import`: the words and numbers around a bulk import.

use vstd::prelude::*;
use crate::text::{decimal, push_decimal, same_text};
use crate::units::{byte_size, byte_size_text};

verus! {

/// How loading one collection went.
pub struct LoadOutcome {
    pub rows: u64,
    pub failed: u64,
    /// Whole seconds the load took.
    pub elapsed_secs: u64,
}

/// How many objects are read at once, at most.
pub const OBJECT_CONCURRENCY: usize = 8;

/// `n` with at least two digits.
pub open spec fn two_digits(n: nat) -> Seq<char> {
    if n < 10 { "0"@ + decimal(n) } else { decimal(n) }
}

/// A duration in seconds as `5s`, `1m05s` or `1h02m03s`.
pub open spec fn human_text(secs: nat) -> Seq<char> {
    let h = secs / 3600;
    let m = secs % 3600 / 60;
    let s = secs % 60;
    if h == 0 && m == 0 {
        decimal(s) + "s"@
    } else if h == 0 {
        decimal(m) + "m"@ + two_digits(s) + "s"@
    } else {
        decimal(h) + "h"@ + two_digits(m) + "m"@ + two_digits(s) + "s"@
    }
}

fn push_two_digits(out: &mut String, n: u64)
    ensures
        final(out)@ == old(out)@ + two_digits(n as nat),
{
    if n < 10 {
        out.append("0");
    }
    push_decimal(out, n);
}

/// A duration in seconds as `5s`, `1m05s` or `1h02m03s`.
pub fn human(secs: u64) -> (r: String)
    ensures
        r@ == human_text(secs as nat),
{
    let h = secs / 3600;
    let m = secs % 3600 / 60;
    let s = secs % 60;
    let mut out = String::new();
    if h == 0 && m == 0 {
        push_decimal(&mut out, s);
        out.append("s");
    } else if h == 0 {
        push_decimal(&mut out, m);
        out.append("m");
        push_two_digits(&mut out, s);
        out.append("s");
    } else {
        push_decimal(&mut out, h);
        out.append("h");
        push_two_digits(&mut out, m);
        out.append("m");
        push_two_digits(&mut out, s);
        out.append("s");
    }
    out
}

/// The report line of one collection.
pub open spec fn report_line_text(name: Seq<char>, o: LoadOutcome) -> Seq<char> {
    if o.failed == 0 {
        name + ": "@ + decimal(o.rows as nat) + " rows written in "@ + human_text(o.elapsed_secs as nat)
    } else {
        name + ": "@ + decimal(o.rows as nat) + " rows written, "@ + decimal(o.failed as nat)
            + " failed in "@ + human_text(o.elapsed_secs as nat)
    }
}

/// The report line of one collection: rows written, failures, time taken.
pub fn report_line(name: &str, o: &LoadOutcome) -> (r: String)
    ensures
        r@ == report_line_text(name@, *o),
{
    let took = human(o.elapsed_secs);
    let mut out = name.to_owned();
    out.append(": ");
    push_decimal(&mut out, o.rows);
    if o.failed == 0 {
        out.append(" rows written in ");
    } else {
        out.append(" rows written, ");
        push_decimal(&mut out, o.failed);
        out.append(" failed in ");
    }
    out.append(took.as_str());
    out
}

/// The closing note of a report.
pub open spec fn indexing_note() -> Seq<char> {
    "# indexing continues after this; a count settles once it catches up"@
}

/// The report: one line per collection, in order, then the indexing note.
pub fn report_lines(outcomes: &Vec<(String, LoadOutcome)>) -> (r: Vec<String>)
    ensures
        r@.len() == outcomes@.len() + 1,
        forall|i: int| 0 <= i < outcomes@.len() ==>
            (#[trigger] r@[i])@ == report_line_text(outcomes@[i].0@, outcomes@[i].1),
        r@[outcomes@.len() as int]@ == indexing_note(),
{
    let mut r: Vec<String> = Vec::new();
    let mut i: usize = 0;
    while i < outcomes.len()
        invariant
            i <= outcomes@.len(),
            r@.len() == i,
            forall|j: int| 0 <= j < i ==>
                (#[trigger] r@[j])@ == report_line_text(outcomes@[j].0@, outcomes@[j].1),
        decreases outcomes.len() - i,
    {
        r.push(report_line(outcomes[i].0.as_str(), &outcomes[i].1));
        i = i + 1;
    }
    r.push("# indexing continues after this; a count settles once it catches up".to_owned());
    r
}

/// Whether every collection loaded without a failure (the run then succeeds).
pub fn all_loaded(outcomes: &Vec<(String, LoadOutcome)>) -> (r: bool)
    ensures
        r == (forall|i: int| 0 <= i < outcomes@.len() ==> (#[trigger] outcomes@[i]).1.failed == 0),
{
    let mut i: usize = 0;
    while i < outcomes.len()
        invariant
            i <= outcomes@.len(),
            forall|j: int| 0 <= j < i ==> (#[trigger] outcomes@[j]).1.failed == 0,
        decreases outcomes.len() - i,
    {
        if outcomes[i].1.failed != 0 {
            return false;
        }
        i = i + 1;
    }
    true
}

/// The question asked before importing.
pub open spec fn confirm_text(collections: nat, region: Seq<char>) -> Seq<char> {
    "Import "@ + decimal(collections) + " collection"@ + (if collections == 1 { Seq::<char>::empty() } else { "s"@ })
        + " into "@ + region + "?"@
}

/// The question asked before importing `collections` collections into `region`.
pub fn confirm_prompt(collections: usize, region: &str) -> (r: String)
    ensures
        r@ == confirm_text(collections as nat, region@),
{
    let mut out = "Import ".to_owned();
    push_decimal(&mut out, collections as u64);
    out.append(" collection");
    if collections != 1 {
        out.append("s");
    }
    out.append(" into ");
    out.append(region);
    out.append("?");
    out
}

/// How many objects to read at once: no more than there are, than the
/// tool allows or than the source allows, and at least one.
pub fn reader_count(scans: usize, source_limit: usize) -> (r: usize)
    ensures
        r >= 1,
        r <= OBJECT_CONCURRENCY,
        (scans >= 1 && source_limit >= 1) ==> (r <= scans && r <= source_limit),
        r == vstd::math::max(1, vstd::math::min(vstd::math::min(scans as int, OBJECT_CONCURRENCY as int), source_limit as int)),
{
    let mut n = scans;
    if OBJECT_CONCURRENCY < n {
        n = OBJECT_CONCURRENCY;
    }
    if source_limit < n {
        n = source_limit;
    }
    if n < 1 {
        n = 1;
    }
    n
}

/// The header printed before a run starts.
pub open spec fn run_header_text(run: Seq<char>, done: nat) -> Seq<char> {
    "# run "@ + run + if done == 0 {
        Seq::<char>::empty()
    } else {
        ", resuming: "@ + decimal(done) + " collection(s) done"@
    }
}

/// The header printed before run `run` starts, `done` collections already imported.
pub fn run_header(run: &str, done: usize) -> (r: String)
    ensures
        r@ == run_header_text(run@, done as nat),
{
    let mut out = "# run ".to_owned();
    out.append(run);
    if done != 0 {
        out.append(", resuming: ");
        push_decimal(&mut out, done as u64);
        out.append(" collection(s) done");
    }
    out
}

/// The line printed when every collection of a resumed run was imported already.
pub fn all_done_line(run: &str, done: usize) -> (r: String)
    ensures
        r@ == "run "@ + run@ + ": all "@ + decimal(done as nat) + " collection(s) already imported"@,
{
    let mut out = "run ".to_owned();
    out.append(run);
    out.append(": all ");
    push_decimal(&mut out, done as u64);
    out.append(" collection(s) already imported");
    out
}

/// How to continue a run that stopped: `--resume` with the run id, after
/// the source when one was named.
pub fn resume_hint(source: Option<&str>, run: &str) -> (r: String)
    ensures
        r@ == "nothing else was imported; to continue: topk import "@ + match source {
            Some(s) => "'"@ + s@ + "' "@,
            None => Seq::<char>::empty(),
        } + "--resume "@ + run@,
{
    let mut out = "nothing else was imported; to continue: topk import ".to_owned();
    match source {
        Some(s) => {
            out.append("'");
            out.append(s);
            out.append("' ");
        },
        None => {},
    }
    out.append("--resume ");
    out.append(run);
    out
}

/// A filter names one object's columns: with a filter, more than one
/// collection is refused.
pub fn check_filter(has_filter: bool, collections: usize) -> (r: Result<(), String>)
    ensures
        r is Ok <==> !(has_filter && collections > 1),
        r matches Err(m) ==> m@ == "--filter applies to a single object, but "@ + decimal(collections as nat)
            + " objects matched — set `filter` per collection in a spec"@,
{
    if has_filter && collections > 1 {
        let mut out = "--filter applies to a single object, but ".to_owned();
        push_decimal(&mut out, collections as u64);
        out.append(" objects matched — set `filter` per collection in a spec");
        Err(out)
    } else {
        Ok(())
    }
}

/// The size estimate of one collection: files, columns read, bytes.
pub fn estimate_line(name: &str, files: usize, columns_read: usize, columns: usize, bytes: u64) -> (r: String)
    ensures
        r@ == "# "@ + name@ + ": "@ + decimal(files as nat) + " file(s), reading "@ + decimal(columns_read as nat)
            + " of "@ + decimal(columns as nat) + " column(s), about "@ + byte_size_text(bytes),
{
    let mut out = "# ".to_owned();
    out.append(name);
    out.append(": ");
    push_decimal(&mut out, files as u64);
    out.append(" file(s), reading ");
    push_decimal(&mut out, columns_read as u64);
    out.append(" of ");
    push_decimal(&mut out, columns as u64);
    out.append(" column(s), about ");
    let size = byte_size(bytes);
    out.append(size.as_str());
    out
}


/// A collection an import is about to write: its name, its id column
/// (a placeholder while none was detected), its row limit, the filter its
/// rows are read with and the partition they go to.
pub struct CollectionPlan {
    pub name: String,
    pub id: Option<String>,
    pub limit: Option<u64>,
    pub filter: Option<String>,
    pub partition: Option<String>,
}

/// `c` with the options given on the command line put over its own.
pub open spec fn overridden(c: CollectionPlan, filter: Option<String>, limit: Option<u64>, partition: Option<String>) -> CollectionPlan {
    CollectionPlan {
        name: c.name,
        id: c.id,
        limit: if limit is Some { limit } else { c.limit },
        filter: if filter is Some { filter } else { c.filter },
        partition: if partition is Some { partition } else { c.partition },
    }
}

/// Puts `--filter`, `--limit` and `--partition`, where given, over every
/// collection's own settings; the rest of each collection stays.
pub fn apply_overrides(collections: &mut Vec<CollectionPlan>, filter: &Option<String>, limit: Option<u64>, partition: &Option<String>)
    ensures
        final(collections)@.len() == old(collections)@.len(),
        forall|i: int| 0 <= i < old(collections)@.len() ==>
            #[trigger] final(collections)@[i] == overridden(old(collections)@[i], *filter, limit, *partition),
{
    let ghost start = collections@;
    let mut i: usize = 0;
    while i < collections.len()
        invariant
            i <= collections@.len(),
            collections@.len() == start.len(),
            forall|j: int| 0 <= j < i ==> #[trigger] collections@[j] == overridden(start[j], *filter, limit, *partition),
            forall|j: int| i <= j < start.len() ==> #[trigger] collections@[j] == start[j],
        decreases collections.len() - i,
    {
        let c = collections.remove(i);
        let next = CollectionPlan {
            name: c.name,
            id: c.id,
            limit: match limit { Some(n) => Some(n), None => c.limit },
            filter: match filter { Some(f) => Some(f.clone()), None => c.filter },
            partition: match partition { Some(p) => Some(p.clone()), None => c.partition },
        };
        collections.insert(i, next);
        i = i + 1;
    }
}

/// Whether collection `c` still carries the placeholder id.
pub open spec fn id_unset(c: CollectionPlan, placeholder: Seq<char>) -> bool {
    c.id matches Some(x) && x@ == placeholder
}

/// The error for a collection whose id column was not detected.
pub open spec fn unset_id_text(name: Seq<char>, id_field: Seq<char>) -> Seq<char> {
    name + ": couldn't detect an id column — pass `--id <column>`, or set `id` in a spec (it becomes each document's `"@
        + id_field + "`)"@
}

/// Refuses to import while a collection's id column is the placeholder,
/// naming the first such collection and the field ids become.
pub fn check_ids(collections: &Vec<CollectionPlan>, placeholder: &str, id_field: &str) -> (r: Result<(), String>)
    ensures
        r is Ok <==> forall|i: int| 0 <= i < collections@.len() ==> !id_unset(#[trigger] collections@[i], placeholder@),
        r matches Err(m) ==> exists|i: int| 0 <= i < collections@.len() && id_unset(#[trigger] collections@[i], placeholder@)
            && (forall|j: int| 0 <= j < i ==> !id_unset(#[trigger] collections@[j], placeholder@))
            && m@ == unset_id_text(collections@[i].name@, id_field@),
{
    let mut i: usize = 0;
    while i < collections.len()
        invariant
            i <= collections@.len(),
            forall|j: int| 0 <= j < i ==> !id_unset(#[trigger] collections@[j], placeholder@),
        decreases collections.len() - i,
    {
        let c = &collections[i];
        let unset = match &c.id {
            Some(x) => same_text(x.as_str(), placeholder),
            None => false,
        };
        if unset {
            let mut m = c.name.clone();
            m.append(": couldn't detect an id column — pass `--id <column>`, or set `id` in a spec (it becomes each document's `");
            m.append(id_field);
            m.append("`)");
            assert(id_unset(collections@[i as int], placeholder@));
            return Err(m);
        }
        i = i + 1;
    }
    Ok(())
}

/// The limit of the collection named `name` (the first with that name), if any.
pub open spec fn limit_of(collections: Seq<CollectionPlan>, name: Seq<char>) -> Option<u64>
    decreases collections.len(),
{
    if collections.len() == 0 {
        None
    } else if collections[0].name@ == name {
        collections[0].limit
    } else {
        limit_of(collections.drop_first(), name)
    }
}

/// The names of `pending` whose collection is not limited to zero rows, in order.
pub open spec fn kept_pending(pending: Seq<String>, collections: Seq<CollectionPlan>) -> Seq<String>
    decreases pending.len(),
{
    if pending.len() == 0 {
        Seq::empty()
    } else {
        let rest = kept_pending(pending.drop_last(), collections);
        if limit_of(collections, pending.last()@) == Some(0u64) { rest } else { rest.push(pending.last()) }
    }
}

fn limit_for(collections: &Vec<CollectionPlan>, name: &str) -> (r: Option<u64>)
    ensures
        r == limit_of(collections@, name@),
{
    let mut i: usize = 0;
    assert(collections@.skip(0) =~= collections@);
    while i < collections.len()
        invariant
            i <= collections@.len(),
            limit_of(collections@, name@) == limit_of(collections@.skip(i as int), name@),
        decreases collections.len() - i,
    {
        assert(collections@.skip(i as int).drop_first() =~= collections@.skip(i + 1));
        if same_text(collections[i].name.as_str(), name) {
            return collections[i].limit;
        }
        i = i + 1;
    }
    None
}

/// The collections still to create: a collection limited to zero rows
/// reads nothing and is not created, so no empty collection is left behind.
pub fn keep_pending(pending: Vec<String>, collections: &Vec<CollectionPlan>) -> (r: Vec<String>)
    ensures
        r@ == kept_pending(pending@, collections@),
{
    let mut r: Vec<String> = Vec::new();
    let mut i: usize = 0;
    while i < pending.len()
        invariant
            i <= pending@.len(),
            r@ == kept_pending(pending@.take(i as int), collections@),
        decreases pending.len() - i,
    {
        assert(pending@.take(i + 1).drop_last() =~= pending@.take(i as int));
        let limit = limit_for(collections, pending[i].as_str());
        let zero = match limit {
            Some(n) => n == 0,
            None => false,
        };
        if !zero {
            r.push(pending[i].clone());
        }
        i = i + 1;
    }
    assert(pending@.take(pending@.len() as int) =~= pending@);
    r
}

/// Whether to ask before importing: not with `--yes`, and not when resuming a run.
pub fn needs_confirmation(yes: bool, resuming: bool) -> (r: bool)
    ensures
        r == (!yes && !resuming),
{
    !yes && !resuming
}

/// Whether a collection's progress is checkpointed: never for a limited
/// collection, whose limit would apply again from the checkpoint; it is
/// imported again from the start.
pub fn checkpoints(limit: Option<u64>) -> (r: bool)
    ensures
        r == (limit is None),
{
    limit.is_none()
}

} // verus!
