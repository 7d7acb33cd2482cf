//! Benchmark queries: the expected neighbours of a query and how many of
//! them a provider found.

use vstd::prelude::*;
use crate::bench::data::{Document, Value};
use crate::text::{chars_of, decimal, decimal_string, digit_of, same_text};

verus! {

/// Whether `c` is a decimal digit.
pub open spec fn is_digit(c: char) -> bool {
    48 <= (c as u32) && (c as u32) <= 57
}

/// The value of the decimal digits `s`.
pub open spec fn digits_value(s: Seq<char>) -> nat
    decreases s.len(),
{
    if s.len() == 0 {
        0
    } else {
        digits_value(s.drop_last()) * 10 + ((s.last() as u32) - 48) as nat
    }
}

/// `s` without a leading `+`.
pub open spec fn unsigned_part(s: Seq<char>) -> Seq<char> {
    if s.len() > 0 && s[0] == '+' { s.drop_first() } else { s }
}

/// What std's `u64::from_str` makes of `s`: an optional `+`, then one or
/// more decimal digits whose value fits in 64 bits.
pub open spec fn parsed_u64(s: Seq<char>) -> Option<u64> {
    let d = unsigned_part(s);
    if d.len() > 0 && (forall|i: int| 0 <= i < d.len() ==> is_digit(#[trigger] d[i])) && digits_value(d) <= u64::MAX {
        Some(digits_value(d) as u64)
    } else {
        None
    }
}

/// What std's `u32::from_str` makes of `s`.
pub open spec fn parsed_u32(s: Seq<char>) -> Option<u32> {
    match parsed_u64(s) {
        Some(v) => if v <= u32::MAX { Some(v as u32) } else { None },
        None => None,
    }
}

proof fn lemma_digits_prefix(s: Seq<char>, j: int)
    requires
        0 <= j <= s.len(),
        forall|i: int| 0 <= i < s.len() ==> is_digit(#[trigger] s[i]),
    ensures
        digits_value(s) >= digits_value(s.take(j)),
    decreases s.len(),
{
    if j < s.len() {
        assert(s.drop_last().take(j) =~= s.take(j));
        lemma_digits_prefix(s.drop_last(), j);
    } else {
        assert(s.take(j) =~= s);
    }
}

proof fn lemma_digit_value(d: nat)
    requires
        d < 10,
    ensures
        is_digit(digit_of(d)),
        (digit_of(d) as u32) - 48 == d,
{
}

proof fn lemma_decimal_digits(n: nat)
    ensures
        decimal(n).len() > 0,
        forall|i: int| 0 <= i < decimal(n).len() ==> is_digit(#[trigger] decimal(n)[i]),
        digits_value(decimal(n)) == n,
    decreases n,
{
    lemma_digit_value(n % 10);
    if n >= 10 {
        lemma_decimal_digits(n / 10);
        let s = decimal(n);
        assert(s.drop_last() =~= decimal(n / 10));
        assert(s.last() == digit_of(n % 10));
        assert(digits_value(s) == digits_value(s.drop_last()) * 10 + ((s.last() as u32) - 48) as nat);
        assert(n == (n / 10) * 10 + n % 10);
    } else {
        let s = decimal(n);
        assert(s.drop_last() =~= Seq::<char>::empty());
        lemma_digit_value(n);
        assert(digits_value(s.drop_last()) == 0);
        assert(s.last() == digit_of(n));
    }
}

/// Reading back a number written in decimal gives the number: the id the
/// freshness check writes is the id it looks for.
pub proof fn law_parse_decimal(n: u64)
    ensures
        parsed_u64(decimal(n as nat)) == Some(n),
{
    lemma_decimal_digits(n as nat);
    let s = decimal(n as nat);
    assert(is_digit(s[0]));
    assert(unsigned_part(s) == s);
}

/// Parses an unsigned decimal number the way std's `u64::from_str` does.
pub fn parse_u64(s: &str) -> (r: Option<u64>)
    ensures
        r == parsed_u64(s@),
{
    let cs = chars_of(s);
    let ghost d = unsigned_part(s@);
    let start: usize = if cs.len() > 0 && cs[0] == '+' { 1 } else { 0 };
    assert(d =~= cs@.skip(start as int));
    if cs.len() == start {
        return None;
    }
    let mut value: u64 = 0;
    let mut i: usize = start;
    while i < cs.len()
        invariant
            start <= i <= cs@.len(),
            cs@ == s@,
            d == cs@.skip(start as int),
            d == unsigned_part(s@),
            d.len() > 0,
            forall|k: int| 0 <= k < i - start ==> is_digit(#[trigger] d[k]),
            value == digits_value(d.take(i - start)),
        decreases cs.len() - i,
    {
        let c = cs[i];
        assert(c == d[i - start]);
        let code = c as u32;
        if !(48 <= code && code <= 57) {
            assert(!is_digit(d[i - start]));
            return None;
        }
        let digit = (code - 48) as u64;
        assert(d.take(i + 1 - start).drop_last() =~= d.take(i - start));
        if value > (u64::MAX - digit) / 10 {
            proof {
                assert(value * 10 + digit > u64::MAX) by (nonlinear_arith)
                    requires
                        value > (u64::MAX - digit) / 10,
                        digit <= 9;
                assert(d.take(i + 1 - start).last() == c);
                assert(digits_value(d.take(i + 1 - start)) == value * 10 + digit);
                if forall|k: int| 0 <= k < d.len() ==> is_digit(#[trigger] d[k]) {
                    lemma_digits_prefix(d, i + 1 - start);
                }
            }
            return None;
        }
        value = value * 10 + digit;
        i = i + 1;
    }
    assert(d.take(i - start) =~= d);
    Some(value)
}

/// Parses an unsigned decimal number the way std's `u32::from_str` does.
pub fn parse_u32(s: &str) -> (r: Option<u32>)
    ensures
        r == parsed_u32(s@),
{
    match parse_u64(s) {
        Some(v) => if v <= u32::MAX as u64 { Some(v as u32) } else { None },
        None => None,
    }
}

/// The text of field `key` of a document, when it is text.
pub open spec fn text_field(m: Map<Seq<char>, Value>, key: Seq<char>) -> Option<Seq<char>> {
    if m.dom().contains(key) {
        match m[key] {
            Value::Text(t) => Some(t@),
            _ => None,
        }
    } else {
        None
    }
}

/// The number a returned document is known by: its `_id`, else its `id`,
/// read as a 32-bit unsigned decimal.
pub open spec fn result_id(m: Map<Seq<char>, Value>) -> Option<u32> {
    let field = if m.dom().contains("_id"@) { text_field(m, "_id"@) } else { text_field(m, "id"@) };
    match field {
        Some(t) => parsed_u32(t),
        None => None,
    }
}

/// The number a returned document is known by: its `_id`, else its `id`.
pub fn document_number(doc: &Document) -> (r: Option<u32>)
    requires
        doc.well_formed(),
    ensures
        r == result_id(doc.view()),
{
    let field = match doc.get("_id") {
        Some(v) => Some(v),
        None => doc.get("id"),
    };
    match field {
        Some(Value::Text(t)) => parse_u32(t.as_str()),
        _ => None,
    }
}

/// The numbers of the documents a provider returned, in order.
pub fn result_numbers(docs: &Vec<Document>) -> (r: Vec<u32>)
    requires
        forall|i: int| 0 <= i < docs@.len() ==> (#[trigger] docs@[i]).well_formed() && result_id(docs@[i].view()) is Some,
    ensures
        r@.len() == docs@.len(),
        forall|i: int| 0 <= i < docs@.len() ==> result_id(docs@[i].view()) == Some(#[trigger] r@[i]),
{
    let mut r: Vec<u32> = Vec::new();
    let mut i: usize = 0;
    while i < docs.len()
        invariant
            i <= docs@.len(),
            r@.len() == i,
            forall|j: int| 0 <= j < docs@.len() ==> (#[trigger] docs@[j]).well_formed() && result_id(docs@[j].view()) is Some,
            forall|j: int| 0 <= j < i ==> result_id(docs@[j].view()) == Some(#[trigger] r@[j]),
        decreases docs.len() - i,
    {
        let n = document_number(&docs[i]).unwrap();
        r.push(n);
        i = i + 1;
    }
    r
}

/// The id of a document written by the benchmark, read as a 64-bit number.
pub open spec fn written_id(m: Map<Seq<char>, Value>) -> Option<u64> {
    match text_field(m, "id"@) {
        Some(t) => parsed_u64(t),
        None => None,
    }
}

/// The largest written id of a batch, as text: the document the freshness
/// check waits for.
pub fn max_id(docs: &Vec<Document>) -> (r: String)
    requires
        docs@.len() > 0,
        forall|i: int| 0 <= i < docs@.len() ==> (#[trigger] docs@[i]).well_formed() && written_id(docs@[i].view()) is Some,
    ensures
        exists|i: int| 0 <= i < docs@.len() && r@ == decimal(written_id(#[trigger] docs@[i].view())->0 as nat)
            && forall|j: int| 0 <= j < docs@.len() ==> written_id(#[trigger] docs@[j].view())->0 <= written_id(docs@[i].view())->0,
{
    let mut best: u64 = 0;
    let mut best_at: usize = 0;
    let mut i: usize = 0;
    while i < docs.len()
        invariant
            docs@.len() > 0,
            i <= docs@.len(),
            best_at < docs@.len(),
            forall|j: int| 0 <= j < docs@.len() ==> (#[trigger] docs@[j]).well_formed() && written_id(docs@[j].view()) is Some,
            i > 0 ==> best == written_id(docs@[best_at as int].view())->0,
            forall|j: int| 0 <= j < i ==> written_id(#[trigger] docs@[j].view())->0 <= best,
        decreases docs.len() - i,
    {
        let n = match docs[i].get("id") {
            Some(Value::Text(t)) => parse_u64(t.as_str()).unwrap(),
            _ => 0,
        };
        assert(n == written_id(docs@[i as int].view())->0);
        if i == 0 || n > best {
            best = n;
            best_at = i;
        }
        i = i + 1;
    }
    decimal_string(best)
}

/// A document's `id` field moved to `_id`, the name the service expects.
pub fn with_service_id(doc: Document) -> (r: Document)
    requires
        doc.well_formed(),
    ensures
        r.well_formed(),
        doc.view().dom().contains("id"@) ==> r.view() == doc.view().remove("id"@).insert("_id"@, doc.view()["id"@]),
        !doc.view().dom().contains("id"@) ==> r.view() == doc.view(),
{
    let mut doc = doc;
    match doc.remove("id") {
        Some(v) => {
            doc.insert("_id".to_owned(), v);
        },
        None => {},
    }
    doc
}

/// The document found for an id: none, or the only one; more than one is an error.
pub fn at_most_one(docs: Vec<Document>, id: &str) -> (r: Result<Option<Document>, String>)
    ensures
        docs@.len() == 0 ==> r == Ok::<Option<Document>, String>(None),
        docs@.len() == 1 ==> r == Ok::<Option<Document>, String>(Some(docs@[0])),
        docs@.len() > 1 ==> (r matches Err(m) && m@ == "multiple documents found for id: "@ + id@),
{
    let mut docs = docs;
    if docs.len() == 0 {
        Ok(None)
    } else if docs.len() == 1 {
        Ok(docs.pop())
    } else {
        let mut m = "multiple documents found for id: ".to_owned();
        m.append(id);
        Err(m)
    }
}

/// The expected neighbours of a query, by integer filter and keyword filter.
pub struct PqQuery {
    pub text: String,
    pub recall_dense_100: Vec<(u32, Vec<(String, Vec<i64>)>)>,
}

/// The neighbour list recorded for `int_filter` (the first entry for it).
pub open spec fn by_int(m: Seq<(u32, Vec<(String, Vec<i64>)>)>, int_filter: u32) -> Option<Seq<(String, Vec<i64>)>>
    decreases m.len(),
{
    if m.len() == 0 {
        None
    } else if m[0].0 == int_filter {
        Some(m[0].1@)
    } else {
        by_int(m.drop_first(), int_filter)
    }
}

/// The ids recorded for `keyword_filter` (the first entry for it).
pub open spec fn by_keyword(m: Seq<(String, Vec<i64>)>, keyword_filter: Seq<char>) -> Option<Seq<i64>>
    decreases m.len(),
{
    if m.len() == 0 {
        None
    } else if m[0].0@ == keyword_filter {
        Some(m[0].1@)
    } else {
        by_keyword(m.drop_first(), keyword_filter)
    }
}

/// The keyword filter used when none is given.
pub open spec fn default_keyword() -> Seq<char> {
    "10000"@
}

/// The recorded ids for the filters, the unfiltered ones (10000) when none is given.
pub open spec fn recorded_ids(q: PqQuery, int_filter: Option<u32>, keyword_filter: Option<Seq<char>>) -> Option<Seq<i64>> {
    let i = match int_filter { Some(v) => v, None => 10000u32 };
    let k = match keyword_filter { Some(v) => v, None => default_keyword() };
    match by_int(q.recall_dense_100@, i) {
        Some(m) => by_keyword(m, k),
        None => None,
    }
}

/// The positive ids of `ids`, in order, as 32-bit numbers.
pub open spec fn positive_ids(ids: Seq<i64>) -> Seq<u32>
    decreases ids.len(),
{
    if ids.len() == 0 {
        Seq::empty()
    } else if ids.last() > 0 {
        positive_ids(ids.drop_last()).push(ids.last() as u32)
    } else {
        positive_ids(ids.drop_last())
    }
}

impl PqQuery {
    /// The expected neighbours for the filters: the positive recorded ids,
    /// in order. The filters default to the unfiltered lists.
    pub fn recall(&self, top_k: u32, int_filter: Option<u32>, keyword_filter: Option<&str>) -> (r: Vec<u32>)
        requires
            top_k <= 100,
            recorded_ids(*self, int_filter, match keyword_filter { Some(k) => Some(k@), None => None }) is Some,
        ensures
            r@ == positive_ids(recorded_ids(*self, int_filter, match keyword_filter { Some(k) => Some(k@), None => None })->0),
    {
        let i_key: u32 = match int_filter { Some(v) => v, None => 10000 };
        let m = &self.recall_dense_100;
        let mut a: usize = 0;
        assert(m@.skip(0) =~= m@);
        while a < m.len() && m[a].0 != i_key
            invariant
                a <= m@.len(),
                by_int(m@, i_key) == by_int(m@.skip(a as int), i_key),
            decreases m.len() - a,
        {
            assert(m@.skip(a as int).drop_first() =~= m@.skip(a + 1));
            a = a + 1;
        }
        proof {
            if a == m@.len() {
                assert(m@.skip(a as int).len() == 0);
            }
        }
        let inner = &m[a].1;
        let mut b: usize = 0;
        assert(inner@.skip(0) =~= inner@);
        let key_default = "10000";
        let k_key: &str = match keyword_filter { Some(k) => k, None => key_default };
        assert(k_key@ == match keyword_filter { Some(k) => k@, None => default_keyword() });
        while b < inner.len() && !same_text(inner[b].0.as_str(), k_key)
            invariant
                b <= inner@.len(),
                by_keyword(inner@, k_key@) == by_keyword(inner@.skip(b as int), k_key@),
            decreases inner.len() - b,
        {
            assert(inner@.skip(b as int).drop_first() =~= inner@.skip(b + 1));
            b = b + 1;
        }
        proof {
            if b == inner@.len() {
                assert(inner@.skip(b as int).len() == 0);
            }
        }
        let ids = &inner[b].1;
        let mut out: Vec<u32> = Vec::new();
        let mut j: usize = 0;
        while j < ids.len()
            invariant
                j <= ids@.len(),
                out@ == positive_ids(ids@.take(j as int)),
            decreases ids.len() - j,
        {
            assert(ids@.take(j + 1).drop_last() =~= ids@.take(j as int));
            if ids[j] > 0 {
                out.push(ids[j] as u32);
            }
            j = j + 1;
        }
        assert(ids@.take(ids@.len() as int) =~= ids@);
        out
    }
}

/// Whether `x` is among `v`.
fn holds(v: &Vec<u32>, x: u32) -> (r: bool)
    ensures
        r == v@.contains(x),
{
    let mut i: usize = 0;
    while i < v.len()
        invariant
            i <= v@.len(),
            forall|j: int| 0 <= j < i ==> v@[j] != x,
        decreases v.len() - i,
    {
        if v[i] == x {
            return true;
        }
        i = i + 1;
    }
    false
}

/// The expected ids among the first `top_k`, without repeats.
pub open spec fn expected_set(expected: Seq<u32>, top_k: u32) -> Set<u32> {
    expected.take(if top_k as int <= expected.len() { top_k as int } else { expected.len() as int }).to_set()
}

/// How a query's results compare with its expected neighbours: how many
/// distinct expected ids (among the first `top_k`) were returned, and how
/// many distinct expected ids there are. Recall is the first over the second.
pub fn recall_counts(returned: &Vec<u32>, expected: &Vec<u32>, top_k: u32) -> (r: (usize, usize))
    ensures
        r.0 == expected_set(expected@, top_k).intersect(returned@.to_set()).len(),
        r.1 == expected_set(expected@, top_k).len(),
        r.0 <= r.1,
{
    let limit: usize = if (top_k as usize) <= expected.len() { top_k as usize } else { expected.len() };
    let ghost want = expected@.take(limit as int);
    let mut distinct: Vec<u32> = Vec::new();
    let mut i: usize = 0;
    while i < limit
        invariant
            limit <= expected@.len(),
            want == expected@.take(limit as int),
            i <= limit,
            distinct@.no_duplicates(),
            distinct@.to_set() =~= expected@.take(i as int).to_set(),
        decreases limit - i,
    {
        let x = expected[i];
        assert(expected@.take(i + 1) =~= expected@.take(i as int).push(x));
        proof {
            expected@.take(i as int).lemma_push_to_set_commute(x);
        }
        if !holds(&distinct, x) {
            proof {
                distinct@.lemma_push_to_set_commute(x);
            }
            distinct.push(x);
        } else {
            assert(distinct@.to_set().contains(x));
            assert(distinct@.to_set().insert(x) =~= distinct@.to_set());
        }
        i = i + 1;
    }
    let ghost returned_set = returned@.to_set();
    let mut hits: usize = 0;
    let ghost mut hit_seq: Seq<u32> = Seq::empty();
    let mut j: usize = 0;
    while j < distinct.len()
        invariant
            j <= distinct@.len(),
            distinct@.no_duplicates(),
            returned_set == returned@.to_set(),
            hits == hit_seq.len(),
            hits <= j,
            hit_seq.no_duplicates(),
            hit_seq.to_set() =~= distinct@.take(j as int).to_set().intersect(returned_set),
            forall|a: int| 0 <= a < hit_seq.len() ==> distinct@.take(j as int).contains(#[trigger] hit_seq[a]),
        decreases distinct.len() - j,
    {
        let x = distinct[j];
        assert(distinct@.take(j + 1) =~= distinct@.take(j as int).push(x));
        proof {
            distinct@.take(j as int).lemma_push_to_set_commute(x);
        }
        assert(!distinct@.take(j as int).contains(x)) by {
            if distinct@.take(j as int).contains(x) {
                let a = choose|a: int| 0 <= a < j && distinct@.take(j as int)[a] == x;
                assert(distinct@[a] == distinct@[j as int]);
            }
        }
        if holds(returned, x) {
            assert(returned_set.contains(x));
            proof {
                hit_seq.lemma_push_to_set_commute(x);
                assert forall|a: int| 0 <= a < hit_seq.len() implies distinct@.take(j + 1).contains(#[trigger] hit_seq[a]) by {
                    let w = choose|w: int| 0 <= w < j && distinct@.take(j as int)[w] == hit_seq[a];
                    assert(distinct@.take(j + 1)[w] == hit_seq[a]);
                }
                hit_seq = hit_seq.push(x);
                assert(distinct@.take(j + 1)[j as int] == x);
            }
            hits = hits + 1;
        } else {
            assert forall|a: int| 0 <= a < hit_seq.len() implies distinct@.take(j + 1).contains(#[trigger] hit_seq[a]) by {
                let w = choose|w: int| 0 <= w < j && distinct@.take(j as int)[w] == hit_seq[a];
                assert(distinct@.take(j + 1)[w] == hit_seq[a]);
            }
        }
        j = j + 1;
    }
    assert(distinct@.take(distinct@.len() as int) =~= distinct@);
    proof {
        distinct@.unique_seq_to_set();
        hit_seq.unique_seq_to_set();
        vstd::seq_lib::seq_to_set_is_finite(want);
        vstd::set_lib::lemma_len_subset(want.to_set().intersect(returned_set), want.to_set());
    }
    (hits, distinct.len())
}

} // verus!
