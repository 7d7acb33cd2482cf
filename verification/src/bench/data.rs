//! Benchmark documents: named fields with values, and the rows of the
//! benchmark data set turned into documents.

use vstd::prelude::*;
use crate::text::same_text;

verus! {

/// A field value of a benchmark document.
pub enum Value {
    /// A text value.
    Text(String),
    /// An unsigned 32-bit value.
    U32(u32),
    /// A vector of 32-bit floats, each held by its IEEE 754 bit pattern.
    F32Bits(Vec<u32>),
}

/// A benchmark document: its fields, each name at most once.
pub struct Document {
    fields: Vec<(String, Value)>,
}

/// The fields of `s` as a map from name to value; a later field wins over
/// an earlier one of the same name.
pub open spec fn fields_map(s: Seq<(String, Value)>) -> Map<Seq<char>, Value>
    decreases s.len(),
{
    if s.len() == 0 {
        Map::empty()
    } else {
        fields_map(s.drop_last()).insert(s.last().0@, s.last().1)
    }
}

/// No two fields of `s` have the same name.
pub open spec fn names_unique(s: Seq<(String, Value)>) -> bool {
    forall|i: int, j: int| 0 <= i < j < s.len() ==> (#[trigger] s[i]).0@ != (#[trigger] s[j]).0@
}

proof fn lemma_absent(s: Seq<(String, Value)>, k: Seq<char>)
    requires
        forall|i: int| 0 <= i < s.len() ==> (#[trigger] s[i]).0@ != k,
    ensures
        !fields_map(s).dom().contains(k),
    decreases s.len(),
{
    if s.len() > 0 {
        lemma_absent(s.drop_last(), k);
    }
}

proof fn lemma_at(s: Seq<(String, Value)>, i: int)
    requires
        names_unique(s),
        0 <= i < s.len(),
    ensures
        fields_map(s).dom().contains(s[i].0@),
        fields_map(s)[s[i].0@] == s[i].1,
    decreases s.len(),
{
    if i < s.len() - 1 {
        let rest = s.drop_last();
        assert(rest[i] == s[i]);
        assert(s[i].0@ != s[s.len() - 1].0@);
        lemma_at(rest, i);
    }
}

proof fn lemma_remove_at(s: Seq<(String, Value)>, i: int)
    requires
        names_unique(s),
        0 <= i < s.len(),
    ensures
        fields_map(s.remove(i)) =~= fields_map(s).remove(s[i].0@),
        names_unique(s.remove(i)),
        forall|j: int| 0 <= j < s.remove(i).len() ==> (#[trigger] s.remove(i)[j]).0@ != s[i].0@,
    decreases s.len(),
{
    let k = s[i].0@;
    let r = s.remove(i);
    assert forall|j: int| 0 <= j < r.len() implies (#[trigger] r[j]).0@ != k by {
        if j < i {
            assert(r[j] == s[j]);
        } else {
            assert(r[j] == s[j + 1]);
        }
    }
    assert forall|a: int, b: int| 0 <= a < b < r.len() implies (#[trigger] r[a]).0@ != (#[trigger] r[b]).0@ by {
        let a2 = if a < i { a } else { a + 1 };
        let b2 = if b < i { b } else { b + 1 };
        assert(r[a] == s[a2]);
        assert(r[b] == s[b2]);
    }
    if i == s.len() - 1 {
        assert(r =~= s.drop_last());
        assert forall|j: int| 0 <= j < s.drop_last().len() implies (#[trigger] s.drop_last()[j]).0@ != k by {
            assert(s.drop_last()[j] == s[j]);
        }
        lemma_absent(s.drop_last(), k);
        assert(fields_map(s) == fields_map(s.drop_last()).insert(k, s.last().1));
        assert(fields_map(s.drop_last()).insert(k, s.last().1).remove(k) =~= fields_map(s.drop_last()));
    } else {
        let front = s.drop_last();
        assert(names_unique(front)) by {
            assert forall|a: int, b: int| 0 <= a < b < front.len() implies (#[trigger] front[a]).0@ != (#[trigger] front[b]).0@ by {
                assert(front[a] == s[a]);
                assert(front[b] == s[b]);
            }
        }
        assert(front[i] == s[i]);
        lemma_remove_at(front, i);
        assert(r.drop_last() =~= front.remove(i));
        assert(r.last() == s.last());
        assert(s.last().0@ != k);
        assert(fields_map(r) == fields_map(front.remove(i)).insert(s.last().0@, s.last().1));
        assert(fields_map(s) == fields_map(front).insert(s.last().0@, s.last().1));
        assert(fields_map(front).remove(k).insert(s.last().0@, s.last().1)
            =~= fields_map(front).insert(s.last().0@, s.last().1).remove(k));
    }
}

proof fn lemma_push_unique(s: Seq<(String, Value)>, p: (String, Value))
    requires
        names_unique(s),
        forall|j: int| 0 <= j < s.len() ==> (#[trigger] s[j]).0@ != p.0@,
    ensures
        names_unique(s.push(p)),
        fields_map(s.push(p)) == fields_map(s).insert(p.0@, p.1),
{
    let t = s.push(p);
    assert(t.drop_last() =~= s);
    assert forall|a: int, b: int| 0 <= a < b < t.len() implies (#[trigger] t[a]).0@ != (#[trigger] t[b]).0@ by {
        assert(t[a] == s[a]);
        if b < s.len() {
            assert(t[b] == s[b]);
        }
    }
}

impl Document {
    /// The fields, by name.
    pub closed spec fn view(&self) -> Map<Seq<char>, Value> {
        fields_map(self.fields@)
    }

    /// Each name is held once.
    pub closed spec fn well_formed(&self) -> bool {
        names_unique(self.fields@)
    }

    /// The position of the field `key`, if there is one.
    fn position(&self, key: &str) -> (r: Option<usize>)
        ensures
            r matches Some(i) ==> i < self.fields@.len() && self.fields@[i as int].0@ == key@,
            r is None ==> forall|j: int| 0 <= j < self.fields@.len() ==> (#[trigger] self.fields@[j]).0@ != key@,
    {
        let mut i: usize = 0;
        while i < self.fields.len()
            invariant
                i <= self.fields@.len(),
                forall|j: int| 0 <= j < i ==> (#[trigger] self.fields@[j]).0@ != key@,
            decreases self.fields.len() - i,
        {
            if same_text(self.fields[i].0.as_str(), key) {
                return Some(i);
            }
            i = i + 1;
        }
        None
    }

    /// A document with no fields.
    pub fn empty() -> (r: Document)
        ensures
            r.well_formed(),
            r.view() == Map::<Seq<char>, Value>::empty(),
    {
        Document { fields: Vec::new() }
    }

    /// A document with `fields`; of two fields with one name the later is kept.
    pub fn new(fields: Vec<(String, Value)>) -> (r: Document)
        ensures
            r.well_formed(),
            r.view() == fields_map(fields@),
    {
        let mut rest = fields;
        let mut doc = Document::empty();
        let ghost given = rest@;
        while rest.len() > 0
            invariant
                doc.well_formed(),
                fields_map(given) =~= fields_map(rest@).union_prefer_right(doc.view()),
            decreases rest.len(),
        {
            let ghost before = rest@;
            let (key, value) = rest.pop().unwrap();
            assert(before =~= rest@.push((key, value)));
            match doc.position(key.as_str()) {
                Some(i) => {
                    proof {
                        lemma_at(doc.fields@, i as int);
                    }
                    assert(fields_map(before) =~= fields_map(rest@).insert(key@, value));
                    assert(fields_map(rest@).insert(key@, value).union_prefer_right(doc.view())
                        =~= fields_map(rest@).union_prefer_right(doc.view()));
                },
                None => {
                    let ghost m = doc.view();
                    proof {
                        lemma_absent(doc.fields@, key@);
                        lemma_push_unique(doc.fields@, (key, value));
                    }
                    doc.fields.push((key, value));
                    assert(fields_map(before) =~= fields_map(rest@).insert(key@, value));
                    assert(fields_map(rest@).insert(key@, value).union_prefer_right(m)
                        =~= fields_map(rest@).union_prefer_right(m.insert(key@, value)));
                },
            }
        }
        assert(fields_map(rest@) =~= Map::<Seq<char>, Value>::empty());
        doc
    }

    /// The value of field `key`.
    pub fn get(&self, key: &str) -> (r: Option<&Value>)
        requires
            self.well_formed(),
        ensures
            r matches Some(v) ==> self.view().dom().contains(key@) && self.view()[key@] == *v,
            r is None ==> !self.view().dom().contains(key@),
    {
        match self.position(key) {
            Some(i) => {
                proof {
                    lemma_at(self.fields@, i as int);
                }
                Some(&self.fields[i].1)
            },
            None => {
                proof {
                    lemma_absent(self.fields@, key@);
                }
                None
            },
        }
    }

    /// Takes field `key` out of the document, handing back its value.
    pub fn remove(&mut self, key: &str) -> (r: Option<Value>)
        requires
            old(self).well_formed(),
        ensures
            final(self).well_formed(),
            final(self).view() == old(self).view().remove(key@),
            r matches Some(v) ==> old(self).view().dom().contains(key@) && old(self).view()[key@] == v,
            r is None ==> !old(self).view().dom().contains(key@),
    {
        match self.position(key) {
            Some(i) => {
                proof {
                    lemma_at(self.fields@, i as int);
                    lemma_remove_at(self.fields@, i as int);
                }
                let (_, value) = self.fields.remove(i);
                Some(value)
            },
            None => {
                proof {
                    lemma_absent(self.fields@, key@);
                }
                assert(self.view() =~= self.view().remove(key@));
                None
            },
        }
    }

    /// Sets field `key` to `value`, replacing any value it had.
    pub fn insert(&mut self, key: String, value: Value)
        requires
            old(self).well_formed(),
        ensures
            final(self).well_formed(),
            final(self).view() == old(self).view().insert(key@, value),
    {
        match self.position(key.as_str()) {
            Some(i) => {
                proof {
                    lemma_remove_at(self.fields@, i as int);
                }
                let _ = self.fields.remove(i);
            },
            None => {
                proof {
                    lemma_absent(self.fields@, key@);
                }
                assert(self.view() =~= self.view().remove(key@));
            },
        }
        let ghost m = self.view();
        proof {
            lemma_push_unique(self.fields@, (key, value));
        }
        self.fields.push((key, value));
        assert(m.insert(key@, value) =~= old(self).view().insert(key@, value));
    }

    /// The fields, each name once.
    pub fn fields(&self) -> (r: &Vec<(String, Value)>)
        requires
            self.well_formed(),
        ensures
            names_unique(r@),
            fields_map(r@) == self.view(),
    {
        &self.fields
    }
}


/// The fields of one row of the benchmark data set.
pub open spec fn bench_fields(id: String, text: String, dense: Vec<u32>, int_filter: i32, keyword_filter: String) -> Map<Seq<char>, Value> {
    Map::empty()
        .insert("id"@, Value::Text(id))
        .insert("text"@, Value::Text(text))
        .insert("dense_embedding"@, Value::F32Bits(dense))
        .insert("int_filter"@, Value::U32(int_filter as u32))
        .insert("keyword_filter"@, Value::Text(keyword_filter))
}

/// One row of the benchmark data set as a document: its id, text, dense
/// embedding, integer filter (as unsigned, bit for bit) and keyword filter.
pub fn bench_document(id: String, text: String, dense: Vec<u32>, int_filter: i32, keyword_filter: String) -> (r: Document)
    ensures
        r.well_formed(),
        r.view() == bench_fields(id, text, dense, int_filter, keyword_filter),
{
    let mut doc = Document::empty();
    doc.insert("id".to_owned(), Value::Text(id));
    doc.insert("text".to_owned(), Value::Text(text));
    doc.insert("dense_embedding".to_owned(), Value::F32Bits(dense));
    doc.insert("int_filter".to_owned(), Value::U32(int_filter as u32));
    doc.insert("keyword_filter".to_owned(), Value::Text(keyword_filter));
    doc
}

/// The columns of a batch of the benchmark data set, one entry per row.
pub struct Bench01Columns {
    pub id: Vec<String>,
    pub text: Vec<String>,
    /// Each row's embedding as IEEE 754 bit patterns; `None` for a null row.
    pub dense: Vec<Option<Vec<u32>>>,
    pub int_filter: Vec<i32>,
    pub keyword_filter: Vec<String>,
}

/// Every column has `n` entries.
pub open spec fn columns_of_len(c: Bench01Columns, n: nat) -> bool {
    &&& c.id@.len() == n
    &&& c.text@.len() == n
    &&& c.dense@.len() == n
    &&& c.int_filter@.len() == n
    &&& c.keyword_filter@.len() == n
}

/// `doc` is row `i` of `c`; a null embedding reads as an empty one.
pub open spec fn is_bench_row(c: Bench01Columns, i: int, doc: Document) -> bool {
    &&& doc.well_formed()
    &&& exists|dense: Vec<u32>|
        #[trigger] bench_fields(c.id@[i], c.text@[i], dense, c.int_filter@[i], c.keyword_filter@[i]) == doc.view()
        && match c.dense@[i] {
            Some(d) => dense == d,
            None => dense@.len() == 0,
        }
}

/// Turns a batch of the benchmark data set into documents, one per row, in order.
pub fn parse_bench_01(columns: Bench01Columns) -> (r: Vec<Document>)
    requires
        columns_of_len(columns, columns.id@.len()),
    ensures
        r@.len() == columns.id@.len(),
        forall|i: int| 0 <= i < r@.len() ==> is_bench_row(columns, i, #[trigger] r@[i]),
{
    let ghost c = columns;
    let n = columns.id.len();
    let Bench01Columns { id: mut ids, text: mut texts, dense: mut dense, int_filter: mut ints, keyword_filter: mut keywords } = columns;
    let mut reversed: Vec<Document> = Vec::new();
    let mut k: usize = n;
    while k > 0
        invariant
            k <= n,
            n == c.id@.len(),
            columns_of_len(c, n as nat),
            ids@ == c.id@.take(k as int),
            texts@ == c.text@.take(k as int),
            dense@ == c.dense@.take(k as int),
            ints@ == c.int_filter@.take(k as int),
            keywords@ == c.keyword_filter@.take(k as int),
            reversed@.len() == n - k,
            forall|j: int| 0 <= j < reversed@.len() ==> is_bench_row(c, n - 1 - j, #[trigger] reversed@[j]),
        decreases k,
    {
        let id = ids.pop().unwrap();
        let text = texts.pop().unwrap();
        let d = dense.pop().unwrap();
        let int_filter = ints.pop().unwrap();
        let keyword = keywords.pop().unwrap();
        k = k - 1;
        assert(ids@ =~= c.id@.take(k as int));
        assert(texts@ =~= c.text@.take(k as int));
        assert(dense@ =~= c.dense@.take(k as int));
        assert(ints@ =~= c.int_filter@.take(k as int));
        assert(keywords@ =~= c.keyword_filter@.take(k as int));
        let embedding = match d {
            Some(v) => v,
            None => Vec::new(),
        };
        let ghost e = embedding;
        let doc = bench_document(id, text, embedding, int_filter, keyword);
        assert(bench_fields(c.id@[k as int], c.text@[k as int], e, c.int_filter@[k as int], c.keyword_filter@[k as int]) == doc.view());
        reversed.push(doc);
    }
    let mut r: Vec<Document> = Vec::new();
    while reversed.len() > 0
        invariant
            n == c.id@.len(),
            reversed@.len() + r@.len() == n,
            forall|j: int| 0 <= j < reversed@.len() ==> is_bench_row(c, n - 1 - j, #[trigger] reversed@[j]),
            forall|j: int| 0 <= j < r@.len() ==> is_bench_row(c, j, #[trigger] r@[j]),
        decreases reversed.len(),
    {
        let ghost before = reversed@;
        let doc = reversed.pop().unwrap();
        assert(before[before.len() - 1] == doc);
        assert forall|j: int| 0 <= j < reversed@.len() implies is_bench_row(c, n - 1 - j, #[trigger] reversed@[j]) by {
            assert(reversed@[j] == before[j]);
        }
        r.push(doc);
    }
    r
}

} // verus!
