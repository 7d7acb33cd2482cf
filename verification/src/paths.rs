//! Joining paths the way `std::path::Path::join` does on Unix.

use vstd::prelude::*;
use crate::text::{chars_of, push_char, string_of};

verus! {

/// `rel` resolved against `base`: an absolute `rel` replaces `base`, and
/// otherwise a separator is put between them unless `base` is empty or
/// already ends with one.
pub open spec fn joined_path(base: Seq<char>, rel: Seq<char>) -> Seq<char> {
    if rel.len() > 0 && rel[0] == '/' {
        rel
    } else if base.len() == 0 || base.last() == '/' {
        base + rel
    } else {
        base + seq!['/'] + rel
    }
}

/// `base` joined with `rel`.
pub fn join_path(base: &str, rel: &str) -> (r: String)
    ensures
        r@ == joined_path(base@, rel@),
{
    let b = chars_of(base);
    let rel_len = rel.unicode_len();
    if rel_len > 0 && rel.get_char(0) == '/' {
        return rel.to_owned();
    }
    let mut out = base.to_owned();
    if b.len() > 0 && b[b.len() - 1] != '/' {
        push_char(&mut out, '/');
    }
    out.append(rel);
    out
}

} // verus!

verus! {

/// The pieces of `s` between `'/'` separators, empty pieces included.
pub open spec fn raw_pieces(s: Seq<char>) -> Seq<Seq<char>>
    decreases s.len(),
{
    if s.len() == 0 {
        seq![Seq::empty()]
    } else {
        let p = raw_pieces(s.drop_last());
        if s.last() == '/' {
            p.push(Seq::empty())
        } else {
            p.update(p.len() - 1, p.last().push(s.last()))
        }
    }
}

/// The pieces that name components: empty pieces and `"."` pieces after the
/// first are dropped, as `Path::components` normalizes them away.
pub open spec fn kept_pieces(p: Seq<Seq<char>>) -> Seq<Seq<char>>
    decreases p.len(),
{
    if p.len() == 0 {
        p
    } else {
        let rest = kept_pieces(p.drop_last());
        let x = p.last();
        if x.len() > 0 && !(x == seq!['.'] && p.len() > 1) { rest.push(x) } else { rest }
    }
}

/// The components of a Unix path: `"/"` for a leading root, then the names.
pub open spec fn components(s: Seq<char>) -> Seq<Seq<char>> {
    (if s.len() > 0 && s[0] == '/' { seq![seq!['/']] } else { Seq::empty() }) + kept_pieces(raw_pieces(s))
}

/// A path built from components, as `Path::display` prints it.
pub open spec fn rendered_components(cs: Seq<Seq<char>>) -> Seq<char> {
    if cs.len() > 0 && cs[0] == seq!['/'] {
        seq!['/'] + crate::text::join_seqs(cs.drop_first(), seq!['/'])
    } else {
        crate::text::join_seqs(cs, seq!['/'])
    }
}

/// How a path is shown: relative to `cwd` when it lies under it, by its bare
/// name when it is a single plain name, and as given otherwise.
pub open spec fn shown_path(path: Seq<char>, cwd: Option<Seq<char>>) -> Seq<char> {
    let pc = components(path);
    if cwd is Some && components(cwd->0).len() <= pc.len() && pc.take(components(cwd->0).len() as int) == components(cwd->0) {
        rendered_components(pc.skip(components(cwd->0).len() as int))
    } else if pc.len() == 1 && pc[0] != seq!['/'] && pc[0] != seq!['.'] && pc[0] != seq!['.', '.'] {
        pc[0]
    } else {
        path
    }
}

fn raw_pieces_of(s: &Vec<char>) -> (r: Vec<Vec<char>>)
    ensures
        r@.map_values(|v: Vec<char>| v@) == raw_pieces(s@),
        r@.len() >= 1,
{
    let mut pieces: Vec<Vec<char>> = Vec::new();
    pieces.push(Vec::new());
    assert(pieces@.map_values(|v: Vec<char>| v@) =~= raw_pieces(s@.take(0)));
    let mut i: usize = 0;
    while i < s.len()
        invariant
            i <= s@.len(),
            pieces@.len() >= 1,
            pieces@.map_values(|v: Vec<char>| v@) == raw_pieces(s@.take(i as int)),
        decreases s.len() - i,
    {
        let ghost t = s@.take(i + 1);
        assert(t.drop_last() =~= s@.take(i as int));
        let ghost before = pieces@.map_values(|v: Vec<char>| v@);
        let c = s[i];
        if c == '/' {
            pieces.push(Vec::new());
            assert(pieces@.map_values(|v: Vec<char>| v@) =~= before.push(Seq::empty()));
        } else {
            let last = pieces.len() - 1;
            let mut cur = pieces[last].clone();
            cur.push(c);
            pieces.set(last, cur);
            assert(pieces@.map_values(|v: Vec<char>| v@) =~= before.update(before.len() - 1, before.last().push(c)));
        }
        i = i + 1;
    }
    assert(s@.take(s@.len() as int) =~= s@);
    pieces
}

fn is_dot(x: &Vec<char>) -> (r: bool)
    ensures
        r == (x@ == seq!['.']),
{
    if x.len() == 1 && x[0] == '.' {
        assert(x@ =~= seq!['.']);
        true
    } else {
        assert(x@ != seq!['.']) by {
            if x@ == seq!['.'] {
                assert(x@.len() == 1 && x@[0] == '.');
            }
        }
        false
    }
}

/// The components of `s` (see `components`).
pub fn components_of(s: &str) -> (r: Vec<Vec<char>>)
    ensures
        r@.map_values(|v: Vec<char>| v@) == components(s@),
{
    let cs = chars_of(s);
    let pieces = raw_pieces_of(&cs);
    let mut out: Vec<Vec<char>> = Vec::new();
    if cs.len() > 0 && cs[0] == '/' {
        let mut root: Vec<char> = Vec::new();
        root.push('/');
        assert(root@ =~= seq!['/']);
        out.push(root);
    }
    let ghost head = out@.map_values(|v: Vec<char>| v@);
    assert(head =~= (if s@.len() > 0 && s@[0] == '/' { seq![seq!['/']] } else { Seq::<Seq<char>>::empty() }));
    let ghost pv = pieces@.map_values(|v: Vec<char>| v@);
    let mut i: usize = 0;
    while i < pieces.len()
        invariant
            i <= pieces@.len(),
            pv == pieces@.map_values(|v: Vec<char>| v@),
            pv == raw_pieces(s@),
            out@.map_values(|v: Vec<char>| v@) == head + kept_pieces(pv.take(i as int)),
        decreases pieces.len() - i,
    {
        let ghost t = pv.take(i + 1);
        assert(t.drop_last() =~= pv.take(i as int));
        assert(t.last() == pieces@[i as int]@);
        let ghost before = out@.map_values(|v: Vec<char>| v@);
        let x = &pieces[i];
        if x.len() > 0 && !(is_dot(x) && i > 0) {
            out.push(x.clone());
            assert(out@.map_values(|v: Vec<char>| v@) =~= before.push(x@));
        }
        i = i + 1;
    }
    assert(pv.take(pieces@.len() as int) =~= pv);
    out
}

fn same_chars(a: &Vec<char>, b: &Vec<char>) -> (r: bool)
    ensures
        r == (a@ == b@),
{
    if a.len() != b.len() {
        return false;
    }
    let mut i: usize = 0;
    while i < a.len()
        invariant
            a@.len() == b@.len(),
            i <= a@.len(),
            forall|j: int| 0 <= j < i ==> a@[j] == b@[j],
        decreases a.len() - i,
    {
        if a[i] != b[i] {
            return false;
        }
        i = i + 1;
    }
    assert(a@ =~= b@);
    true
}

fn join_components(cs: &Vec<Vec<char>>, start: usize) -> (r: String)
    requires
        start <= cs@.len(),
    ensures
        r@ == rendered_components(cs@.map_values(|v: Vec<char>| v@).skip(start as int)),
{
    let ghost all = cs@.map_values(|v: Vec<char>| v@).skip(start as int);
    let mut out = String::new();
    let mut from = start;
    if start < cs.len() && cs[start].len() == 1 && cs[start][0] == '/' {
        push_char(&mut out, '/');
        from = start + 1;
        assert(all[0] =~= seq!['/']);
    }
    let ghost names = cs@.map_values(|v: Vec<char>| v@).skip(from as int);
    assert(from > start ==> names =~= all.drop_first());
    assert(from == start ==> !(all.len() > 0 && all[0] == seq!['/'])) by {
        if from == start && all.len() > 0 {
            assert(all[0] == cs@[start as int]@);
        }
    }
    let ghost head = out@;
    let mut i = from;
    while i < cs.len()
        invariant
            from <= i <= cs@.len(),
            names == cs@.map_values(|v: Vec<char>| v@).skip(from as int),
            out@ == head + crate::text::join_seqs(names.take(i - from), seq!['/']),
        decreases cs.len() - i,
    {
        let ghost t = names.take(i + 1 - from);
        assert(t.drop_last() =~= names.take(i - from));
        assert(t.last() == cs@[i as int]@);
        if i > from {
            push_char(&mut out, '/');
        }
        let s = string_of(&cs[i]);
        out.append(s.as_str());
        assert(out@ =~= head + crate::text::join_seqs(t, seq!['/']));
        i = i + 1;
    }
    assert(names.take(cs@.len() - from) =~= names);
    out
}

/// How a path is shown to a person, given the working directory when it is known.
pub fn display_path(path: &str, cwd: Option<&str>) -> (r: String)
    ensures
        r@ == shown_path(path@, match cwd { Some(c) => Some(c@), None => None }),
{
    let pc = components_of(path);
    let ghost pv = pc@.map_values(|v: Vec<char>| v@);
    match cwd {
        Some(c) => {
            let cc = components_of(c);
            let ghost cv = cc@.map_values(|v: Vec<char>| v@);
            if cc.len() <= pc.len() {
                let mut k: usize = 0;
                let mut all_same = true;
                while k < cc.len()
                    invariant
                        cc@.len() <= pc@.len(),
                        k <= cc@.len(),
                        all_same == (forall|j: int| 0 <= j < k ==> cv[j] == pv[j]),
                        cv == cc@.map_values(|v: Vec<char>| v@),
                        pv == pc@.map_values(|v: Vec<char>| v@),
                    decreases cc.len() - k,
                {
                    assert(cv[k as int] == cc@[k as int]@);
                    assert(pv[k as int] == pc@[k as int]@);
                    let same = same_chars(&cc[k], &pc[k]);
                    all_same = all_same && same;
                    k = k + 1;
                }
                if all_same {
                    assert(pv.take(cv.len() as int) =~= cv);
                    return join_components(&pc, cc.len());
                } else {
                    proof {
                        let j = choose|j: int| 0 <= j < cc@.len() && cv[j] != pv[j];
                        assert(pv.take(cv.len() as int)[j] != cv[j]);
                    }
                }
            }
        },
        None => {},
    }
    if pc.len() == 1 && !(pc[0].len() == 1 && pc[0][0] == '/') && !is_dot(&pc[0])
        && !(pc[0].len() == 2 && pc[0][0] == '.' && pc[0][1] == '.') {
        assert(pv[0] == pc@[0]@);
        assert(pc@[0]@ != seq!['/'] ==> pv[0] != seq!['/']);
        let r = string_of(&pc[0]);
        proof {
            if pv[0] == seq!['.', '.'] {
                assert(pc@[0]@.len() == 2 && pc@[0]@[0] == '.' && pc@[0]@[1] == '.');
            }
            if pv[0] == seq!['/'] {
                assert(pc@[0]@.len() == 1 && pc@[0]@[0] == '/');
            }
        }
        return r;
    }
    proof {
        if pv.len() == 1 {
            assert(pv[0] == pc@[0]@);
            if pv[0] != seq!['/'] && pv[0] != seq!['.'] && pv[0] != seq!['.', '.'] {
                assert(!(pc@[0]@.len() == 1 && pc@[0]@[0] == '/')) by {
                    if pc@[0]@.len() == 1 && pc@[0]@[0] == '/' { assert(pc@[0]@ =~= seq!['/']); }
                }
                assert(!(pc@[0]@.len() == 2 && pc@[0]@[0] == '.' && pc@[0]@[1] == '.')) by {
                    if pc@[0]@.len() == 2 && pc@[0]@[0] == '.' && pc@[0]@[1] == '.' { assert(pc@[0]@ =~= seq!['.', '.']); }
                }
            }
        }
    }
    path.to_owned()
}

} // verus!
