//! Path texts: the file name of a test module, and the interface-document
//! sources to load.
use vstd::prelude::*;
use crate::text::{Delimiters, runs, split_runs, views};

verus! {

/// A path segment that names a directory entry: not `.` and not `..`.
pub open spec fn is_normal_segment(t: Seq<char>) -> bool {
    t != seq!['.'] && t != seq!['.', '.']
}

/// The normal segments of a `/`-separated path, in order (empty segments,
/// `.` and `..` are left out).
pub open spec fn normal_segments(p: Seq<char>) -> Seq<Seq<char>> {
    runs(p, Delimiters::Slash).filter(|t: Seq<char>| is_normal_segment(t))
}

/// The last two elements of `s`, or all of them when there are fewer.
pub open spec fn last_two(s: Seq<Seq<char>>) -> Seq<Seq<char>> {
    if s.len() >= 2 {
        s.subrange(s.len() - 2, s.len() as int)
    } else {
        s
    }
}

/// The pieces of `s` with `sep` between each two.
pub open spec fn joined(s: Seq<Seq<char>>, sep: Seq<char>) -> Seq<char>
    decreases s.len(),
{
    if s.len() == 0 {
        Seq::empty()
    } else if s.len() == 1 {
        s[0]
    } else {
        joined(s.drop_last(), sep) + sep + s.last()
    }
}

/// `test_<a>_<b>.wasm`, from the last two normal segments of the package path.
pub open spec fn test_file_name(p: Seq<char>) -> Seq<char> {
    "test_"@ + joined(last_two(normal_segments(p)), "_"@) + ".wasm"@
}

/// The directory loaded when no interface-document source is given.
pub open spec fn default_wit_dir() -> Seq<char> {
    "wit"@
}

/// The sources that are loaded: the given ones, or the default directory
/// when none is given.
pub open spec fn effective_sources(paths: Seq<Seq<char>>) -> Seq<Seq<char>> {
    if paths.len() == 0 {
        seq![default_wit_dir()]
    } else {
        paths
    }
}

/// An empty list of sources resolves as the default directory given
/// explicitly does.
pub proof fn lemma_no_sources_means_default(paths: Seq<Seq<char>>)
    requires
        paths.len() == 0,
    ensures
        effective_sources(paths) == effective_sources(seq![default_wit_dir()]),
        effective_sources(paths).len() == 1,
{
}

/// The interface-document sources to load, in order.
pub fn wit_source_paths(paths: &Vec<String>) -> (r: Vec<String>)
    ensures
        views(r@) == effective_sources(views(paths@)),
{
    if paths.len() == 0 {
        let mut r: Vec<String> = Vec::new();
        r.push(String::from_str("wit"));
        assert(views(r@) =~= seq![default_wit_dir()]);
        r
    } else {
        let r = paths.clone();
        assert(views(r@) =~= views(paths@)) by {
            assert forall|k: int| 0 <= k < r@.len() implies r@[k]@ == paths@[k]@ by {}
        }
        r
    }
}

fn is_normal_piece(t: &str) -> (r: bool)
    ensures
        r == is_normal_segment(t@),
{
    let n = t.unicode_len();
    if n == 1 {
        let c = t.get_char(0);
        if c == '.' {
            assert(t@ =~= seq!['.']);
            false
        } else {
            assert(t@[0] != seq!['.', '.'][0]);
            true
        }
    } else if n == 2 {
        let c0 = t.get_char(0);
        let c1 = t.get_char(1);
        if c0 == '.' && c1 == '.' {
            assert(t@ =~= seq!['.', '.']);
            false
        } else {
            assert(t@[0] != seq!['.', '.'][0] || t@[1] != seq!['.', '.'][1]);
            true
        }
    } else {
        assert(t@.len() != seq!['.'].len() && t@.len() != seq!['.', '.'].len());
        true
    }
}

/// The file name of the test module built from the package at `path`:
/// `test_` and the last two normal segments of the path (or fewer, when it
/// has fewer) joined by `_`, then `.wasm`.
pub fn get_test_filename(path: &str) -> (r: String)
    ensures
        r@ == test_file_name(path@),
{
    let pieces = split_runs(path, Delimiters::Slash);
    let ghost all = views(pieces@);
    proof {
        reveal_with_fuel(Seq::filter, 1);
        assert(all.take(0) =~= Seq::<Seq<char>>::empty());
    }
    let mut normal: Vec<String> = Vec::new();
    let mut i: usize = 0;
    while i < pieces.len()
        invariant
            i <= pieces@.len(),
            all == views(pieces@),
            views(normal@) == all.take(i as int).filter(|t: Seq<char>| is_normal_segment(t)),
        decreases pieces.len() - i,
    {
        let ghost before = views(normal@);
        assert(all.take(i + 1).drop_last() =~= all.take(i as int));
        assert(all.take(i + 1).last() == all[i as int]);
        proof {
            reveal_with_fuel(Seq::filter, 1);
        }
        if is_normal_piece(pieces[i].as_str()) {
            normal.push(pieces[i].clone());
            assert(views(normal@) =~= before.push(all[i as int]));
        } else {
            assert(views(normal@) =~= before);
        }
        i = i + 1;
    }
    assert(all.take(pieces@.len() as int) =~= all);
    let ghost segs = views(normal@);
    let len = normal.len();
    let from: usize = if len >= 2 { len - 2 } else { 0 };
    let ghost tail = last_two(segs);
    assert(tail =~= segs.subrange(from as int, len as int));
    let mut name = String::from_str("test_");
    let mut k: usize = from;
    while k < len
        invariant
            from <= k <= len,
            len == normal@.len(),
            segs == views(normal@),
            tail == segs.subrange(from as int, len as int),
            name@ == "test_"@ + joined(segs.subrange(from as int, k as int), "_"@),
        decreases len - k,
    {
        let ghost done = segs.subrange(from as int, k as int);
        let ghost next = segs.subrange(from as int, k + 1);
        assert(next.drop_last() =~= done);
        if k > from {
            name.append("_");
        } else {
            assert(done.len() == 0);
        }
        name.append(normal[k].as_str());
        assert(name@ =~= "test_"@ + joined(next, "_"@));
        k = k + 1;
    }
    name.append(".wasm");
    name
}

} // verus!
