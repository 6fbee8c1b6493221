//! Splitting text into maximal runs of non-delimiter characters.
use vstd::prelude::*;

verus! {

/// Which characters separate the pieces of a text.
#[derive(Clone, Copy, PartialEq, Eq, Debug)]
pub enum Delimiters {
    /// Commas and Unicode white space (a list of feature names).
    CommaOrWhiteSpace,
    /// The path separator `/`.
    Slash,
}

/// The Unicode `White_Space` property, as `char::is_whitespace` documents it.
pub open spec fn is_white_space(c: char) -> bool {
    let u = c as u32;
    (0x9 <= u && u <= 0xd) || u == 0x20 || u == 0x85 || u == 0xa0 || u == 0x1680
        || (0x2000 <= u && u <= 0x200a) || u == 0x2028 || u == 0x2029 || u == 0x202f
        || u == 0x205f || u == 0x3000
}

pub open spec fn is_delimiter(d: Delimiters, c: char) -> bool {
    match d {
        Delimiters::CommaOrWhiteSpace => c == ',' || is_white_space(c),
        Delimiters::Slash => c == '/',
    }
}

/// The pending piece `cur`, as a list of zero or one pieces.
pub open spec fn flush(cur: Seq<char>) -> Seq<Seq<char>> {
    if cur.len() > 0 {
        seq![cur]
    } else {
        Seq::empty()
    }
}

/// The pieces of `s`, where `cur` is a piece already begun before `s`.
pub open spec fn runs_from(s: Seq<char>, d: Delimiters, cur: Seq<char>) -> Seq<Seq<char>>
    decreases s.len(),
{
    if s.len() == 0 {
        flush(cur)
    } else if is_delimiter(d, s[0]) {
        flush(cur) + runs_from(s.drop_first(), d, Seq::empty())
    } else {
        runs_from(s.drop_first(), d, cur.push(s[0]))
    }
}

/// The maximal non-empty runs of non-delimiter characters of `s`, in order.
pub open spec fn runs(s: Seq<char>, d: Delimiters) -> Seq<Seq<char>> {
    runs_from(s, d, Seq::empty())
}

pub open spec fn views(v: Seq<String>) -> Seq<Seq<char>> {
    v.map_values(|t: String| t@)
}

/// A text made of delimiters alone has no pieces.
pub proof fn lemma_delimiters_only_no_runs(s: Seq<char>, d: Delimiters)
    requires
        forall|k: int| 0 <= k < s.len() ==> is_delimiter(d, #[trigger] s[k]),
    ensures
        runs(s, d).len() == 0,
    decreases s.len(),
{
    if s.len() > 0 {
        let t = s.drop_first();
        assert forall|k: int| 0 <= k < t.len() implies is_delimiter(d, #[trigger] t[k]) by {
            assert(t[k] == s[k + 1]);
        }
        lemma_delimiters_only_no_runs(t, d);
        assert(flush(Seq::empty()) =~= Seq::<Seq<char>>::empty());
        assert(runs(s, d) =~= runs(t, d));
    }
}

pub fn is_delimiter_char(d: Delimiters, c: char) -> (r: bool)
    ensures
        r == is_delimiter(d, c),
{
    match d {
        Delimiters::CommaOrWhiteSpace => {
            let u = c as u32;
            c == ',' || (0x9 <= u && u <= 0xd) || u == 0x20 || u == 0x85 || u == 0xa0
                || u == 0x1680 || (0x2000 <= u && u <= 0x200a) || u == 0x2028 || u == 0x2029
                || u == 0x202f || u == 0x205f || u == 0x3000
        },
        Delimiters::Slash => c == '/',
    }
}

/// Splits `s` into its maximal runs of non-delimiter characters.
pub fn split_runs(s: &str, d: Delimiters) -> (r: Vec<String>)
    ensures
        views(r@) == runs(s@, d),
{
    let n = s.unicode_len();
    let mut out: Vec<String> = Vec::new();
    let mut start: usize = 0;
    let mut i: usize = 0;
    assert(s@.subrange(0, n as int) =~= s@);
    assert(s@.subrange(0, 0) =~= Seq::<char>::empty());
    assert(views(out@) =~= Seq::<Seq<char>>::empty());
    assert(views(out@) + runs(s@, d) =~= runs(s@, d));
    while i < n
        invariant
            n == s@.len(),
            start <= i <= n,
            forall|k: int| start <= k < i ==> !is_delimiter(d, #[trigger] s@[k]),
            views(out@) + runs_from(s@.subrange(i as int, n as int), d, s@.subrange(start as int, i as int))
                == runs(s@, d),
        decreases n - i,
    {
        let c = s.get_char(i);
        let ghost rest = s@.subrange(i as int, n as int);
        let ghost cur = s@.subrange(start as int, i as int);
        assert(rest[0] == c);
        assert(rest.drop_first() =~= s@.subrange(i + 1, n as int));
        if is_delimiter_char(d, c) {
            let ghost before = views(out@);
            if start < i {
                let piece = s.substring_char(start, i);
                out.push(piece.to_owned());
                assert(views(out@) =~= before + seq![cur]);
            } else {
                assert(views(out@) =~= before + flush(cur));
            }
            assert(s@.subrange(i + 1, i + 1) =~= Seq::<char>::empty());
            start = i + 1;
        } else {
            assert(cur.push(c) =~= s@.subrange(start as int, i + 1));
        }
        i = i + 1;
    }
    assert(s@.subrange(n as int, n as int) =~= Seq::<char>::empty());
    if start < n {
        let ghost before = views(out@);
        let piece = s.substring_char(start, n);
        out.push(piece.to_owned());
        assert(views(out@) =~= before + seq![s@.subrange(start as int, n as int)]);
    } else {
        assert(views(out@) =~= views(out@) + Seq::<Seq<char>>::empty());
    }
    out
}

} // verus!
