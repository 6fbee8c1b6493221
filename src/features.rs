//! The set of interface-document features that a caller enables.
use vstd::prelude::*;
use crate::text::{Delimiters, runs, split_runs, views, lemma_delimiters_only_no_runs, is_delimiter};

verus! {

/// The feature names of all the given texts, in order, repeats kept.
pub open spec fn all_feature_tokens(inputs: Seq<Seq<char>>) -> Seq<Seq<char>>
    decreases inputs.len(),
{
    if inputs.len() == 0 {
        Seq::empty()
    } else {
        all_feature_tokens(inputs.drop_last()) + runs(inputs.last(), Delimiters::CommaOrWhiteSpace)
    }
}

/// Enabled feature names and the "all features" switch.
pub struct FeatureSet {
    pub names: Vec<String>,
    pub all_features: bool,
}

impl FeatureSet {
    /// The names, as a set.
    pub open spec fn name_set(&self) -> Set<Seq<char>> {
        views(self.names@).to_set()
    }

    /// No name is held twice.
    pub open spec fn wf(&self) -> bool {
        views(self.names@).no_duplicates()
    }

    /// Splits every input on commas and white space and keeps each non-empty
    /// piece once, in the order of first appearance.
    pub fn parse(inputs: &Vec<String>, all_features: bool) -> (r: FeatureSet)
        ensures
            r.wf(),
            r.all_features == all_features,
            r.name_set() == all_feature_tokens(views(inputs@)).to_set(),
    {
        let mut names: Vec<String> = Vec::new();
        let mut i: usize = 0;
        while i < inputs.len()
            invariant
                i <= inputs@.len(),
                views(names@).no_duplicates(),
                views(names@).to_set() == all_feature_tokens(views(inputs@).take(i as int)).to_set(),
            decreases inputs.len() - i,
        {
            let pieces = split_runs(inputs[i].as_str(), Delimiters::CommaOrWhiteSpace);
            let ghost prev = views(names@).to_set();
            let mut j: usize = 0;
            while j < pieces.len()
                invariant
                    i < inputs@.len(),
                    j <= pieces@.len(),
                    views(pieces@) == runs(inputs@[i as int]@, Delimiters::CommaOrWhiteSpace),
                    views(names@).no_duplicates(),
                    views(names@).to_set() == prev + views(pieces@).take(j as int).to_set(),
                decreases pieces.len() - j,
            {
                let ghost before = views(names@);
                let present = contains_name(&names, &pieces[j]);
                if !present {
                    names.push(pieces[j].clone());
                    assert(views(names@) =~= before.push(pieces@[j as int]@));
                    assert forall|a: int, b: int| 0 <= a < b < views(names@).len()
                        implies views(names@)[a] != views(names@)[b] by {
                        if b == before.len() {
                            assert(before.contains(before[a]));
                        }
                    }
                } else {
                    assert(views(names@) =~= before);
                }
                assert(views(pieces@).take(j + 1) =~= views(pieces@).take(j as int).push(pieces@[j as int]@));
                proof {
                    let pc = pieces@[j as int]@;
                    lemma_push_to_set(views(pieces@).take(j as int), pc);
                    if present {
                        assert(before.to_set().contains(pc));
                        assert(before.to_set().insert(pc) =~= before.to_set());
                    } else {
                        lemma_push_to_set(before, pc);
                    }
                    assert(views(names@).to_set() =~= prev + views(pieces@).take(j + 1).to_set());
                }
                j = j + 1;
            }
            proof {
                let vi = views(inputs@);
                assert(vi.take(i + 1).drop_last() =~= vi.take(i as int));
                assert(vi.take(i + 1).last() == inputs@[i as int]@);
                assert(views(pieces@).take(pieces@.len() as int) =~= views(pieces@));
                lemma_to_set_concat(all_feature_tokens(vi.take(i as int)), views(pieces@));
            }
            i = i + 1;
        }
        assert(views(inputs@).take(inputs@.len() as int) =~= views(inputs@));
        FeatureSet { names, all_features }
    }
}

proof fn lemma_push_to_set(a: Seq<Seq<char>>, x: Seq<char>)
    ensures
        a.push(x).to_set() == a.to_set().insert(x),
{
    assert forall|y: Seq<char>| a.push(x).to_set().contains(y) <==> a.to_set().insert(x).contains(y) by {
        if a.push(x).contains(y) && y != x {
            let k = choose|k: int| 0 <= k < a.push(x).len() && a.push(x)[k] == y;
            assert(a[k] == y);
        }
        if a.contains(y) {
            let k = choose|k: int| 0 <= k < a.len() && a[k] == y;
            assert(a.push(x)[k] == y);
        }
        if y == x {
            assert(a.push(x)[a.len() as int] == y);
        }
    }
    assert(a.push(x).to_set() =~= a.to_set().insert(x));
}

proof fn lemma_to_set_concat(a: Seq<Seq<char>>, b: Seq<Seq<char>>)
    ensures
        (a + b).to_set() == a.to_set() + b.to_set(),
{
    assert forall|x: Seq<char>| (a + b).to_set().contains(x) <==> (a.to_set() + b.to_set()).contains(x) by {
        if (a + b).contains(x) {
            let k = choose|k: int| 0 <= k < (a + b).len() && (a + b)[k] == x;
            if k < a.len() {
                assert(a[k] == x);
            } else {
                assert(b[k - a.len()] == x);
            }
        }
        if a.contains(x) {
            let k = choose|k: int| 0 <= k < a.len() && a[k] == x;
            assert((a + b)[k] == x);
        }
        if b.contains(x) {
            let k = choose|k: int| 0 <= k < b.len() && b[k] == x;
            assert((a + b)[k + a.len()] == x);
        }
    }
    assert((a + b).to_set() =~= a.to_set() + b.to_set());
}

/// Whether `name` is among `names`.
fn contains_name(names: &Vec<String>, name: &String) -> (r: bool)
    ensures
        r == views(names@).contains(name@),
{
    let mut k: usize = 0;
    while k < names.len()
        invariant
            k <= names@.len(),
            forall|m: int| 0 <= m < k ==> names@[m]@ != name@,
        decreases names.len() - k,
    {
        if names[k] == *name {
            assert(views(names@)[k as int] == name@);
            return true;
        }
        k = k + 1;
    }
    assert forall|m: int| 0 <= m < views(names@).len() implies views(names@)[m] != name@ by {
        assert(names@[m]@ != name@);
    }
    false
}

/// Inputs made of commas and white space alone enable no feature.
pub proof fn lemma_separators_only_enable_nothing(inputs: Seq<Seq<char>>)
    requires
        forall|i: int, k: int|
            0 <= i < inputs.len() && 0 <= k < inputs[i].len()
                ==> is_delimiter(Delimiters::CommaOrWhiteSpace, #[trigger] inputs[i][k]),
    ensures
        all_feature_tokens(inputs).len() == 0,
        all_feature_tokens(inputs).to_set() == Set::<Seq<char>>::empty(),
    decreases inputs.len(),
{
    if inputs.len() > 0 {
        let front = inputs.drop_last();
        assert forall|i: int, k: int|
            0 <= i < front.len() && 0 <= k < front[i].len()
                implies is_delimiter(Delimiters::CommaOrWhiteSpace, #[trigger] front[i][k]) by {
            assert(front[i] == inputs[i]);
        }
        lemma_separators_only_enable_nothing(front);
        let last = inputs.last();
        assert forall|k: int| 0 <= k < last.len()
            implies is_delimiter(Delimiters::CommaOrWhiteSpace, #[trigger] last[k]) by {
            assert(inputs[inputs.len() - 1][k] == last[k]);
        }
        lemma_delimiters_only_no_runs(last, Delimiters::CommaOrWhiteSpace);
    }
    assert(all_feature_tokens(inputs).to_set() =~= Set::<Seq<char>>::empty()) by {
        assert forall|x: Seq<char>| !all_feature_tokens(inputs).to_set().contains(x) by {}
    }
}

} // verus!
