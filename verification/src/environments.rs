//! The environments of a manifest, each under its name.

use vstd::prelude::*;
use crate::environment::{Environment, EnvironmentView};
use crate::pairs::{
    distinct_keys, has_key, lemma_pairs_map_distinct, lemma_pairs_map_keys, lemma_pairs_map_push,
    lemma_pairs_map_update, pairs_map,
};
use crate::text::same_text;

verus! {

/// A table from environment names to environments. No name occurs twice;
/// the order in which the entries were put in has no meaning.
#[derive(Debug)]
pub struct Environments {
    entries: Vec<(String, Environment)>,
}

impl View for Environments {
    type V = Map<Seq<char>, EnvironmentView>;

    open spec fn view(&self) -> Map<Seq<char>, EnvironmentView> {
        pairs_map(self.pairs())
    }
}

impl DeepView for Environments {
    type V = Map<Seq<char>, EnvironmentView>;

    open spec fn deep_view(&self) -> Map<Seq<char>, EnvironmentView> {
        self.view()
    }
}

impl Environments {
    #[verifier::type_invariant]
    spec fn names_distinct(self) -> bool {
        distinct_keys(self.entries.deep_view())
    }

    /// The entries as they are stored, each a name and an environment.
    pub closed spec fn pairs(&self) -> Seq<(Seq<char>, EnvironmentView)> {
        self.entries.deep_view()
    }

    /// A table without entries.
    pub fn new() -> (r: Self)
        ensures
            r.pairs() == Seq::<(Seq<char>, EnvironmentView)>::empty(),
            r@ == Map::<Seq<char>, EnvironmentView>::empty(),
    {
        let r = Environments { entries: Vec::new() };
        assert(r.entries.deep_view() =~= Seq::empty());
        r
    }

    /// The number of entries.
    pub fn len(&self) -> (n: usize)
        ensures
            n == self.pairs().len(),
            n == self@.len(),
            self@.dom().finite(),
            distinct_keys(self.pairs()),
    {
        proof {
            use_type_invariant(self);
            lemma_pairs_len(self.pairs());
        }
        self.entries.len()
    }

    pub fn is_empty(&self) -> (r: bool)
        ensures
            r == (self.pairs().len() == 0),
            r == self@.is_empty(),
    {
        proof {
            lemma_pairs_map_keys(self.pairs());
            if self.pairs().len() > 0 {
                assert(has_key(self.pairs(), self.pairs()[0].0));
                assert(self@.dom().contains(self.pairs()[0].0));
            } else {
                assert(self@.dom() =~= Set::empty());
            }
        }
        self.entries.len() == 0
    }

    /// The entry stored at place `i`: its name and its environment.
    pub fn entry(&self, i: usize) -> (r: (&String, &Environment))
        requires
            i < self.pairs().len(),
        ensures
            (r.0@, r.1@) == self.pairs()[i as int],
            self@.contains_key(r.0@),
            self@[r.0@] == r.1@,
    {
        proof {
            use_type_invariant(self);
            lemma_pairs_map_distinct(self.pairs());
        }
        let e = &self.entries[i];
        (&e.0, &e.1)
    }

    /// The environment under `name`, if there is one.
    pub fn get(&self, name: &str) -> (r: Option<&Environment>)
        ensures
            r.deep_view() == self@.get(name@),
    {
        proof {
            use_type_invariant(self);
        }
        let mut i: usize = 0;
        while i < self.entries.len()
            invariant
                i <= self.entries.len(),
                distinct_keys(self.pairs()),
                forall|j: int| 0 <= j < i ==> (#[trigger] self.pairs()[j]).0 != name@,
            decreases self.entries.len() - i,
        {
            if same_text(self.entries[i].0.as_str(), name) {
                proof {
                    lemma_pairs_map_distinct(self.pairs());
                    assert(self.pairs()[i as int].0 == name@);
                }
                return Some(&self.entries[i].1);
            }
            i += 1;
        }
        proof {
            lemma_pairs_map_keys(self.pairs());
            assert(!has_key(self.pairs(), name@));
        }
        None
    }

    /// The table with `environment` under `name`, in place of what was there.
    pub fn insert(self, name: String, environment: Environment) -> (r: Self)
        ensures
            r@ == self@.insert(name@, environment@),
    {
        proof {
            use_type_invariant(&self);
        }
        let ghost before = self.pairs();
        let mut entries = self.entries;
        let mut i: usize = 0;
        while i < entries.len()
            invariant
                i <= entries.len(),
                entries.deep_view() == before,
                before == self.pairs(),
                distinct_keys(before),
                forall|j: int| 0 <= j < i ==> (#[trigger] before[j]).0 != name@,
            decreases entries.len() - i,
        {
            if same_text(entries[i].0.as_str(), name.as_str()) {
                proof {
                    lemma_pairs_map_update(before, i as int, environment@);
                }
                entries.set(i, (name, environment));
                assert(entries.deep_view() =~= before.update(
                    i as int,
                    (before[i as int].0, environment@),
                ));
                return Environments { entries };
            }
            i += 1;
        }
        proof {
            lemma_pairs_map_push(before, name@, environment@);
            assert forall|a: int, b: int|
                0 <= a < b < before.len() + 1 implies (#[trigger] before.push(
                (name@, environment@),
            )[a]).0 != (#[trigger] before.push((name@, environment@))[b]).0 by {
                if b < before.len() {
                    assert(before[a].0 != before[b].0);
                } else {
                    assert(before[a].0 != name@);
                }
            }
        }
        entries.push((name, environment));
        assert(entries.deep_view() =~= before.push((name@, environment@)));
        Environments { entries }
    }
}

impl Environments {
    /// Whether the two tables hold the same environments under the same
    /// names, in whatever order they were put in.
    pub fn same_as(&self, other: &Environments) -> (r: bool)
        ensures
            r == (self@ == other@),
    {
        let count = self.len();
        if count != other.len() {
            return false;
        }
        let mut i: usize = 0;
        while i < count
            invariant
                i <= count,
                count == self.pairs().len(),
                distinct_keys(self.pairs()),
                self@.dom().finite(),
                other@.dom().finite(),
                self@.len() == other@.len(),
                forall|j: int|
                    0 <= j < i ==> other@.contains_key((#[trigger] self.pairs()[j]).0)
                        && other@[self.pairs()[j].0] == self.pairs()[j].1,
            decreases count - i,
        {
            let (name, environment) = self.entry(i);
            match other.get(name.as_str()) {
                None => {
                    return false;
                },
                Some(theirs) => {
                    if !environment.same_as(theirs) {
                        return false;
                    }
                },
            }
            i += 1;
        }
        proof {
            lemma_pairs_map_keys(self.pairs());
            lemma_pairs_map_distinct(self.pairs());
            assert forall|k: Seq<char>| self@.contains_key(k) implies other@.contains_key(k)
                && self@[k] == other@[k] by {
                let j = choose|j: int|
                    0 <= j < self.pairs().len() && (#[trigger] self.pairs()[j]).0 == k;
                assert(other@.contains_key(self.pairs()[j].0));
            }
            assert(self@.dom().subset_of(other@.dom()));
            vstd::set_lib::lemma_subset_equality(self@.dom(), other@.dom());
            assert(self@ =~= other@);
        }
        true
    }
}

/// Two tables are equal where they hold the same environments under the
/// same names.
impl PartialEq for Environments {
    fn eq(&self, other: &Self) -> (r: bool) {
        self.same_as(other)
    }
}

impl Eq for Environments {

}

impl vstd::std_specs::cmp::PartialEqSpecImpl for Environments {
    open spec fn obeys_eq_spec() -> bool {
        true
    }

    open spec fn eq_spec(&self, other: &Self) -> bool {
        self@ == other@
    }
}

impl Clone for Environments {
    fn clone(&self) -> (r: Self)
        ensures
            r.pairs() == self.pairs(),
            r@ == self@,
    {
        proof {
            use_type_invariant(self);
        }
        let mut entries: Vec<(String, Environment)> = Vec::new();
        let mut i: usize = 0;
        while i < self.entries.len()
            invariant
                i <= self.entries.len(),
                entries.len() == i,
                forall|j: int| 0 <= j < i ==> entries.deep_view()[j] == self.entries.deep_view()[j],
            decreases self.entries.len() - i,
        {
            let ghost grown = entries.deep_view();
            entries.push((self.entries[i].0.clone(), self.entries[i].1.clone()));
            assert(entries.deep_view() =~= grown.push(self.entries.deep_view()[i as int]));
            i += 1;
        }
        assert(entries.deep_view() =~= self.entries.deep_view());
        Environments { entries }
    }
}

impl Default for Environments {
    fn default() -> (r: Self)
        ensures
            r@ == Map::<Seq<char>, EnvironmentView>::empty(),
    {
        Environments::new()
    }
}

/// A list of pairs with distinct keys has as many pairs as its map has entries.
pub proof fn lemma_pairs_len<V>(pairs: Seq<(Seq<char>, V)>)
    requires
        distinct_keys(pairs),
    ensures
        pairs_map(pairs).dom().finite(),
        pairs_map(pairs).len() == pairs.len(),
    decreases pairs.len(),
{
    lemma_pairs_map_keys(pairs);
    if pairs.len() > 0 {
        let rest = pairs.drop_last();
        assert forall|i: int, j: int| 0 <= i < j < rest.len() implies (#[trigger] rest[i]).0 != (
        #[trigger] rest[j]).0 by {
            assert(rest[i] == pairs[i]);
            assert(rest[j] == pairs[j]);
        }
        lemma_pairs_len(rest);
        lemma_pairs_map_keys(rest);
        if has_key(rest, pairs.last().0) {
            let i = choose|i: int| 0 <= i < rest.len() && (#[trigger] rest[i]).0 == pairs.last().0;
            assert(rest[i] == pairs[i]);
            assert(pairs[pairs.len() - 1].0 == pairs.last().0);
        }
        assert(!pairs_map(rest).contains_key(pairs.last().0));
    }
}

} // verus!
