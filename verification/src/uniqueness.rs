//! No worker name may be given out twice by one manifest.

use vstd::prelude::*;
use crate::environment::EnvironmentView;
use crate::error::NameConflictError;
use crate::manifest::{Manifest, ManifestView};
use crate::pairs::{distinct_keys, has_key, lemma_pairs_map_distinct, lemma_pairs_map_keys, pairs_map};
use crate::text::same_text;

verus! {

/// The name `n` is given out twice: by the top level and by an environment
/// that names itself so, or by two environments that name themselves so.
pub open spec fn is_duplicate_name(
    top: Seq<char>,
    env: Map<Seq<char>, EnvironmentView>,
    n: Seq<char>,
) -> bool {
    ||| top == n && exists|k: Seq<char>| env.contains_key(k) && (#[trigger] env[k]).name == Some(n)
    ||| exists|j: Seq<char>, k: Seq<char>|
        j != k && env.contains_key(j) && env.contains_key(k) && (#[trigger] env[j]).name == Some(n)
            && (#[trigger] env[k]).name == Some(n)
}

impl ManifestView {
    /// The names that the manifest gives out more than once.
    pub open spec fn duplicate_names(self) -> Set<Seq<char>> {
        Set::new(|n: Seq<char>| is_duplicate_name(self.name, self.env, n))
    }
}

/// Entry `i` names itself `n`.
pub open spec fn names_itself(pairs: Seq<(Seq<char>, EnvironmentView)>, i: int, n: Seq<char>) -> bool {
    0 <= i < pairs.len() && pairs[i].1.name == Some(n)
}

/// One of the first `m` entries names itself `n`.
pub open spec fn named_before(pairs: Seq<(Seq<char>, EnvironmentView)>, m: int, n: Seq<char>) -> bool {
    exists|i: int| 0 <= i < m && #[trigger] names_itself(pairs, i, n)
}

/// Two of the first `m` entries name themselves `n`.
pub open spec fn named_twice_before(
    pairs: Seq<(Seq<char>, EnvironmentView)>,
    m: int,
    n: Seq<char>,
) -> bool {
    exists|i: int, j: int|
        0 <= i < j < m && #[trigger] names_itself(pairs, i, n) && #[trigger] names_itself(
            pairs,
            j,
            n,
        )
}

/// The top level and the first `m` entries give out `n` twice.
pub open spec fn duplicate_before(
    pairs: Seq<(Seq<char>, EnvironmentView)>,
    top: Seq<char>,
    m: int,
    n: Seq<char>,
) -> bool {
    (top == n && named_before(pairs, m, n)) || named_twice_before(pairs, m, n)
}

/// What one more entry adds to the names seen and to the names seen twice.
pub proof fn lemma_one_more_entry(
    pairs: Seq<(Seq<char>, EnvironmentView)>,
    top: Seq<char>,
    m: int,
    n: Seq<char>,
)
    requires
        0 <= m < pairs.len(),
    ensures
        named_before(pairs, m + 1, n) <==> named_before(pairs, m, n) || names_itself(pairs, m, n),
        duplicate_before(pairs, top, m + 1, n) <==> duplicate_before(pairs, top, m, n) || (
        names_itself(pairs, m, n) && (top == n || named_before(pairs, m, n))),
{
    if named_before(pairs, m, n) {
        let i = choose|i: int| 0 <= i < m && #[trigger] names_itself(pairs, i, n);
        assert(0 <= i < m + 1 && names_itself(pairs, i, n));
        if names_itself(pairs, m, n) {
            assert(0 <= i < m < m + 1 && names_itself(pairs, i, n) && names_itself(pairs, m, n));
        }
    }
    if names_itself(pairs, m, n) {
        assert(0 <= m < m + 1 && names_itself(pairs, m, n));
    }
    if named_twice_before(pairs, m, n) {
        let (i, j) = choose|i: int, j: int|
            0 <= i < j < m && #[trigger] names_itself(pairs, i, n) && #[trigger] names_itself(
                pairs,
                j,
                n,
            );
        assert(0 <= i < j < m + 1 && names_itself(pairs, i, n) && names_itself(pairs, j, n));
    }
    if named_twice_before(pairs, m + 1, n) {
        let (i, j) = choose|i: int, j: int|
            0 <= i < j < m + 1 && #[trigger] names_itself(pairs, i, n) && #[trigger] names_itself(
                pairs,
                j,
                n,
            );
        if j < m {
            assert(0 <= i < j < m && names_itself(pairs, i, n) && names_itself(pairs, j, n));
        } else {
            assert(0 <= i < m && names_itself(pairs, i, n));
        }
    }
}

/// Counted over a list of entries with distinct keys, the names given out
/// twice are those that the map of the entries gives out twice.
pub proof fn lemma_duplicates_of_map(
    pairs: Seq<(Seq<char>, EnvironmentView)>,
    top: Seq<char>,
    n: Seq<char>,
)
    requires
        distinct_keys(pairs),
    ensures
        duplicate_before(pairs, top, pairs.len() as int, n) <==> is_duplicate_name(
            top,
            pairs_map(pairs),
            n,
        ),
{
    let env = pairs_map(pairs);
    let m = pairs.len() as int;
    lemma_pairs_map_distinct(pairs);
    lemma_pairs_map_keys(pairs);
    if named_before(pairs, m, n) {
        let i = choose|i: int| 0 <= i < m && #[trigger] names_itself(pairs, i, n);
        assert(env.contains_key(pairs[i].0) && env[pairs[i].0].name == Some(n));
    }
    if named_twice_before(pairs, m, n) {
        let (i, j) = choose|i: int, j: int|
            0 <= i < j < m && #[trigger] names_itself(pairs, i, n) && #[trigger] names_itself(
                pairs,
                j,
                n,
            );
        assert(pairs[i].0 != pairs[j].0);
        assert(env.contains_key(pairs[i].0) && env[pairs[i].0].name == Some(n));
        assert(env.contains_key(pairs[j].0) && env[pairs[j].0].name == Some(n));
    }
    if exists|k: Seq<char>| env.contains_key(k) && (#[trigger] env[k]).name == Some(n) {
        let k = choose|k: Seq<char>| env.contains_key(k) && (#[trigger] env[k]).name == Some(n);
        assert(has_key(pairs, k));
        let i = choose|i: int| 0 <= i < pairs.len() && (#[trigger] pairs[i]).0 == k;
        assert(names_itself(pairs, i, n));
    }
    if exists|j: Seq<char>, k: Seq<char>|
        j != k && env.contains_key(j) && env.contains_key(k) && (#[trigger] env[j]).name == Some(n)
            && (#[trigger] env[k]).name == Some(n) {
        let (j, k) = choose|j: Seq<char>, k: Seq<char>|
            j != k && env.contains_key(j) && env.contains_key(k) && (#[trigger] env[j]).name
                == Some(n) && (#[trigger] env[k]).name == Some(n);
        assert(has_key(pairs, j));
        assert(has_key(pairs, k));
        let a = choose|i: int| 0 <= i < pairs.len() && (#[trigger] pairs[i]).0 == j;
        let b = choose|i: int| 0 <= i < pairs.len() && (#[trigger] pairs[i]).0 == k;
        assert(names_itself(pairs, a, n));
        assert(names_itself(pairs, b, n));
        if a < b {
            assert(0 <= a < b < m && names_itself(pairs, a, n) && names_itself(pairs, b, n));
        } else {
            assert(0 <= b < a < m && names_itself(pairs, b, n) && names_itself(pairs, a, n));
        }
    }
}

/// Whether `list` holds the text `s`.
pub fn contains_text(list: &Vec<String>, s: &str) -> (r: bool)
    ensures
        r == list.deep_view().contains(s@),
{
    let mut i: usize = 0;
    while i < list.len()
        invariant
            i <= list.len(),
            forall|j: int| 0 <= j < i ==> list.deep_view()[j] != s@,
        decreases list.len() - i,
    {
        if same_text(list[i].as_str(), s) {
            assert(list.deep_view()[i as int] == s@);
            return true;
        }
        i += 1;
    }
    false
}

/// Finds the names that the manifest gives out more than once. Succeeds
/// where there is none; else the error lists each of them once.
pub fn check_for_duplicate_names(manifest: &Manifest) -> (r: Result<(), NameConflictError>)
    ensures
        r is Ok <==> manifest@.duplicate_names() == Set::<Seq<char>>::empty(),
        r matches Err(e) ==> e@.no_duplicates() && e@.to_set() == manifest@.duplicate_names(),
{
    let ghost pairs = manifest.env.pairs();
    let ghost top = manifest.name@;
    let mut names: Vec<String> = Vec::new();
    let mut duplicate_names: Vec<String> = Vec::new();
    names.push(manifest.name.clone());
    proof {
        assert(names.deep_view() =~= seq![top]);
        assert(seq![top][0] == top);
        assert forall|n: Seq<char>| #[trigger]
            names.deep_view().contains(n) <==> n == top || named_before(pairs, 0, n) by {}
    }
    assert(duplicate_names.deep_view() =~= Seq::<Seq<char>>::empty());
    let count = manifest.env.len();
    let mut i: usize = 0;
    while i < count
        invariant
            i <= count,
            count == pairs.len(),
            pairs == manifest.env.pairs(),
            top == manifest.name@,
            forall|n: Seq<char>| #[trigger]
                names.deep_view().contains(n) <==> n == top || named_before(pairs, i as int, n),
            forall|n: Seq<char>| #[trigger]
                duplicate_names.deep_view().contains(n) <==> duplicate_before(
                    pairs,
                    top,
                    i as int,
                    n,
                ),
            duplicate_names.deep_view().no_duplicates(),
        decreases count - i,
    {
        let (_, environment) = manifest.env.entry(i);
        let ghost seen = names.deep_view();
        let ghost twice = duplicate_names.deep_view();
        proof {
            assert forall|n: Seq<char>|
                (named_before(pairs, i + 1, n) <==> named_before(pairs, i as int, n)
                    || names_itself(pairs, i as int, n)) && (duplicate_before(
                    pairs,
                    top,
                    i + 1,
                    n,
                ) <==> duplicate_before(pairs, top, i as int, n) || (names_itself(
                    pairs,
                    i as int,
                    n,
                ) && (top == n || named_before(pairs, i as int, n)))) by {
                lemma_one_more_entry(pairs, top, i as int, n);
            }
        }
        match &environment.name {
            Some(name) => {
                assert(forall|n: Seq<char>| names_itself(pairs, i as int, n) <==> n == name@);
                if contains_text(&names, name.as_str()) {
                    if !contains_text(&duplicate_names, name.as_str()) {
                        duplicate_names.push(name.clone());
                        assert(duplicate_names.deep_view() =~= twice.push(name@));
                        assert forall|n: Seq<char>| #[trigger]
                            duplicate_names.deep_view().contains(n) <==> twice.contains(n) || n
                                == name@ by {
                            if twice.contains(n) {
                                let j = choose|j: int| 0 <= j < twice.len() && twice[j] == n;
                                assert(twice.push(name@)[j] == n);
                            }
                            assert(twice.push(name@)[twice.len() as int] == name@);
                        }
                    }
                } else {
                    names.push(name.clone());
                    assert(names.deep_view() =~= seen.push(name@));
                    assert forall|n: Seq<char>| #[trigger]
                        names.deep_view().contains(n) <==> seen.contains(n) || n == name@ by {
                        if seen.contains(n) {
                            let j = choose|j: int| 0 <= j < seen.len() && seen[j] == n;
                            assert(seen.push(name@)[j] == n);
                        }
                        assert(seen.push(name@)[seen.len() as int] == name@);
                    }
                }
            },
            None => {
                assert(forall|n: Seq<char>| !names_itself(pairs, i as int, n));
            },
        }
        i += 1;
    }
    proof {
        assert forall|n: Seq<char>|
            duplicate_names.deep_view().contains(n) <==> manifest@.duplicate_names().contains(
                n,
            ) by {
            lemma_duplicates_of_map(pairs, top, n);
        }
        assert(duplicate_names.deep_view().to_set() =~= manifest@.duplicate_names());
        if duplicate_names.len() > 0 {
            assert(duplicate_names.deep_view().contains(duplicate_names.deep_view()[0]));
            assert(manifest@.duplicate_names().contains(duplicate_names.deep_view()[0]));
        } else {
            assert(manifest@.duplicate_names() =~= Set::<Seq<char>>::empty());
        }
    }
    if duplicate_names.len() > 0 {
        Err(NameConflictError { duplicates: duplicate_names })
    } else {
        Ok(())
    }
}

} // verus!
