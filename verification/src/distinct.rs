//! Keeping each element of a sequence once.
use vstd::prelude::*;

verus! {

/// The distinct elements of `v`, each once, where `same` decides equality.
pub fn distinct<T: Copy>(v: &Vec<T>, same: impl Fn(T, T) -> bool) -> (r: Vec<T>)
    requires
        forall|a: T, b: T| same.requires((a, b)),
        forall|a: T, b: T, s: bool| same.ensures((a, b), s) ==> s == (a == b),
    ensures
        r@.no_duplicates(),
        r@.to_set() == v@.to_set(),
{
    let mut r: Vec<T> = Vec::new();
    let mut i: usize = 0;
    while i < v.len()
        invariant
            i <= v@.len(),
            forall|a: T, b: T| same.requires((a, b)),
            forall|a: T, b: T, s: bool| same.ensures((a, b), s) ==> s == (a == b),
            r@.no_duplicates(),
            r@.to_set() == v@.take(i as int).to_set(),
        decreases v@.len() - i,
    {
        let t = v[i];
        let mut found = false;
        let mut j: usize = 0;
        while j < r.len()
            invariant
                j <= r@.len(),
                forall|a: T, b: T| same.requires((a, b)),
                forall|a: T, b: T, s: bool| same.ensures((a, b), s) ==> s == (a == b),
                found == exists|k: int| 0 <= k < j && r@[k] == t,
            decreases r@.len() - j,
        {
            if same(r[j], t) {
                found = true;
            }
            j = j + 1;
        }
        proof {
            assert(v@.take(i + 1) =~= v@.take(i as int).push(t));
            v@.take(i as int).lemma_push_to_set_commute(t);
        }
        if !found {
            proof {
                assert(!r@.contains(t));
                r@.lemma_push_to_set_commute(t);
            }
            r.push(t);
        } else {
            proof {
                assert(r@.contains(t));
                assert(v@.take(i as int).to_set().contains(t));
                assert(v@.take(i as int).to_set().insert(t) =~= v@.take(i as int).to_set());
            }
        }
        i = i + 1;
    }
    assert(v@.take(v@.len() as int) =~= v@);
    r
}

} // verus!
