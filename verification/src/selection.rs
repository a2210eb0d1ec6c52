//! The selection set: result identifiers the user has marked. Membership is
//! keyed by identifier, never by position in the result sequence, so a mark
//! survives a new search whose results contain the same identifier.
//!
//! The set is carried as a vector of identifier strings with no duplicate
//! views; its mathematical model is the set of those views.

use vstd::prelude::*;

verus! {

/// Some element of `v` views to the identifier `id`.
pub open spec fn seq_has_id(v: Seq<String>, id: Seq<char>) -> bool {
    exists|i: int| 0 <= i < v.len() && v[i]@ == id
}

/// No two elements of `v` view to the same identifier.
pub open spec fn unique_ids(v: Seq<String>) -> bool {
    forall|i: int, j: int| 0 <= i < j < v.len() ==> v[i]@ != v[j]@
}

/// The set of identifiers that `v` holds.
pub open spec fn id_set(v: Seq<String>) -> Set<Seq<char>> {
    Set::new(|id: Seq<char>| seq_has_id(v, id))
}

/// What one toggle does to a selection set: insert the identifier when it
/// is absent, remove it when it is present.
pub open spec fn spec_toggled(sel: Set<Seq<char>>, id: Seq<char>) -> Set<Seq<char>> {
    if sel.contains(id) {
        sel.remove(id)
    } else {
        sel.insert(id)
    }
}

/// Toggling an identifier is its own inverse: toggling it twice leaves the
/// selection set exactly as it was.
pub proof fn lemma_toggle_involutive(sel: Set<Seq<char>>, id: Seq<char>)
    ensures
        spec_toggled(spec_toggled(sel, id), id) == sel,
{
    assert(spec_toggled(spec_toggled(sel, id), id) =~= sel);
}

/// Removing the element at `i` from a duplicate-free vector removes exactly
/// its identifier from the set, and keeps the vector duplicate-free.
pub proof fn lemma_remove_id(v: Seq<String>, i: int)
    requires
        0 <= i < v.len(),
        unique_ids(v),
    ensures
        unique_ids(v.remove(i)),
        forall|x: Seq<char>|
            seq_has_id(v.remove(i), x) == (seq_has_id(v, x) && x != v[i]@),
{
    v.remove_ensures(i);
    assert forall|x: Seq<char>|
        seq_has_id(v.remove(i), x) == (seq_has_id(v, x) && x != v[i]@) by {
        if seq_has_id(v.remove(i), x) {
            let j = choose|j: int| 0 <= j < v.remove(i).len() && v.remove(i)[j]@ == x;
            if j < i {
                assert(v[j]@ == x);
            } else {
                assert(v[j + 1]@ == x);
            }
        }
        if seq_has_id(v, x) && x != v[i]@ {
            let j = choose|j: int| 0 <= j < v.len() && v[j]@ == x;
            if j < i {
                assert(v.remove(i)[j]@ == x);
            } else {
                assert(v.remove(i)[j - 1]@ == x);
            }
        }
    }
}

/// Appending an element absent from a duplicate-free vector adds exactly
/// its identifier to the set, and keeps the vector duplicate-free.
pub proof fn lemma_push_id(v: Seq<String>, s: String)
    requires
        unique_ids(v),
        !seq_has_id(v, s@),
    ensures
        unique_ids(v.push(s)),
        forall|x: Seq<char>|
            seq_has_id(v.push(s), x) == (seq_has_id(v, x) || x == s@),
{
    assert forall|x: Seq<char>|
        seq_has_id(v.push(s), x) == (seq_has_id(v, x) || x == s@) by {
        if seq_has_id(v.push(s), x) {
            let j = choose|j: int| 0 <= j < v.push(s).len() && v.push(s)[j]@ == x;
            if j < v.len() {
                assert(v[j]@ == x);
            }
        }
        if seq_has_id(v, x) {
            let j = choose|j: int| 0 <= j < v.len() && v[j]@ == x;
            assert(v.push(s)[j]@ == x);
        }
        if x == s@ {
            assert(v.push(s)[v.len() as int]@ == x);
        }
    }
}

/// Position of the element of `v` that views to `id`, if any.
pub fn find_id(v: &Vec<String>, id: &String) -> (r: Option<usize>)
    ensures
        match r {
            Some(i) => i < v@.len() && v@[i as int]@ == id@,
            None => !seq_has_id(v@, id@),
        },
{
    let mut i: usize = 0;
    while i < v.len()
        invariant
            i <= v@.len(),
            forall|j: int| 0 <= j < i ==> v@[j]@ != id@,
        decreases v@.len() - i,
    {
        if v[i] == *id {
            return Some(i);
        }
        i += 1;
    }
    None
}

/// Membership test: is `id` in the selection held by `v`?
pub fn contains_id(v: &Vec<String>, id: &String) -> (r: bool)
    ensures
        r == seq_has_id(v@, id@),
{
    match find_id(v, id) {
        Some(_) => true,
        Option::None => false,
    }
}

/// Toggle `id` in the selection held by `v`: remove its entry when present,
/// append it when absent. The identifier's membership flips; every other
/// identifier's membership is untouched.
pub fn toggle_id(v: &mut Vec<String>, id: String)
    requires
        unique_ids(old(v)@),
    ensures
        unique_ids(final(v)@),
        forall|x: Seq<char>|
            seq_has_id(final(v)@, x) == (if x == id@ {
                !seq_has_id(old(v)@, x)
            } else {
                seq_has_id(old(v)@, x)
            }),
        id_set(final(v)@) == spec_toggled(id_set(old(v)@), id@),
{
    match find_id(v, &id) {
        Some(i) => {
            proof {
                lemma_remove_id(v@, i as int);
                assert(v@[i as int]@ == id@);
            }
            v.remove(i);
            proof {
                assert forall|x: Seq<char>|
                    seq_has_id(v@, x) == (if x == id@ {
                        !seq_has_id(old(v)@, x)
                    } else {
                        seq_has_id(old(v)@, x)
                    }) by {
                    if x == id@ {
                        // a second entry viewing to `id` would break uniqueness
                    }
                }
            }
        },
        Option::None => {
            proof {
                lemma_push_id(v@, id);
            }
            let ghost pre = v@;
            v.push(id);
            proof {
                assert(v@ == pre.push(id));
            }
        },
    }
    proof {
        assert(id_set(v@) =~= spec_toggled(id_set(old(v)@), id@));
    }
}

} // verus!
