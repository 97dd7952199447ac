//! Sets of repository names, held as lists in which no name occurs twice.

use vstd::prelude::*;

verus! {

/// Whether `name` is the text of one of the strings.
pub open spec fn has_name(names: Seq<String>, name: Seq<char>) -> bool {
    exists|i: int| 0 <= i < names.len() && #[trigger] names[i]@ == name
}

/// No text occurs at two places.
pub open spec fn distinct_names(names: Seq<String>) -> bool {
    forall|i: int, j: int|
        0 <= i < j < names.len() ==> #[trigger] names[i]@ != #[trigger] names[j]@
}

/// Whether `name` occurs in `names`.
pub fn contains_name(names: &Vec<String>, name: &String) -> (found: bool)
    ensures
        found == has_name(names@, name@),
{
    let mut i: usize = 0;
    while i < names.len()
        invariant
            i <= names@.len(),
            forall|k: int| 0 <= k < i ==> #[trigger] names@[k]@ != name@,
        decreases names@.len() - i,
    {
        if names[i] == *name {
            return true;
        }
        i += 1;
    }
    false
}

/// Adds to `into` each name of `from` that it does not hold yet.
pub fn add_names(into: &mut Vec<String>, from: &Vec<String>)
    requires
        distinct_names(old(into)@),
    ensures
        distinct_names(final(into)@),
        forall|name: Seq<char>|
            has_name(final(into)@, name) <==> has_name(old(into)@, name) || has_name(
                from@,
                name,
            ),
        old(into)@.len() <= final(into)@.len(),
        final(into)@.take(old(into)@.len() as int) == old(into)@,
{
    let ghost before = into@;
    let mut i: usize = 0;
    while i < from.len()
        invariant
            i <= from@.len(),
            distinct_names(into@),
            before.len() <= into@.len(),
            into@.take(before.len() as int) == before,
            forall|name: Seq<char>|
                has_name(into@, name) <==> has_name(before, name) || has_name(
                    from@.take(i as int),
                    name,
                ),
        decreases from@.len() - i,
    {
        let ghost prev = into@;
        let ghost seen = from@.take(i as int);
        let ghost seen_next = from@.take(i + 1);
        let found = contains_name(into, &from[i]);
        if !found {
            into.push(from[i].clone());
            proof {
                assert(into@.take(before.len() as int) =~= prev.take(before.len() as int));
                assert(forall|k: int| 0 <= k < prev.len() ==> into@[k] == prev[k]);
                assert(into@[prev.len() as int]@ == from@[i as int]@);
            }
        }
        proof {
            assert(seen_next[i as int] == from@[i as int]);
            assert forall|name: Seq<char>|
                has_name(into@, name) <==> has_name(before, name) || has_name(
                    seen_next,
                    name,
                ) by {
                if has_name(into@, name) {
                    let k = choose|k: int| 0 <= k < into@.len() && into@[k]@ == name;
                    if k < prev.len() {
                        assert(prev[k]@ == name);
                        assert(has_name(prev, name));
                        if has_name(seen, name) {
                            let m = choose|m: int| 0 <= m < seen.len() && seen[m]@ == name;
                            assert(seen_next[m]@ == name);
                        }
                    } else {
                        assert(seen_next[i as int]@ == name);
                    }
                }
                if has_name(before, name) {
                    assert(has_name(prev, name));
                    let k = choose|k: int| 0 <= k < prev.len() && prev[k]@ == name;
                    assert(into@[k]@ == name);
                }
                if has_name(seen_next, name) {
                    let m = choose|m: int| 0 <= m < seen_next.len() && seen_next[m]@ == name;
                    if m < i {
                        assert(seen[m]@ == name);
                        assert(has_name(seen, name));
                        assert(has_name(prev, name));
                        let k = choose|k: int| 0 <= k < prev.len() && prev[k]@ == name;
                        assert(into@[k]@ == name);
                    } else {
                        if found {
                            let k = choose|k: int| 0 <= k < prev.len() && prev[k]@ == name;
                            assert(into@[k]@ == name);
                        } else {
                            assert(into@[prev.len() as int]@ == name);
                        }
                    }
                }
            }
        }
        i += 1;
    }
    proof {
        assert(from@.take(i as int) =~= from@);
    }
}

/// The names of both lists as one set: each name once, whichever list or
/// lists it came from, and no other name.
pub fn reconcile(supplied: &Vec<String>, discovered: &Vec<String>) -> (all: Vec<String>)
    ensures
        distinct_names(all@),
        forall|name: Seq<char>|
            has_name(all@, name) <==> has_name(supplied@, name) || has_name(discovered@, name),
{
    let mut all: Vec<String> = Vec::new();
    add_names(&mut all, supplied);
    add_names(&mut all, discovered);
    all
}

/// Two lists without repeats that hold the same names are equally long. So
/// reconciling a reconciled list with itself, or with names that it already
/// holds, adds nothing: a name counts once however often it is supplied.
pub proof fn lemma_same_names_same_count(all: Seq<String>, other: Seq<String>)
    requires
        distinct_names(all),
        distinct_names(other),
        forall|name: Seq<char>| has_name(all, name) <==> has_name(other, name),
    ensures
        all.len() == other.len(),
{
    let a = Seq::new(all.len(), |i: int| all[i]@);
    let b = Seq::new(other.len(), |i: int| other[i]@);
    assert(a.no_duplicates());
    assert(b.no_duplicates());
    assert forall|name: Seq<char>| a.to_set().contains(name) <==> b.to_set().contains(name) by {
        if a.to_set().contains(name) {
            let i = choose|i: int| 0 <= i < a.len() && a[i] == name;
            assert(all[i]@ == name);
            assert(has_name(other, name));
            let j = choose|j: int| 0 <= j < other.len() && other[j]@ == name;
            assert(b[j] == name);
        }
        if b.to_set().contains(name) {
            let i = choose|i: int| 0 <= i < b.len() && b[i] == name;
            assert(other[i]@ == name);
            assert(has_name(all, name));
            let j = choose|j: int| 0 <= j < all.len() && all[j]@ == name;
            assert(a[j] == name);
        }
    }
    assert(a.to_set() =~= b.to_set());
    a.unique_seq_to_set();
    b.unique_seq_to_set();
}

} // verus!
