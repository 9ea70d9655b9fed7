//! Lookups by name in lists that behave like maps keyed by name: the keys are
//! the distinct names in order of first appearance, and a key stands for the
//! last element that carries it.
use vstd::prelude::*;

verus! {

/// Whether position `i` holds the first appearance of its name.
pub open spec fn first_occurrence(names: Seq<Seq<char>>, i: int) -> bool {
    forall|j: int| 0 <= j < i ==> names[j] != names[i]
}

/// The last position that holds `name`, or -1 when there is none.
pub open spec fn last_index_of(names: Seq<Seq<char>>, name: Seq<char>) -> int
    decreases names.len(),
{
    if names.len() == 0 {
        -1
    } else if names.last() == name {
        names.len() - 1
    } else {
        last_index_of(names.drop_last(), name)
    }
}

/// `last_index_of` finds `name` exactly when it occurs, at its last position.
pub proof fn lemma_last_index_of(names: Seq<Seq<char>>, name: Seq<char>)
    ensures
        names.contains(name) <==> last_index_of(names, name) >= 0,
        last_index_of(names, name) >= 0 ==> {
            &&& last_index_of(names, name) < names.len()
            &&& names[last_index_of(names, name)] == name
            &&& forall|j: int|
                last_index_of(names, name) < j < names.len() ==> names[j] != name
        },
        last_index_of(names, name) >= -1,
    decreases names.len(),
{
    if names.len() > 0 {
        let init = names.drop_last();
        lemma_last_index_of(init, name);
        if names.last() != name {
            if names.contains(name) {
                let k = choose|k: int| 0 <= k < names.len() && names[k] == name;
                assert(init[k] == name);
            }
            if init.contains(name) {
                let k = choose|k: int| 0 <= k < init.len() && init[k] == name;
                assert(names[k] == name);
                let idx = last_index_of(init, name);
                assert forall|j: int| idx < j < names.len() implies names[j] != name by {
                    if j < names.len() - 1 {
                        assert(init[j] == names[j]);
                    }
                }
            }
        } else {
            assert(names[names.len() - 1] == name);
        }
    }
}

/// Whether position `i` holds the first appearance of its name.
pub fn is_first_occurrence(names: &Vec<String>, i: usize) -> (r: bool)
    requires
        i < names.len(),
    ensures
        r == first_occurrence(names.deep_view(), i as int),
{
    let mut j: usize = 0;
    while j < i
        invariant
            j <= i,
            i < names.len(),
            forall|k: int| 0 <= k < j ==> names.deep_view()[k] != names.deep_view()[i as int],
        decreases i - j,
    {
        if names[j] == names[i] {
            assert(names.deep_view()[j as int] == names.deep_view()[i as int]);
            return false;
        }
        j = j + 1;
    }
    true
}

/// The last position that holds `name`, if any.
pub fn last_index(names: &Vec<String>, name: &String) -> (r: Option<usize>)
    ensures
        match r {
            Some(i) => i < names.len() && i as int == last_index_of(names.deep_view(), name@),
            None => last_index_of(names.deep_view(), name@) == -1,
        },
        r is Some <==> names.deep_view().contains(name@),
{
    proof {
        lemma_last_index_of(names.deep_view(), name@);
    }
    let mut i: usize = names.len();
    while i > 0
        invariant
            i <= names.len(),
            forall|k: int| i <= k < names.len() ==> names.deep_view()[k] != name@,
        decreases i,
    {
        if names[i - 1] == *name {
            proof {
                lemma_last_index_spot(names.deep_view(), name@, i - 1);
                assert(names.deep_view()[i - 1] == name@);
            }
            return Some(i - 1);
        }
        i = i - 1;
    }
    proof {
        if names.deep_view().contains(name@) {
            let k = choose|k: int| 0 <= k < names.deep_view().len() && names.deep_view()[k] == name@;
            assert(names.deep_view()[k] != name@);
        }
    }
    None
}

proof fn lemma_last_index_spot(names: Seq<Seq<char>>, name: Seq<char>, i: int)
    requires
        0 <= i < names.len(),
        names[i] == name,
        forall|k: int| i < k < names.len() ==> names[k] != name,
    ensures
        last_index_of(names, name) == i,
{
    lemma_last_index_of(names, name);
    assert(names.contains(name));
}

/// Whether `name` occurs in `names`.
pub fn contains_name(names: &Vec<String>, name: &String) -> (r: bool)
    ensures
        r == names.deep_view().contains(name@),
{
    last_index(names, name).is_some()
}

} // verus!
