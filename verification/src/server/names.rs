//! Names and their places in a sequence: the lookup that a registry rests on.

use vstd::prelude::*;

verus! {

/// Whether `i` is the first place of `name` among `names`.
pub open spec fn first_at(names: Seq<Seq<char>>, name: Seq<char>, i: int) -> bool {
    &&& 0 <= i < names.len()
    &&& names[i] == name
    &&& forall|j: int| 0 <= j < i ==> #[trigger] names[j] != name
}

/// The first place of `name` among `names`, if it has one.
pub open spec fn place(names: Seq<Seq<char>>, name: Seq<char>) -> Option<int> {
    if exists|i: int| first_at(names, name, i) {
        Some(choose|i: int| first_at(names, name, i))
    } else {
        None
    }
}

/// The first place of a name is the only one that `place` can give.
pub proof fn lemma_place_is_first(names: Seq<Seq<char>>, name: Seq<char>, i: int)
    requires
        first_at(names, name, i),
    ensures
        place(names, name) == Some(i),
{
    let chosen = choose|k: int| first_at(names, name, k);
    assert(first_at(names, name, chosen));
    if chosen < i {
        assert(names[chosen] != name);
    }
    if i < chosen {
        assert(names[i] != name);
    }
}

/// A name that stands somewhere has a first place.
pub proof fn lemma_some_place(names: Seq<Seq<char>>, name: Seq<char>, i: int)
    requires
        0 <= i < names.len(),
        names[i] == name,
    ensures
        place(names, name) is Some,
    decreases i,
{
    if forall|j: int| 0 <= j < i ==> #[trigger] names[j] != name {
        assert(first_at(names, name, i));
    } else {
        let j = choose|j: int| 0 <= j < i && #[trigger] names[j] == name;
        lemma_some_place(names, name, j);
    }
}

/// Appending a name that has no place yet gives it the last place and
/// leaves every other name where it was.
pub proof fn lemma_place_after_push(names: Seq<Seq<char>>, name: Seq<char>)
    requires
        place(names, name) is None,
    ensures
        place(names.push(name), name) == Some(names.len() as int),
        forall|other: Seq<char>|
            other != name ==> #[trigger] place(names.push(name), other) == place(names, other),
{
    let longer = names.push(name);
    assert forall|j: int| 0 <= j < names.len() implies #[trigger] longer[j] != name by {
        if names[j] == name {
            lemma_some_place(names, name, j);
        }
    }
    assert(first_at(longer, name, names.len() as int));
    lemma_place_is_first(longer, name, names.len() as int);
    assert forall|other: Seq<char>| other != name implies #[trigger] place(longer, other)
        == place(names, other) by {
        if exists|i: int| first_at(names, other, i) {
            let i = choose|i: int| first_at(names, other, i);
            assert(first_at(longer, other, i)) by {
                assert forall|j: int| 0 <= j < i implies #[trigger] longer[j] != other by {
                    assert(names[j] != other);
                }
            }
            lemma_place_is_first(longer, other, i);
        } else {
            assert forall|j: int| 0 <= j < longer.len() implies #[trigger] longer[j] != other by {
                if j < names.len() && names[j] == other {
                    lemma_some_place(names, other, j);
                }
            }
            lemma_no_place(longer, other);
        }
    }
}

/// Among names that are all different, removing one takes its place away
/// and leaves every other name a place.
pub proof fn lemma_place_after_remove(names: Seq<Seq<char>>, i: int)
    requires
        0 <= i < names.len(),
        forall|a: int, b: int| 0 <= a < b < names.len() ==> #[trigger] names[a] != #[trigger] names[b],
    ensures
        place(names.remove(i), names[i]) is None,
        forall|other: Seq<char>|
            other != names[i] && place(names, other) is Some ==> (#[trigger] place(
                names.remove(i),
                other,
            )) is Some,
{
    let shorter = names.remove(i);
    assert forall|j: int| 0 <= j < shorter.len() implies #[trigger] shorter[j] != names[i] by {
        if j < i {
            assert(shorter[j] == names[j]);
        } else {
            assert(shorter[j] == names[j + 1]);
        }
    }
    lemma_no_place(shorter, names[i]);
    assert forall|other: Seq<char>| other != names[i] && place(names, other) is Some implies (
    #[trigger] place(shorter, other)) is Some by {
        let k = choose|k: int| first_at(names, other, k);
        assert(first_at(names, other, k));
        if k < i {
            assert(shorter[k] == names[k]);
            lemma_some_place(shorter, other, k);
        } else {
            assert(shorter[k - 1] == names[k]);
            lemma_some_place(shorter, other, k - 1);
        }
    }
}

/// A name that stands nowhere has no place.
pub proof fn lemma_no_place(names: Seq<Seq<char>>, name: Seq<char>)
    requires
        forall|j: int| 0 <= j < names.len() ==> #[trigger] names[j] != name,
    ensures
        place(names, name) is None,
{
    if exists|i: int| first_at(names, name, i) {
        let i = choose|i: int| first_at(names, name, i);
        assert(names[i] != name);
    }
}

} // verus!
