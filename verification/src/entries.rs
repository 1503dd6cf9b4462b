//! The order of entry names and the sorted listing of a directory.

use vstd::prelude::*;
use vstd::relations::{sorted_by, total_ordering};
use vstd::seq_lib::{group_to_multiset_ensures, lemma_sorted_unique};
use vstd::std_specs::iter::IteratorSpec;

verus! {

/// `a` comes no later than `b`: names are compared character by character,
/// by code point, and a name comes before every name that it is a proper
/// prefix of.
pub open spec fn name_le(a: Seq<char>, b: Seq<char>) -> bool
    decreases a.len(),
{
    if a.len() == 0 {
        true
    } else if b.len() == 0 {
        false
    } else if a[0] == b[0] {
        name_le(a.drop_first(), b.drop_first())
    } else {
        a[0] < b[0]
    }
}

/// The order of names as a relation.
pub open spec fn name_order() -> spec_fn(Seq<char>, Seq<char>) -> bool {
    |a: Seq<char>, b: Seq<char>| name_le(a, b)
}

/// The names that a vector of strings holds.
pub open spec fn names(v: Seq<String>) -> Seq<Seq<char>> {
    Seq::new(v.len(), |i: int| v[i]@)
}

/// The listing of a directory whose children are `children`: the same
/// names, in the order of names.
pub open spec fn sorted_names(children: Seq<Seq<char>>) -> Seq<Seq<char>> {
    children.sort_by(name_order())
}

/// Every name comes no later than itself.
pub proof fn lemma_name_le_reflexive(a: Seq<char>)
    ensures
        name_le(a, a),
    decreases a.len(),
{
    if a.len() > 0 {
        lemma_name_le_reflexive(a.drop_first());
    }
}

/// Two names that each come no later than the other are the same name.
pub proof fn lemma_name_le_antisymmetric(a: Seq<char>, b: Seq<char>)
    requires
        name_le(a, b),
        name_le(b, a),
    ensures
        a == b,
    decreases a.len(),
{
    if a.len() == 0 || b.len() == 0 {
        assert(a =~= b);
    } else {
        lemma_name_le_antisymmetric(a.drop_first(), b.drop_first());
        assert(a =~= seq![a[0]] + a.drop_first());
        assert(b =~= seq![b[0]] + b.drop_first());
    }
}

/// The order of names is transitive.
pub proof fn lemma_name_le_transitive(a: Seq<char>, b: Seq<char>, c: Seq<char>)
    requires
        name_le(a, b),
        name_le(b, c),
    ensures
        name_le(a, c),
    decreases a.len(),
{
    if a.len() > 0 && b.len() > 0 && c.len() > 0 && a[0] == b[0] && b[0] == c[0] {
        lemma_name_le_transitive(a.drop_first(), b.drop_first(), c.drop_first());
    }
}

/// Of two names, one comes no later than the other.
pub proof fn lemma_name_le_total(a: Seq<char>, b: Seq<char>)
    ensures
        name_le(a, b) || name_le(b, a),
    decreases a.len(),
{
    if a.len() > 0 && b.len() > 0 && a[0] == b[0] {
        lemma_name_le_total(a.drop_first(), b.drop_first());
    }
}

/// The order of names is a total order.
pub proof fn lemma_name_order_total()
    ensures
        total_ordering(name_order()),
{
    let r = name_order();
    assert forall|x: Seq<char>| #[trigger] r(x, x) by {
        lemma_name_le_reflexive(x);
    }
    assert forall|x: Seq<char>, y: Seq<char>| #[trigger] r(x, y) && #[trigger] r(y, x) implies x
        == y by {
        lemma_name_le_antisymmetric(x, y);
    }
    assert forall|x: Seq<char>, y: Seq<char>, z: Seq<char>| #[trigger]
        r(x, y) && #[trigger] r(y, z) implies r(x, z) by {
        lemma_name_le_transitive(x, y, z);
    }
    assert forall|x: Seq<char>, y: Seq<char>| #[trigger] r(x, y) || #[trigger] r(y, x) by {
        lemma_name_le_total(x, y);
    }
}

/// The listing holds each child as often as the directory gave it, in
/// the order of names; so a listing of distinct children has no name
/// twice. It is the only sequence of which both hold.
pub proof fn lemma_sorted_names(children: Seq<Seq<char>>)
    ensures
        sorted_by(sorted_names(children), name_order()),
        sorted_names(children).to_multiset() == children.to_multiset(),
        sorted_names(children).len() == children.len(),
        children.no_duplicates() ==> sorted_names(children).no_duplicates(),
        forall|other: Seq<Seq<char>>|
            sorted_by(other, name_order()) && other.to_multiset() == children.to_multiset()
                ==> other == sorted_names(children),
{
    broadcast use group_to_multiset_ensures;

    lemma_name_order_total();
    children.lemma_sort_by_ensures(name_order());
    children.to_multiset_ensures();
    sorted_names(children).to_multiset_ensures();
    if children.no_duplicates() {
        children.lemma_multiset_has_no_duplicates();
        sorted_names(children).lemma_multiset_has_no_duplicates_conv();
    }
    assert forall|other: Seq<Seq<char>>|
        sorted_by(other, name_order()) && other.to_multiset() == children.to_multiset() implies other
        == sorted_names(children) by {
        lemma_sorted_unique(other, sorted_names(children), name_order());
    }
}

/// Whether `a` comes no later than `b` in the order of names.
pub fn name_precedes(a: &str, b: &str) -> (le: bool)
    ensures
        le == name_le(a@, b@),
{
    let mut left = a.chars();
    let mut right = b.chars();
    let ghost mut done: int = 0;
    loop
        invariant
            0 <= done <= a@.len(),
            left.remaining() == a@.skip(done),
            name_le(a@, b@) == name_le(left.remaining(), right.remaining()),
        decreases a@.len() - done,
    {
        match left.next() {
            None => {
                return true;
            },
            Some(x) => {
                match right.next() {
                    None => {
                        return false;
                    },
                    Some(y) => {
                        if x != y {
                            return x < y;
                        }
                    },
                }
            },
        }
        proof {
            assert(a@.skip(done).drop_first() =~= a@.skip(done + 1));
            done = done + 1;
        }
    }
}

/// The place of `name` among the sorted `entries`: every entry before it
/// comes no later than `name`, and `name` comes no later than every entry
/// from it on.
fn insertion_point(entries: &Vec<String>, name: &str) -> (at: usize)
    requires
        sorted_by(names(entries@), name_order()),
    ensures
        at <= entries.len(),
        forall|j: int| 0 <= j < at ==> name_le(#[trigger] names(entries@)[j], name@),
        forall|j: int| at <= j < entries.len() ==> name_le(name@, #[trigger] names(entries@)[j]),
{
    let ghost listed = names(entries@);
    let mut low: usize = 0;
    let mut high: usize = entries.len();
    while low < high
        invariant
            low <= high <= entries.len(),
            listed == names(entries@),
            sorted_by(listed, name_order()),
            forall|j: int| 0 <= j < low ==> name_le(#[trigger] listed[j], name@),
            forall|j: int| high <= j < entries.len() ==> name_le(name@, #[trigger] listed[j]),
        decreases high - low,
    {
        let middle: usize = low + (high - low) / 2;
        if name_precedes(entries[middle].as_str(), name) {
            assert forall|j: int| 0 <= j < middle + 1 implies name_le(
                #[trigger] listed[j],
                name@,
            ) by {
                if j < middle {
                    assert(name_order()(listed[j], listed[middle as int]));
                    lemma_name_le_transitive(listed[j], listed[middle as int], name@);
                }
            }
            low = middle + 1;
        } else {
            assert forall|j: int| middle <= j < entries.len() implies name_le(
                name@,
                #[trigger] listed[j],
            ) by {
                lemma_name_le_total(listed[middle as int], name@);
                if middle < j {
                    assert(name_order()(listed[middle as int], listed[j]));
                    lemma_name_le_transitive(name@, listed[middle as int], listed[j]);
                }
            }
            high = middle;
        }
    }
    low
}

/// The sorted listing of a directory whose immediate children are
/// `children`, in whatever order the directory gave them.
pub fn read_entries(children: Vec<String>) -> (entries: Vec<String>)
    ensures
        names(entries@) == sorted_names(names(children@)),
        sorted_by(names(entries@), name_order()),
        names(entries@).to_multiset() == names(children@).to_multiset(),
        names(children@).no_duplicates() ==> names(entries@).no_duplicates(),
{
    let ghost given = names(children@);
    let mut rest = children;
    let mut entries: Vec<String> = Vec::new();
    assert(given.skip(given.len() as int) =~= names(entries@));
    while rest.len() > 0
        invariant
            rest@.len() <= given.len(),
            names(rest@) == given.take(rest@.len() as int),
            sorted_by(names(entries@), name_order()),
            names(entries@).to_multiset() == given.skip(rest@.len() as int).to_multiset(),
        decreases rest.len(),
    {
        let ghost listed = names(entries@);
        let ghost left = rest@.len() as int;
        let name = rest.pop().unwrap();
        let at = insertion_point(&entries, name.as_str());
        entries.insert(at, name);
        proof {
            broadcast use group_to_multiset_ensures;

            assert(name@ == given.take(left)[left - 1]);
            assert(names(rest@) =~= given.take(left - 1));
            assert(names(entries@) =~= listed.insert(at as int, name@));
            assert(given.skip(left - 1) =~= given.skip(left).insert(0, name@));
            assert forall|i: int, j: int| 0 <= i < j < names(entries@).len() implies name_order()(
                #[trigger] names(entries@)[i],
                #[trigger] names(entries@)[j],
            ) by {
                let before_i = if i < at { i } else { i - 1 };
                let before_j = if j < at { j } else { j - 1 };
                if i == at {
                    assert(name_le(name@, listed[before_j]));
                } else if j == at {
                    assert(name_le(listed[before_i], name@));
                } else {
                    assert(name_order()(listed[before_i], listed[before_j]));
                }
            }
        }
    }
    proof {
        assert(given.skip(0) =~= given);
        lemma_sorted_names(given);
    }
    entries
}

} // verus!
