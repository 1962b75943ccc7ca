//! The order of package IDs and of the relations between packages, and sorting by it

use vstd::prelude::*;
use vstd::relations::{sorted_by, total_ordering};

use crate::text::chars_of;

verus! {

/// The order of texts: lexicographic by the code points of their characters,
/// which is the order of `str`.
pub open spec fn text_le(a: Seq<char>, b: Seq<char>) -> bool
    decreases a.len(),
{
    if a.len() == 0 {
        true
    } else if b.len() == 0 {
        false
    } else if a[0] == b[0] {
        text_le(a.drop_first(), b.drop_first())
    } else {
        a[0] < b[0]
    }
}

proof fn lemma_text_le_reflexive(a: Seq<char>)
    ensures
        text_le(a, a),
    decreases a.len(),
{
    if a.len() > 0 {
        lemma_text_le_reflexive(a.drop_first());
    }
}

proof fn lemma_text_le_antisymmetric(a: Seq<char>, b: Seq<char>)
    requires
        text_le(a, b),
        text_le(b, a),
    ensures
        a == b,
    decreases a.len(),
{
    if a.len() > 0 && b.len() > 0 {
        if a[0] == b[0] {
            lemma_text_le_antisymmetric(a.drop_first(), b.drop_first());
            assert(a =~= seq![a[0]] + a.drop_first());
            assert(b =~= seq![b[0]] + b.drop_first());
        } else {
        }
    } else {
        assert(a =~= b);
    }
}

proof fn lemma_text_le_transitive(a: Seq<char>, b: Seq<char>, c: Seq<char>)
    requires
        text_le(a, b),
        text_le(b, c),
    ensures
        text_le(a, c),
    decreases a.len(),
{
    if a.len() > 0 && b.len() > 0 && c.len() > 0 {
        if a[0] == b[0] && b[0] == c[0] {
            lemma_text_le_transitive(a.drop_first(), b.drop_first(), c.drop_first());
        }
    }
}

proof fn lemma_text_le_total(a: Seq<char>, b: Seq<char>)
    ensures
        text_le(a, b) || text_le(b, a),
    decreases a.len(),
{
    if a.len() > 0 && b.len() > 0 {
        if a[0] == b[0] {
            lemma_text_le_total(a.drop_first(), b.drop_first());
        } else {
        }
    }
}

/// The order of texts is a total order.
pub proof fn lemma_text_order()
    ensures
        forall|a: Seq<char>| #[trigger] text_le(a, a),
        forall|a: Seq<char>, b: Seq<char>| #[trigger] text_le(a, b) && #[trigger] text_le(b, a) ==> a == b,
        forall|a: Seq<char>, b: Seq<char>, c: Seq<char>|
            #[trigger] text_le(a, b) && #[trigger] text_le(b, c) ==> text_le(a, c),
        forall|a: Seq<char>, b: Seq<char>| #[trigger] text_le(a, b) || text_le(b, a),
{
    assert forall|a: Seq<char>| #[trigger] text_le(a, a) by {
        lemma_text_le_reflexive(a);
    }
    assert forall|a: Seq<char>, b: Seq<char>| #[trigger] text_le(a, b) && #[trigger] text_le(b, a) implies a == b by {
        lemma_text_le_antisymmetric(a, b);
    }
    assert forall|a: Seq<char>, b: Seq<char>, c: Seq<char>|
        #[trigger] text_le(a, b) && #[trigger] text_le(b, c) implies text_le(a, c) by {
        lemma_text_le_transitive(a, b, c);
    }
    assert forall|a: Seq<char>, b: Seq<char>| #[trigger] text_le(a, b) || text_le(b, a) by {
        lemma_text_le_total(a, b);
    }
}

/// Whether the first text comes before the second or equals it
pub fn text_less_or_equal(a: &str, b: &str) -> (r: bool)
    ensures
        r == text_le(a@, b@),
{
    let ca = chars_of(a);
    let cb = chars_of(b);
    let mut i: usize = 0;
    assert(a@.skip(0) =~= a@);
    assert(b@.skip(0) =~= b@);
    while i < ca.len() && i < cb.len()
        invariant
            ca@ == a@,
            cb@ == b@,
            i <= ca@.len(),
            i <= cb@.len(),
            text_le(a@, b@) == text_le(a@.skip(i as int), b@.skip(i as int)),
        decreases ca@.len() - i,
    {
        let x = ca[i];
        let y = cb[i];
        assert(a@.skip(i as int)[0] == x);
        assert(b@.skip(i as int)[0] == y);
        if x != y {
            return x < y;
        }
        assert(a@.skip(i as int).drop_first() =~= a@.skip(i + 1));
        assert(b@.skip(i as int).drop_first() =~= b@.skip(i + 1));
        i = i + 1;
    }
    ca.len() <= cb.len()
}

/// An item that can be sorted, by the order of its view
pub trait SortKey: View + Sized {
    /// The order of the views
    spec fn key_order() -> spec_fn(Self::V, Self::V) -> bool;

    /// The order is a total order.
    proof fn lemma_key_order()
        ensures
            total_ordering(Self::key_order()),
    ;

    /// Whether this item comes before the other or ties with it
    fn key_le(&self, other: &Self) -> (r: bool)
        ensures
            r == (Self::key_order())(self@, other@),
    ;
}

impl SortKey for String {
    open spec fn key_order() -> spec_fn(Seq<char>, Seq<char>) -> bool {
        |a: Seq<char>, b: Seq<char>| text_le(a, b)
    }

    proof fn lemma_key_order() {
        lemma_text_order();
    }

    fn key_le(&self, other: &Self) -> (r: bool) {
        text_less_or_equal(self.as_str(), other.as_str())
    }
}

/// The order of a text with a flag: by the text, then `false` before `true`.
pub open spec fn flagged_le(a: (Seq<char>, bool), b: (Seq<char>, bool)) -> bool {
    if a.0 == b.0 {
        !a.1 || b.1
    } else {
        text_le(a.0, b.0)
    }
}

impl SortKey for (String, bool) {
    open spec fn key_order() -> spec_fn((Seq<char>, bool), (Seq<char>, bool)) -> bool {
        |a: (Seq<char>, bool), b: (Seq<char>, bool)| flagged_le(a, b)
    }

    proof fn lemma_key_order() {
        lemma_text_order();
    }

    fn key_le(&self, other: &Self) -> (r: bool) {
        if crate::text::str_eq(self.0.as_str(), other.0.as_str()) {
            !self.1 || other.1
        } else {
            text_less_or_equal(self.0.as_str(), other.0.as_str())
        }
    }
}

/// The order of two texts: by the first, then by the second.
pub open spec fn pair_le(a: (Seq<char>, Seq<char>), b: (Seq<char>, Seq<char>)) -> bool {
    if a.0 == b.0 {
        text_le(a.1, b.1)
    } else {
        text_le(a.0, b.0)
    }
}

impl SortKey for (String, String) {
    open spec fn key_order() -> spec_fn((Seq<char>, Seq<char>), (Seq<char>, Seq<char>)) -> bool {
        |a: (Seq<char>, Seq<char>), b: (Seq<char>, Seq<char>)| pair_le(a, b)
    }

    proof fn lemma_key_order() {
        lemma_text_order();
    }

    fn key_le(&self, other: &Self) -> (r: bool) {
        if crate::text::str_eq(self.0.as_str(), other.0.as_str()) {
            text_less_or_equal(self.1.as_str(), other.1.as_str())
        } else {
            text_less_or_equal(self.0.as_str(), other.0.as_str())
        }
    }
}

/// The views of a sequence of items.
pub open spec fn views<T: View>(s: Seq<T>) -> Seq<T::V> {
    s.map_values(|x: T| x@)
}

/// The items in ascending order
pub fn sorted<T: SortKey>(v: Vec<T>) -> (r: Vec<T>)
    ensures
        views(r@) == views(v@).sort_by(T::key_order()),
{
    broadcast use vstd::seq_lib::group_to_multiset_ensures;
    broadcast use vstd::multiset::group_multiset_axioms;

    let ghost leq = T::key_order();
    let ghost all = views(v@);
    proof {
        T::lemma_key_order();
    }
    let mut rest = v;
    let mut out: Vec<T> = Vec::new();
    proof {
        assert(views(out@) =~= Seq::<T::V>::empty());
        assert(views(rest@) =~= all);
    }
    while rest.len() > 0
        invariant
            total_ordering(leq),
            leq == T::key_order(),
            sorted_by(views(out@), leq),
            views(out@).to_multiset().add(views(rest@).to_multiset()) == all.to_multiset(),
        decreases rest@.len(),
    {
        let ghost before = views(rest@);
        let x = rest.pop().unwrap();
        proof {
            assert(before =~= views(rest@).push(x@));
        }
        let mut j: usize = 0;
        while j < out.len() && out[j].key_le(&x)
            invariant
                j <= out@.len(),
                leq == T::key_order(),
                forall|k: int| 0 <= k < j ==> #[trigger] leq(views(out@)[k], x@),
            decreases out@.len() - j,
        {
            j = j + 1;
        }
        let ghost prev = views(out@);
        out.insert(j, x);
        proof {
            assert(views(out@) =~= prev.insert(j as int, x@));
            if j < prev.len() {
                assert(leq(x@, prev[j as int]));
            }
            assert forall|a: int, b: int| 0 <= a < b < views(out@).len() implies #[trigger] leq(
                views(out@)[a],
                views(out@)[b],
            ) by {
                if b < j {
                } else if a < j && b == j {
                } else if a < j {
                    assert(leq(prev[a], x@));
                    assert(leq(x@, prev[j as int]));
                    assert(leq(prev[j as int], prev[b - 1]) || j == b - 1);
                } else if a == j {
                    assert(leq(prev[j as int], prev[b - 1]) || j == b - 1);
                } else {
                    assert(leq(prev[a - 1], prev[b - 1]));
                }
            }
            vstd::seq_lib::to_multiset_insert(prev, j as int, x@);
            vstd::seq_lib::to_multiset_build(views(rest@), x@);
            assert(views(out@).to_multiset().add(views(rest@).to_multiset()) =~= prev.to_multiset().add(
                before.to_multiset(),
            ));
        }
    }
    proof {
        assert(views(rest@) =~= Seq::<T::V>::empty());
        assert(views(out@).to_multiset() =~= all.to_multiset());
        all.lemma_sort_by_ensures(leq);
        vstd::seq_lib::lemma_sorted_unique(views(out@), all.sort_by(leq), leq);
    }
    out
}

} // verus!
