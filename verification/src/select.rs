//! What a select input has selected, for single and multiple selection
//!
//! The select components themselves, and the options they list with their icons, colors,
//! tips and callbacks, are user interface elements of the GUI toolkit and live with it;
//! this module holds the selection they share.

use vstd::prelude::*;
use vstd::std_specs::cmp::PartialEqSpec;

verus! {

/// What's actually selected for a select component, supporting both single and multi select
#[derive(Debug, Clone, PartialEq)]
pub enum Selected<T> {
    Single(T),
    Multi(Vec<T>),
}

/// The mathematical value of a selection.
pub enum SSelected<T> {
    Single(T),
    Multi(Seq<T>),
}

impl<T> View for Selected<T> {
    type V = SSelected<T>;

    open spec fn view(&self) -> SSelected<T> {
        match self {
            Selected::Single(v) => SSelected::Single(*v),
            Selected::Multi(l) => SSelected::Multi(l@),
        }
    }
}

/// Whether some item of the list equals `option`, as `eq` decides it.
pub open spec fn seq_has<T: PartialEq>(l: Seq<T>, option: T) -> bool
    decreases l.len(),
{
    l.len() > 0 && (seq_has(l.drop_last(), option) || l.last().eq_spec(&option))
}

/// Whether `option` is selected, with equality as `eq` decides it.
pub open spec fn spec_is_selected<T: PartialEq>(s: SSelected<T>, option: T) -> bool {
    match s {
        SSelected::Single(v) => v.eq_spec(&option),
        SSelected::Multi(l) => seq_has(l, option),
    }
}

/// The selection after selecting `new`: it replaces a single selection and is added to a
/// multiple one.
pub open spec fn spec_select<T>(s: SSelected<T>, new: T) -> SSelected<T> {
    match s {
        SSelected::Single(_) => SSelected::Single(new),
        SSelected::Multi(l) => SSelected::Multi(l.push(new)),
    }
}

/// The items of a list that are not equal to `value`, in order.
pub open spec fn without<T: PartialEq>(l: Seq<T>, value: T) -> Seq<T>
    decreases l.len(),
{
    if l.len() == 0 {
        Seq::empty()
    } else {
        without(l.drop_last(), value) + if l.last().eq_spec(&value) {
            Seq::empty()
        } else {
            seq![l.last()]
        }
    }
}

/// The selection after deselecting `value`: a single selection stays; every item equal to
/// it leaves a multiple one.
pub open spec fn spec_deselect<T: PartialEq>(s: SSelected<T>, value: T) -> SSelected<T> {
    match s {
        SSelected::Single(v) => SSelected::Single(v),
        SSelected::Multi(l) => SSelected::Multi(without(l, value)),
    }
}

impl<T: PartialEq + Clone> Selected<T> {
    /// Gets a single result out; only a single selection has one
    pub fn single(self) -> (r: T)
        requires
            self is Single,
        ensures
            self@ == SSelected::Single(r),
    {
        match self {
            Selected::Single(value) => value,
            Selected::Multi(_) => {
                proof {
                    assert(false);
                }
                unreached()
            },
        }
    }

    /// Gets a single result out
    pub fn single_optional(self) -> (r: Option<T>)
        ensures
            match self@ {
                SSelected::Single(v) => r == Some(v),
                SSelected::Multi(l) => if l.len() > 0 {
                    r matches Some(x) && cloned(l[0], x)
                } else {
                    r is None
                },
            },
    {
        match self {
            Selected::Single(value) => Some(value),
            Selected::Multi(values) => {
                if values.len() > 0 {
                    Some(values[0].clone())
                } else {
                    None
                }
            },
        }
    }

    /// Gets multiple results out
    pub fn multi(self) -> (r: Vec<T>)
        ensures
            match self@ {
                SSelected::Single(v) => r@ == seq![v],
                SSelected::Multi(l) => r@ == l,
            },
    {
        match self {
            Selected::Single(value) => {
                let mut out = Vec::new();
                out.push(value);
                proof {
                    assert(out@ =~= seq![value]);
                }
                out
            },
            Selected::Multi(values) => values,
        }
    }

    /// Checks whether this option is selected
    pub fn is_selected(&self, option: &T) -> (r: bool)
        ensures
            T::obeys_eq_spec() ==> r == spec_is_selected(self@, *option),
    {
        match self {
            Selected::Single(value) => *value == *option,
            Selected::Multi(values) => {
                let mut i: usize = 0;
                while i < values.len()
                    invariant
                        i <= values@.len(),
                        self@ == SSelected::Multi(values@),
                        T::obeys_eq_spec() ==> !seq_has(values@.take(i as int), *option),
                    decreases values@.len() - i,
                {
                    proof {
                        assert(values@.take(i + 1).drop_last() =~= values@.take(i as int));
                    }
                    if values[i] == *option {
                        proof {
                            if T::obeys_eq_spec() {
                                assert(values@.take(i + 1).last() == values@[i as int]);
                                assert(values@[i as int].eq_spec(option));
                                lemma_seq_has_prefix(values@, *option, i + 1);
                            }
                        }
                        return true;
                    }
                    i = i + 1;
                }
                proof {
                    assert(values@.take(values@.len() as int) =~= values@);
                }
                false
            },
        }
    }

    /// The selection after selecting an option
    pub fn select(self, new: &T) -> (r: Selected<T>)
        ensures
            exists|x: T| cloned(*new, x) && r@ == spec_select(self@, x),
    {
        let item = new.clone();
        proof {
            assert(call_ensures(T::clone, (new,), item));
            assert(cloned(*new, item));
        }
        match self {
            Selected::Single(..) => {
                let r = Selected::Single(item);
                proof {
                    assert(cloned(*new, item) && r@ == spec_select(self@, item));
                }
                r
            },
            Selected::Multi(list) => {
                let mut list = list;
                list.push(item);
                let r = Selected::Multi(list);
                proof {
                    assert(cloned(*new, item) && r@ == spec_select(self@, item));
                }
                r
            },
        }
    }

    /// The selection after deselecting an option
    pub fn deselect(self, value: &T) -> (r: Selected<T>)
        ensures
            T::obeys_eq_spec() ==> r@ == spec_deselect(self@, *value),
    {
        match self {
            Selected::Single(v) => Selected::Single(v),
            Selected::Multi(list) => {
                let ghost l = list@;
                let mut rest = list;
                let mut kept: Vec<T> = Vec::new();
                let mut i: usize = 0;
                let n = rest.len();
                proof {
                    assert(kept@ =~= without(l.take(0), *value));
                }
                while rest.len() > 0
                    invariant
                        n == l.len(),
                        i + rest@.len() == n,
                        rest@ == l.subrange(i as int, n as int),
                        T::obeys_eq_spec() ==> kept@ == without(l.take(i as int), *value),
                    decreases rest@.len(),
                {
                    let x = rest.remove(0);
                    proof {
                        assert(x == l[i as int]);
                        assert(l.take(i + 1).drop_last() =~= l.take(i as int));
                        assert(rest@ =~= l.subrange(i + 1, n as int));
                    }
                    let ghost pre = kept@;
                    if !(x == *value) {
                        kept.push(x);
                        proof {
                            assert(kept@ == pre.push(l[i as int]));
                        }
                    }
                    proof {
                        if T::obeys_eq_spec() {
                            assert(kept@ =~= without(l.take(i + 1), *value));
                        }
                    }
                    i = i + 1;
                }
                proof {
                    assert(l.take(n as int) =~= l);
                }
                Selected::Multi(kept)
            },
        }
    }
}

/// Selecting an option makes it selected, where equality is reflexive.
pub proof fn law_select_then_selected<T: PartialEq>(s: SSelected<T>, x: T)
    requires
        x.eq_spec(&x),
    ensures
        spec_is_selected(spec_select(s, x), x),
{
    match s {
        SSelected::Single(_) => {
            assert(spec_select(s, x) == SSelected::Single(x));
            assert(spec_is_selected(SSelected::Single(x), x));
        },
        SSelected::Multi(l) => {
            assert(l.push(x)[l.len() as int] == x);
            let l2 = l.push(x);
            assert(l2.last() == x);
        },
    }
    assert(spec_is_selected(spec_select(s, x), x));
}

proof fn lemma_seq_has_prefix<T: PartialEq>(l: Seq<T>, x: T, n: int)
    requires
        0 <= n <= l.len(),
        seq_has(l.take(n), x),
    ensures
        seq_has(l, x),
    decreases l.len() - n,
{
    if n < l.len() {
        assert(l.take(n + 1).drop_last() =~= l.take(n));
        lemma_seq_has_prefix(l, x, n + 1);
    } else {
        assert(l.take(n) =~= l);
    }
}

proof fn lemma_without<T: PartialEq>(l: Seq<T>, value: T)
    ensures
        !seq_has(without(l, value), value),
    decreases l.len(),
{
    if l.len() > 0 {
        lemma_without(l.drop_last(), value);
        let p = without(l.drop_last(), value);
        if !l.last().eq_spec(&value) {
            assert(without(l, value) == p.push(l.last()));
            assert(p.push(l.last()).drop_last() =~= p);
        } else {
            assert(without(l, value) =~= p);
        }
    }
}

proof fn lemma_without_absent<T: PartialEq>(l: Seq<T>, value: T)
    requires
        !seq_has(l, value),
    ensures
        without(l, value) == l,
    decreases l.len(),
{
    if l.len() > 0 {
        lemma_without_absent(l.drop_last(), value);
        assert(without(l, value) =~= l.drop_last().push(l.last()));
        assert(l.drop_last().push(l.last()) =~= l);
    } else {
        assert(l =~= Seq::<T>::empty());
    }
}

/// Selecting a copy of a value that no item of a multiple selection equals, then
/// deselecting the value, gives the selection back.
pub proof fn law_select_then_deselect_new<T: PartialEq>(l: Seq<T>, copy: T, value: T)
    requires
        !seq_has(l, value),
        copy.eq_spec(&value),
    ensures
        spec_deselect(spec_select(SSelected::Multi(l), copy), value) == SSelected::Multi(l),
{
    let l2 = l.push(copy);
    assert(l2.drop_last() =~= l);
    assert(l2.last() == copy);
    lemma_without_absent(l, value);
    assert(without(l2, value) =~= l);
}

proof fn lemma_seq_has_integers(l: Seq<u64>, value: u64)
    ensures
        seq_has(l, value) == l.contains(value),
    decreases l.len(),
{
    if l.len() > 0 {
        lemma_seq_has_integers(l.drop_last(), value);
        if l.drop_last().contains(value) {
            let j = choose|j: int| 0 <= j < l.drop_last().len() && l.drop_last()[j] == value;
            assert(l[j] == value);
        }
        if l.contains(value) && l.last() != value {
            let j = choose|j: int| 0 <= j < l.len() && l[j] == value;
            assert(l.drop_last()[j] == value);
        }
        assert(l[l.len() - 1] == l.last());
    }
}

/// For integer items, whose copies equal them: selecting a value that a multiple selection
/// does not hold and then deselecting it gives the selection back.
pub proof fn law_select_then_deselect_new_integer(l: Seq<u64>, value: u64)
    requires
        !l.contains(value),
    ensures
        spec_deselect(spec_select(SSelected::Multi(l), value), value) == SSelected::Multi(l),
{
    lemma_seq_has_integers(l, value);
    law_select_then_deselect_new(l, value, value);
}

/// Deselecting leaves a single selection as it is.
pub proof fn law_deselect_single_keeps<T: PartialEq>(x: T, value: T)
    ensures
        spec_deselect(SSelected::Single(x), value) == SSelected::Single(x),
{
}

/// Deselecting an option from a multiple selection leaves nothing equal to it selected.
pub proof fn law_deselect_multi_then_not_selected<T: PartialEq>(l: Seq<T>, value: T)
    ensures
        !spec_is_selected(spec_deselect(SSelected::Multi(l), value), value),
{
    lemma_without(l, value);
}

} // verus!
