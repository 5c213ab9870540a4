//! Nothing, one element, or two and more.

use crate::multiple::lemma_seq_eq_spec_is_equality;
use crate::multiple::seq_eq_spec;
use crate::multiple::Multiple;
use vstd::laws_eq::obeys_concrete_eq;
use vstd::laws_eq::obeys_view_eq;
use vstd::prelude::*;
use vstd::std_specs::cmp::PartialEqSpec;
use vstd::std_specs::convert::FromSpecImpl;

verus! {

/// A field that may be left out, hold one value, or hold a list of values.
///
/// The variant always tells how many elements there are: `Absent` for no
/// element, `Single` for exactly one, `Multiple` for two or more. The view is
/// the sequence of the elements, in order.
#[derive(Debug)]
pub enum MaybeMultiple<T> {
    Absent,
    Single(T),
    Multiple(Multiple<T>),
}

impl<T> View for MaybeMultiple<T> {
    type V = Seq<T>;

    open spec fn view(&self) -> Seq<T> {
        match self {
            MaybeMultiple::Absent => Seq::empty(),
            MaybeMultiple::Single(t) => seq![*t],
            MaybeMultiple::Multiple(m) => m@,
        }
    }
}

impl<T> MaybeMultiple<T> {
    /// The variant follows from the number of elements, and the other way
    /// round.
    pub proof fn lemma_variant_by_len(self)
        ensures
            self is Absent <==> self@.len() == 0,
            self is Single <==> self@.len() == 1,
            self is Multiple <==> self@.len() >= 2,
    {
        if let MaybeMultiple::Multiple(m) = self {
            m.lemma_at_least_two();
        }
    }

    /// Whether there is no element.
    #[must_use]
    #[inline]
    pub fn is_none(&self) -> (r: bool)
        ensures
            r == (self is Absent),
            r == (self@.len() == 0),
    {
        proof {
            self.lemma_variant_by_len();
        }
        matches!(self, Self::Absent)
    }

    /// Whether there is exactly one element.
    #[must_use]
    #[inline]
    pub fn is_single(&self) -> (r: bool)
        ensures
            r == (self is Single),
            r == (self@.len() == 1),
    {
        proof {
            self.lemma_variant_by_len();
        }
        matches!(self, Self::Single(_))
    }

    /// Whether there are two elements or more.
    #[must_use]
    #[inline]
    pub fn is_multiple(&self) -> (r: bool)
        ensures
            r == (self is Multiple),
            r == (self@.len() >= 2),
    {
        proof {
            self.lemma_variant_by_len();
        }
        matches!(self, Self::Multiple(_))
    }

    /// Collapses a vector into the variant that fits its length: an empty one
    /// into `Absent`, one element into `Single`, two or more into `Multiple`.
    /// The elements and their order are kept.
    ///
    /// This is a named function and not a `From` impl on purpose: the
    /// conversion should be visible where it happens.
    #[inline]
    pub fn collapse_vec_into(v: Vec<T>) -> (r: Self)
        ensures
            r@ == v@,
            r is Absent <==> v@.len() == 0,
            r is Single <==> v@.len() == 1,
            r is Multiple <==> v@.len() >= 2,
            v@.len() == 1 ==> r == MaybeMultiple::Single(v@[0]),
    {
        let mut elems = v;
        match elems.len() {
            0 => Self::Absent,
            1 => {
                let only = elems.pop().unwrap();
                proof {
                    assert(v@ =~= seq![only]);
                }
                Self::Single(only)
            },
            _ => Self::Multiple(Multiple::try_from(elems).unwrap()),
        }
    }

    /// Expands into the vector of the elements, in order: the inverse of
    /// [`MaybeMultiple::collapse_vec_into`].
    #[inline]
    pub fn expand_into_vec(self) -> (r: Vec<T>)
        ensures
            r@ == self@,
    {
        match self {
            Self::Absent => Vec::new(),
            Self::Single(t) => vec![t],
            Self::Multiple(m) => Vec::from(m),
        }
    }
}

/// Round trip: whatever `collapse_vec_into` makes of a vector, expanding it
/// gives the elements of that vector again, in the same order.
pub proof fn lemma_collapse_then_expand<T>(v: Vec<T>)
    ensures
        forall|c: MaybeMultiple<T>, back: Vec<T>|
            call_ensures(MaybeMultiple::<T>::collapse_vec_into, (v,), c) && #[trigger] call_ensures(
                MaybeMultiple::<T>::expand_into_vec,
                (c,),
                back,
            ) ==> back@ == v@,
{
}

/// The other way round: collapsing what a value expands into gives the same
/// variant with the same elements in the same order.
pub proof fn lemma_expand_then_collapse<T>(c: MaybeMultiple<T>)
    ensures
        forall|v: Vec<T>, back: MaybeMultiple<T>|
            call_ensures(MaybeMultiple::<T>::expand_into_vec, (c,), v) && #[trigger] call_ensures(
                MaybeMultiple::<T>::collapse_vec_into,
                (v,),
                back,
            ) ==> {
                &&& back@ == c@
                &&& back is Absent <==> c is Absent
                &&& back is Single <==> c is Single
                &&& back is Multiple <==> c is Multiple
            },
{
    c.lemma_variant_by_len();
}

impl<T> Default for MaybeMultiple<T> {
    /// Nothing.
    fn default() -> (r: Self)
        ensures
            r is Absent,
    {
        Self::Absent
    }
}

impl<T> From<T> for MaybeMultiple<T> {
    /// Wraps one value.
    fn from(t: T) -> (r: Self) {
        Self::Single(t)
    }
}

impl<T> FromSpecImpl<T> for MaybeMultiple<T> {
    open spec fn obeys_from_spec() -> bool {
        true
    }

    open spec fn from_spec(t: T) -> Self {
        MaybeMultiple::Single(t)
    }
}

impl<T: PartialEq> PartialEq for MaybeMultiple<T> {
    /// Equal variants with equal payloads.
    fn eq(&self, other: &Self) -> (r: bool) {
        match (self, other) {
            (MaybeMultiple::Absent, MaybeMultiple::Absent) => true,
            (MaybeMultiple::Single(a), MaybeMultiple::Single(b)) => *a == *b,
            (MaybeMultiple::Multiple(a), MaybeMultiple::Multiple(b)) => *a == *b,
            _ => false,
        }
    }
}

impl<T: PartialEq> vstd::std_specs::cmp::PartialEqSpecImpl for MaybeMultiple<T> {
    open spec fn obeys_eq_spec() -> bool {
        T::obeys_eq_spec()
    }

    open spec fn eq_spec(&self, other: &Self) -> bool {
        match (self, other) {
            (MaybeMultiple::Absent, MaybeMultiple::Absent) => true,
            (MaybeMultiple::Single(a), MaybeMultiple::Single(b)) => a.eq_spec(b),
            (MaybeMultiple::Multiple(a), MaybeMultiple::Multiple(b)) => seq_eq_spec(a@, b@),
            _ => false,
        }
    }
}

impl<T: Eq> Eq for MaybeMultiple<T> {

}

/// Where `==` on the elements is plain equality, two values are `==` exactly
/// when they hold the same elements in the same order; the variants then
/// agree by themselves.
pub proof fn lemma_maybe_multiple_eq_is_view_equality<T: PartialEq>()
    requires
        obeys_concrete_eq::<T>(),
    ensures
        obeys_view_eq::<MaybeMultiple<T>>(),
{
    reveal(obeys_view_eq);
    assert(T::obeys_eq_spec()) by {
        reveal(obeys_concrete_eq);
    }
    assert forall|x: MaybeMultiple<T>, y: MaybeMultiple<T>| x.eq_spec(&y) <==> x@ == y@ by {
        reveal(obeys_concrete_eq);
        x.lemma_variant_by_len();
        y.lemma_variant_by_len();
        match (x, y) {
            (MaybeMultiple::Single(a), MaybeMultiple::Single(b)) => {
                assert(x@[0] == a && y@[0] == b);
                if a == b {
                    assert(x@ =~= y@);
                }
            },
            (MaybeMultiple::Multiple(a), MaybeMultiple::Multiple(b)) => {
                lemma_seq_eq_spec_is_equality(a@, b@);
            },
            _ => {},
        }
    }
}

} // verus!
