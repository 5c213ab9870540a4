//! A sequence that holds two elements or more.

use vstd::laws_eq::obeys_concrete_eq;
use vstd::laws_eq::obeys_view_eq;
use vstd::prelude::*;
use vstd::std_specs::cmp::PartialEqSpec;
use vstd::std_specs::convert::FromSpecImpl;
use vstd::std_specs::convert::TryFromSpecImpl;

verus! {

/// The failure of building a [`Multiple`]: fewer than two elements were given.
#[derive(Debug, PartialEq, Eq, Structural)]
pub struct VecSizeError;

impl VecSizeError {
    /// The text that describes the failure.
    pub fn message(&self) -> (text: String)
        ensures
            text@ == "could not convert from Vec: Vec contains fewer than 2 elements"@,
    {
        "could not convert from Vec: Vec contains fewer than 2 elements".to_owned()
    }
}

/// An ordered sequence of at least two elements.
///
/// The first two elements are held apart from the rest, so that a value with
/// fewer than two cannot be written down. The view is the whole sequence:
/// the two leading elements followed by the rest, in order.
#[derive(Debug)]
pub struct Multiple<T> {
    head: (T, T),
    tail: Vec<T>,
}

impl<T> View for Multiple<T> {
    type V = Seq<T>;

    closed spec fn view(&self) -> Seq<T> {
        seq![self.head.0, self.head.1] + self.tail@
    }
}

impl<T> Multiple<T> {
    /// The whole sequence can be counted in a `usize`.
    #[verifier::type_invariant]
    spec fn fits(self) -> bool {
        self.tail@.len() + 2 <= usize::MAX
    }

    /// Every `Multiple` holds at least two elements.
    pub proof fn lemma_at_least_two(self)
        ensures
            self@.len() >= 2,
    {
    }

    /// The number of elements, which is never below two.
    pub fn len(&self) -> (n: usize)
        ensures
            n == self@.len(),
            n >= 2,
    {
        proof {
            use_type_invariant(self);
        }
        self.tail.len() + 2
    }

    /// The element at place `i`, counted from zero over the whole sequence,
    /// or nothing where the sequence ends before it.
    pub fn get(&self, i: usize) -> (r: Option<&T>)
        ensures
            i < self@.len() ==> r == Some(&self@[i as int]),
            i >= self@.len() ==> r is None,
    {
        if i == 0 {
            Some(&self.head.0)
        } else if i == 1 {
            Some(&self.head.1)
        } else if i - 2 < self.tail.len() {
            Some(&self.tail[i - 2])
        } else {
            None
        }
    }
}

impl<T> TryFrom<Vec<T>> for Multiple<T> {
    type Error = VecSizeError;

    /// Takes the elements of `v`, in order, if there are two or more of them:
    /// the first two become the head, the others the tail. Fewer than two are
    /// refused, and nothing is built from them.
    fn try_from(v: Vec<T>) -> (r: Result<Self, VecSizeError>)
        ensures
            r is Ok <==> v@.len() >= 2,
            r is Ok ==> r->Ok_0@ == v@,
            r is Err ==> r->Err_0 == VecSizeError,
    {
        if v.len() < 2 {
            return Err(VecSizeError);
        }
        let mut front = v;
        let tail = front.split_off(2);
        let b = front.pop().unwrap();
        let a = front.pop().unwrap();
        let m = Multiple { head: (a, b), tail };
        proof {
            assert(m@ =~= v@);
        }
        Ok(m)
    }
}

/// Verus knows a vector by its view only, so no spec function can name the
/// very value that `try_from` returns. The trait-level equation is therefore
/// not claimed; the `ensures` of `try_from` pins the result by its view.
impl<T> TryFromSpecImpl<Vec<T>> for Multiple<T> {
    open spec fn obeys_try_from_spec() -> bool {
        false
    }

    open spec fn try_from_spec(v: Vec<T>) -> Result<Self, VecSizeError> {
        if v@.len() < 2 {
            Err(VecSizeError)
        } else {
            Ok(choose|m: Multiple<T>| m@ == v@)
        }
    }
}

impl<T> From<Multiple<T>> for Vec<T> {
    /// Hands the elements out again, in order.
    fn from(m: Multiple<T>) -> (r: Vec<T>)
        ensures
            r@ == m@,
    {
        let Multiple { head, tail } = m;
        let (a, b) = head;
        let mut tail = tail;
        let mut v = Vec::new();
        v.push(a);
        v.push(b);
        v.append(&mut tail);
        proof {
            assert(v@ =~= m@);
        }
        v
    }
}

/// As for `try_from`: the vector that comes out is pinned by its view in the
/// `ensures` of `from`, and the trait-level equation is not claimed.
impl<T> FromSpecImpl<Multiple<T>> for Vec<T> {
    open spec fn obeys_from_spec() -> bool {
        false
    }

    open spec fn from_spec(m: Multiple<T>) -> Vec<T> {
        choose|v: Vec<T>| v@ == m@
    }
}

/// Round trip: whatever `Multiple::try_from` returns on a vector of two or
/// more elements is a `Multiple`, and whatever `Vec::from` then makes of it
/// holds the elements of that vector again, in the same order.
pub proof fn lemma_round_trip<T>(v: Vec<T>)
    requires
        v@.len() >= 2,
    ensures
        forall|r: Result<Multiple<T>, VecSizeError>| #[trigger]
            call_ensures(Multiple::<T>::try_from, (v,), r) ==> r is Ok,
        forall|m: Multiple<T>, back: Vec<T>|
            call_ensures(Multiple::<T>::try_from, (v,), Ok(m)) && #[trigger] call_ensures(
                Vec::<T>::from,
                (m,),
                back,
            ) ==> back@ == v@,
{
}

impl<T: PartialEq> PartialEq for Multiple<T> {
    /// Compares two sequences element by element, in order.
    fn eq(&self, other: &Self) -> (r: bool) {
        proof {
            if T::obeys_eq_spec() {
                lemma_seq_eq_spec_parts(
                    self.head.0,
                    self.head.1,
                    self.tail@,
                    other.head.0,
                    other.head.1,
                    other.tail@,
                );
                assert(self.tail.eq_spec(&other.tail) == seq_eq_spec(self.tail@, other.tail@));
            }
        }
        self.head.0 == other.head.0 && self.head.1 == other.head.1 && self.tail == other.tail
    }
}

impl<T: PartialEq> vstd::std_specs::cmp::PartialEqSpecImpl for Multiple<T> {
    open spec fn obeys_eq_spec() -> bool {
        T::obeys_eq_spec()
    }

    open spec fn eq_spec(&self, other: &Self) -> bool {
        seq_eq_spec(self@, other@)
    }
}

impl<T: Eq> Eq for Multiple<T> {

}

/// What `==` means for two sequences of elements that are themselves compared
/// with `==`: the same length, and equal elements at each place.
pub open spec fn seq_eq_spec<T: PartialEq>(a: Seq<T>, b: Seq<T>) -> bool {
    &&& a.len() == b.len()
    &&& forall|i: int| 0 <= i < a.len() ==> (#[trigger] a[i]).eq_spec(&b[i])
}

/// Where `==` on the elements is plain equality, `seq_eq_spec` is plain
/// equality of the two sequences.
pub proof fn lemma_seq_eq_spec_is_equality<T: PartialEq>(a: Seq<T>, b: Seq<T>)
    requires
        obeys_concrete_eq::<T>(),
    ensures
        seq_eq_spec(a, b) <==> a == b,
{
    reveal(obeys_concrete_eq);
    if seq_eq_spec(a, b) {
        assert forall|i: int| 0 <= i < a.len() implies a[i] == b[i] by {
            assert(a[i].eq_spec(&b[i]));
        }
        assert(a =~= b);
    }
}

/// Where `==` on the elements is plain equality, two `Multiple`s are `==`
/// exactly when they hold the same elements in the same order.
pub proof fn lemma_multiple_eq_is_view_equality<T: PartialEq>()
    requires
        obeys_concrete_eq::<T>(),
    ensures
        obeys_view_eq::<Multiple<T>>(),
{
    reveal(obeys_view_eq);
    assert(T::obeys_eq_spec()) by {
        reveal(obeys_concrete_eq);
    }
    assert forall|x: Multiple<T>, y: Multiple<T>| x.eq_spec(&y) <==> x@ == y@ by {
        lemma_seq_eq_spec_is_equality(x@, y@);
    }
}

/// Walking a `Multiple` with `get` meets the elements that `Vec::from` hands
/// out, at the same places, and `len` counts them.
pub proof fn lemma_get_walks_the_elements<T>(m: Multiple<T>, i: usize)
    ensures
        forall|back: Vec<T>, n: usize, r: Option<&T>|
            #![trigger call_ensures(Vec::<T>::from, (m,), back), call_ensures(Multiple::<T>::len, (&m,), n), call_ensures(Multiple::<T>::get, (&m, i), r)]
            call_ensures(Vec::<T>::from, (m,), back) && call_ensures(Multiple::<T>::len, (&m,), n)
                && call_ensures(Multiple::<T>::get, (&m, i), r) ==> {
                &&& n == back@.len()
                &&& i < n ==> r == Some(&back@[i as int])
                &&& i >= n ==> r is None
            },
{
}

/// Two sequences of two elements or more are equal exactly when their first
/// elements, their second elements and what follows are.
proof fn lemma_seq_eq_spec_parts<T: PartialEq>(a0: T, a1: T, at: Seq<T>, b0: T, b1: T, bt: Seq<T>)
    ensures
        seq_eq_spec(seq![a0, a1] + at, seq![b0, b1] + bt) <==> a0.eq_spec(&b0) && a1.eq_spec(&b1)
            && seq_eq_spec(at, bt),
{
    let a = seq![a0, a1] + at;
    let b = seq![b0, b1] + bt;
    if seq_eq_spec(a, b) {
        assert(a[0].eq_spec(&b[0]));
        assert(a[1].eq_spec(&b[1]));
        assert forall|i: int| 0 <= i < at.len() implies (#[trigger] at[i]).eq_spec(&bt[i]) by {
            assert(a[i + 2].eq_spec(&b[i + 2]));
        }
    }
    if a0.eq_spec(&b0) && a1.eq_spec(&b1) && seq_eq_spec(at, bt) {
        assert forall|i: int| 0 <= i < a.len() implies (#[trigger] a[i]).eq_spec(&b[i]) by {
            if i >= 2 {
                assert(at[i - 2].eq_spec(&bt[i - 2]));
            }
        }
    }
}

} // verus!
