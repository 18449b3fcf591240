//! The fallible operations on a growable array: appending one element,
//! making room, and appending a slice.
//!
//! Each operation comes twice. The methods of [`FallibleVec`] are what
//! callers use. The free functions take the capacity of the vector as an
//! argument, which lets their contracts say when an operation succeeds or
//! fails without the allocator having a say; the methods read the capacity
//! and hand it on.

use crate::capacity::{push_capacity, reserve_capacity, spec_push_growth, spec_reserve_growth};
use crate::grow::{capacity_of, try_extend_vec};
use vstd::prelude::*;

verus! {

/// `after` is `before` followed by a clone of each element of `other`, in
/// order.
pub open spec fn extended_with_clones<T: Clone>(before: Seq<T>, other: Seq<T>, after: Seq<T>) -> bool {
    &&& after.len() == before.len() + other.len()
    &&& after.subrange(0, before.len() as int) == before
    &&& forall|i: int|
        0 <= i < other.len() ==> cloned::<T>(other[i], #[trigger] after[before.len() + i])
}

/// Appends `value` to `vec`, whose capacity is `cap`. A full vector grows
/// first; where it cannot, `vec` is as it was.
pub fn push_at_capacity<T>(vec: &mut Vec<T>, cap: usize, value: T) -> (res: Result<(), ()>)
    requires
        old(vec).len() <= cap,
    ensures
        res is Ok ==> final(vec)@ == old(vec)@.push(value),
        res is Err ==> final(vec)@ == old(vec)@,
        spec_push_growth(cap, old(vec).len(), vstd::layout::size_of::<T>()) is Keep ==> res is Ok,
        spec_push_growth(cap, old(vec).len(), vstd::layout::size_of::<T>()) is Overflow
            ==> res is Err,
{
    match push_capacity(cap, vec.len()) {
        None => Err(()),
        Some(new_cap) => match try_extend_vec(vec, cap, new_cap) {
            Err(()) => Err(()),
            Ok(()) => {
                vec.push(value);
                Ok(())
            },
        },
    }
}

/// Makes room in `vec`, whose capacity is `cap`, for `additional` more
/// elements. The elements stay as they are, whether room is made or not.
pub fn reserve_at_capacity<T>(vec: &mut Vec<T>, cap: usize, additional: usize) -> (res: Result<
    (),
    (),
>)
    requires
        old(vec).len() <= cap,
    ensures
        final(vec)@ == old(vec)@,
        spec_reserve_growth(cap, old(vec).len(), additional, vstd::layout::size_of::<T>()) is Keep
            ==> res is Ok,
        spec_reserve_growth(
            cap,
            old(vec).len(),
            additional,
            vstd::layout::size_of::<T>(),
        ) is Overflow ==> res is Err,
{
    match reserve_capacity(cap, vec.len(), additional) {
        None => Err(()),
        Some(new_cap) => try_extend_vec(vec, cap, new_cap),
    }
}

/// Appends a clone of each element of `other` to `vec`, whose capacity is
/// `cap`. Room for all of them is made first: where it cannot be made,
/// nothing is appended.
pub fn extend_at_capacity<T: Clone>(vec: &mut Vec<T>, cap: usize, other: &[T]) -> (res: Result<
    (),
    (),
>)
    requires
        old(vec).len() <= cap,
    ensures
        res is Ok ==> extended_with_clones(old(vec)@, other@, final(vec)@),
        res is Err ==> final(vec)@ == old(vec)@,
        spec_reserve_growth(cap, old(vec).len(), other.len(), vstd::layout::size_of::<T>()) is Keep
            ==> res is Ok,
        spec_reserve_growth(
            cap,
            old(vec).len(),
            other.len(),
            vstd::layout::size_of::<T>(),
        ) is Overflow ==> res is Err,
{
    match reserve_at_capacity(vec, cap, other.len()) {
        Err(()) => Err(()),
        Ok(()) => {
            vec.extend_from_slice(other);
            assert(vec@.subrange(0, old(vec)@.len() as int) =~= old(vec)@);
            Ok(())
        },
    }
}

/// A growable array whose growth can fail without taking the process down.
///
/// Every method leaves the array as it was when it fails.
pub trait FallibleVec<T>: View<V = Seq<T>> {
    /// Appends `value` to the end of the array. Fails where room for it
    /// cannot be had; an array of `usize::MAX` elements takes no more.
    fn try_push(&mut self, value: T) -> (res: Result<(), ()>)
        ensures
            res is Ok ==> final(self)@ == old(self)@.push(value),
            res is Err ==> final(self)@ == old(self)@,
            old(self)@.len() >= usize::MAX ==> res is Err,
    ;

    /// Makes room for at least `additional` more elements. Does nothing
    /// where there is room already. Fails where the room cannot be had, and
    /// always where the array could not hold that many elements at all.
    fn try_reserve(&mut self, additional: usize) -> (res: Result<(), ()>)
        ensures
            final(self)@ == old(self)@,
            old(self)@.len() + additional > usize::MAX ==> res is Err,
            additional == 0 ==> res is Ok,
    ;

    /// Appends a clone of each element of `other`, in order. Room for all of
    /// them is made first, so that either all are appended or none.
    fn try_extend_from_slice(&mut self, other: &[T]) -> (res: Result<(), ()>) where T: Clone
        ensures
            res is Ok ==> extended_with_clones(old(self)@, other@, final(self)@),
            res is Err ==> final(self)@ == old(self)@,
            old(self)@.len() + other@.len() > usize::MAX ==> res is Err,
            other@.len() == 0 ==> res is Ok,
    ;
}

impl<T> FallibleVec<T> for Vec<T> {
    fn try_push(&mut self, value: T) -> (res: Result<(), ()>)
        ensures
            // Zero-sized elements need no room: a vector of them takes one
            // more for as long as its length fits in `usize`.
            vstd::layout::size_of::<T>() == 0 && old(self)@.len() < usize::MAX ==> res is Ok,
    {
        let cap: usize = capacity_of(self);
        push_at_capacity(self, cap, value)
    }

    fn try_reserve(&mut self, additional: usize) -> (res: Result<(), ()>) {
        let cap: usize = capacity_of(self);
        reserve_at_capacity(self, cap, additional)
    }

    fn try_extend_from_slice(&mut self, other: &[T]) -> (res: Result<(), ()>) where T: Clone {
        let cap: usize = capacity_of(self);
        extend_at_capacity(self, cap, other)
    }
}

/// Where cloning an element gives the element itself, as it does for bytes,
/// an array extended with clones of `other` is the array followed by `other`.
pub proof fn lemma_extended_with_bytes(before: Seq<u8>, other: Seq<u8>, after: Seq<u8>)
    requires
        extended_with_clones(before, other, after),
    ensures
        after == before + other,
{
    assert forall|i: int| 0 <= i < after.len() implies after[i] == (before + other)[i] by {
        if i < before.len() {
            assert(after.subrange(0, before.len() as int)[i] == before[i]);
        } else {
            let j = i - before.len();
            assert(cloned::<u8>(other[j], after[before.len() + j]));
        }
    }
    assert(after =~= before + other);
}

} // verus!
