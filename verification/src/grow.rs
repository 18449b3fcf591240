//! The growth engine: brings the backing store of a `Vec` up to a wanted
//! capacity, and reports a refusal of the allocator instead of aborting.
//!
//! The capacity of a `Vec` is no part of its view, so the functions here take
//! it as an argument: the capacity that the caller has read from the vector.
//! Their contracts say for which capacities a request succeeds or fails
//! whatever the allocator does; in between, the allocator decides.

use crate::capacity::{plan_growth, spec_growth, Growth};
use std::collections::TryReserveError;
use vstd::prelude::*;

verus! {

/// Reads the capacity of `vec` with `Vec::capacity`.
///
/// Trusted: the capacity of a vector is never below its length, and a
/// vector of zero-sized elements always has a capacity of `usize::MAX`.
/// Nothing else is claimed of it; in particular two readings are not assumed
/// to agree.
#[verifier::external_body]
pub(crate) fn capacity_of<T>(vec: &Vec<T>) -> (cap: usize)
    ensures
        cap >= vec@.len(),
        vstd::layout::size_of::<T>() == 0 ==> cap == usize::MAX,
{
    vec.capacity()
}

/// Asks the allocator, through `Vec::try_reserve_exact`, for room for
/// `additional` elements beyond the ones that `vec` holds.
///
/// Trusted: whether the allocator grants the room or not, the elements of
/// `vec` stay as they are. Which of the two happens is up to the allocator.
/// After a grant the vector has room for `additional` more elements; the
/// contract cannot say so, for the capacity is no part of a vector's view.
#[verifier::external_body]
pub(crate) fn reserve_exact_storage<T>(vec: &mut Vec<T>, additional: usize) -> (res: Result<
    (),
    TryReserveError,
>)
    ensures
        final(vec)@ == old(vec)@,
{
    vec.try_reserve_exact(additional)
}

/// Brings the backing store of `vec`, whose capacity is `old_cap`, to a
/// capacity of at least `new_cap` elements, keeping the elements.
///
/// Nothing is done where `old_cap` is `new_cap` or more. A store whose byte
/// size does not fit in `usize` is refused before the allocator is asked.
/// Otherwise the allocator decides. On failure `vec` is as it was.
///
/// `old_cap` is meant to be the capacity read from `vec`: with a larger
/// number the growth is skipped, and a later append may abort after all.
pub fn try_extend_vec<T>(vec: &mut Vec<T>, old_cap: usize, new_cap: usize) -> (res: Result<(), ()>)
    requires
        old(vec).len() <= old_cap,
    ensures
        final(vec)@ == old(vec)@,
        spec_growth(old(vec).len(), old_cap, new_cap, vstd::layout::size_of::<T>()) is Keep
            ==> res is Ok,
        spec_growth(old(vec).len(), old_cap, new_cap, vstd::layout::size_of::<T>()) is Overflow
            ==> res is Err,
{
    match plan_growth(vec.len(), old_cap, new_cap, core::mem::size_of::<T>()) {
        Growth::Keep => Ok(()),
        Growth::Overflow => Err(()),
        Growth::Reserve(additional) => match reserve_exact_storage(vec, additional) {
            Ok(()) => Ok(()),
            Err(_) => Err(()),
        },
    }
}

} // verus!
