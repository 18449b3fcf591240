//! The arithmetic of capacities: how far a growable array has to grow for a
//! request, and when a request cannot be represented at all.
//!
//! Everything here works on plain numbers. `cap` is the number of elements a
//! backing store has room for, `len` the number of elements it holds; a
//! growable array always has `len <= cap`.

use vstd::prelude::*;

verus! {

/// The smallest capacity that a full array grows to.
pub const MIN_GROWN_CAPACITY: usize = 4;

/// What bringing a backing store up to a wanted capacity asks for.
#[derive(Clone, Copy, Debug, PartialEq, Eq, Structural)]
pub enum Growth {
    /// The backing store is large enough already: nothing is to be done.
    Keep,
    /// The byte size of the wanted store does not fit in `usize`: the request
    /// fails, and the allocator is not asked.
    Overflow,
    /// The allocator is asked for room for this many elements beyond the
    /// ones that the array holds.
    Reserve(usize),
}

/// The number of bytes that `cap` elements of `elem_size` bytes occupy, or
/// `None` where that number does not fit in `usize`.
pub open spec fn spec_allocation_size(cap: usize, elem_size: nat) -> Option<usize> {
    if cap * elem_size <= usize::MAX {
        Some((cap * elem_size) as usize)
    } else {
        None
    }
}

/// The capacity that an array needs in order to take one more element: its
/// present capacity while there is room, else twice that capacity and at
/// least [`MIN_GROWN_CAPACITY`]. `None` where the doubled capacity does not
/// fit in `usize`.
pub open spec fn spec_push_capacity(cap: usize, len: usize) -> Option<usize> {
    if len < cap {
        Some(cap)
    } else if 2 * cap > usize::MAX {
        None
    } else if 2 * cap < MIN_GROWN_CAPACITY {
        Some(MIN_GROWN_CAPACITY)
    } else {
        Some((2 * cap) as usize)
    }
}

/// The capacity that an array needs in order to take `additional` more
/// elements: its present capacity where that is enough, else exactly
/// `len + additional`. `None` where that sum does not fit in `usize`.
pub open spec fn spec_reserve_capacity(cap: usize, len: usize, additional: usize) -> Option<usize> {
    if len + additional > usize::MAX {
        None
    } else if len + additional <= cap {
        Some(cap)
    } else {
        Some((len + additional) as usize)
    }
}

/// What it takes to bring a backing store that holds `len` elements from
/// `old_cap` to `new_cap`.
pub open spec fn spec_growth(len: usize, old_cap: usize, new_cap: usize, elem_size: nat) -> Growth {
    if new_cap <= old_cap {
        Growth::Keep
    } else if spec_allocation_size(new_cap, elem_size) is None {
        Growth::Overflow
    } else {
        Growth::Reserve((new_cap - len) as usize)
    }
}

/// What appending one element asks of a backing store of capacity `cap` that
/// holds `len` elements of `elem_size` bytes each.
pub open spec fn spec_push_growth(cap: usize, len: usize, elem_size: nat) -> Growth {
    match spec_push_capacity(cap, len) {
        None => Growth::Overflow,
        Some(new_cap) => spec_growth(len, cap, new_cap, elem_size),
    }
}

/// What room for `additional` more elements asks of a backing store of
/// capacity `cap` that holds `len` elements of `elem_size` bytes each.
pub open spec fn spec_reserve_growth(cap: usize, len: usize, additional: usize, elem_size: nat) -> Growth {
    match spec_reserve_capacity(cap, len, additional) {
        None => Growth::Overflow,
        Some(new_cap) => spec_growth(len, cap, new_cap, elem_size),
    }
}

/// Computes the byte size of a backing store for `cap` elements, refusing
/// sizes that overflow `usize`.
pub fn allocation_size(cap: usize, elem_size: usize) -> (res: Option<usize>)
    ensures
        res == spec_allocation_size(cap, elem_size as nat),
{
    cap.checked_mul(elem_size)
}

/// Computes the capacity that an array of capacity `cap` holding `len`
/// elements must have before one more element is appended.
pub fn push_capacity(cap: usize, len: usize) -> (res: Option<usize>)
    requires
        len <= cap,
    ensures
        res == spec_push_capacity(cap, len),
        res matches Some(c) ==> c > len && c >= cap,
{
    if len < cap {
        return Some(cap);
    }
    match cap.checked_mul(2) {
        None => None,
        Some(doubled) => if doubled < MIN_GROWN_CAPACITY {
            Some(MIN_GROWN_CAPACITY)
        } else {
            Some(doubled)
        },
    }
}

/// Computes the capacity that an array of capacity `cap` holding `len`
/// elements must have to take `additional` more.
pub fn reserve_capacity(cap: usize, len: usize, additional: usize) -> (res: Option<usize>)
    requires
        len <= cap,
    ensures
        res == spec_reserve_capacity(cap, len, additional),
        res matches Some(c) ==> c - len >= additional && c >= cap,
{
    let available: usize = cap - len;
    if additional <= available {
        return Some(cap);
    }
    let increase: usize = additional - available;
    cap.checked_add(increase)
}

/// Decides what the growth of a backing store to `new_cap` elements of
/// `elem_size` bytes each asks for.
pub fn plan_growth(len: usize, old_cap: usize, new_cap: usize, elem_size: usize) -> (plan: Growth)
    requires
        len <= old_cap,
    ensures
        plan == spec_growth(len, old_cap, new_cap, elem_size as nat),
{
    if new_cap <= old_cap {
        return Growth::Keep;
    }
    match allocation_size(new_cap, elem_size) {
        None => Growth::Overflow,
        Some(_) => Growth::Reserve(new_cap - len),
    }
}

/// Reserving again, for no more than a reservation that succeeded, changes
/// nothing: whatever capacity `grown` the first reservation left, at or above
/// the one it asked for, is kept as it is.
pub proof fn lemma_reserve_again_keeps(
    cap: usize,
    len: usize,
    first: usize,
    second: usize,
    grown: usize,
    elem_size: nat,
)
    requires
        len <= cap,
        second <= first,
        spec_reserve_capacity(cap, len, first) matches Some(asked) && asked <= grown,
    ensures
        spec_reserve_capacity(grown, len, second) == Some(grown),
        spec_reserve_growth(grown, len, second, elem_size) is Keep,
{
}

/// An array that holds an element cannot take `usize::MAX` more: the
/// reservation overflows, whatever the capacity and the size of the elements,
/// and the allocator is not asked.
pub proof fn lemma_reserve_max_overflows(cap: usize, len: usize, elem_size: nat)
    requires
        1 <= len <= cap,
    ensures
        spec_reserve_capacity(cap, len, usize::MAX) is None,
        spec_reserve_growth(cap, len, usize::MAX, elem_size) is Overflow,
{
}

/// An empty array of elements of two bytes or more cannot take `usize::MAX`
/// of them: the byte size of such a store overflows, and the allocator is not
/// asked.
pub proof fn lemma_reserve_max_on_empty_overflows(cap: usize, elem_size: nat)
    requires
        cap < usize::MAX,
        elem_size >= 2,
    ensures
        spec_reserve_capacity(cap, 0, usize::MAX) == Some(usize::MAX),
        spec_reserve_growth(cap, 0, usize::MAX, elem_size) is Overflow,
{
    assert(usize::MAX * elem_size > usize::MAX) by (nonlinear_arith)
        requires
            elem_size >= 2,
            usize::MAX > 0,
    ;
}

} // verus!
