//! Reading a bounded source to its end into a buffer whose room is reserved
//! beforehand, so that neither the reservation nor the read can abort.

use crate::fallible_vec::FallibleVec;
use std::io::Read;
use std::io::Take;
use vstd::prelude::*;

verus! {

/// `std::io::Take`, a reader that yields no more than a set number of bytes.
/// Opaque here: it is only handed on to the functions that read from it.
#[verifier::external_type_specification]
#[verifier::external_body]
#[verifier::reject_recursive_types(T)]
pub struct ExTake<T>(std::io::Take<T>);

/// `std::io::Error`, the error of a failed read. Opaque here.
#[verifier::external_type_specification]
#[verifier::external_body]
pub struct ExIoError(std::io::Error);

/// `Take::limit`: the number of bytes that the source may still yield.
/// Nothing is assumed of the number.
pub assume_specification<T>[ std::io::Take::<T>::limit ](src: &Take<T>) -> (limit: u64)
;

/// Reads `src` to its end with `Read::read_to_end`, appending to `buf`.
///
/// Trusted: whenever the call returns, `buf` holds what it held before,
/// followed by the bytes that were read; on success the count returned is
/// the number of bytes appended. On failure some bytes may have been
/// appended already. What the underlying reader does is its own affair: the
/// claim is about `buf` alone, and holds of every call that returns. A
/// reader that reports more bytes than it was given room for makes `Take`
/// panic; no contract here covers such a reader.
#[verifier::external_body]
pub(crate) fn read_remaining<T: Read>(src: &mut Take<T>, buf: &mut Vec<u8>) -> (res: Result<
    usize,
    std::io::Error,
>)
    ensures
        old(buf)@.is_prefix_of(final(buf)@),
        res matches Ok(n) ==> final(buf)@.len() == old(buf)@.len() + n,
{
    src.read_to_end(buf)
}

/// The number of bytes to reserve for a source that may still yield `limit`
/// bytes: `limit` itself where it fits in `usize`, else `None`.
pub open spec fn spec_limit_size(limit: u64) -> Option<usize> {
    if limit <= usize::MAX {
        Some(limit as usize)
    } else {
        None
    }
}

/// Converts the limit of a source to a number of bytes to reserve.
pub fn limit_size(limit: u64) -> (res: Option<usize>)
    ensures
        res == spec_limit_size(limit),
{
    match usize::try_from(limit) {
        Ok(size) => Some(size),
        Err(_) => None,
    }
}

/// Reserves room in `buf` for `limit` more bytes, then reads `src` to its
/// end, appending to `buf`. `limit` is the number of bytes that `src` may
/// still yield. Returns the number of bytes read.
///
/// Where `buf` could not hold `limit` more bytes at all, the call fails
/// before anything is read: `buf` and `src` are as they were.
pub fn read_to_end_with_limit<T: Read>(src: &mut Take<T>, limit: u64, buf: &mut Vec<u8>) -> (res:
    Result<usize, ()>)
    ensures
        old(buf)@.is_prefix_of(final(buf)@),
        res matches Ok(n) ==> final(buf)@.len() == old(buf)@.len() + n,
        old(buf)@.len() + limit > usize::MAX ==> res is Err && final(buf)@ == old(buf)@
            && *final(src) == *old(src),
{
    let size: usize = match limit_size(limit) {
        None => {
            return Err(());
        },
        Some(size) => size,
    };
    match FallibleVec::try_reserve(buf, size) {
        Err(()) => Err(()),
        Ok(()) => {
            let answer = read_remaining(src, buf);
            read_outcome(answer)
        },
    }
}

/// Reserves room for all that `src` can still yield, then reads `src` to
/// its end, appending to `buf`. Returns the number of bytes read.
///
/// Fails before anything is read where the room cannot be reserved; `buf` is
/// then as it was. Fails as well where the read fails; `buf` may then hold
/// some of the bytes already. Either way nothing that `buf` held is lost.
pub fn try_read_to_end<T: Read>(src: &mut Take<T>, buf: &mut Vec<u8>) -> (res: Result<usize, ()>)
    ensures
        old(buf)@.is_prefix_of(final(buf)@),
        res matches Ok(n) ==> final(buf)@.len() == old(buf)@.len() + n,
{
    let limit: u64 = src.limit();
    read_to_end_with_limit(src, limit, buf)
}

/// Turns what the reader answered into the result of the read: the number
/// of bytes where the reader came to its end, the failure where it reported
/// an error.
pub fn read_outcome(answer: Result<usize, std::io::Error>) -> (res: Result<usize, ()>)
    ensures
        answer matches Ok(n) ==> res == Ok::<usize, ()>(n),
        answer is Err ==> res is Err,
{
    match answer {
        Ok(bytes_read) => Ok(bytes_read),
        Err(_) => Err(()),
    }
}

} // verus!
