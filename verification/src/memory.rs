//! Copies between the guest's linear memory and buffers of the host. A guest
//! names a region by a pointer and a length, and neither is trusted: every
//! access is checked against the bounds of the memory before it is made.

use crate::error::{
    invalid_utf8, invalid_utf8_view, out_of_bounds, out_of_bounds_view, CustomError, ErrorView,
};
use std::string::FromUtf8Error;
use vstd::prelude::*;
use vstd::slice::{slice_subrange, slice_to_vec};
use vstd::utf8::{decode_utf8, encode_utf8, valid_utf8};

verus! {

/// The error of `String::from_utf8`; nothing is read from it.
#[verifier::external_type_specification]
#[verifier::external_body]
pub struct ExFromUtf8Error(FromUtf8Error);

/// `String::from_utf8` succeeds exactly on bytes that are well-formed UTF-8,
/// and the string that it gives consists of those bytes.
pub assume_specification[ String::from_utf8 ](vec: Vec<u8>) -> (r: Result<String, FromUtf8Error>)
    ensures
        r is Ok <==> valid_utf8(vec@),
        r matches Ok(s) ==> encode_utf8(s@) == vec@,
;

/// Whether the `len` bytes from `ptr` lie within a memory of `memory_len` bytes.
pub open spec fn in_bounds(memory_len: nat, ptr: int, len: int) -> bool {
    0 <= ptr && 0 <= len && ptr + len <= memory_len
}

/// The `len` bytes of `memory` from `ptr`.
pub open spec fn region(memory: Seq<u8>, ptr: int, len: int) -> Seq<u8> {
    memory.subrange(ptr, ptr + len)
}

/// `memory` with `bytes` in place of what it held from `ptr`.
pub open spec fn with_region(memory: Seq<u8>, ptr: int, bytes: Seq<u8>) -> Seq<u8> {
    Seq::new(
        memory.len(),
        |i: int|
            if ptr <= i < ptr + bytes.len() {
                bytes[i - ptr]
            } else {
                memory[i]
            },
    )
}

/// What writing `bytes` from `ptr` gives: the memory with the bytes in it, or
/// the error for a region out of bounds.
pub open spec fn written_at(memory: Seq<u8>, ptr: int, bytes: Seq<u8>) -> Result<
    Seq<u8>,
    ErrorView,
> {
    if in_bounds(memory.len(), ptr, bytes.len() as int) {
        Ok(with_region(memory, ptr, bytes))
    } else {
        Err(out_of_bounds_view())
    }
}

/// What reading the `len` bytes from `ptr` gives: the bytes, or the error for a
/// region out of bounds.
pub open spec fn bytes_at(memory: Seq<u8>, ptr: int, len: int) -> Result<Seq<u8>, ErrorView> {
    if in_bounds(memory.len(), ptr, len) {
        Ok(region(memory, ptr, len))
    } else {
        Err(out_of_bounds_view())
    }
}

/// What reading a string from the `len` bytes from `ptr` gives: the characters
/// that the bytes encode, or the error for a region out of bounds, or, for a
/// region within bounds, the error for bytes that are not UTF-8.
pub open spec fn string_at(memory: Seq<u8>, ptr: int, len: int) -> Result<Seq<char>, ErrorView> {
    if !in_bounds(memory.len(), ptr, len) {
        Err(out_of_bounds_view())
    } else if !valid_utf8(region(memory, ptr, len)) {
        Err(invalid_utf8_view())
    } else {
        Ok(decode_utf8(region(memory, ptr, len)))
    }
}

/// Whether the `len` bytes from `ptr` lie within `memory`.
pub fn region_in_bounds(memory: &[u8], ptr: i32, len: usize) -> (fits: bool)
    ensures
        fits == in_bounds(memory@.len(), ptr as int, len as int),
{
    if ptr < 0 {
        return false;
    }
    let start = ptr as usize;
    start <= memory.len() && len <= memory.len() - start
}

/// Copies the `len` bytes from `ptr` out of the guest's memory.
pub fn read_region(memory: &[u8], ptr: i32, len: i32) -> (r: Result<Vec<u8>, CustomError>)
    ensures
        match r {
            Ok(bytes) => bytes_at(memory@, ptr as int, len as int) == Ok::<Seq<u8>, ErrorView>(bytes@),
            Err(e) => bytes_at(memory@, ptr as int, len as int) == Err::<Seq<u8>, ErrorView>(e@),
        },
{
    if len < 0 || !region_in_bounds(memory, ptr, len as usize) {
        return Err(out_of_bounds());
    }
    let start = ptr as usize;
    let end = start + len as usize;
    Ok(slice_to_vec(slice_subrange(memory, start, end)))
}

/// Reads the `len` bytes from `ptr` as a string.
pub fn read_string(memory: &[u8], ptr: i32, len: i32) -> (r: Result<String, CustomError>)
    ensures
        match r {
            Ok(s) => string_at(memory@, ptr as int, len as int) == Ok::<Seq<char>, ErrorView>(s@),
            Err(e) => string_at(memory@, ptr as int, len as int) == Err::<Seq<char>, ErrorView>(e@),
        },
{
    match read_region(memory, ptr, len) {
        Ok(bytes) => {
            match String::from_utf8(bytes) {
                Ok(s) => {
                    proof {
                        vstd::utf8::encode_utf8_decode_utf8(s@);
                    }
                    Ok(s)
                },
                Err(_) => Err(invalid_utf8()),
            }
        },
        Err(e) => Err(e),
    }
}

/// Copies `bytes` into the guest's memory from `ptr`. A region out of bounds
/// leaves the memory as it was.
pub fn write_region(memory: &mut [u8], ptr: i32, bytes: &[u8]) -> (r: Result<(), CustomError>)
    ensures
        match r {
            Ok(_) => written_at(old(memory)@, ptr as int, bytes@) == Ok::<Seq<u8>, ErrorView>(
                final(memory)@,
            ),
            Err(e) => {
                &&& written_at(old(memory)@, ptr as int, bytes@) == Err::<Seq<u8>, ErrorView>(e@)
                &&& final(memory)@ == old(memory)@
            },
        },
{
    if !region_in_bounds(memory, ptr, bytes.len()) {
        return Err(out_of_bounds());
    }
    let start = ptr as usize;
    let size = memory.len();
    let mut i: usize = 0;
    while i < bytes.len()
        invariant
            i <= bytes@.len(),
            start + bytes@.len() <= size,
            memory@.len() == size,
            old(memory)@.len() == size,
            memory@ == with_region(old(memory)@, start as int, bytes@.subrange(0, i as int)),
        decreases bytes@.len() - i,
    {
        memory[start + i] = bytes[i];
        i += 1;
    }
    assert(bytes@.subrange(0, i as int) == bytes@);
    Ok(())
}

/// Reading back the region that was just written gives the bytes that were
/// written: for every memory, every region within it and every content of
/// that region.
pub proof fn lemma_read_after_write(memory: Seq<u8>, ptr: int, bytes: Seq<u8>)
    ensures
        written_at(memory, ptr, bytes) matches Ok(after) ==> bytes_at(
            after,
            ptr,
            bytes.len() as int,
        ) == Ok::<Seq<u8>, ErrorView>(bytes),
{
    if in_bounds(memory.len(), ptr, bytes.len() as int) {
        assert(region(with_region(memory, ptr, bytes), ptr, bytes.len() as int) =~= bytes);
    }
}

/// Writing a region leaves every byte outside it as it was.
pub proof fn lemma_write_keeps_the_rest(memory: Seq<u8>, ptr: int, bytes: Seq<u8>, at: int)
    requires
        in_bounds(memory.len(), ptr, bytes.len() as int),
        0 <= at < memory.len(),
        at < ptr || ptr + bytes.len() <= at,
    ensures
        with_region(memory, ptr, bytes)[at] == memory[at],
{
}

} // verus!
