//! The byte buffer that change-sets travel in: `bytes::Bytes`, seen by the
//! verifier as the sequence of bytes that is still unread.

use bytes::Bytes;
use vstd::prelude::*;

verus! {

/// `bytes::Bytes`, a cheaply shared run of bytes. The verifier sees
/// nothing inside a value of it but what `bytes_seq` names.
#[verifier::external_type_specification]
#[verifier::external_body]
pub struct ExBytes(bytes::Bytes);

/// The bytes that a buffer holds, first unread byte first.
pub uninterp spec fn bytes_seq(buf: Bytes) -> Seq<u8>;

/// The value of two bytes read as a big-endian number.
pub open spec fn be_u16(b0: u8, b1: u8) -> u16 {
    (b0 * 0x100 + b1) as u16
}

/// The value of four bytes read as a big-endian number.
pub open spec fn be_u32(b0: u8, b1: u8, b2: u8, b3: u8) -> u32 {
    (b0 * 0x100_0000 + b1 * 0x1_0000 + b2 * 0x100 + b3) as u32
}

/// `Buf::remaining` on `Bytes`: the number of unread bytes, which for this
/// type is `Bytes::len`.
#[verifier::external_body]
pub(crate) fn remaining(buf: &Bytes) -> (n: usize)
    ensures
        n == bytes_seq(*buf).len(),
{
    bytes::Buf::remaining(buf)
}

/// `Buf::get_u8` on `Bytes`: hands out the first unread byte and advances
/// past it. It panics on an empty buffer, which the precondition excludes.
#[verifier::external_body]
pub(crate) fn get_u8(buf: &mut Bytes) -> (v: u8)
    requires
        bytes_seq(*old(buf)).len() >= 1,
    ensures
        v == bytes_seq(*old(buf))[0],
        bytes_seq(*final(buf)) == bytes_seq(*old(buf)).skip(1),
{
    bytes::Buf::get_u8(buf)
}

/// `Buf::get_u16` on `Bytes`: reads the first two unread bytes as a
/// big-endian number and advances past them. It panics when fewer than two
/// bytes are left, which the precondition excludes.
#[verifier::external_body]
pub(crate) fn get_u16(buf: &mut Bytes) -> (v: u16)
    requires
        bytes_seq(*old(buf)).len() >= 2,
    ensures
        v == be_u16(bytes_seq(*old(buf))[0], bytes_seq(*old(buf))[1]),
        bytes_seq(*final(buf)) == bytes_seq(*old(buf)).skip(2),
{
    bytes::Buf::get_u16(buf)
}

/// `Buf::get_u32` on `Bytes`: reads the first four unread bytes as a
/// big-endian number and advances past them. It panics when fewer than four
/// bytes are left, which the precondition excludes.
#[verifier::external_body]
pub(crate) fn get_u32(buf: &mut Bytes) -> (v: u32)
    requires
        bytes_seq(*old(buf)).len() >= 4,
    ensures
        v == be_u32(
            bytes_seq(*old(buf))[0],
            bytes_seq(*old(buf))[1],
            bytes_seq(*old(buf))[2],
            bytes_seq(*old(buf))[3],
        ),
        bytes_seq(*final(buf)) == bytes_seq(*old(buf)).skip(4),
{
    bytes::Buf::get_u32(buf)
}

/// `Bytes::split_to`: returns the first `at` bytes and leaves the rest in
/// the buffer. It panics when `at` is past the end, which the precondition
/// excludes.
#[verifier::external_body]
pub(crate) fn split_to(buf: &mut Bytes, at: usize) -> (head: Bytes)
    requires
        at <= bytes_seq(*old(buf)).len(),
    ensures
        bytes_seq(head) == bytes_seq(*old(buf)).subrange(0, at as int),
        bytes_seq(*final(buf)) == bytes_seq(*old(buf)).skip(at as int),
{
    buf.split_to(at)
}

/// `Clone::clone` on `Bytes`: another handle on the same bytes.
pub assume_specification[ <Bytes as Clone>::clone ](buf: &Bytes) -> (copy: Bytes)
    ensures
        bytes_seq(copy) == bytes_seq(*buf),
;

} // verus!
