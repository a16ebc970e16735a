//! Big-endian integers on the wire: how a number is laid out, and that
//! reading the layout gives the number back.

use crate::buffer::{be_u16, be_u32};
use vstd::prelude::*;

verus! {

/// The two bytes of `v`, most significant first.
pub open spec fn u16_bytes(v: u16) -> Seq<u8> {
    seq![(v / 0x100) as u8, (v % 0x100) as u8]
}

/// The four bytes of `v`, most significant first.
pub open spec fn u32_bytes(v: u32) -> Seq<u8> {
    seq![
        (v / 0x100_0000) as u8,
        ((v / 0x1_0000) % 0x100) as u8,
        ((v / 0x100) % 0x100) as u8,
        (v % 0x100) as u8,
    ]
}

/// The big-endian number in the two bytes of `s` that start at `at`.
pub open spec fn u16_at(s: Seq<u8>, at: int) -> u16 {
    be_u16(s[at], s[at + 1])
}

/// The big-endian number in the four bytes of `s` that start at `at`.
pub open spec fn u32_at(s: Seq<u8>, at: int) -> u32 {
    be_u32(s[at], s[at + 1], s[at + 2], s[at + 3])
}

/// Reading the bytes of a 16-bit number gives the number back.
pub proof fn lemma_u16_round_trip(v: u16)
    ensures
        u16_bytes(v).len() == 2,
        u16_at(u16_bytes(v), 0) == v,
{
    let hi: int = (v / 0x100) as int;
    let lo: int = (v % 0x100) as int;
    assert(v == hi * 0x100 + lo);
}

/// Reading the bytes of a 32-bit number gives the number back.
pub proof fn lemma_u32_round_trip(v: u32)
    ensures
        u32_bytes(v).len() == 4,
        u32_at(u32_bytes(v), 0) == v,
{
    let b0: int = (v / 0x100_0000) as int;
    let b1: int = ((v / 0x1_0000) % 0x100) as int;
    let b2: int = ((v / 0x100) % 0x100) as int;
    let b3: int = (v % 0x100) as int;
    assert(v == b0 * 0x100_0000 + b1 * 0x1_0000 + b2 * 0x100 + b3);
}

/// Two bytes are the layout of the number they spell.
pub proof fn lemma_u16_bytes_of_read(b0: u8, b1: u8)
    ensures
        u16_bytes(be_u16(b0, b1)) == seq![b0, b1],
{
    let v: int = b0 * 0x100 + b1;
    assert(v / 0x100 == b0 && v % 0x100 == b1);
    assert(u16_bytes(be_u16(b0, b1)) =~= seq![b0, b1]);
}

/// Four bytes are the layout of the number they spell.
#[verifier::rlimit(40)]
pub proof fn lemma_u32_bytes_of_read(b0: u8, b1: u8, b2: u8, b3: u8)
    ensures
        u32_bytes(be_u32(b0, b1, b2, b3)) == seq![b0, b1, b2, b3],
{
    let v: int = b0 * 0x100_0000 + b1 * 0x1_0000 + b2 * 0x100 + b3;
    assert(0 <= v <= u32::MAX);
    assert(v / 0x100_0000 == b0);
    assert(v / 0x1_0000 == b0 * 0x100 + b1);
    assert((v / 0x1_0000) % 0x100 == b1);
    assert(v / 0x100 == b0 * 0x1_0000 + b1 * 0x100 + b2);
    assert((v / 0x100) % 0x100 == b2);
    assert(v % 0x100 == b3);
    let w = be_u32(b0, b1, b2, b3);
    assert(w == v);
    assert(u32_bytes(w) =~= seq![b0, b1, b2, b3]);
}

/// Appends the two bytes of `v` to `out`.
pub fn put_u16(out: &mut Vec<u8>, v: u16)
    ensures
        final(out)@ == old(out)@ + u16_bytes(v),
{
    out.push((v / 0x100) as u8);
    out.push((v % 0x100) as u8);
    assert(out@ =~= old(out)@ + u16_bytes(v));
}

/// Appends the four bytes of `v` to `out`.
pub fn put_u32(out: &mut Vec<u8>, v: u32)
    ensures
        final(out)@ == old(out)@ + u32_bytes(v),
{
    out.push((v / 0x100_0000) as u8);
    out.push(((v / 0x1_0000) % 0x100) as u8);
    out.push(((v / 0x100) % 0x100) as u8);
    out.push((v % 0x100) as u8);
    assert(out@ =~= old(out)@ + u32_bytes(v));
}

} // verus!
