//! Little-endian encoding of integers, as the descriptors and the control
//! responses of the audio class lay them out on the wire.

use vstd::prelude::*;
use byteorder_embedded_io::ByteOrder;
use byteorder_embedded_io::LittleEndian;

verus! {

/// The least significant byte of `v`, for any integer (negative values in
/// two's complement, since `%` is Euclidean).
pub open spec fn low_byte(v: int) -> u8 {
    (v % 256) as u8
}

/// `v` as one little-endian byte.
pub open spec fn le1(v: int) -> Seq<u8> {
    seq![low_byte(v)]
}

/// `v` as two little-endian bytes (two's complement for negative values).
pub open spec fn le2(v: int) -> Seq<u8> {
    seq![low_byte(v), low_byte(v / 256)]
}

/// `v` as four little-endian bytes (two's complement for negative values).
pub open spec fn le4(v: int) -> Seq<u8> {
    le2(v) + le2(v / 65536)
}

/// The value of two little-endian bytes.
pub open spec fn le2_value(b: Seq<u8>) -> int {
    b[0] + 256 * b[1]
}

/// The value of four little-endian bytes.
pub open spec fn le4_value(b: Seq<u8>) -> int {
    b[0] + 256 * b[1] + 65536 * b[2] + 16777216 * b[3]
}

/// Encodes `n` with `byteorder`'s `LittleEndian::write_u16`, which stores the
/// low byte first: the contract claims exactly that byte order.
#[verifier::external_body]
pub(crate) fn le_u16(n: u16) -> (r: [u8; 2])
    ensures
        r@ == le2(n as int),
{
    let mut buf = [0u8; 2];
    LittleEndian::write_u16(&mut buf, n);
    buf
}

/// Encodes `n` with `byteorder`'s `LittleEndian::write_u32`, which stores the
/// bytes from the least to the most significant: the contract claims exactly
/// that byte order.
#[verifier::external_body]
pub(crate) fn le_u32(n: u32) -> (r: [u8; 4])
    ensures
        r@ == le4(n as int),
{
    let mut buf = [0u8; 4];
    LittleEndian::write_u32(&mut buf, n);
    buf
}

/// Decodes the first four bytes of `bytes` with `byteorder`'s
/// `LittleEndian::read_u32` (which panics on fewer than four bytes, hence the
/// `requires`); the contract claims the little-endian value of those bytes.
#[verifier::external_body]
pub(crate) fn read_le_u32(bytes: &[u8]) -> (r: u32)
    requires
        bytes@.len() >= 4,
    ensures
        r as int == le4_value(bytes@),
{
    LittleEndian::read_u32(bytes)
}

/// Proves that the little-endian encoding of an unsigned value below
/// `2^32` decodes back to it.
pub proof fn lemma_le4_roundtrip(v: int)
    requires
        0 <= v < 0x1_0000_0000,
    ensures
        le4(v).len() == 4,
        le4_value(le4(v)) == v,
{
    let b = le4(v);
    assert(b[0] == v % 256);
    assert(b[1] == (v / 256) % 256);
    assert(b[2] == (v / 65536) % 256);
    assert(b[3] == ((v / 65536) / 256) % 256);
}

} // verus!
