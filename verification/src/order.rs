use byteorder::{BigEndian, ByteOrder, LittleEndian};
use vstd::prelude::*;

use crate::format::{be_bytes, le_bytes};

verus! {

/// `byteorder::LittleEndian::write_u16` into a fresh 2-byte buffer. Trusted to leave
/// the unsigned value `n` in the buffer, least significant byte first.
#[verifier::external_body]
pub(crate) fn le_u16(n: u16) -> (b: [u8; 2])
    ensures
        b@ == le_bytes(n as int, 2),
{
    let mut buf = [0u8; 2];
    LittleEndian::write_u16(&mut buf, n);
    buf
}

/// `byteorder::BigEndian::write_u16` into a fresh 2-byte buffer. Trusted to leave
/// the unsigned value `n` in the buffer, most significant byte first.
#[verifier::external_body]
pub(crate) fn be_u16(n: u16) -> (b: [u8; 2])
    ensures
        b@ == be_bytes(n as int, 2),
{
    let mut buf = [0u8; 2];
    BigEndian::write_u16(&mut buf, n);
    buf
}

/// `byteorder::LittleEndian::write_u32` into a fresh 4-byte buffer. Trusted to leave
/// the unsigned value `n` in the buffer, least significant byte first.
#[verifier::external_body]
pub(crate) fn le_u32(n: u32) -> (b: [u8; 4])
    ensures
        b@ == le_bytes(n as int, 4),
{
    let mut buf = [0u8; 4];
    LittleEndian::write_u32(&mut buf, n);
    buf
}

/// `byteorder::BigEndian::write_u32` into a fresh 4-byte buffer. Trusted to leave
/// the unsigned value `n` in the buffer, most significant byte first.
#[verifier::external_body]
pub(crate) fn be_u32(n: u32) -> (b: [u8; 4])
    ensures
        b@ == be_bytes(n as int, 4),
{
    let mut buf = [0u8; 4];
    BigEndian::write_u32(&mut buf, n);
    buf
}

/// `byteorder::LittleEndian::write_u64` into a fresh 8-byte buffer. Trusted to leave
/// the unsigned value `n` in the buffer, least significant byte first.
#[verifier::external_body]
pub(crate) fn le_u64(n: u64) -> (b: [u8; 8])
    ensures
        b@ == le_bytes(n as int, 8),
{
    let mut buf = [0u8; 8];
    LittleEndian::write_u64(&mut buf, n);
    buf
}

/// `byteorder::BigEndian::write_u64` into a fresh 8-byte buffer. Trusted to leave
/// the unsigned value `n` in the buffer, most significant byte first.
#[verifier::external_body]
pub(crate) fn be_u64(n: u64) -> (b: [u8; 8])
    ensures
        b@ == be_bytes(n as int, 8),
{
    let mut buf = [0u8; 8];
    BigEndian::write_u64(&mut buf, n);
    buf
}

/// `byteorder::LittleEndian::write_u128` into a fresh 16-byte buffer. Trusted to leave
/// the unsigned value `n` in the buffer, least significant byte first.
#[verifier::external_body]
pub(crate) fn le_u128(n: u128) -> (b: [u8; 16])
    ensures
        b@ == le_bytes(n as int, 16),
{
    let mut buf = [0u8; 16];
    LittleEndian::write_u128(&mut buf, n);
    buf
}

/// `byteorder::BigEndian::write_u128` into a fresh 16-byte buffer. Trusted to leave
/// the unsigned value `n` in the buffer, most significant byte first.
#[verifier::external_body]
pub(crate) fn be_u128(n: u128) -> (b: [u8; 16])
    ensures
        b@ == be_bytes(n as int, 16),
{
    let mut buf = [0u8; 16];
    BigEndian::write_u128(&mut buf, n);
    buf
}

/// `byteorder::LittleEndian::write_i16` into a fresh 2-byte buffer. Trusted to leave
/// the signed (two's complement) value `n` in the buffer, least significant byte first.
#[verifier::external_body]
pub(crate) fn le_i16(n: i16) -> (b: [u8; 2])
    ensures
        b@ == le_bytes(n as int, 2),
{
    let mut buf = [0u8; 2];
    LittleEndian::write_i16(&mut buf, n);
    buf
}

/// `byteorder::BigEndian::write_i16` into a fresh 2-byte buffer. Trusted to leave
/// the signed (two's complement) value `n` in the buffer, most significant byte first.
#[verifier::external_body]
pub(crate) fn be_i16(n: i16) -> (b: [u8; 2])
    ensures
        b@ == be_bytes(n as int, 2),
{
    let mut buf = [0u8; 2];
    BigEndian::write_i16(&mut buf, n);
    buf
}

/// `byteorder::LittleEndian::write_i32` into a fresh 4-byte buffer. Trusted to leave
/// the signed (two's complement) value `n` in the buffer, least significant byte first.
#[verifier::external_body]
pub(crate) fn le_i32(n: i32) -> (b: [u8; 4])
    ensures
        b@ == le_bytes(n as int, 4),
{
    let mut buf = [0u8; 4];
    LittleEndian::write_i32(&mut buf, n);
    buf
}

/// `byteorder::BigEndian::write_i32` into a fresh 4-byte buffer. Trusted to leave
/// the signed (two's complement) value `n` in the buffer, most significant byte first.
#[verifier::external_body]
pub(crate) fn be_i32(n: i32) -> (b: [u8; 4])
    ensures
        b@ == be_bytes(n as int, 4),
{
    let mut buf = [0u8; 4];
    BigEndian::write_i32(&mut buf, n);
    buf
}

/// `byteorder::LittleEndian::write_i64` into a fresh 8-byte buffer. Trusted to leave
/// the signed (two's complement) value `n` in the buffer, least significant byte first.
#[verifier::external_body]
pub(crate) fn le_i64(n: i64) -> (b: [u8; 8])
    ensures
        b@ == le_bytes(n as int, 8),
{
    let mut buf = [0u8; 8];
    LittleEndian::write_i64(&mut buf, n);
    buf
}

/// `byteorder::BigEndian::write_i64` into a fresh 8-byte buffer. Trusted to leave
/// the signed (two's complement) value `n` in the buffer, most significant byte first.
#[verifier::external_body]
pub(crate) fn be_i64(n: i64) -> (b: [u8; 8])
    ensures
        b@ == be_bytes(n as int, 8),
{
    let mut buf = [0u8; 8];
    BigEndian::write_i64(&mut buf, n);
    buf
}

/// `byteorder::LittleEndian::write_i128` into a fresh 16-byte buffer. Trusted to leave
/// the signed (two's complement) value `n` in the buffer, least significant byte first.
#[verifier::external_body]
pub(crate) fn le_i128(n: i128) -> (b: [u8; 16])
    ensures
        b@ == le_bytes(n as int, 16),
{
    let mut buf = [0u8; 16];
    LittleEndian::write_i128(&mut buf, n);
    buf
}

/// `byteorder::BigEndian::write_i128` into a fresh 16-byte buffer. Trusted to leave
/// the signed (two's complement) value `n` in the buffer, most significant byte first.
#[verifier::external_body]
pub(crate) fn be_i128(n: i128) -> (b: [u8; 16])
    ensures
        b@ == be_bytes(n as int, 16),
{
    let mut buf = [0u8; 16];
    BigEndian::write_i128(&mut buf, n);
    buf
}

/// `char::encode_utf8` of std into the buffer `buf`, returning the length of the
/// encoded part. Trusted to put the UTF-8 encoding of `c` at the start of `buf`
/// (what std documents); what it leaves in the rest of `buf` is not stated.
#[verifier::external_body]
pub(crate) fn char_encode_utf8(c: char, buf: &mut [u8; 4]) -> (n: usize)
    ensures
        n == vstd::utf8::encode_scalar(c as u32).len(),
        final(buf)@.subrange(0, n as int) == vstd::utf8::encode_scalar(c as u32),
{
    c.encode_utf8(buf).len()
}

} // verus!
