//! Integers read from bytes in either byte order.

use vstd::prelude::*;
use byteorder::ByteOrder;
use crate::types::TIFFByteOrder;

verus! {

/// The 16-bit integer that the bytes `b0 b1` hold in `order`.
pub open spec fn u16_from(order: TIFFByteOrder, b0: u8, b1: u8) -> u16 {
    match order {
        TIFFByteOrder::LittleEndian => (b0 as int + 0x100 * (b1 as int)) as u16,
        TIFFByteOrder::BigEndian => (0x100 * (b0 as int) + b1 as int) as u16,
    }
}

/// The 32-bit integer that the bytes `b0 b1 b2 b3` hold in `order`.
pub open spec fn u32_from(order: TIFFByteOrder, b0: u8, b1: u8, b2: u8, b3: u8) -> u32 {
    match order {
        TIFFByteOrder::LittleEndian => (b0 as int + 0x100 * (b1 as int) + 0x1_0000 * (b2 as int)
            + 0x100_0000 * (b3 as int)) as u32,
        TIFFByteOrder::BigEndian => (0x100_0000 * (b0 as int) + 0x1_0000 * (b1 as int) + 0x100
            * (b2 as int) + b3 as int) as u32,
    }
}

/// The 16-bit integer at index `i` of `s`.
pub open spec fn u16_at(order: TIFFByteOrder, s: Seq<u8>, i: int) -> u16 {
    u16_from(order, s[i], s[i + 1])
}

/// The 32-bit integer at index `i` of `s`.
pub open spec fn u32_at(order: TIFFByteOrder, s: Seq<u8>, i: int) -> u32 {
    u32_from(order, s[i], s[i + 1], s[i + 2], s[i + 3])
}

/// Relies on byteorder's `LittleEndian::read_u16`: the first two bytes,
/// least significant first.
#[verifier::external_body]
fn le_u16(b: &[u8]) -> (r: u16)
    requires
        b@.len() >= 2,
    ensures
        r == u16_from(TIFFByteOrder::LittleEndian, b@[0], b@[1]),
{
    byteorder::LittleEndian::read_u16(b)
}

/// Relies on byteorder's `BigEndian::read_u16`: the first two bytes, most
/// significant first.
#[verifier::external_body]
fn be_u16(b: &[u8]) -> (r: u16)
    requires
        b@.len() >= 2,
    ensures
        r == u16_from(TIFFByteOrder::BigEndian, b@[0], b@[1]),
{
    byteorder::BigEndian::read_u16(b)
}

/// Relies on byteorder's `LittleEndian::read_u32`: the first four bytes,
/// least significant first.
#[verifier::external_body]
fn le_u32(b: &[u8]) -> (r: u32)
    requires
        b@.len() >= 4,
    ensures
        r == u32_from(TIFFByteOrder::LittleEndian, b@[0], b@[1], b@[2], b@[3]),
{
    byteorder::LittleEndian::read_u32(b)
}

/// Relies on byteorder's `BigEndian::read_u32`: the first four bytes, most
/// significant first.
#[verifier::external_body]
fn be_u32(b: &[u8]) -> (r: u32)
    requires
        b@.len() >= 4,
    ensures
        r == u32_from(TIFFByteOrder::BigEndian, b@[0], b@[1], b@[2], b@[3]),
{
    byteorder::BigEndian::read_u32(b)
}

/// The 16-bit integer held by the first two bytes of `b` in `order`.
pub fn read_u16_in(order: TIFFByteOrder, b: &[u8]) -> (r: u16)
    requires
        b@.len() >= 2,
    ensures
        r == u16_at(order, b@, 0),
{
    match order {
        TIFFByteOrder::LittleEndian => le_u16(b),
        TIFFByteOrder::BigEndian => be_u16(b),
    }
}

/// The 32-bit integer held by the first four bytes of `b` in `order`.
pub fn read_u32_in(order: TIFFByteOrder, b: &[u8]) -> (r: u32)
    requires
        b@.len() >= 4,
    ensures
        r == u32_at(order, b@, 0),
{
    match order {
        TIFFByteOrder::LittleEndian => le_u32(b),
        TIFFByteOrder::BigEndian => be_u32(b),
    }
}

} // verus!
