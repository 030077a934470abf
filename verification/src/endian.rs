//! Integers as the bytes that the guest sees.
//!
//! The layouts are stated arithmetically, most significant byte first for
//! the big-endian forms. The conversions themselves are made by
//! `zerocopy`'s byte-order integers; the functions that call it are
//! believed, not proved.

use vstd::prelude::*;

verus! {

/// The two bytes of `n`, most significant first.
pub open spec fn be16(n: u16) -> Seq<u8> {
    seq![(n / 0x100) as u8, (n % 0x100) as u8]
}

/// The four bytes of `n`, most significant first.
pub open spec fn be32(n: u32) -> Seq<u8> {
    seq![
        (n / 0x100_0000) as u8,
        (n / 0x1_0000 % 0x100) as u8,
        (n / 0x100 % 0x100) as u8,
        (n % 0x100) as u8,
    ]
}

/// The four bytes of `n`, least significant first.
pub open spec fn le32(n: u32) -> Seq<u8> {
    seq![
        (n % 0x100) as u8,
        (n / 0x100 % 0x100) as u8,
        (n / 0x1_0000 % 0x100) as u8,
        (n / 0x100_0000) as u8,
    ]
}

/// The eight bytes of `n`, least significant first.
pub open spec fn le64(n: u64) -> Seq<u8> {
    seq![
        (n % 0x100) as u8,
        (n / 0x100 % 0x100) as u8,
        (n / 0x1_0000 % 0x100) as u8,
        (n / 0x100_0000 % 0x100) as u8,
        (n / 0x1_0000_0000 % 0x100) as u8,
        (n / 0x100_0000_0000 % 0x100) as u8,
        (n / 0x1_0000_0000_0000 % 0x100) as u8,
        (n / 0x100_0000_0000_0000) as u8,
    ]
}

/// The number that the first two bytes of `bytes` spell, most significant
/// byte first.
pub open spec fn from_be16(bytes: Seq<u8>) -> int
    recommends
        bytes.len() >= 2,
{
    bytes[0] as int * 0x100 + bytes[1] as int
}

/// The number that the first two bytes of `bytes` spell, least significant
/// byte first.
pub open spec fn from_le16(bytes: Seq<u8>) -> int
    recommends
        bytes.len() >= 2,
{
    bytes[1] as int * 0x100 + bytes[0] as int
}

/// The number that the first four bytes of `bytes` spell, most significant
/// byte first.
pub open spec fn from_be32(bytes: Seq<u8>) -> int
    recommends
        bytes.len() >= 4,
{
    bytes[0] as int * 0x100_0000 + bytes[1] as int * 0x1_0000 + bytes[2] as int * 0x100
        + bytes[3] as int
}

/// The number that the first eight bytes of `bytes` spell, most significant
/// byte first.
pub open spec fn from_be64(bytes: Seq<u8>) -> int
    recommends
        bytes.len() >= 8,
{
    from_be32(bytes) * 0x1_0000_0000 + from_be32(bytes.skip(4))
}

/// Big-endian bytes of a 16-bit number, from `zerocopy::byteorder::U16::new`
/// with `BigEndian` and the conversion of that value into `[u8; 2]`. The
/// contract claims the layout of [`be16`].
#[verifier::external_body]
pub(crate) fn u16_to_be(n: u16) -> (bytes: [u8; 2])
    ensures
        bytes@ == be16(n),
{
    zerocopy::byteorder::U16::<zerocopy::byteorder::BigEndian>::new(n).into()
}

/// Big-endian bytes of a 32-bit number, from `zerocopy::byteorder::U32::new`
/// with `BigEndian` and the conversion of that value into `[u8; 4]`. The
/// contract claims the layout of [`be32`].
#[verifier::external_body]
pub(crate) fn u32_to_be(n: u32) -> (bytes: [u8; 4])
    ensures
        bytes@ == be32(n),
{
    zerocopy::byteorder::U32::<zerocopy::byteorder::BigEndian>::new(n).into()
}

/// Little-endian bytes of a 32-bit number, from
/// `zerocopy::byteorder::U32::new` with `LittleEndian` and the conversion of
/// that value into `[u8; 4]`. The contract claims the layout of [`le32`].
#[verifier::external_body]
pub(crate) fn u32_to_le(n: u32) -> (bytes: [u8; 4])
    ensures
        bytes@ == le32(n),
{
    zerocopy::byteorder::U32::<zerocopy::byteorder::LittleEndian>::new(n).into()
}

/// Little-endian bytes of a 64-bit number, from
/// `zerocopy::byteorder::U64::new` with `LittleEndian` and the conversion of
/// that value into `[u8; 8]`. The contract claims the layout of [`le64`].
#[verifier::external_body]
pub(crate) fn u64_to_le(n: u64) -> (bytes: [u8; 8])
    ensures
        bytes@ == le64(n),
{
    zerocopy::byteorder::U64::<zerocopy::byteorder::LittleEndian>::new(n).into()
}

/// The 32-bit number that four big-endian bytes spell, from
/// `zerocopy::byteorder::U32::from_bytes` and `get` with `BigEndian`. The
/// contract claims the value of [`from_be32`].
#[verifier::external_body]
pub(crate) fn u32_from_be(bytes: [u8; 4]) -> (n: u32)
    ensures
        n == from_be32(bytes@),
{
    zerocopy::byteorder::U32::<zerocopy::byteorder::BigEndian>::from_bytes(bytes).get()
}

/// The 64-bit number that eight big-endian bytes spell, from
/// `zerocopy::byteorder::U64::from_bytes` and `get` with `BigEndian`. The
/// contract claims the value of [`from_be64`].
#[verifier::external_body]
pub(crate) fn u64_from_be(bytes: [u8; 8]) -> (n: u64)
    ensures
        n == from_be64(bytes@),
{
    zerocopy::byteorder::U64::<zerocopy::byteorder::BigEndian>::from_bytes(bytes).get()
}

} // verus!
