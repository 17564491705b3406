//! Arithmetic on the prefix byte and on little-endian data bytes, shared by
//! every item kind.

use crate::error::HidError;
use vstd::prelude::*;

verus! {

/// The number of data bytes that a prefix byte announces: its two low bits
/// select 0, 1, 2 or 4.
pub open spec fn data_size(prefix: u8) -> nat {
    let selector = prefix & 0b11;
    if selector == 0 {
        0
    } else if selector == 1 {
        1
    } else if selector == 2 {
        2
    } else {
        4
    }
}

/// The data lengths that a short item can carry.
pub open spec fn is_data_len(len: nat) -> bool {
    len == 0 || len == 1 || len == 2 || len == 4
}

/// The size selector that announces `len` data bytes.
pub open spec fn size_selector(len: nat) -> u8 {
    if len == 0 {
        0
    } else if len == 1 {
        1
    } else if len == 2 {
        2
    } else {
        3
    }
}

/// The classification key of a prefix: the prefix with its size selector
/// cleared.
pub open spec fn key_of(prefix: u8) -> u8 {
    prefix & 0b1111_1100
}

/// `prefix` with its size selector replaced by the one that announces `len`
/// data bytes.
pub open spec fn with_data_size(prefix: u8, len: nat) -> u8 {
    key_of(prefix) | size_selector(len)
}

/// Whether `raw` is one whole item: a prefix byte followed by exactly as
/// many data bytes as the prefix announces.
pub open spec fn is_frame(raw: Seq<u8>) -> bool {
    raw.len() >= 1 && raw.len() == 1 + data_size(raw[0])
}

/// The value of `bytes` read as a little-endian unsigned integer.
pub open spec fn le_value(bytes: Seq<u8>) -> nat
    decreases bytes.len(),
{
    if bytes.len() == 0 {
        0
    } else {
        bytes[0] as nat + 256 * le_value(bytes.skip(1))
    }
}

/// How many leading bytes of a data part of `len` bytes make up its number:
/// the largest of 0, 1, 2 and 4 that the data part holds.
pub open spec fn value_width(len: nat) -> nat {
    if len >= 4 {
        4
    } else if len >= 2 {
        2
    } else {
        len
    }
}

/// The data part read as an unsigned little-endian integer. Empty data is 0.
pub open spec fn unsigned_value(data: Seq<u8>) -> nat {
    le_value(data.take(value_width(data.len()) as int))
}

/// The data part read as a two's-complement little-endian integer of the
/// width present (8, 16 or 32 bits). Empty data is 0.
pub open spec fn signed_value(data: Seq<u8>) -> int {
    let width = value_width(data.len());
    let raw = unsigned_value(data);
    if width == 1 && raw >= 0x80 {
        raw - 0x100
    } else if width == 2 && raw >= 0x8000 {
        raw - 0x1_0000
    } else if width == 4 && raw >= 0x8000_0000 {
        raw - 0x1_0000_0000
    } else {
        raw as int
    }
}

proof fn lemma_selector_bits(prefix: u8)
    by (bit_vector)
    ensures
        prefix & 0b11 == 0 || prefix & 0b11 == 1 || prefix & 0b11 == 2 || prefix & 0b11 == 3,
        ((prefix & 0b1111_1100) | 0) & 0b11 == 0,
        ((prefix & 0b1111_1100) | 1) & 0b11 == 1,
        ((prefix & 0b1111_1100) | 2) & 0b11 == 2,
        ((prefix & 0b1111_1100) | 3) & 0b11 == 3,
        ((prefix & 0b1111_1100) | 0) & 0b1111_1100 == prefix & 0b1111_1100,
        ((prefix & 0b1111_1100) | 1) & 0b1111_1100 == prefix & 0b1111_1100,
        ((prefix & 0b1111_1100) | 2) & 0b1111_1100 == prefix & 0b1111_1100,
        ((prefix & 0b1111_1100) | 3) & 0b1111_1100 == prefix & 0b1111_1100,
{
}

/// Rewriting the size selector makes the prefix announce the new length and
/// leaves its classification key alone.
pub proof fn lemma_with_data_size(prefix: u8, len: nat)
    requires
        is_data_len(len),
    ensures
        data_size(with_data_size(prefix, len)) == len,
        key_of(with_data_size(prefix, len)) == key_of(prefix),
{
    lemma_selector_bits(prefix);
}

/// Rewrite the size selector of `prefix` so that it announces `data.len()`
/// data bytes. A length other than 0, 1, 2 or 4 is refused and leaves the
/// prefix as it was.
pub fn __set_data_size(prefix: &mut u8, data: &[u8]) -> (r: Result<(), HidError>)
    ensures
        is_data_len(data@.len()) ==> r is Ok && *final(prefix) == with_data_size(
            *old(prefix),
            data@.len(),
        ),
        !is_data_len(data@.len()) ==> r matches Err(HidError::InvalidDataSize),
        !is_data_len(data@.len()) ==> *final(prefix) == *old(prefix),
{
    let len = data.len();
    let selector: u8 = if len == 0 {
        0b00
    } else if len == 1 {
        0b01
    } else if len == 2 {
        0b10
    } else if len == 4 {
        0b11
    } else {
        return Err(HidError::InvalidDataSize);
    };
    *prefix = (*prefix & 0b1111_1100) | selector;
    Ok(())
}

/// The number of data bytes that `prefix` announces.
pub fn __data_size(prefix: u8) -> (size: usize)
    ensures
        size == data_size(prefix),
{
    let selector: u8 = prefix & 0b11;
    if selector == 0b00 {
        0
    } else if selector == 0b01 {
        1
    } else if selector == 0b10 {
        2
    } else {
        4
    }
}

proof fn lemma_le_value_1(bytes: Seq<u8>)
    requires
        bytes.len() == 1,
    ensures
        le_value(bytes) == bytes[0],
{
    reveal_with_fuel(le_value, 2);
}

proof fn lemma_le_value_2(bytes: Seq<u8>)
    requires
        bytes.len() == 2,
    ensures
        le_value(bytes) == bytes[0] + 256 * bytes[1],
{
    lemma_le_value_1(bytes.skip(1));
}

proof fn lemma_le_value_4(bytes: Seq<u8>)
    requires
        bytes.len() == 4,
    ensures
        le_value(bytes) == bytes[0] + 256 * bytes[1] + 65536 * bytes[2] + 16777216 * bytes[3],
{
    lemma_le_value_2(bytes.skip(1).skip(1));
    assert(le_value(bytes.skip(1)) == bytes[1] + 256 * le_value(bytes.skip(1).skip(1)));
}

/// What the data part holds as an unsigned number, byte by byte.
pub proof fn lemma_unsigned_value(data: Seq<u8>)
    ensures
        data.len() == 0 ==> unsigned_value(data) == 0,
        data.len() == 1 ==> unsigned_value(data) == data[0],
        data.len() == 2 || data.len() == 3 ==> unsigned_value(data) == data[0] + 256 * data[1],
        data.len() >= 4 ==> unsigned_value(data) == data[0] + 256 * data[1] + 65536 * data[2]
            + 16777216 * data[3],
        unsigned_value(data) <= u32::MAX,
{
    let width = value_width(data.len());
    let head = data.take(width as int);
    if width == 1 {
        lemma_le_value_1(head);
    } else if width == 2 {
        lemma_le_value_2(head);
    } else if width == 4 {
        lemma_le_value_4(head);
    }
}

/// Read the data part as a little-endian unsigned integer.
pub fn __data_to_unsigned(data: &[u8]) -> (value: u32)
    ensures
        value == unsigned_value(data@),
{
    proof {
        lemma_unsigned_value(data@);
    }
    let len = data.len();
    if len == 0 {
        0
    } else if len == 1 {
        data[0] as u32
    } else if len < 4 {
        data[0] as u32 + 256 * (data[1] as u32)
    } else {
        data[0] as u32 + 256 * (data[1] as u32) + 65536 * (data[2] as u32) + 16777216 * (
        data[3] as u32)
    }
}

/// Read the data part as a little-endian two's-complement integer of the
/// width present.
pub fn __data_to_signed(data: &[u8]) -> (value: i32)
    ensures
        value == signed_value(data@),
{
    proof {
        lemma_unsigned_value(data@);
    }
    let len = data.len();
    let raw = __data_to_unsigned(data);
    if len == 1 && raw >= 0x80 {
        raw as i32 - 0x100
    } else if (len == 2 || len == 3) && raw >= 0x8000 {
        raw as i32 - 0x1_0000
    } else if len >= 4 && raw >= 0x8000_0000 {
        (raw as i64 - 0x1_0000_0000) as i32
    } else {
        raw as i32
    }
}

} // verus!
