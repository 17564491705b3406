//! The shapes that the labels of the item kinds share: a bare name, a name
//! with a number, a name with a word, a name with a list of flags.

use crate::privates::{__data_to_signed, __data_to_unsigned, signed_value, unsigned_value};
use crate::text::{decimal, join, push_decimal, push_joined, push_signed, signed_decimal, views};
use vstd::prelude::*;

verus! {

/// `name`, and behind it `detail` in round brackets.
pub open spec fn with_detail(name: Seq<char>, detail: Seq<char>) -> Seq<char> {
    name + " ("@ + detail + ")"@
}

/// The label of a kind whose data is an unsigned number: the bare name where
/// there is no data, else the name and the number.
pub open spec fn unsigned_label(name: Seq<char>, data: Seq<u8>) -> Seq<char> {
    if data.len() == 0 {
        name
    } else {
        with_detail(name, decimal(unsigned_value(data)))
    }
}

/// The label of a kind whose data is a signed number: the bare name where
/// there is no data, else the name and the number.
pub open spec fn signed_label(name: Seq<char>, data: Seq<u8>) -> Seq<char> {
    if data.len() == 0 {
        name
    } else {
        with_detail(name, signed_decimal(signed_value(data)))
    }
}

/// One of two words, by one bit of a byte: `zero` where the bit under
/// `mask` is clear, `one` where it is set.
pub open spec fn flag(byte: u8, mask: u8, zero: Seq<char>, one: Seq<char>) -> Seq<char> {
    if byte & mask == 0 {
        zero
    } else {
        one
    }
}

/// The flags of a main item, in the order of their bits. Bit 7 of the first
/// byte is read only for a kind that has the volatile flag; bit 0 of the
/// second byte only where there is a second byte.
pub open spec fn main_flags(data: Seq<u8>, volatile: bool) -> Seq<Seq<char>>
    recommends
        data.len() >= 1,
{
    let common = seq![
        flag(data[0], 0x01, "Data"@, "Constant"@),
        flag(data[0], 0x02, "Array"@, "Variable"@),
        flag(data[0], 0x04, "Absolute"@, "Relative"@),
        flag(data[0], 0x08, "No Wrap"@, "Wrap"@),
        flag(data[0], 0x10, "Linear"@, "Non Linear"@),
        flag(data[0], 0x20, "Preferred State"@, "No Preferred"@),
        flag(data[0], 0x40, "No Null Position"@, "Null State"@),
    ];
    let first = if volatile {
        common.push(flag(data[0], 0x80, "Non Volatile"@, "Volatile"@))
    } else {
        common
    };
    if data.len() >= 2 {
        first.push(flag(data[1], 0x01, "Bit Field"@, "Buffered Bytes"@))
    } else {
        first
    }
}

/// The label of a main item that carries flags: the bare name where there is
/// no data, else the name and the flags, separated by commas.
pub open spec fn main_label(name: Seq<char>, data: Seq<u8>, volatile: bool) -> Seq<char> {
    if data.len() == 0 {
        name
    } else {
        with_detail(name, join(main_flags(data, volatile), ", "@))
    }
}

/// A label made of `name` and of `detail` in round brackets.
pub(crate) fn detailed(name: &'static str, detail: &str) -> (label: String)
    ensures
        label@ == with_detail(name@, detail@),
{
    let mut label = String::from_str(name);
    label.append(" (");
    label.append(detail);
    label.append(")");
    label
}

/// The label of a kind whose data is an unsigned number.
pub(crate) fn unsigned_text(name: &'static str, data: &[u8]) -> (label: String)
    ensures
        label@ == unsigned_label(name@, data@),
{
    let mut label = String::from_str(name);
    if data.len() > 0 {
        label.append(" (");
        push_decimal(&mut label, __data_to_unsigned(data));
        label.append(")");
    }
    label
}

/// The label of a kind whose data is a signed number.
pub(crate) fn signed_text(name: &'static str, data: &[u8]) -> (label: String)
    ensures
        label@ == signed_label(name@, data@),
{
    let mut label = String::from_str(name);
    if data.len() > 0 {
        label.append(" (");
        push_signed(&mut label, __data_to_signed(data));
        label.append(")");
    }
    label
}

/// One of two words, by one bit of a byte.
pub(crate) fn flag_text(byte: u8, mask: u8, zero: &'static str, one: &'static str) -> (word:
    &'static str)
    ensures
        word@ == flag(byte, mask, zero@, one@),
{
    if byte & mask == 0 {
        zero
    } else {
        one
    }
}

/// The label of a main item that carries flags.
pub(crate) fn main_text(name: &'static str, data: &[u8], volatile: bool) -> (label: String)
    ensures
        label@ == main_label(name@, data@, volatile),
{
    let mut label = String::from_str(name);
    if data.len() > 0 {
        let mut flags: Vec<&'static str> = Vec::new();
        flags.push(flag_text(data[0], 0x01, "Data", "Constant"));
        flags.push(flag_text(data[0], 0x02, "Array", "Variable"));
        flags.push(flag_text(data[0], 0x04, "Absolute", "Relative"));
        flags.push(flag_text(data[0], 0x08, "No Wrap", "Wrap"));
        flags.push(flag_text(data[0], 0x10, "Linear", "Non Linear"));
        flags.push(flag_text(data[0], 0x20, "Preferred State", "No Preferred"));
        flags.push(flag_text(data[0], 0x40, "No Null Position", "Null State"));
        if volatile {
            flags.push(flag_text(data[0], 0x80, "Non Volatile", "Volatile"));
        }
        if data.len() >= 2 {
            flags.push(flag_text(data[1], 0x01, "Bit Field", "Buffered Bytes"));
        }
        assert(views(flags@) =~= main_flags(data@, volatile));
        label.append(" (");
        push_joined(&mut label, &flags, ", ");
        label.append(")");
    }
    label
}

} // verus!
