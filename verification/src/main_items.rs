//! The main items: the ones that define a field of a report or open and
//! close a group of fields.

use crate::label::{detailed, main_label, main_text, with_detail};
use crate::short_item::ShortItem;
use vstd::prelude::*;

verus! {

/// The key of [`Input`].
pub const INPUT_PREFIX: u8 = 0b1000_0000;

/// The key of [`Output`].
pub const OUTPUT_PREFIX: u8 = 0b1001_0000;

/// The key of [`Feature`].
pub const FEATURE_PREFIX: u8 = 0b1011_0000;

/// The key of [`Collection`].
pub const COLLECTION_PREFIX: u8 = 0b1010_0000;

/// The key of [`EndCollection`].
pub const END_COLLECTION_PREFIX: u8 = 0b1100_0000;

/// Refers to the data from one or more similar controls on a device.
///
/// For example, variable data such as reading the position of a single axis
/// or a group of levers or array data such as one or more push buttons or
/// switches.
///
/// # Data (Little-Endian)
///
/// * Bit 0: Data(0) | Constant(1)
/// * Bit 1: Array(0) | Variable(1)
/// * Bit 2: Absolute(0) | Relative(1)
/// * Bit 3: No Wrap(0) | Wrap(1)
/// * Bit 4: Linear(0) | Non Linear(1)
/// * Bit 5: Preferred State(0) | No Preferred(1)
/// * Bit 6: No Null Position(0) | Null State(1)
/// * Bit 7: Reserved
/// * Bit 8: Bit Field(0) | Buffered Bytes(1)
/// * Bit 31-9: Reserved
pub type Input = ShortItem<INPUT_PREFIX>;

/// Refers to the data to one or more similar controls on a device
/// such as setting the position of a single axis or a group of levers (variable data).
/// Or, it can represent data to one or more LEDs (array data).
///
/// # Data (Little-Endian)
///
/// * Bit 0: Data(0) | Constant(1)
/// * Bit 1: Array(0) | Variable(1)
/// * Bit 2: Absolute(0) | Relative(1)
/// * Bit 3: No Wrap(0) | Wrap(1)
/// * Bit 4: Linear(0) | Non Linear(1)
/// * Bit 5: Preferred State(0) | No Preferred(1)
/// * Bit 6: No Null Position(0) | Null State(1)
/// * Bit 7: Non Volatile(0) | Volatile(1)
/// * Bit 8: Bit Field(0) | Buffered Bytes(1)
/// * Bit 31-9: Reserved
pub type Output = ShortItem<OUTPUT_PREFIX>;

/// Describes device input and output not intended for
/// consumption by the end user.
///
/// For example, a software feature or Control Panel toggle.
///
/// # Data (Little-Endian)
///
/// * Bit 0: Data(0) | Constant(1)
/// * Bit 1: Array(0) | Variable(1)
/// * Bit 2: Absolute(0) | Relative(1)
/// * Bit 3: No Wrap(0) | Wrap(1)
/// * Bit 4: Linear(0) | Non Linear(1)
/// * Bit 5: Preferred State(0) | No Preferred(1)
/// * Bit 6: No Null Position(0) | Null State(1)
/// * Bit 7: Non Volatile(0) | Volatile(1)
/// * Bit 8: Bit Field(0) | Buffered Bytes(1)
/// * Bit 31-9: Reserved
pub type Feature = ShortItem<FEATURE_PREFIX>;

/// A meaningful grouping of [Input], [Output], and [Feature] items.
///
/// For example, mouse, keyboard, joystick, and pointer.
///
/// # Data (Little-Endian)
///
/// * 0x00: Physical
/// * 0x01: Application
/// * 0x02: Logical
/// * 0x03: Report
/// * 0x04: Named Array
/// * 0x05: Usage Switch
/// * 0x06: Usage Modifier
/// * 0x07-0x7F: Reserved
/// * 0x80-0xFF: Vendor Defined
pub type Collection = ShortItem<COLLECTION_PREFIX>;

/// A terminating item used to specify the end of a
/// [collection](Collection) of items.
pub type EndCollection = ShortItem<END_COLLECTION_PREFIX>;

/// The label of an [`Input`] item with the data part `data`. Bit 7 of the
/// first byte is not read.
pub open spec fn input_label(data: Seq<u8>) -> Seq<char> {
    main_label("Input"@, data, false)
}

/// The label of an [`Output`] item with the data part `data`.
pub open spec fn output_label(data: Seq<u8>) -> Seq<char> {
    main_label("Output"@, data, true)
}

/// The label of a [`Feature`] item with the data part `data`.
pub open spec fn feature_label(data: Seq<u8>) -> Seq<char> {
    main_label("Feature"@, data, true)
}

/// The name of the kind of collection that a byte stands for.
pub open spec fn collection_name(byte: u8) -> Seq<char> {
    if byte == 0 {
        "Physical"@
    } else if byte == 1 {
        "Application"@
    } else if byte == 2 {
        "Logical"@
    } else if byte == 3 {
        "Report"@
    } else if byte == 4 {
        "Named Array"@
    } else if byte == 5 {
        "Usage Switch"@
    } else if byte == 6 {
        "Usage Modifier"@
    } else if byte <= 0x7F {
        "Reserved"@
    } else {
        "Vendor Defined"@
    }
}

/// The label of a [`Collection`] item with the data part `data`: the bare
/// name where there is no data, else the name and the kind of collection
/// that the first byte stands for.
pub open spec fn collection_label(data: Seq<u8>) -> Seq<char> {
    if data.len() == 0 {
        "Collection"@
    } else {
        with_detail("Collection"@, collection_name(data[0]))
    }
}

/// The label of an [`EndCollection`] item, whatever its data.
pub open spec fn end_collection_label() -> Seq<char> {
    "End Collection"@
}

fn collection_word(byte: u8) -> (word: &'static str)
    ensures
        word@ == collection_name(byte),
{
    if byte == 0 {
        "Physical"
    } else if byte == 1 {
        "Application"
    } else if byte == 2 {
        "Logical"
    } else if byte == 3 {
        "Report"
    } else if byte == 4 {
        "Named Array"
    } else if byte == 5 {
        "Usage Switch"
    } else if byte == 6 {
        "Usage Modifier"
    } else if byte <= 0x7F {
        "Reserved"
    } else {
        "Vendor Defined"
    }
}

impl Input {
    /// Prefix consists of tag(bit 7-4), type(bit 3-2) and size(bit 1-0).
    /// The "size" part is set to `00` in this constant value.
    pub const PREFIX: u8 = INPUT_PREFIX;

    /// The label of the item in a listing.
    pub fn to_string(&self) -> (label: String)
        ensures
            label@ == input_label(self@.skip(1)),
    {
        main_text("Input", self.data(), false)
    }
}

impl Output {
    /// Prefix consists of tag(bit 7-4), type(bit 3-2) and size(bit 1-0).
    /// The "size" part is set to `00` in this constant value.
    pub const PREFIX: u8 = OUTPUT_PREFIX;

    /// The label of the item in a listing.
    pub fn to_string(&self) -> (label: String)
        ensures
            label@ == output_label(self@.skip(1)),
    {
        main_text("Output", self.data(), true)
    }
}

impl Feature {
    /// Prefix consists of tag(bit 7-4), type(bit 3-2) and size(bit 1-0).
    /// The "size" part is set to `00` in this constant value.
    pub const PREFIX: u8 = FEATURE_PREFIX;

    /// The label of the item in a listing.
    pub fn to_string(&self) -> (label: String)
        ensures
            label@ == feature_label(self@.skip(1)),
    {
        main_text("Feature", self.data(), true)
    }
}

impl Collection {
    /// Prefix consists of tag(bit 7-4), type(bit 3-2) and size(bit 1-0).
    /// The "size" part is set to `00` in this constant value.
    pub const PREFIX: u8 = COLLECTION_PREFIX;

    /// The label of the item in a listing.
    pub fn to_string(&self) -> (label: String)
        ensures
            label@ == collection_label(self@.skip(1)),
    {
        let data = self.data();
        if data.len() == 0 {
            String::from_str("Collection")
        } else {
            detailed("Collection", collection_word(data[0]))
        }
    }
}

impl EndCollection {
    /// Prefix consists of tag(bit 7-4), type(bit 3-2) and size(bit 1-0).
    /// The "size" part is set to `00` in this constant value.
    pub const PREFIX: u8 = END_COLLECTION_PREFIX;

    /// The label of the item in a listing.
    pub fn to_string(&self) -> (label: String)
        ensures
            label@ == end_collection_label(),
    {
        String::from_str("End Collection")
    }
}

} // verus!
