//! The global items: the ones that set a value which holds for the items
//! after them, until another item of the kind replaces it.

use crate::label::{detailed, signed_label, signed_text, unsigned_label, unsigned_text, with_detail};
use crate::privates::{__data_to_unsigned, unsigned_value};
use crate::short_item::ShortItem;
use crate::text::{decimal, join, push_decimal, push_joined, push_signed, signed_decimal, views};
use vstd::prelude::*;

verus! {

/// The key of [`UsagePage`].
pub const USAGE_PAGE_PREFIX: u8 = 0b0000_0100;

/// The key of [`LogicalMinimum`].
pub const LOGICAL_MINIMUM_PREFIX: u8 = 0b0001_0100;

/// The key of [`LogicalMaximum`].
pub const LOGICAL_MAXIMUM_PREFIX: u8 = 0b0010_0100;

/// The key of [`PhysicalMinimum`].
pub const PHYSICAL_MINIMUM_PREFIX: u8 = 0b0011_0100;

/// The key of [`PhysicalMaximum`].
pub const PHYSICAL_MAXIMUM_PREFIX: u8 = 0b0100_0100;

/// The key of [`UnitExponent`].
pub const UNIT_EXPONENT_PREFIX: u8 = 0b0101_0100;

/// The key of [`Unit`].
pub const UNIT_PREFIX: u8 = 0b0110_0100;

/// The key of [`ReportSize`].
pub const REPORT_SIZE_PREFIX: u8 = 0b0111_0100;

/// The key of [`ReportId`].
pub const REPORT_ID_PREFIX: u8 = 0b1000_0100;

/// The key of [`ReportCount`].
pub const REPORT_COUNT_PREFIX: u8 = 0b1001_0100;

/// The key of [`Push`].
pub const PUSH_PREFIX: u8 = 0b1010_0100;

/// The key of [`Pop`].
pub const POP_PREFIX: u8 = 0b1011_0100;

/// Unsigned integer specifying the current Usage Page.
///
/// Since a usage are 32 bit values, Usage
/// Page items can be used to conserve space in a
/// report descriptor by setting the high order 16 bits
/// of a subsequent usages. Any usage that follows
/// which is defines 16 bits or less is interpreted as a
/// Usage ID and concatenated with the Usage Page
/// to form a 32 bit Usage.
///
/// The names of the pages are those of [`usage_page_name`].
pub type UsagePage = ShortItem<USAGE_PAGE_PREFIX>;

/// Extent value in logical units. This is the
/// minimum value that a variable or array item will
/// report.
///
/// For example, a mouse reporting x
/// position values from 0 to 128 would have a
/// Logical Minimum of 0 and a [Logical Maximum](LogicalMaximum)
/// of 128.
pub type LogicalMinimum = ShortItem<LOGICAL_MINIMUM_PREFIX>;

/// Extent value in logical units. This is the
/// maximum value that a variable or array item will
/// report.
///
/// For example, a mouse reporting x
/// position values from 0 to 128 would have a
/// [Logical Minimum](LogicalMinimum) of 0 and a Logical Maximum
/// of 128.
pub type LogicalMaximum = ShortItem<LOGICAL_MAXIMUM_PREFIX>;

/// Minimum value for the physical extent of a variable item.
/// This represents the [Logical Minimum](LogicalMinimum)
/// with units applied to it.
pub type PhysicalMinimum = ShortItem<PHYSICAL_MINIMUM_PREFIX>;

/// Maximum value for the physical extent of a variable item.
/// This represents the [Logical Maximum](LogicalMaximum)
/// with units applied to it.
pub type PhysicalMaximum = ShortItem<PHYSICAL_MAXIMUM_PREFIX>;

/// Value of the unit exponent in base 10.
///
/// # Data
///
/// One byte that holds a nibble in two's complement: `0x0` to `0x7` stand
/// for 0 to 7, `0x8` to `0xF` for -8 to -1.
pub type UnitExponent = ShortItem<UNIT_EXPONENT_PREFIX>;

/// Unit values.
///
/// # Data (Little Endian)
///
/// The Unit item qualifies value in the unit of [nibbles](https://en.wikipedia.org/wiki/Nibble).
/// i.e., bit 3-0 is the nibble 0, bit 7-4 is the nibble 1, and so on.
///
/// | Nibble | System | 0 | 1 | 2 | 3 | 4 |
/// | --- | --- | --- | --- | --- | --- | --- |
/// | 0 | System | None | SI Linear | SI Rotation | English Linear | English Rotation |
/// | 1 | Length | None | Centimeter | Radians | Inch | Degrees |
/// | 2 | Mass | None | Gram | Gram | Slug | Slug |
/// | 3 | Time | None | Seconds | Seconds | Seconds | Seconds |
/// | 4 | Temperature | None | Kelvin | Kelvin | Fahrenheit | Fahrenheit |
/// | 5 | Current | None | Ampere | Ampere | Ampere | Ampere |
/// | 6 | Luminous Intensity | None | Candela | Candela | Candela | Candela |
///
/// Codes 0x5-0xE are reserved; code 0xF is vendor-defined.
pub type Unit = ShortItem<UNIT_PREFIX>;

/// Unsigned integer specifying the size of the report
/// fields in bits.
///
/// This allows the parser to build an
/// item map for the report handler to use.
pub type ReportSize = ShortItem<REPORT_SIZE_PREFIX>;

/// Unsigned value that specifies the Report ID.
///
/// If a Report ID tag is used anywhere in Report
/// descriptor, all data reports for the device are
/// preceded by a single byte ID field. All items
/// succeeding the first Report ID tag but preceding
/// a second Report ID tag are included in a report
/// prefixed by a 1-byte ID. All items succeeding the
/// second but preceding a third Report ID tag are
/// included in a second report prefixed by a second
/// ID, and so on.
///
/// This Report ID value indicates the prefix added
/// to a particular report. For example, a Report
/// descriptor could define a 3-byte report with a
/// Report ID of `01`. This device would generate a
/// 4-byte data report in which the first byte is `01`.
/// The device may also generate other reports, each
/// with a unique ID. This allows the host to
/// distinguish different types of reports arriving
/// over a single interrupt in pipe. And allows the
/// device to distinguish different types of reports
/// arriving over a single interrupt out pipe. Report
/// ID zero is reserved and should not be used.
pub type ReportId = ShortItem<REPORT_ID_PREFIX>;

/// Unsigned integer specifying the number of data
/// fields for the item; determines how many fields
/// are included in the report for this particular item
/// (and consequently how many bits are added to
/// the report).
pub type ReportCount = ShortItem<REPORT_COUNT_PREFIX>;

/// Places a copy of the global item state table on the stack.
///
/// The item is recognised and labelled; decoding keeps no such stack.
pub type Push = ShortItem<PUSH_PREFIX>;

/// Replaces the item state table with the top structure from the stack.
///
/// The item is recognised and labelled; decoding keeps no such stack.
pub type Pop = ShortItem<POP_PREFIX>;

/// The name of the usage page with the number `value`.
pub open spec fn usage_page_name(value: nat) -> Seq<char> {
    if value == 0x00 {
        "Undefined"@
    } else if value == 0x01 {
        "Generic Desktop"@
    } else if value == 0x02 {
        "Simulation Controls"@
    } else if value == 0x03 {
        "VR Controls"@
    } else if value == 0x04 {
        "Sport Controls"@
    } else if value == 0x05 {
        "Game Controls"@
    } else if value == 0x06 {
        "Generic Device Controls"@
    } else if value == 0x07 {
        "Keyboard/Keypad"@
    } else if value == 0x08 {
        "LED"@
    } else if value == 0x09 {
        "Button"@
    } else if value == 0x0A {
        "Ordinal"@
    } else if value == 0x0B {
        "Telephony Device"@
    } else if value == 0x0C {
        "Consumer"@
    } else if value == 0x0D {
        "Digitizers"@
    } else if value == 0x0E {
        "Haptics"@
    } else if value == 0x0F {
        "Physical Input Device"@
    } else if value == 0x10 {
        "Unicode"@
    } else if value == 0x11 {
        "SoC"@
    } else if value == 0x12 {
        "Eye and Head Trackers"@
    } else if value == 0x14 {
        "Auxiliary Display"@
    } else if value == 0x20 {
        "Sensors"@
    } else if value == 0x40 {
        "Medical Instrument"@
    } else if value == 0x41 {
        "Braille Display"@
    } else if value == 0x59 {
        "Lighting And Illumination"@
    } else if value == 0x80 {
        "Monitor"@
    } else if value == 0x81 {
        "Monitor Enumerated"@
    } else if value == 0x82 {
        "VESA Virtual Controls"@
    } else if value == 0x84 {
        "Power"@
    } else if value == 0x85 {
        "Battery System"@
    } else if value == 0x8C {
        "Bar Code Scanner"@
    } else if value == 0x8D {
        "Scale"@
    } else if value == 0x8E {
        "Magnetic Stripe Reading"@
    } else if value == 0x90 {
        "Camera Control"@
    } else if value == 0x91 {
        "Arcade"@
    } else if value == 0x92 {
        "Gaming Device"@
    } else if value == 0xF1D0 {
        "FIDO Alliance"@
    } else if 0xFF00 <= value && value <= 0xFFFF {
        "Vendor Defined"@
    } else {
        "Reserved"@
    }
}

/// The label of a [`UsagePage`] item with the data part `data`: the bare name
/// where there is no data, else the name and the name of the page.
pub open spec fn usage_page_label(data: Seq<u8>) -> Seq<char> {
    if data.len() == 0 {
        "Usage Page"@
    } else {
        with_detail("Usage Page"@, usage_page_name(unsigned_value(data)))
    }
}

/// The label of a [`LogicalMinimum`] item with the data part `data`.
pub open spec fn logical_minimum_label(data: Seq<u8>) -> Seq<char> {
    signed_label("Logical Minimum"@, data)
}

/// The label of a [`LogicalMaximum`] item with the data part `data`.
pub open spec fn logical_maximum_label(data: Seq<u8>) -> Seq<char> {
    signed_label("Logical Maximum"@, data)
}

/// The label of a [`PhysicalMinimum`] item with the data part `data`.
pub open spec fn physical_minimum_label(data: Seq<u8>) -> Seq<char> {
    signed_label("Physical Minimum"@, data)
}

/// The label of a [`PhysicalMaximum`] item with the data part `data`.
pub open spec fn physical_maximum_label(data: Seq<u8>) -> Seq<char> {
    signed_label("Physical Maximum"@, data)
}

/// The label of a [`UnitExponent`] item with the data part `data`. One data
/// byte below 16 is a nibble in two's complement and follows the name;
/// anything else leaves the bare name.
pub open spec fn unit_exponent_label(data: Seq<u8>) -> Seq<char> {
    if data.len() == 1 && data[0] < 8 {
        "Unit Exponent "@ + decimal(data[0] as nat)
    } else if data.len() == 1 && data[0] < 16 {
        "Unit Exponent "@ + signed_decimal(data[0] - 16)
    } else {
        "Unit Exponent"@
    }
}

/// What one nibble of a unit contributes to the label: nothing for code 0,
/// one of four words for codes 1 to 4, `reserved` for codes 5 to 14 and
/// `vendor` for code 15.
pub open spec fn unit_word(
    code: nat,
    one: Seq<char>,
    two: Seq<char>,
    three: Seq<char>,
    four: Seq<char>,
    reserved: Seq<char>,
    vendor: Seq<char>,
) -> Seq<Seq<char>>
    recommends
        code < 16,
{
    if code == 0 {
        Seq::empty()
    } else if code == 1 {
        seq![one]
    } else if code == 2 {
        seq![two]
    } else if code == 3 {
        seq![three]
    } else if code == 4 {
        seq![four]
    } else if code <= 14 {
        seq![reserved]
    } else {
        seq![vendor]
    }
}

/// What the nibble for system contributes to the label of a unit.
pub open spec fn system_word(code: nat) -> Seq<Seq<char>> {
    unit_word(
        code,
        "System: SI Linear"@,
        "System: SI Rotation"@,
        "System: English Linear"@,
        "System: English Rotation"@,
        "System: Reserved"@,
        "System: Vendor Defined"@,
    )
}

/// What the nibble for length contributes to the label of a unit.
pub open spec fn length_word(code: nat) -> Seq<Seq<char>> {
    unit_word(
        code,
        "Length: Centimeter"@,
        "Length: Radians"@,
        "Length: Inch"@,
        "Length: Degrees"@,
        "Length: Reserved"@,
        "Length: Vendor Defined"@,
    )
}

/// What the nibble for mass contributes to the label of a unit.
pub open spec fn mass_word(code: nat) -> Seq<Seq<char>> {
    unit_word(
        code,
        "Mass: Gram"@,
        "Mass: Gram"@,
        "Mass: Slug"@,
        "Mass: Slug"@,
        "Mass: Reserved"@,
        "Mass: Vendor Defined"@,
    )
}

/// What the nibble for time contributes to the label of a unit.
pub open spec fn time_word(code: nat) -> Seq<Seq<char>> {
    unit_word(
        code,
        "Time: Seconds"@,
        "Time: Seconds"@,
        "Time: Seconds"@,
        "Time: Seconds"@,
        "Time: Reserved"@,
        "Time: Vendor Defined"@,
    )
}

/// What the nibble for temperature contributes to the label of a unit.
pub open spec fn temperature_word(code: nat) -> Seq<Seq<char>> {
    unit_word(
        code,
        "Temperature: Kelvin"@,
        "Temperature: Kelvin"@,
        "Temperature: Fahrenheit"@,
        "Temperature: Fahrenheit"@,
        "Temperature: Reserved"@,
        "Temperature: Vendor Defined"@,
    )
}

/// What the nibble for current contributes to the label of a unit.
pub open spec fn current_word(code: nat) -> Seq<Seq<char>> {
    unit_word(
        code,
        "Current: Ampere"@,
        "Current: Ampere"@,
        "Current: Ampere"@,
        "Current: Ampere"@,
        "Current: Reserved"@,
        "Current: Vendor Defined"@,
    )
}

/// What the nibble for luminous intensity contributes to the label of a unit.
pub open spec fn luminous_word(code: nat) -> Seq<Seq<char>> {
    unit_word(
        code,
        "Luminous Intensity: Candela"@,
        "Luminous Intensity: Candela"@,
        "Luminous Intensity: Candela"@,
        "Luminous Intensity: Candela"@,
        "Luminous Intensity: Reserved"@,
        "Luminous Intensity: Vendor Defined"@,
    )
}

/// The words of a unit, in the order of the nibbles of its data: system and
/// length from the first byte, mass and time from the second, temperature
/// and current from the third, luminous intensity from the low nibble of the
/// fourth. A byte that is not there contributes nothing.
pub open spec fn unit_words(data: Seq<u8>) -> Seq<Seq<char>> {
    let first = if data.len() >= 1 {
        system_word(data[0] as nat % 16) + length_word(data[0] as nat / 16)
    } else {
        Seq::empty()
    };
    let second = if data.len() >= 2 {
        mass_word(data[1] as nat % 16) + time_word(data[1] as nat / 16)
    } else {
        Seq::empty()
    };
    let third = if data.len() >= 3 {
        temperature_word(data[2] as nat % 16) + current_word(data[2] as nat / 16)
    } else {
        Seq::empty()
    };
    let fourth = if data.len() >= 4 {
        luminous_word(data[3] as nat % 16)
    } else {
        Seq::empty()
    };
    first + second + third + fourth
}

/// The label of a [`Unit`] item with the data part `data`: the bare name
/// where the data gives no word, else the name and the words, separated by
/// commas.
pub open spec fn unit_label(data: Seq<u8>) -> Seq<char> {
    if unit_words(data).len() == 0 {
        "Unit"@
    } else {
        "Unit("@ + join(unit_words(data), ", "@) + ")"@
    }
}

/// The label of a [`ReportSize`] item with the data part `data`.
pub open spec fn report_size_label(data: Seq<u8>) -> Seq<char> {
    unsigned_label("Report Size"@, data)
}

/// The label of a [`ReportId`] item with the data part `data`.
pub open spec fn report_id_label(data: Seq<u8>) -> Seq<char> {
    unsigned_label("Report ID"@, data)
}

/// The label of a [`ReportCount`] item with the data part `data`.
pub open spec fn report_count_label(data: Seq<u8>) -> Seq<char> {
    unsigned_label("Report Count"@, data)
}

/// The label of a [`Push`] item, whatever its data.
pub open spec fn push_label() -> Seq<char> {
    "Push"@
}

/// The label of a [`Pop`] item, whatever its data.
pub open spec fn pop_label() -> Seq<char> {
    "Pop"@
}

fn usage_page_word(value: u32) -> (word: &'static str)
    ensures
        word@ == usage_page_name(value as nat),
{
    if value == 0x00 {
        "Undefined"
    } else if value == 0x01 {
        "Generic Desktop"
    } else if value == 0x02 {
        "Simulation Controls"
    } else if value == 0x03 {
        "VR Controls"
    } else if value == 0x04 {
        "Sport Controls"
    } else if value == 0x05 {
        "Game Controls"
    } else if value == 0x06 {
        "Generic Device Controls"
    } else if value == 0x07 {
        "Keyboard/Keypad"
    } else if value == 0x08 {
        "LED"
    } else if value == 0x09 {
        "Button"
    } else if value == 0x0A {
        "Ordinal"
    } else if value == 0x0B {
        "Telephony Device"
    } else if value == 0x0C {
        "Consumer"
    } else if value == 0x0D {
        "Digitizers"
    } else if value == 0x0E {
        "Haptics"
    } else if value == 0x0F {
        "Physical Input Device"
    } else if value == 0x10 {
        "Unicode"
    } else if value == 0x11 {
        "SoC"
    } else if value == 0x12 {
        "Eye and Head Trackers"
    } else if value == 0x14 {
        "Auxiliary Display"
    } else if value == 0x20 {
        "Sensors"
    } else if value == 0x40 {
        "Medical Instrument"
    } else if value == 0x41 {
        "Braille Display"
    } else if value == 0x59 {
        "Lighting And Illumination"
    } else if value == 0x80 {
        "Monitor"
    } else if value == 0x81 {
        "Monitor Enumerated"
    } else if value == 0x82 {
        "VESA Virtual Controls"
    } else if value == 0x84 {
        "Power"
    } else if value == 0x85 {
        "Battery System"
    } else if value == 0x8C {
        "Bar Code Scanner"
    } else if value == 0x8D {
        "Scale"
    } else if value == 0x8E {
        "Magnetic Stripe Reading"
    } else if value == 0x90 {
        "Camera Control"
    } else if value == 0x91 {
        "Arcade"
    } else if value == 0x92 {
        "Gaming Device"
    } else if value == 0xF1D0 {
        "FIDO Alliance"
    } else if 0xFF00 <= value && value <= 0xFFFF {
        "Vendor Defined"
    } else {
        "Reserved"
    }
}

fn push_unit_word(
    words: &mut Vec<&'static str>,
    code: u8,
    one: &'static str,
    two: &'static str,
    three: &'static str,
    four: &'static str,
    reserved: &'static str,
    vendor: &'static str,
)
    ensures
        views(final(words)@) == views(old(words)@) + unit_word(
            code as nat,
            one@,
            two@,
            three@,
            four@,
            reserved@,
            vendor@,
        ),
{
    if code == 0 {
    } else if code == 1 {
        words.push(one);
    } else if code == 2 {
        words.push(two);
    } else if code == 3 {
        words.push(three);
    } else if code == 4 {
        words.push(four);
    } else if code <= 14 {
        words.push(reserved);
    } else {
        words.push(vendor);
    }
}

fn push_system_word(words: &mut Vec<&'static str>, code: u8)
    ensures
        views(final(words)@) == views(old(words)@) + system_word(code as nat),
{
    push_unit_word(
        words,
        code,
        "System: SI Linear",
        "System: SI Rotation",
        "System: English Linear",
        "System: English Rotation",
        "System: Reserved",
        "System: Vendor Defined",
    );
}

fn push_length_word(words: &mut Vec<&'static str>, code: u8)
    ensures
        views(final(words)@) == views(old(words)@) + length_word(code as nat),
{
    push_unit_word(
        words,
        code,
        "Length: Centimeter",
        "Length: Radians",
        "Length: Inch",
        "Length: Degrees",
        "Length: Reserved",
        "Length: Vendor Defined",
    );
}

fn push_mass_word(words: &mut Vec<&'static str>, code: u8)
    ensures
        views(final(words)@) == views(old(words)@) + mass_word(code as nat),
{
    push_unit_word(
        words,
        code,
        "Mass: Gram",
        "Mass: Gram",
        "Mass: Slug",
        "Mass: Slug",
        "Mass: Reserved",
        "Mass: Vendor Defined",
    );
}

fn push_time_word(words: &mut Vec<&'static str>, code: u8)
    ensures
        views(final(words)@) == views(old(words)@) + time_word(code as nat),
{
    push_unit_word(
        words,
        code,
        "Time: Seconds",
        "Time: Seconds",
        "Time: Seconds",
        "Time: Seconds",
        "Time: Reserved",
        "Time: Vendor Defined",
    );
}

fn push_temperature_word(words: &mut Vec<&'static str>, code: u8)
    ensures
        views(final(words)@) == views(old(words)@) + temperature_word(code as nat),
{
    push_unit_word(
        words,
        code,
        "Temperature: Kelvin",
        "Temperature: Kelvin",
        "Temperature: Fahrenheit",
        "Temperature: Fahrenheit",
        "Temperature: Reserved",
        "Temperature: Vendor Defined",
    );
}

fn push_current_word(words: &mut Vec<&'static str>, code: u8)
    ensures
        views(final(words)@) == views(old(words)@) + current_word(code as nat),
{
    push_unit_word(
        words,
        code,
        "Current: Ampere",
        "Current: Ampere",
        "Current: Ampere",
        "Current: Ampere",
        "Current: Reserved",
        "Current: Vendor Defined",
    );
}

fn push_luminous_word(words: &mut Vec<&'static str>, code: u8)
    ensures
        views(final(words)@) == views(old(words)@) + luminous_word(code as nat),
{
    push_unit_word(
        words,
        code,
        "Luminous Intensity: Candela",
        "Luminous Intensity: Candela",
        "Luminous Intensity: Candela",
        "Luminous Intensity: Candela",
        "Luminous Intensity: Reserved",
        "Luminous Intensity: Vendor Defined",
    );
}

impl UsagePage {
    /// Prefix consists of tag(bit 7-4), type(bit 3-2) and size(bit 1-0).
    /// The "size" part is set to `00` in this constant value.
    pub const PREFIX: u8 = USAGE_PAGE_PREFIX;

    /// The label of the item in a listing.
    pub fn to_string(&self) -> (label: String)
        ensures
            label@ == usage_page_label(self@.skip(1)),
    {
        let data = self.data();
        if data.len() == 0 {
            String::from_str("Usage Page")
        } else {
            detailed("Usage Page", usage_page_word(__data_to_unsigned(data)))
        }
    }
}

impl LogicalMinimum {
    /// Prefix consists of tag(bit 7-4), type(bit 3-2) and size(bit 1-0).
    /// The "size" part is set to `00` in this constant value.
    pub const PREFIX: u8 = LOGICAL_MINIMUM_PREFIX;

    /// The label of the item in a listing.
    pub fn to_string(&self) -> (label: String)
        ensures
            label@ == logical_minimum_label(self@.skip(1)),
    {
        signed_text("Logical Minimum", self.data())
    }
}

impl LogicalMaximum {
    /// Prefix consists of tag(bit 7-4), type(bit 3-2) and size(bit 1-0).
    /// The "size" part is set to `00` in this constant value.
    pub const PREFIX: u8 = LOGICAL_MAXIMUM_PREFIX;

    /// The label of the item in a listing.
    pub fn to_string(&self) -> (label: String)
        ensures
            label@ == logical_maximum_label(self@.skip(1)),
    {
        signed_text("Logical Maximum", self.data())
    }
}

impl PhysicalMinimum {
    /// Prefix consists of tag(bit 7-4), type(bit 3-2) and size(bit 1-0).
    /// The "size" part is set to `00` in this constant value.
    pub const PREFIX: u8 = PHYSICAL_MINIMUM_PREFIX;

    /// The label of the item in a listing.
    pub fn to_string(&self) -> (label: String)
        ensures
            label@ == physical_minimum_label(self@.skip(1)),
    {
        signed_text("Physical Minimum", self.data())
    }
}

impl PhysicalMaximum {
    /// Prefix consists of tag(bit 7-4), type(bit 3-2) and size(bit 1-0).
    /// The "size" part is set to `00` in this constant value.
    pub const PREFIX: u8 = PHYSICAL_MAXIMUM_PREFIX;

    /// The label of the item in a listing.
    pub fn to_string(&self) -> (label: String)
        ensures
            label@ == physical_maximum_label(self@.skip(1)),
    {
        signed_text("Physical Maximum", self.data())
    }
}

impl UnitExponent {
    /// Prefix consists of tag(bit 7-4), type(bit 3-2) and size(bit 1-0).
    /// The "size" part is set to `00` in this constant value.
    pub const PREFIX: u8 = UNIT_EXPONENT_PREFIX;

    /// The label of the item in a listing.
    pub fn to_string(&self) -> (label: String)
        ensures
            label@ == unit_exponent_label(self@.skip(1)),
    {
        let data = self.data();
        if data.len() == 1 && data[0] < 8 {
            let mut label = String::from_str("Unit Exponent ");
            push_decimal(&mut label, data[0] as u32);
            label
        } else if data.len() == 1 && data[0] < 16 {
            let mut label = String::from_str("Unit Exponent ");
            push_signed(&mut label, data[0] as i32 - 16);
            label
        } else {
            String::from_str("Unit Exponent")
        }
    }
}

impl Unit {
    /// Prefix consists of tag(bit 7-4), type(bit 3-2) and size(bit 1-0).
    /// The "size" part is set to `00` in this constant value.
    pub const PREFIX: u8 = UNIT_PREFIX;

    /// The label of the item in a listing.
    pub fn to_string(&self) -> (label: String)
        ensures
            label@ == unit_label(self@.skip(1)),
    {
        let data = self.data();
        let mut words: Vec<&'static str> = Vec::new();
        if data.len() >= 1 {
            push_system_word(&mut words, data[0] % 16);
            push_length_word(&mut words, data[0] / 16);
        }
        if data.len() >= 2 {
            push_mass_word(&mut words, data[1] % 16);
            push_time_word(&mut words, data[1] / 16);
        }
        if data.len() >= 3 {
            push_temperature_word(&mut words, data[2] % 16);
            push_current_word(&mut words, data[2] / 16);
        }
        if data.len() >= 4 {
            push_luminous_word(&mut words, data[3] % 16);
        }
        assert(views(words@) =~= unit_words(data@));
        if words.len() == 0 {
            String::from_str("Unit")
        } else {
            let mut label = String::from_str("Unit(");
            push_joined(&mut label, &words, ", ");
            label.append(")");
            label
        }
    }
}

impl ReportSize {
    /// Prefix consists of tag(bit 7-4), type(bit 3-2) and size(bit 1-0).
    /// The "size" part is set to `00` in this constant value.
    pub const PREFIX: u8 = REPORT_SIZE_PREFIX;

    /// The label of the item in a listing.
    pub fn to_string(&self) -> (label: String)
        ensures
            label@ == report_size_label(self@.skip(1)),
    {
        unsigned_text("Report Size", self.data())
    }
}

impl ReportId {
    /// Prefix consists of tag(bit 7-4), type(bit 3-2) and size(bit 1-0).
    /// The "size" part is set to `00` in this constant value.
    pub const PREFIX: u8 = REPORT_ID_PREFIX;

    /// The label of the item in a listing.
    pub fn to_string(&self) -> (label: String)
        ensures
            label@ == report_id_label(self@.skip(1)),
    {
        unsigned_text("Report ID", self.data())
    }
}

impl ReportCount {
    /// Prefix consists of tag(bit 7-4), type(bit 3-2) and size(bit 1-0).
    /// The "size" part is set to `00` in this constant value.
    pub const PREFIX: u8 = REPORT_COUNT_PREFIX;

    /// The label of the item in a listing.
    pub fn to_string(&self) -> (label: String)
        ensures
            label@ == report_count_label(self@.skip(1)),
    {
        unsigned_text("Report Count", self.data())
    }
}

impl Push {
    /// Prefix consists of tag(bit 7-4), type(bit 3-2) and size(bit 1-0).
    /// The "size" part is set to `00` in this constant value.
    pub const PREFIX: u8 = PUSH_PREFIX;

    /// The label of the item in a listing.
    pub fn to_string(&self) -> (label: String)
        ensures
            label@ == push_label(),
    {
        String::from_str("Push")
    }
}

impl Pop {
    /// Prefix consists of tag(bit 7-4), type(bit 3-2) and size(bit 1-0).
    /// The "size" part is set to `00` in this constant value.
    pub const PREFIX: u8 = POP_PREFIX;

    /// The label of the item in a listing.
    pub fn to_string(&self) -> (label: String)
        ensures
            label@ == pop_label(),
    {
        String::from_str("Pop")
    }
}

} // verus!
