//! The item of a report descriptor: one of the kinds of the catalog, or
//! the reserved kind for a prefix that the catalog does not know.

use crate::error::HidError;
use crate::frame::framing_error;
use crate::global_items::{
    logical_maximum_label, logical_minimum_label, physical_maximum_label, physical_minimum_label,
    pop_label, push_label, report_count_label, report_id_label, report_size_label,
    unit_exponent_label, unit_label, usage_page_label, LogicalMaximum, LogicalMinimum,
    PhysicalMaximum, PhysicalMinimum, Pop, Push, ReportCount, ReportId, ReportSize, Unit,
    UnitExponent, UsagePage, LOGICAL_MAXIMUM_PREFIX, LOGICAL_MINIMUM_PREFIX,
    PHYSICAL_MAXIMUM_PREFIX, PHYSICAL_MINIMUM_PREFIX, POP_PREFIX, PUSH_PREFIX,
    REPORT_COUNT_PREFIX, REPORT_ID_PREFIX, REPORT_SIZE_PREFIX, UNIT_EXPONENT_PREFIX, UNIT_PREFIX,
    USAGE_PAGE_PREFIX,
};
use crate::local_items::{
    delimiter_label, designator_index_label, designator_maximum_label, designator_minimum_label,
    string_index_label, string_maximum_label, string_minimum_label, usage_label,
    usage_maximum_label, usage_minimum_label, Delimiter, DesignatorIndex, DesignatorMaximum,
    DesignatorMinimum, StringIndex, StringMaximum, StringMinimum, Usage, UsageMaximum,
    UsageMinimum, DELIMITER_PREFIX, DESIGNATOR_INDEX_PREFIX, DESIGNATOR_MAXIMUM_PREFIX,
    DESIGNATOR_MINIMUM_PREFIX, STRING_INDEX_PREFIX, STRING_MAXIMUM_PREFIX, STRING_MINIMUM_PREFIX,
    USAGE_MAXIMUM_PREFIX, USAGE_MINIMUM_PREFIX, USAGE_PREFIX,
};
use crate::main_items::{
    collection_label, end_collection_label, feature_label, input_label, output_label, Collection,
    EndCollection, Feature, Input, Output, COLLECTION_PREFIX, END_COLLECTION_PREFIX,
    FEATURE_PREFIX, INPUT_PREFIX, OUTPUT_PREFIX,
};
use crate::privates::{__data_size, is_frame, key_of};
use crate::reserved::Reserved;
use vstd::prelude::*;
use vstd::std_specs::cmp::PartialEqSpecImpl;

verus! {

/// The kinds of item, as contracts name them.
pub enum ItemKind {
    /// The kind of [`Input`].
    Input,
    /// The kind of [`Output`].
    Output,
    /// The kind of [`Feature`].
    Feature,
    /// The kind of [`Collection`].
    Collection,
    /// The kind of [`EndCollection`].
    EndCollection,
    /// The kind of [`UsagePage`].
    UsagePage,
    /// The kind of [`LogicalMinimum`].
    LogicalMinimum,
    /// The kind of [`LogicalMaximum`].
    LogicalMaximum,
    /// The kind of [`PhysicalMinimum`].
    PhysicalMinimum,
    /// The kind of [`PhysicalMaximum`].
    PhysicalMaximum,
    /// The kind of [`UnitExponent`].
    UnitExponent,
    /// The kind of [`Unit`].
    Unit,
    /// The kind of [`ReportSize`].
    ReportSize,
    /// The kind of [`ReportId`].
    ReportId,
    /// The kind of [`ReportCount`].
    ReportCount,
    /// The kind of [`Push`].
    Push,
    /// The kind of [`Pop`].
    Pop,
    /// The kind of [`Usage`].
    Usage,
    /// The kind of [`UsageMinimum`].
    UsageMinimum,
    /// The kind of [`UsageMaximum`].
    UsageMaximum,
    /// The kind of [`DesignatorIndex`].
    DesignatorIndex,
    /// The kind of [`DesignatorMinimum`].
    DesignatorMinimum,
    /// The kind of [`DesignatorMaximum`].
    DesignatorMaximum,
    /// The kind of [`StringIndex`].
    StringIndex,
    /// The kind of [`StringMinimum`].
    StringMinimum,
    /// The kind of [`StringMaximum`].
    StringMaximum,
    /// The kind of [`Delimiter`].
    Delimiter,
    /// The kind of [`Reserved`].
    Reserved,
}

/// The catalog: the key of each kind but the reserved one, which has none.
pub open spec fn catalog_key(kind: ItemKind) -> Option<u8> {
    match kind {
        ItemKind::Input => Some(INPUT_PREFIX),
        ItemKind::Output => Some(OUTPUT_PREFIX),
        ItemKind::Feature => Some(FEATURE_PREFIX),
        ItemKind::Collection => Some(COLLECTION_PREFIX),
        ItemKind::EndCollection => Some(END_COLLECTION_PREFIX),
        ItemKind::UsagePage => Some(USAGE_PAGE_PREFIX),
        ItemKind::LogicalMinimum => Some(LOGICAL_MINIMUM_PREFIX),
        ItemKind::LogicalMaximum => Some(LOGICAL_MAXIMUM_PREFIX),
        ItemKind::PhysicalMinimum => Some(PHYSICAL_MINIMUM_PREFIX),
        ItemKind::PhysicalMaximum => Some(PHYSICAL_MAXIMUM_PREFIX),
        ItemKind::UnitExponent => Some(UNIT_EXPONENT_PREFIX),
        ItemKind::Unit => Some(UNIT_PREFIX),
        ItemKind::ReportSize => Some(REPORT_SIZE_PREFIX),
        ItemKind::ReportId => Some(REPORT_ID_PREFIX),
        ItemKind::ReportCount => Some(REPORT_COUNT_PREFIX),
        ItemKind::Push => Some(PUSH_PREFIX),
        ItemKind::Pop => Some(POP_PREFIX),
        ItemKind::Usage => Some(USAGE_PREFIX),
        ItemKind::UsageMinimum => Some(USAGE_MINIMUM_PREFIX),
        ItemKind::UsageMaximum => Some(USAGE_MAXIMUM_PREFIX),
        ItemKind::DesignatorIndex => Some(DESIGNATOR_INDEX_PREFIX),
        ItemKind::DesignatorMinimum => Some(DESIGNATOR_MINIMUM_PREFIX),
        ItemKind::DesignatorMaximum => Some(DESIGNATOR_MAXIMUM_PREFIX),
        ItemKind::StringIndex => Some(STRING_INDEX_PREFIX),
        ItemKind::StringMinimum => Some(STRING_MINIMUM_PREFIX),
        ItemKind::StringMaximum => Some(STRING_MAXIMUM_PREFIX),
        ItemKind::Delimiter => Some(DELIMITER_PREFIX),
        ItemKind::Reserved => None,
    }
}

/// The kind that a prefix belongs to: the one whose key is the prefix with
/// its size selector cleared, or the reserved kind where there is none.
pub open spec fn kind_of(prefix: u8) -> ItemKind {
    match key_of(prefix) {
        INPUT_PREFIX => ItemKind::Input,
        OUTPUT_PREFIX => ItemKind::Output,
        FEATURE_PREFIX => ItemKind::Feature,
        COLLECTION_PREFIX => ItemKind::Collection,
        END_COLLECTION_PREFIX => ItemKind::EndCollection,
        USAGE_PAGE_PREFIX => ItemKind::UsagePage,
        LOGICAL_MINIMUM_PREFIX => ItemKind::LogicalMinimum,
        LOGICAL_MAXIMUM_PREFIX => ItemKind::LogicalMaximum,
        PHYSICAL_MINIMUM_PREFIX => ItemKind::PhysicalMinimum,
        PHYSICAL_MAXIMUM_PREFIX => ItemKind::PhysicalMaximum,
        UNIT_EXPONENT_PREFIX => ItemKind::UnitExponent,
        UNIT_PREFIX => ItemKind::Unit,
        REPORT_SIZE_PREFIX => ItemKind::ReportSize,
        REPORT_ID_PREFIX => ItemKind::ReportId,
        REPORT_COUNT_PREFIX => ItemKind::ReportCount,
        PUSH_PREFIX => ItemKind::Push,
        POP_PREFIX => ItemKind::Pop,
        USAGE_PREFIX => ItemKind::Usage,
        USAGE_MINIMUM_PREFIX => ItemKind::UsageMinimum,
        USAGE_MAXIMUM_PREFIX => ItemKind::UsageMaximum,
        DESIGNATOR_INDEX_PREFIX => ItemKind::DesignatorIndex,
        DESIGNATOR_MINIMUM_PREFIX => ItemKind::DesignatorMinimum,
        DESIGNATOR_MAXIMUM_PREFIX => ItemKind::DesignatorMaximum,
        STRING_INDEX_PREFIX => ItemKind::StringIndex,
        STRING_MINIMUM_PREFIX => ItemKind::StringMinimum,
        STRING_MAXIMUM_PREFIX => ItemKind::StringMaximum,
        DELIMITER_PREFIX => ItemKind::Delimiter,
        _ => ItemKind::Reserved,
    }
}

/// Every prefix belongs to exactly one kind. Where the catalog holds the
/// key of the prefix, it holds it once, and the prefix belongs to the kind
/// that has it; where it does not, the prefix belongs to the reserved kind.
pub proof fn lemma_classification_total(prefix: u8)
    ensures
        forall|kind: ItemKind|
            catalog_key(kind) == Some(key_of(prefix)) ==> kind_of(prefix) == kind,
        kind_of(prefix) !is Reserved ==> catalog_key(kind_of(prefix)) == Some(key_of(prefix)),
        kind_of(prefix) is Reserved <==> forall|kind: ItemKind|
            catalog_key(kind) != Some(key_of(prefix)),
{
}

/// What an item is: its kind, its bytes, and the bytes of the usage page
/// item that holds for it, where it is an item for a usage and one is
/// known.
pub struct ItemView {
    /// The kind of the item.
    pub kind: ItemKind,
    /// The prefix, then the data.
    pub bytes: Seq<u8>,
    /// The usage page item that holds for the item.
    pub usage_page: Option<Seq<u8>>,
}

/// What decoding makes of one whole frame taken by itself: the kind that its
/// prefix belongs to, and no usage page.
pub open spec fn decoded(raw: Seq<u8>) -> ItemView {
    ItemView { kind: kind_of(raw[0]), bytes: raw, usage_page: None }
}

/// The label of an item of the kind `kind` with the data part `data`.
pub open spec fn label_of(kind: ItemKind, data: Seq<u8>) -> Seq<char> {
    match kind {
        ItemKind::Input => input_label(data),
        ItemKind::Output => output_label(data),
        ItemKind::Feature => feature_label(data),
        ItemKind::Collection => collection_label(data),
        ItemKind::EndCollection => end_collection_label(),
        ItemKind::UsagePage => usage_page_label(data),
        ItemKind::LogicalMinimum => logical_minimum_label(data),
        ItemKind::LogicalMaximum => logical_maximum_label(data),
        ItemKind::PhysicalMinimum => physical_minimum_label(data),
        ItemKind::PhysicalMaximum => physical_maximum_label(data),
        ItemKind::UnitExponent => unit_exponent_label(data),
        ItemKind::Unit => unit_label(data),
        ItemKind::ReportSize => report_size_label(data),
        ItemKind::ReportId => report_id_label(data),
        ItemKind::ReportCount => report_count_label(data),
        ItemKind::Push => push_label(),
        ItemKind::Pop => pop_label(),
        ItemKind::Usage => usage_label(data),
        ItemKind::UsageMinimum => usage_minimum_label(data),
        ItemKind::UsageMaximum => usage_maximum_label(data),
        ItemKind::DesignatorIndex => designator_index_label(data),
        ItemKind::DesignatorMinimum => designator_minimum_label(data),
        ItemKind::DesignatorMaximum => designator_maximum_label(data),
        ItemKind::StringIndex => string_index_label(data),
        ItemKind::StringMinimum => string_minimum_label(data),
        ItemKind::StringMaximum => string_maximum_label(data),
        ItemKind::Delimiter => delimiter_label(data),
        ItemKind::Reserved => "Reserved"@,
    }
}

impl ItemView {
    /// The prefix byte.
    pub open spec fn prefix(self) -> u8 {
        self.bytes[0]
    }

    /// The data bytes.
    pub open spec fn data(self) -> Seq<u8> {
        self.bytes.skip(1)
    }

    /// The label of the item in a listing.
    pub open spec fn label(self) -> Seq<char> {
        label_of(self.kind, self.data())
    }

    /// Whether the item is one of the three that name a usage.
    pub open spec fn names_usage(self) -> bool {
        self.kind is Usage || self.kind is UsageMinimum || self.kind is UsageMaximum
    }
}

/// Report items enumeration.
///
/// The HID Report descriptor is made up of items that provide information
/// about the device.
///
/// All items contain a 1-byte prefix which denotes the basic type of the item. The
/// HID class defines two basic formats for items:
///
/// * Short items: 1–5 bytes total length; used for the most commonly occurring
///   items. A short item typically contains 1 or 0 bytes of optional data.
/// * Long items: 3–258 bytes in length; used for items that require larger data
///   structures for parts.
///
/// NOTE: No long item tags are defined, these tags are reserved for future use.
/// A prefix of that shape is read as the prefix of a short item.
///
/// The short item format packs the item size, type, and tag into the first byte. The
/// first byte may be followed by 0, 1, 2, or 4 optional data bytes depending on the
/// size of the data.
///
/// | Bit -8 | Bit 7-4 | Bit 3-2 | Bit 1-0 |
/// | --- | --- | --- | --- |
/// | \[data] | bTag | bType | bSize |
///
/// bSize: Numeric expression specifying size of data:
///
/// | bSize | size of data |
/// | --- | --- |
/// | 0 | 0 bytes |
/// | 1 | 1 byte |
/// | 2 | 2 bytes |
/// | 3 | 4 bytes |
///
/// bType: Numeric expression identifying type of item where:
///
/// | bType | type of item |
/// | --- | --- |
/// | 0 | Main |
/// | 1 | Global |
/// | 2 | Local |
/// | 3 | Reserved |
///
/// bTag: Numeric expression specifying the function of the item.
#[derive(Clone, Copy, Debug, Eq)]
pub enum ReportItem {
    /// An [Input] item.
    Input(Input),
    /// An [Output] item.
    Output(Output),
    /// A [Feature] item.
    Feature(Feature),
    /// A [Collection] item.
    Collection(Collection),
    /// An [EndCollection] item.
    EndCollection(EndCollection),
    /// A [UsagePage] item.
    UsagePage(UsagePage),
    /// A [LogicalMinimum] item.
    LogicalMinimum(LogicalMinimum),
    /// A [LogicalMaximum] item.
    LogicalMaximum(LogicalMaximum),
    /// A [PhysicalMinimum] item.
    PhysicalMinimum(PhysicalMinimum),
    /// A [PhysicalMaximum] item.
    PhysicalMaximum(PhysicalMaximum),
    /// A [UnitExponent] item.
    UnitExponent(UnitExponent),
    /// A [Unit] item.
    Unit(Unit),
    /// A [ReportSize] item.
    ReportSize(ReportSize),
    /// A [ReportId] item.
    ReportId(ReportId),
    /// A [ReportCount] item.
    ReportCount(ReportCount),
    /// A [Push] item.
    Push(Push),
    /// A [Pop] item.
    Pop(Pop),
    /// A [Usage] item.
    Usage(Usage),
    /// A [UsageMinimum] item.
    UsageMinimum(UsageMinimum),
    /// A [UsageMaximum] item.
    UsageMaximum(UsageMaximum),
    /// A [DesignatorIndex] item.
    DesignatorIndex(DesignatorIndex),
    /// A [DesignatorMinimum] item.
    DesignatorMinimum(DesignatorMinimum),
    /// A [DesignatorMaximum] item.
    DesignatorMaximum(DesignatorMaximum),
    /// A [StringIndex] item.
    StringIndex(StringIndex),
    /// A [StringMinimum] item.
    StringMinimum(StringMinimum),
    /// A [StringMaximum] item.
    StringMaximum(StringMaximum),
    /// A [Delimiter] item.
    Delimiter(Delimiter),
    /// A [Reserved] item.
    Reserved(Reserved),
}

impl ReportItem {
    /// What the item is: its kind, its bytes and its usage page.
    pub open spec fn view(&self) -> ItemView {
        match *self {
            ReportItem::Input(inner) => ItemView {
                kind: ItemKind::Input,
                bytes: inner@,
                usage_page: None,
            },
            ReportItem::Output(inner) => ItemView {
                kind: ItemKind::Output,
                bytes: inner@,
                usage_page: None,
            },
            ReportItem::Feature(inner) => ItemView {
                kind: ItemKind::Feature,
                bytes: inner@,
                usage_page: None,
            },
            ReportItem::Collection(inner) => ItemView {
                kind: ItemKind::Collection,
                bytes: inner@,
                usage_page: None,
            },
            ReportItem::EndCollection(inner) => ItemView {
                kind: ItemKind::EndCollection,
                bytes: inner@,
                usage_page: None,
            },
            ReportItem::UsagePage(inner) => ItemView {
                kind: ItemKind::UsagePage,
                bytes: inner@,
                usage_page: None,
            },
            ReportItem::LogicalMinimum(inner) => ItemView {
                kind: ItemKind::LogicalMinimum,
                bytes: inner@,
                usage_page: None,
            },
            ReportItem::LogicalMaximum(inner) => ItemView {
                kind: ItemKind::LogicalMaximum,
                bytes: inner@,
                usage_page: None,
            },
            ReportItem::PhysicalMinimum(inner) => ItemView {
                kind: ItemKind::PhysicalMinimum,
                bytes: inner@,
                usage_page: None,
            },
            ReportItem::PhysicalMaximum(inner) => ItemView {
                kind: ItemKind::PhysicalMaximum,
                bytes: inner@,
                usage_page: None,
            },
            ReportItem::UnitExponent(inner) => ItemView {
                kind: ItemKind::UnitExponent,
                bytes: inner@,
                usage_page: None,
            },
            ReportItem::Unit(inner) => ItemView {
                kind: ItemKind::Unit,
                bytes: inner@,
                usage_page: None,
            },
            ReportItem::ReportSize(inner) => ItemView {
                kind: ItemKind::ReportSize,
                bytes: inner@,
                usage_page: None,
            },
            ReportItem::ReportId(inner) => ItemView {
                kind: ItemKind::ReportId,
                bytes: inner@,
                usage_page: None,
            },
            ReportItem::ReportCount(inner) => ItemView {
                kind: ItemKind::ReportCount,
                bytes: inner@,
                usage_page: None,
            },
            ReportItem::Push(inner) => ItemView {
                kind: ItemKind::Push,
                bytes: inner@,
                usage_page: None,
            },
            ReportItem::Pop(inner) => ItemView {
                kind: ItemKind::Pop,
                bytes: inner@,
                usage_page: None,
            },
            ReportItem::Usage(inner) => ItemView {
                kind: ItemKind::Usage,
                bytes: inner@,
                usage_page: inner.page(),
            },
            ReportItem::UsageMinimum(inner) => ItemView {
                kind: ItemKind::UsageMinimum,
                bytes: inner@,
                usage_page: inner.page(),
            },
            ReportItem::UsageMaximum(inner) => ItemView {
                kind: ItemKind::UsageMaximum,
                bytes: inner@,
                usage_page: inner.page(),
            },
            ReportItem::DesignatorIndex(inner) => ItemView {
                kind: ItemKind::DesignatorIndex,
                bytes: inner@,
                usage_page: None,
            },
            ReportItem::DesignatorMinimum(inner) => ItemView {
                kind: ItemKind::DesignatorMinimum,
                bytes: inner@,
                usage_page: None,
            },
            ReportItem::DesignatorMaximum(inner) => ItemView {
                kind: ItemKind::DesignatorMaximum,
                bytes: inner@,
                usage_page: None,
            },
            ReportItem::StringIndex(inner) => ItemView {
                kind: ItemKind::StringIndex,
                bytes: inner@,
                usage_page: None,
            },
            ReportItem::StringMinimum(inner) => ItemView {
                kind: ItemKind::StringMinimum,
                bytes: inner@,
                usage_page: None,
            },
            ReportItem::StringMaximum(inner) => ItemView {
                kind: ItemKind::StringMaximum,
                bytes: inner@,
                usage_page: None,
            },
            ReportItem::Delimiter(inner) => ItemView {
                kind: ItemKind::Delimiter,
                bytes: inner@,
                usage_page: None,
            },
            ReportItem::Reserved(inner) => ItemView {
                kind: ItemKind::Reserved,
                bytes: inner@,
                usage_page: None,
            },
        }
    }

    /// The bytes of an item are a whole frame, of one to five bytes, and so
    /// are those of its usage page.
    pub proof fn lemma_is_frame(&self)
        ensures
            is_frame(self@.bytes),
            self@.bytes.len() <= 5,
            self@.usage_page is Some ==> is_frame(self@.usage_page->Some_0),
    {
        match *self {
            ReportItem::Input(inner) => inner.lemma_is_frame(),
            ReportItem::Output(inner) => inner.lemma_is_frame(),
            ReportItem::Feature(inner) => inner.lemma_is_frame(),
            ReportItem::Collection(inner) => inner.lemma_is_frame(),
            ReportItem::EndCollection(inner) => inner.lemma_is_frame(),
            ReportItem::UsagePage(inner) => inner.lemma_is_frame(),
            ReportItem::LogicalMinimum(inner) => inner.lemma_is_frame(),
            ReportItem::LogicalMaximum(inner) => inner.lemma_is_frame(),
            ReportItem::PhysicalMinimum(inner) => inner.lemma_is_frame(),
            ReportItem::PhysicalMaximum(inner) => inner.lemma_is_frame(),
            ReportItem::UnitExponent(inner) => inner.lemma_is_frame(),
            ReportItem::Unit(inner) => inner.lemma_is_frame(),
            ReportItem::ReportSize(inner) => inner.lemma_is_frame(),
            ReportItem::ReportId(inner) => inner.lemma_is_frame(),
            ReportItem::ReportCount(inner) => inner.lemma_is_frame(),
            ReportItem::Push(inner) => inner.lemma_is_frame(),
            ReportItem::Pop(inner) => inner.lemma_is_frame(),
            ReportItem::Usage(inner) => inner.lemma_is_frame(),
            ReportItem::UsageMinimum(inner) => inner.lemma_is_frame(),
            ReportItem::UsageMaximum(inner) => inner.lemma_is_frame(),
            ReportItem::DesignatorIndex(inner) => inner.lemma_is_frame(),
            ReportItem::DesignatorMinimum(inner) => inner.lemma_is_frame(),
            ReportItem::DesignatorMaximum(inner) => inner.lemma_is_frame(),
            ReportItem::StringIndex(inner) => inner.lemma_is_frame(),
            ReportItem::StringMinimum(inner) => inner.lemma_is_frame(),
            ReportItem::StringMaximum(inner) => inner.lemma_is_frame(),
            ReportItem::Delimiter(inner) => inner.lemma_is_frame(),
            ReportItem::Reserved(inner) => inner.lemma_is_frame(),
        }
    }

    /// Create a new item from raw byte stream.
    ///
    /// Items that cannot be recognized will be treated as [`Reserved`](ReportItem::Reserved).
    /// If you want to fail on unknown items, use [`new_strict()`](ReportItem::new_strict())
    /// instead.
    pub fn new(raw: &[u8]) -> (r: Result<Self, HidError>)
        ensures
            !is_frame(raw@) ==> (r matches Err(e) && e == framing_error(raw@)),
            is_frame(raw@) ==> r is Ok && r->Ok_0@ == decoded(raw@),
    {
        if raw.len() == 0 {
            return Err(HidError::EmptyRawInput);
        }
        let expected = __data_size(raw[0]);
        if expected + 1 != raw.len() {
            return Err(HidError::DataSizeNotMatch { expected, provided: raw.len() - 1 });
        }
        Ok(ReportItem::new_unchecked(raw))
    }

    /// Create a new item from raw byte stream in strict mode.
    ///
    /// Items that cannot be recognized will be treated as [`HidError::ReservedItem`].
    pub fn new_strict(raw: &[u8]) -> (r: Result<Self, HidError>)
        ensures
            !is_frame(raw@) ==> (r matches Err(e) && e == framing_error(raw@)),
            is_frame(raw@) && kind_of(raw@[0]) !is Reserved ==> r is Ok && r->Ok_0@ == decoded(
                raw@,
            ),
            is_frame(raw@) && kind_of(raw@[0]) is Reserved ==> (r matches Err(
                HidError::ReservedItem(reserved),
            ) && reserved@ == raw@),
    {
        if raw.len() == 0 {
            return Err(HidError::EmptyRawInput);
        }
        let expected = __data_size(raw[0]);
        if expected + 1 != raw.len() {
            return Err(HidError::DataSizeNotMatch { expected, provided: raw.len() - 1 });
        }
        ReportItem::new_strict_unchecked(raw)
    }

    /// Create a new item from raw byte stream, without checking data length.
    ///
    /// Items that cannot be recognized will be treated as [`Reserved`](ReportItem::Reserved).
    /// If you want to fail on unknown items, use
    /// [`new_strict_unchecked()`](ReportItem::new_strict_unchecked()) instead.
    pub fn new_unchecked(raw: &[u8]) -> (item: Self)
        requires
            is_frame(raw@),
        ensures
            item@ == decoded(raw@),
    {
        match raw[0] & 0b1111_1100 {
            INPUT_PREFIX => ReportItem::Input(Input::new_unchecked(raw)),
            OUTPUT_PREFIX => ReportItem::Output(Output::new_unchecked(raw)),
            FEATURE_PREFIX => ReportItem::Feature(Feature::new_unchecked(raw)),
            COLLECTION_PREFIX => ReportItem::Collection(Collection::new_unchecked(raw)),
            END_COLLECTION_PREFIX => ReportItem::EndCollection(EndCollection::new_unchecked(raw)),
            USAGE_PAGE_PREFIX => ReportItem::UsagePage(UsagePage::new_unchecked(raw)),
            LOGICAL_MINIMUM_PREFIX => {
                ReportItem::LogicalMinimum(LogicalMinimum::new_unchecked(raw))
            },
            LOGICAL_MAXIMUM_PREFIX => {
                ReportItem::LogicalMaximum(LogicalMaximum::new_unchecked(raw))
            },
            PHYSICAL_MINIMUM_PREFIX => {
                ReportItem::PhysicalMinimum(PhysicalMinimum::new_unchecked(raw))
            },
            PHYSICAL_MAXIMUM_PREFIX => {
                ReportItem::PhysicalMaximum(PhysicalMaximum::new_unchecked(raw))
            },
            UNIT_EXPONENT_PREFIX => ReportItem::UnitExponent(UnitExponent::new_unchecked(raw)),
            UNIT_PREFIX => ReportItem::Unit(Unit::new_unchecked(raw)),
            REPORT_SIZE_PREFIX => ReportItem::ReportSize(ReportSize::new_unchecked(raw)),
            REPORT_ID_PREFIX => ReportItem::ReportId(ReportId::new_unchecked(raw)),
            REPORT_COUNT_PREFIX => ReportItem::ReportCount(ReportCount::new_unchecked(raw)),
            PUSH_PREFIX => ReportItem::Push(Push::new_unchecked(raw)),
            POP_PREFIX => ReportItem::Pop(Pop::new_unchecked(raw)),
            USAGE_PREFIX => ReportItem::Usage(Usage::new_unchecked(raw)),
            USAGE_MINIMUM_PREFIX => ReportItem::UsageMinimum(UsageMinimum::new_unchecked(raw)),
            USAGE_MAXIMUM_PREFIX => ReportItem::UsageMaximum(UsageMaximum::new_unchecked(raw)),
            DESIGNATOR_INDEX_PREFIX => {
                ReportItem::DesignatorIndex(DesignatorIndex::new_unchecked(raw))
            },
            DESIGNATOR_MINIMUM_PREFIX => {
                ReportItem::DesignatorMinimum(DesignatorMinimum::new_unchecked(raw))
            },
            DESIGNATOR_MAXIMUM_PREFIX => {
                ReportItem::DesignatorMaximum(DesignatorMaximum::new_unchecked(raw))
            },
            STRING_INDEX_PREFIX => ReportItem::StringIndex(StringIndex::new_unchecked(raw)),
            STRING_MINIMUM_PREFIX => ReportItem::StringMinimum(StringMinimum::new_unchecked(raw)),
            STRING_MAXIMUM_PREFIX => ReportItem::StringMaximum(StringMaximum::new_unchecked(raw)),
            DELIMITER_PREFIX => ReportItem::Delimiter(Delimiter::new_unchecked(raw)),
            _ => ReportItem::Reserved(Reserved::new_unchecked(raw)),
        }
    }

    /// Create a new item from raw byte stream in strict mode, without checking data length.
    ///
    /// Items that cannot be recognized will be treated as [`HidError::ReservedItem`].
    /// Also, this is the only error that may be reported.
    pub fn new_strict_unchecked(raw: &[u8]) -> (r: Result<Self, HidError>)
        requires
            is_frame(raw@),
        ensures
            kind_of(raw@[0]) !is Reserved ==> r is Ok && r->Ok_0@ == decoded(raw@),
            kind_of(raw@[0]) is Reserved ==> (r matches Err(HidError::ReservedItem(reserved))
                && reserved@ == raw@),
    {
        match ReportItem::new_unchecked(raw) {
            ReportItem::Reserved(reserved) => Err(HidError::ReservedItem(reserved)),
            item => Ok(item),
        }
    }

    /// All bytes of the item: the prefix, then the data.
    pub fn as_ref(&self) -> (bytes: &[u8])
        ensures
            bytes@ == self@.bytes,
    {
        match self {
            ReportItem::Input(inner) => inner.as_ref(),
            ReportItem::Output(inner) => inner.as_ref(),
            ReportItem::Feature(inner) => inner.as_ref(),
            ReportItem::Collection(inner) => inner.as_ref(),
            ReportItem::EndCollection(inner) => inner.as_ref(),
            ReportItem::UsagePage(inner) => inner.as_ref(),
            ReportItem::LogicalMinimum(inner) => inner.as_ref(),
            ReportItem::LogicalMaximum(inner) => inner.as_ref(),
            ReportItem::PhysicalMinimum(inner) => inner.as_ref(),
            ReportItem::PhysicalMaximum(inner) => inner.as_ref(),
            ReportItem::UnitExponent(inner) => inner.as_ref(),
            ReportItem::Unit(inner) => inner.as_ref(),
            ReportItem::ReportSize(inner) => inner.as_ref(),
            ReportItem::ReportId(inner) => inner.as_ref(),
            ReportItem::ReportCount(inner) => inner.as_ref(),
            ReportItem::Push(inner) => inner.as_ref(),
            ReportItem::Pop(inner) => inner.as_ref(),
            ReportItem::Usage(inner) => inner.as_ref(),
            ReportItem::UsageMinimum(inner) => inner.as_ref(),
            ReportItem::UsageMaximum(inner) => inner.as_ref(),
            ReportItem::DesignatorIndex(inner) => inner.as_ref(),
            ReportItem::DesignatorMinimum(inner) => inner.as_ref(),
            ReportItem::DesignatorMaximum(inner) => inner.as_ref(),
            ReportItem::StringIndex(inner) => inner.as_ref(),
            ReportItem::StringMinimum(inner) => inner.as_ref(),
            ReportItem::StringMaximum(inner) => inner.as_ref(),
            ReportItem::Delimiter(inner) => inner.as_ref(),
            ReportItem::Reserved(inner) => inner.as_ref(),
        }
    }

    /// Get prefix part of the item. Equivalent to `item.as_ref()[0]`.
    pub fn prefix(&self) -> (prefix: u8)
        ensures
            prefix == self@.prefix(),
    {
        proof {
            self.lemma_is_frame();
        }
        self.as_ref()[0]
    }

    /// Get data part of the item. Equivalent to `&item.as_ref()[1..]`.
    pub fn data(&self) -> (data: &[u8])
        ensures
            data@ == self@.data(),
    {
        proof {
            self.lemma_is_frame();
        }
        let bytes = self.as_ref();
        let data = &bytes[1..bytes.len()];
        data
    }

    /// The label of the item in a listing.
    pub fn to_string(&self) -> (label: String)
        ensures
            label@ == self@.label(),
    {
        match self {
            ReportItem::Input(inner) => inner.to_string(),
            ReportItem::Output(inner) => inner.to_string(),
            ReportItem::Feature(inner) => inner.to_string(),
            ReportItem::Collection(inner) => inner.to_string(),
            ReportItem::EndCollection(inner) => inner.to_string(),
            ReportItem::UsagePage(inner) => inner.to_string(),
            ReportItem::LogicalMinimum(inner) => inner.to_string(),
            ReportItem::LogicalMaximum(inner) => inner.to_string(),
            ReportItem::PhysicalMinimum(inner) => inner.to_string(),
            ReportItem::PhysicalMaximum(inner) => inner.to_string(),
            ReportItem::UnitExponent(inner) => inner.to_string(),
            ReportItem::Unit(inner) => inner.to_string(),
            ReportItem::ReportSize(inner) => inner.to_string(),
            ReportItem::ReportId(inner) => inner.to_string(),
            ReportItem::ReportCount(inner) => inner.to_string(),
            ReportItem::Push(inner) => inner.to_string(),
            ReportItem::Pop(inner) => inner.to_string(),
            ReportItem::Usage(inner) => inner.to_string(),
            ReportItem::UsageMinimum(inner) => inner.to_string(),
            ReportItem::UsageMaximum(inner) => inner.to_string(),
            ReportItem::DesignatorIndex(inner) => inner.to_string(),
            ReportItem::DesignatorMinimum(inner) => inner.to_string(),
            ReportItem::DesignatorMaximum(inner) => inner.to_string(),
            ReportItem::StringIndex(inner) => inner.to_string(),
            ReportItem::StringMinimum(inner) => inner.to_string(),
            ReportItem::StringMaximum(inner) => inner.to_string(),
            ReportItem::Delimiter(inner) => inner.to_string(),
            ReportItem::Reserved(inner) => inner.to_string(),
        }
    }
}

impl PartialEq for ReportItem {
    /// Two items are equal when they are of one kind, their bytes are equal
    /// and their usage pages are.
    fn eq(&self, other: &Self) -> (r: bool) {
        match (self, other) {
            (ReportItem::Input(a), ReportItem::Input(b)) => a == b,
            (ReportItem::Output(a), ReportItem::Output(b)) => a == b,
            (ReportItem::Feature(a), ReportItem::Feature(b)) => a == b,
            (ReportItem::Collection(a), ReportItem::Collection(b)) => a == b,
            (ReportItem::EndCollection(a), ReportItem::EndCollection(b)) => a == b,
            (ReportItem::UsagePage(a), ReportItem::UsagePage(b)) => a == b,
            (ReportItem::LogicalMinimum(a), ReportItem::LogicalMinimum(b)) => a == b,
            (ReportItem::LogicalMaximum(a), ReportItem::LogicalMaximum(b)) => a == b,
            (ReportItem::PhysicalMinimum(a), ReportItem::PhysicalMinimum(b)) => a == b,
            (ReportItem::PhysicalMaximum(a), ReportItem::PhysicalMaximum(b)) => a == b,
            (ReportItem::UnitExponent(a), ReportItem::UnitExponent(b)) => a == b,
            (ReportItem::Unit(a), ReportItem::Unit(b)) => a == b,
            (ReportItem::ReportSize(a), ReportItem::ReportSize(b)) => a == b,
            (ReportItem::ReportId(a), ReportItem::ReportId(b)) => a == b,
            (ReportItem::ReportCount(a), ReportItem::ReportCount(b)) => a == b,
            (ReportItem::Push(a), ReportItem::Push(b)) => a == b,
            (ReportItem::Pop(a), ReportItem::Pop(b)) => a == b,
            (ReportItem::Usage(a), ReportItem::Usage(b)) => a == b,
            (ReportItem::UsageMinimum(a), ReportItem::UsageMinimum(b)) => a == b,
            (ReportItem::UsageMaximum(a), ReportItem::UsageMaximum(b)) => a == b,
            (ReportItem::DesignatorIndex(a), ReportItem::DesignatorIndex(b)) => a == b,
            (ReportItem::DesignatorMinimum(a), ReportItem::DesignatorMinimum(b)) => a == b,
            (ReportItem::DesignatorMaximum(a), ReportItem::DesignatorMaximum(b)) => a == b,
            (ReportItem::StringIndex(a), ReportItem::StringIndex(b)) => a == b,
            (ReportItem::StringMinimum(a), ReportItem::StringMinimum(b)) => a == b,
            (ReportItem::StringMaximum(a), ReportItem::StringMaximum(b)) => a == b,
            (ReportItem::Delimiter(a), ReportItem::Delimiter(b)) => a == b,
            (ReportItem::Reserved(a), ReportItem::Reserved(b)) => a == b,
            _ => false,
        }
    }
}

impl PartialEqSpecImpl for ReportItem {
    open spec fn obeys_eq_spec() -> bool {
        true
    }

    open spec fn eq_spec(&self, other: &Self) -> bool {
        self@ == other@
    }
}

} // verus!
