//! The local items: the ones that describe the next main item only.
//!
//! A usage is told in full by its number together with the number of the
//! usage page that holds for it. The items for a usage therefore have room
//! for a copy of that usage page item, which is no part of their bytes.
//! Their labels give the number; the names of usages are not known here.

use crate::error::HidError;
use crate::frame::{framing_error, with_data, Frame};
use crate::global_items::UsagePage;
use crate::label::{unsigned_label, unsigned_text};
use crate::privates::{is_data_len, is_frame, key_of, with_data_size};
use crate::short_item::{blank, blank_frame, ShortItem};
use vstd::prelude::*;
use vstd::std_specs::cmp::PartialEqSpecImpl;

verus! {

/// The key of [`Usage`].
pub const USAGE_PREFIX: u8 = 0b0000_1000;

/// The key of [`UsageMinimum`].
pub const USAGE_MINIMUM_PREFIX: u8 = 0b0001_1000;

/// The key of [`UsageMaximum`].
pub const USAGE_MAXIMUM_PREFIX: u8 = 0b0010_1000;

/// The key of [`DesignatorIndex`].
pub const DESIGNATOR_INDEX_PREFIX: u8 = 0b0011_1000;

/// The key of [`DesignatorMinimum`].
pub const DESIGNATOR_MINIMUM_PREFIX: u8 = 0b0100_1000;

/// The key of [`DesignatorMaximum`].
pub const DESIGNATOR_MAXIMUM_PREFIX: u8 = 0b0101_1000;

/// The key of [`StringIndex`].
pub const STRING_INDEX_PREFIX: u8 = 0b0111_1000;

/// The key of [`StringMinimum`].
pub const STRING_MINIMUM_PREFIX: u8 = 0b1000_1000;

/// The key of [`StringMaximum`].
pub const STRING_MAXIMUM_PREFIX: u8 = 0b1001_1000;

/// The key of [`Delimiter`].
pub const DELIMITER_PREFIX: u8 = 0b1010_1000;

/// An item of a kind that names a usage: its frame, and the usage page item
/// that holds for it where one is known.
#[derive(Clone, Copy, Debug, Eq)]
pub struct UsageItem<const PREFIX: u8> {
    frame: Frame,
    usage_page: Option<UsagePage>,
}

/// Usage index for an item usage; represents a
/// suggested usage for the item or collection.
pub type Usage = UsageItem<USAGE_PREFIX>;

/// Defines the starting usage associated with an array or bitmap.
pub type UsageMinimum = UsageItem<USAGE_MINIMUM_PREFIX>;

/// Defines the ending usage associated with an array or bitmap.
pub type UsageMaximum = UsageItem<USAGE_MAXIMUM_PREFIX>;

/// Determines the body part used for a control. Index
/// points to a designator in the Physical descriptor.
pub type DesignatorIndex = ShortItem<DESIGNATOR_INDEX_PREFIX>;

/// Defines the index of the starting designator
/// associated with an array or bitmap.
pub type DesignatorMinimum = ShortItem<DESIGNATOR_MINIMUM_PREFIX>;

/// Defines the index of the ending designator
/// associated with an array or bitmap.
pub type DesignatorMaximum = ShortItem<DESIGNATOR_MAXIMUM_PREFIX>;

/// String index for a String descriptor; allows a string
/// to be associated with a particular item or control.
pub type StringIndex = ShortItem<STRING_INDEX_PREFIX>;

/// Specifies the first string index when assigning a group of
/// sequential strings to controls in an array or bitmap.
pub type StringMinimum = ShortItem<STRING_MINIMUM_PREFIX>;

/// Specifies the last string index when assigning a group of
/// sequential strings to controls in an array or bitmap.
pub type StringMaximum = ShortItem<STRING_MAXIMUM_PREFIX>;

/// Defines the beginning or end of a set of local items.
pub type Delimiter = ShortItem<DELIMITER_PREFIX>;

/// The label of a [`Usage`] item with the data part `data`.
pub open spec fn usage_label(data: Seq<u8>) -> Seq<char> {
    unsigned_label("Usage"@, data)
}

/// The label of a [`UsageMinimum`] item with the data part `data`.
pub open spec fn usage_minimum_label(data: Seq<u8>) -> Seq<char> {
    unsigned_label("Usage Minimum"@, data)
}

/// The label of a [`UsageMaximum`] item with the data part `data`.
pub open spec fn usage_maximum_label(data: Seq<u8>) -> Seq<char> {
    unsigned_label("Usage Maximum"@, data)
}

/// The label of a [`DesignatorIndex`] item with the data part `data`.
pub open spec fn designator_index_label(data: Seq<u8>) -> Seq<char> {
    unsigned_label("Designator Index"@, data)
}

/// The label of a [`DesignatorMinimum`] item with the data part `data`.
pub open spec fn designator_minimum_label(data: Seq<u8>) -> Seq<char> {
    unsigned_label("Designator Minimum"@, data)
}

/// The label of a [`DesignatorMaximum`] item with the data part `data`.
pub open spec fn designator_maximum_label(data: Seq<u8>) -> Seq<char> {
    unsigned_label("Designator Maximum"@, data)
}

/// The label of a [`StringIndex`] item with the data part `data`.
pub open spec fn string_index_label(data: Seq<u8>) -> Seq<char> {
    unsigned_label("String Index"@, data)
}

/// The label of a [`StringMinimum`] item with the data part `data`.
pub open spec fn string_minimum_label(data: Seq<u8>) -> Seq<char> {
    unsigned_label("String Minimum"@, data)
}

/// The label of a [`StringMaximum`] item with the data part `data`.
pub open spec fn string_maximum_label(data: Seq<u8>) -> Seq<char> {
    unsigned_label("String Maximum"@, data)
}

/// The label of a [`Delimiter`] item with the data part `data`.
pub open spec fn delimiter_label(data: Seq<u8>) -> Seq<char> {
    unsigned_label("Delimiter"@, data)
}

impl<const PREFIX: u8> UsageItem<PREFIX> {
    /// The bytes of the item: the prefix, then the data.
    pub closed spec fn view(&self) -> Seq<u8> {
        self.frame@
    }

    /// The bytes of the usage page item that holds for this item, where one
    /// is known.
    pub closed spec fn page(&self) -> Option<Seq<u8>> {
        match self.usage_page {
            Some(usage_page) => Some(usage_page@),
            None => None,
        }
    }

    /// The view of an item is a whole frame, of one to five bytes, and so is
    /// that of its usage page.
    pub proof fn lemma_is_frame(&self)
        ensures
            is_frame(self@),
            self@.len() <= 5,
            self.page() is Some ==> is_frame(self.page()->Some_0),
    {
        self.frame.lemma_is_frame();
        if let Some(usage_page) = self.usage_page {
            usage_page.lemma_is_frame();
        }
    }

    /// Create an item with prefix check and size check. It has no usage
    /// page.
    pub fn new(raw: &[u8]) -> (r: Result<Self, HidError>)
        ensures
            raw@.len() == 0 ==> r matches Err(HidError::EmptyRawInput),
            raw@.len() > 0 && key_of(raw@[0]) != PREFIX ==> r matches Err(HidError::PrefixNotMatch),
            raw@.len() > 0 && key_of(raw@[0]) == PREFIX && !is_frame(raw@) ==> (r matches Err(e)
                && e == framing_error(raw@)),
            is_frame(raw@) && key_of(raw@[0]) == PREFIX ==> r is Ok && r->Ok_0@ == raw@
                && r->Ok_0.page() is None,
    {
        if raw.len() == 0 {
            return Err(HidError::EmptyRawInput);
        }
        if raw[0] & 0b1111_1100 != PREFIX {
            return Err(HidError::PrefixNotMatch);
        }
        Ok(UsageItem { frame: Frame::new(raw)?, usage_page: None })
    }

    /// Create an item *WITHOUT* prefix check and size check. It has no usage
    /// page.
    pub fn new_unchecked(raw: &[u8]) -> (item: Self)
        requires
            is_frame(raw@),
            key_of(raw@[0]) == PREFIX,
        ensures
            item@ == raw@,
            item.page() is None,
    {
        UsageItem { frame: Frame::new_unchecked(raw), usage_page: None }
    }

    /// Get prefix part of the item. Equivalent to `item.as_ref()[0]`.
    pub fn prefix(&self) -> (prefix: u8)
        ensures
            prefix == self@[0],
    {
        self.frame.prefix()
    }

    /// Get data part of the item. Equivalent to `&item.as_ref()[1..]`.
    pub fn data(&self) -> (data: &[u8])
        ensures
            data@ == self@.skip(1),
    {
        self.frame.data()
    }

    /// All bytes of the item: the prefix, then the data. The usage page is
    /// not among them.
    pub fn as_ref(&self) -> (bytes: &[u8])
        ensures
            bytes@ == self@,
    {
        self.frame.as_ref()
    }

    /// Create an item with specific data. It has no usage page.
    ///
    /// *NOTE*: data size must be: 0, 1, 2 or 4.
    pub fn new_with(data: &[u8]) -> (r: Result<Self, HidError>)
        ensures
            is_data_len(data@.len()) ==> r is Ok && r->Ok_0@ == seq![
                with_data_size(PREFIX, data@.len()),
            ] + data@ && r->Ok_0.page() is None,
            !is_data_len(data@.len()) ==> r matches Err(HidError::InvalidDataSize),
    {
        let mut frame = blank_frame(PREFIX);
        frame.set_data(data)?;
        Ok(UsageItem { frame, usage_page: None })
    }

    /// Set data part of the item. The usage page stays.
    ///
    /// *NOTE*: data size must be: 0, 1, 2 or 4. Data of another size is
    /// refused and leaves the item as it was.
    pub fn set_data(&mut self, data: &[u8]) -> (r: Result<&mut Self, HidError>)
        ensures
            is_data_len(data@.len()) ==> r is Ok && r->Ok_0@ == with_data(old(self)@, data@)
                && r->Ok_0.page() == old(self).page() && *final(self) == *final(r->Ok_0),
            !is_data_len(data@.len()) ==> r matches Err(HidError::InvalidDataSize),
            !is_data_len(data@.len()) ==> *final(self) == *old(self),
    {
        self.frame.set_data(data)?;
        Ok(self)
    }

    /// Get mutable data part of the item. What is written through the
    /// returned slice becomes the data of the item; the prefix and the usage
    /// page stay.
    pub fn data_mut(&mut self) -> (data: &mut [u8])
        ensures
            data@ == old(self)@.skip(1),
            final(self)@ == seq![old(self)@[0]] + final(data)@,
            final(self).page() == old(self).page(),
    {
        self.frame.data_mut()
    }

    /// The usage page item that holds for this item, where one is known.
    pub fn usage_page(&self) -> (usage_page: Option<UsagePage>)
        ensures
            usage_page is Some == self.page() is Some,
            usage_page is Some ==> usage_page->Some_0@ == self.page()->Some_0,
    {
        self.usage_page
    }

    /// Say which usage page item holds for this item. The bytes of the item
    /// stay.
    pub fn set_usage_page(&mut self, usage_page: UsagePage)
        ensures
            final(self)@ == old(self)@,
            final(self).page() == Some(usage_page@),
    {
        self.usage_page = Some(usage_page);
    }
}

impl<const PREFIX: u8> Default for UsageItem<PREFIX> {
    /// The item whose prefix is `PREFIX`, whose data is zero and which has no
    /// usage page.
    fn default() -> (item: Self)
        ensures
            item@ == blank(PREFIX),
            item.page() is None,
    {
        UsageItem { frame: blank_frame(PREFIX), usage_page: None }
    }
}

impl<const PREFIX: u8> PartialEq for UsageItem<PREFIX> {
    /// Two items are equal when their bytes are and their usage pages are.
    fn eq(&self, other: &Self) -> (r: bool) {
        let same_page = match (self.usage_page, other.usage_page) {
            (Some(a), Some(b)) => a == b,
            (None, None) => true,
            _ => false,
        };
        self.frame == other.frame && same_page
    }
}

impl<const PREFIX: u8> PartialEqSpecImpl for UsageItem<PREFIX> {
    open spec fn obeys_eq_spec() -> bool {
        true
    }

    open spec fn eq_spec(&self, other: &Self) -> bool {
        self@ == other@ && self.page() == other.page()
    }
}

impl Usage {
    /// Prefix consists of tag(bit 7-4), type(bit 3-2) and size(bit 1-0).
    /// The "size" part is set to `00` in this constant value.
    pub const PREFIX: u8 = USAGE_PREFIX;

    /// The label of the item in a listing.
    pub fn to_string(&self) -> (label: String)
        ensures
            label@ == usage_label(self@.skip(1)),
    {
        unsigned_text("Usage", self.data())
    }
}

impl UsageMinimum {
    /// Prefix consists of tag(bit 7-4), type(bit 3-2) and size(bit 1-0).
    /// The "size" part is set to `00` in this constant value.
    pub const PREFIX: u8 = USAGE_MINIMUM_PREFIX;

    /// The label of the item in a listing.
    pub fn to_string(&self) -> (label: String)
        ensures
            label@ == usage_minimum_label(self@.skip(1)),
    {
        unsigned_text("Usage Minimum", self.data())
    }
}

impl UsageMaximum {
    /// Prefix consists of tag(bit 7-4), type(bit 3-2) and size(bit 1-0).
    /// The "size" part is set to `00` in this constant value.
    pub const PREFIX: u8 = USAGE_MAXIMUM_PREFIX;

    /// The label of the item in a listing.
    pub fn to_string(&self) -> (label: String)
        ensures
            label@ == usage_maximum_label(self@.skip(1)),
    {
        unsigned_text("Usage Maximum", self.data())
    }
}

impl DesignatorIndex {
    /// Prefix consists of tag(bit 7-4), type(bit 3-2) and size(bit 1-0).
    /// The "size" part is set to `00` in this constant value.
    pub const PREFIX: u8 = DESIGNATOR_INDEX_PREFIX;

    /// The label of the item in a listing.
    pub fn to_string(&self) -> (label: String)
        ensures
            label@ == designator_index_label(self@.skip(1)),
    {
        unsigned_text("Designator Index", self.data())
    }
}

impl DesignatorMinimum {
    /// Prefix consists of tag(bit 7-4), type(bit 3-2) and size(bit 1-0).
    /// The "size" part is set to `00` in this constant value.
    pub const PREFIX: u8 = DESIGNATOR_MINIMUM_PREFIX;

    /// The label of the item in a listing.
    pub fn to_string(&self) -> (label: String)
        ensures
            label@ == designator_minimum_label(self@.skip(1)),
    {
        unsigned_text("Designator Minimum", self.data())
    }
}

impl DesignatorMaximum {
    /// Prefix consists of tag(bit 7-4), type(bit 3-2) and size(bit 1-0).
    /// The "size" part is set to `00` in this constant value.
    pub const PREFIX: u8 = DESIGNATOR_MAXIMUM_PREFIX;

    /// The label of the item in a listing.
    pub fn to_string(&self) -> (label: String)
        ensures
            label@ == designator_maximum_label(self@.skip(1)),
    {
        unsigned_text("Designator Maximum", self.data())
    }
}

impl StringIndex {
    /// Prefix consists of tag(bit 7-4), type(bit 3-2) and size(bit 1-0).
    /// The "size" part is set to `00` in this constant value.
    pub const PREFIX: u8 = STRING_INDEX_PREFIX;

    /// The label of the item in a listing.
    pub fn to_string(&self) -> (label: String)
        ensures
            label@ == string_index_label(self@.skip(1)),
    {
        unsigned_text("String Index", self.data())
    }
}

impl StringMinimum {
    /// Prefix consists of tag(bit 7-4), type(bit 3-2) and size(bit 1-0).
    /// The "size" part is set to `00` in this constant value.
    pub const PREFIX: u8 = STRING_MINIMUM_PREFIX;

    /// The label of the item in a listing.
    pub fn to_string(&self) -> (label: String)
        ensures
            label@ == string_minimum_label(self@.skip(1)),
    {
        unsigned_text("String Minimum", self.data())
    }
}

impl StringMaximum {
    /// Prefix consists of tag(bit 7-4), type(bit 3-2) and size(bit 1-0).
    /// The "size" part is set to `00` in this constant value.
    pub const PREFIX: u8 = STRING_MAXIMUM_PREFIX;

    /// The label of the item in a listing.
    pub fn to_string(&self) -> (label: String)
        ensures
            label@ == string_maximum_label(self@.skip(1)),
    {
        unsigned_text("String Maximum", self.data())
    }
}

impl Delimiter {
    /// Prefix consists of tag(bit 7-4), type(bit 3-2) and size(bit 1-0).
    /// The "size" part is set to `00` in this constant value.
    pub const PREFIX: u8 = DELIMITER_PREFIX;

    /// The label of the item in a listing.
    pub fn to_string(&self) -> (label: String)
        ensures
            label@ == delimiter_label(self@.skip(1)),
    {
        unsigned_text("Delimiter", self.data())
    }
}

} // verus!
