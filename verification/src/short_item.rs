//! What the item kinds of the catalog have in common: a frame whose prefix
//! carries the key of the kind.

use crate::error::HidError;
use crate::frame::{framing_error, with_data, Frame};
use crate::privates::{__data_size, data_size, is_data_len, is_frame, key_of, with_data_size};
use vstd::prelude::*;
use vstd::std_specs::cmp::PartialEqSpecImpl;

verus! {

/// The bytes of an item that has just been made for a prefix: the prefix, then
/// as many zero bytes as the prefix announces.
pub open spec fn blank(prefix: u8) -> Seq<u8> {
    Seq::new(1 + data_size(prefix), |i: int| if i == 0 { prefix } else { 0u8 })
}

/// An item of the kind whose prefix, with the size selector cleared, is
/// `PREFIX`.
#[derive(Clone, Copy, Debug, Eq)]
pub struct ShortItem<const PREFIX: u8> {
    frame: Frame,
}

impl<const PREFIX: u8> ShortItem<PREFIX> {
    /// The bytes of the item: the prefix, then the data.
    pub closed spec fn view(&self) -> Seq<u8> {
        self.frame@
    }

    /// The view of an item is a whole frame, of one to five bytes.
    pub proof fn lemma_is_frame(&self)
        ensures
            is_frame(self@),
            self@.len() <= 5,
    {
        self.frame.lemma_is_frame();
    }

    /// Create an item with prefix check and size check.
    pub fn new(raw: &[u8]) -> (r: Result<Self, HidError>)
        ensures
            raw@.len() == 0 ==> r matches Err(HidError::EmptyRawInput),
            raw@.len() > 0 && key_of(raw@[0]) != PREFIX ==> r matches Err(HidError::PrefixNotMatch),
            raw@.len() > 0 && key_of(raw@[0]) == PREFIX && !is_frame(raw@) ==> (r matches Err(e)
                && e == framing_error(raw@)),
            is_frame(raw@) && key_of(raw@[0]) == PREFIX ==> r is Ok && r->Ok_0@ == raw@,
    {
        if raw.len() == 0 {
            return Err(HidError::EmptyRawInput);
        }
        if raw[0] & 0b1111_1100 != PREFIX {
            return Err(HidError::PrefixNotMatch);
        }
        Ok(ShortItem { frame: Frame::new(raw)? })
    }

    /// Create an item *WITHOUT* prefix check and size check.
    pub fn new_unchecked(raw: &[u8]) -> (item: Self)
        requires
            is_frame(raw@),
            key_of(raw@[0]) == PREFIX,
        ensures
            item@ == raw@,
    {
        ShortItem { frame: Frame::new_unchecked(raw) }
    }

    /// Get prefix part of the item. Equivalent to `item.as_ref()[0]`.
    pub fn prefix(&self) -> (prefix: u8)
        ensures
            prefix == self@[0],
    {
        self.frame.prefix()
    }

    /// Get data part of the item. Equivalent to `&item.as_ref()[1..]`.
    pub fn data(&self) -> (data: &[u8])
        ensures
            data@ == self@.skip(1),
    {
        self.frame.data()
    }

    /// All bytes of the item: the prefix, then the data.
    pub fn as_ref(&self) -> (bytes: &[u8])
        ensures
            bytes@ == self@,
    {
        self.frame.as_ref()
    }

    /// Create an item with specific data.
    ///
    /// *NOTE*: data size must be: 0, 1, 2 or 4.
    pub fn new_with(data: &[u8]) -> (r: Result<Self, HidError>)
        ensures
            is_data_len(data@.len()) ==> r is Ok && r->Ok_0@ == seq![
                with_data_size(PREFIX, data@.len()),
            ] + data@,
            !is_data_len(data@.len()) ==> r matches Err(HidError::InvalidDataSize),
    {
        let mut frame = blank_frame(PREFIX);
        frame.set_data(data)?;
        Ok(ShortItem { frame })
    }

    /// Set data part of the item.
    ///
    /// *NOTE*: data size must be: 0, 1, 2 or 4. Data of another size is
    /// refused and leaves the item as it was.
    pub fn set_data(&mut self, data: &[u8]) -> (r: Result<&mut Self, HidError>)
        ensures
            is_data_len(data@.len()) ==> r is Ok && r->Ok_0@ == with_data(old(self)@, data@)
                && *final(self) == *final(r->Ok_0),
            !is_data_len(data@.len()) ==> r matches Err(HidError::InvalidDataSize),
            !is_data_len(data@.len()) ==> *final(self) == *old(self),
    {
        self.frame.set_data(data)?;
        Ok(self)
    }

    /// Get mutable data part of the item. What is written through the
    /// returned slice becomes the data of the item; the prefix stays.
    pub fn data_mut(&mut self) -> (data: &mut [u8])
        ensures
            data@ == old(self)@.skip(1),
            final(self)@ == seq![old(self)@[0]] + final(data)@,
    {
        self.frame.data_mut()
    }
}

/// The frame of a blank item.
pub(crate) fn blank_frame(prefix: u8) -> (frame: Frame)
    ensures
        frame@ == blank(prefix),
{
    let storage: [u8; 5] = [prefix, 0, 0, 0, 0];
    let end = __data_size(prefix) + 1;
    let raw = &storage[0..end];
    Frame::new_unchecked(raw)
}

impl<const PREFIX: u8> Default for ShortItem<PREFIX> {
    /// The item whose prefix is `PREFIX` and whose data is zero.
    fn default() -> (item: Self)
        ensures
            item@ == blank(PREFIX),
    {
        ShortItem { frame: blank_frame(PREFIX) }
    }
}

impl<const PREFIX: u8> PartialEq for ShortItem<PREFIX> {
    /// Two items are equal when their bytes are.
    fn eq(&self, other: &Self) -> (r: bool) {
        self.frame == other.frame
    }
}

impl<const PREFIX: u8> PartialEqSpecImpl for ShortItem<PREFIX> {
    open spec fn obeys_eq_spec() -> bool {
        true
    }

    open spec fn eq_spec(&self, other: &Self) -> bool {
        self@ == other@
    }
}

} // verus!
