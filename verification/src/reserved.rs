//! The item kind that stands for every prefix the catalog does not know.

use crate::error::HidError;
use crate::frame::{framing_error, with_data, Frame};
use crate::privates::{is_data_len, is_frame};
use vstd::prelude::*;
use vstd::std_specs::cmp::PartialEqSpecImpl;

verus! {

/// Items that are reserved for future use.
#[derive(Clone, Copy, Debug, Eq)]
pub struct Reserved {
    frame: Frame,
}

impl Reserved {
    /// The bytes of the item: the prefix, then the data.
    pub closed spec fn view(&self) -> Seq<u8> {
        self.frame@
    }

    /// The view of an item is a whole frame, of one to five bytes.
    pub proof fn lemma_is_frame(&self)
        ensures
            is_frame(self@),
            self@.len() <= 5,
    {
        self.frame.lemma_is_frame();
    }

    /// Create an item with size check. Any prefix is accepted.
    pub fn new(raw: &[u8]) -> (r: Result<Self, HidError>)
        ensures
            !is_frame(raw@) ==> (r matches Err(e) && e == framing_error(raw@)),
            is_frame(raw@) ==> r is Ok && r->Ok_0@ == raw@,
    {
        Ok(Reserved { frame: Frame::new(raw)? })
    }

    /// Create an item without size check.
    pub fn new_unchecked(raw: &[u8]) -> (item: Self)
        requires
            is_frame(raw@),
        ensures
            item@ == raw@,
    {
        Reserved { frame: Frame::new_unchecked(raw) }
    }

    /// Get prefix part of the item. Equivalent to `item.as_ref()[0]`.
    pub fn prefix(&self) -> (prefix: u8)
        ensures
            prefix == self@[0],
    {
        self.frame.prefix()
    }

    /// Get data part of the item. Equivalent to `&item.as_ref()[1..]`.
    pub fn data(&self) -> (data: &[u8])
        ensures
            data@ == self@.skip(1),
    {
        self.frame.data()
    }

    /// All bytes of the item: the prefix, then the data.
    pub fn as_ref(&self) -> (bytes: &[u8])
        ensures
            bytes@ == self@,
    {
        self.frame.as_ref()
    }

    /// Set data part of the item.
    ///
    /// *NOTE*: data size must be: 0, 1, 2 or 4. Data of another size is
    /// refused and leaves the item as it was.
    pub fn set_data(&mut self, data: &[u8]) -> (r: Result<&mut Self, HidError>)
        ensures
            is_data_len(data@.len()) ==> r is Ok && r->Ok_0@ == with_data(old(self)@, data@)
                && *final(self) == *final(r->Ok_0),
            !is_data_len(data@.len()) ==> r matches Err(HidError::InvalidDataSize),
            !is_data_len(data@.len()) ==> *final(self) == *old(self),
    {
        self.frame.set_data(data)?;
        Ok(self)
    }

    /// Get mutable data part of the item. What is written through the
    /// returned slice becomes the data of the item; the prefix stays.
    pub fn data_mut(&mut self) -> (data: &mut [u8])
        ensures
            data@ == old(self)@.skip(1),
            final(self)@ == seq![old(self)@[0]] + final(data)@,
    {
        self.frame.data_mut()
    }

    /// The label of the item in a listing.
    pub fn to_string(&self) -> (label: String)
        ensures
            label@ == "Reserved"@,
    {
        String::from_str("Reserved")
    }
}

impl PartialEq for Reserved {
    /// Two items are equal when their bytes are.
    fn eq(&self, other: &Self) -> (r: bool) {
        self.frame == other.frame
    }
}

impl PartialEqSpecImpl for Reserved {
    open spec fn obeys_eq_spec() -> bool {
        true
    }

    open spec fn eq_spec(&self, other: &Self) -> bool {
        self@ == other@
    }
}

} // verus!
