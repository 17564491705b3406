//! The raw frame of one short item: a buffer of five bytes of which the
//! prefix says how many are in use.

use crate::error::HidError;
use crate::privates::{
    __data_size, __set_data_size, data_size, is_data_len, is_frame, lemma_with_data_size,
    with_data_size,
};
use vstd::prelude::*;
use vstd::std_specs::cmp::PartialEqSpecImpl;

verus! {

/// The error that framing reports of bytes that are not one whole frame:
/// that there are none, or else the number of data bytes that the prefix
/// announces and the number that follow it.
pub open spec fn framing_error(raw: Seq<u8>) -> HidError
    recommends
        !is_frame(raw),
{
    if raw.len() == 0 {
        HidError::EmptyRawInput
    } else {
        HidError::DataSizeNotMatch {
            expected: data_size(raw[0]) as usize,
            provided: (raw.len() - 1) as usize,
        }
    }
}

/// The bytes of a frame after its data part has been replaced by `data`:
/// the prefix with its size selector rewritten, then the new data.
pub open spec fn with_data(frame: Seq<u8>, data: Seq<u8>) -> Seq<u8> {
    seq![with_data_size(frame[0], data.len())] + data
}

/// The data of an item whose data has been set is the data that was set: a
/// data part of 0, 1, 2 or 4 bytes that replaces another gives a whole frame
/// whose data part it is.
pub proof fn lemma_with_data(frame: Seq<u8>, data: Seq<u8>)
    requires
        is_data_len(data.len()),
    ensures
        is_frame(with_data(frame, data)),
        with_data(frame, data).skip(1) == data,
{
    lemma_with_data_size(frame[0], data.len());
}

/// The bytes from index 1 up to `end` of a buffer, for writing. The bytes
/// around them stay as they are.
fn data_part(raw: &mut [u8; 5], end: usize) -> (data: &mut [u8])
    requires
        1 <= end <= 5,
    ensures
        data@ == old(raw)@.subrange(1, end as int),
        final(raw)@ == old(raw)@.subrange(0, 1) + final(data)@ + old(raw)@.subrange(end as int, 5),
        final(raw)@.len() == 5,
        final(data)@.len() == end - 1,
{
    let storage: &mut [u8] = raw;
    let (_, rest) = storage.split_at_mut(1);
    let (data, _) = rest.split_at_mut(end - 1);
    data
}

/// One short item as it stands on the wire: a prefix byte and its data
/// bytes.
///
/// The buffer always has room for the longest item. How much of it is in
/// use is read from the prefix and stored nowhere else, so the view of a
/// frame is always a whole frame.
#[derive(Clone, Copy, Debug, Eq)]
pub struct Frame {
    raw: [u8; 5],
}

impl Frame {
    /// The bytes in use: the prefix, then the data.
    pub closed spec fn view(&self) -> Seq<u8> {
        self.raw@.take(1 + data_size(self.raw[0]) as int)
    }

    /// The view of a frame is a whole frame, of one to five bytes.
    pub proof fn lemma_is_frame(&self)
        ensures
            is_frame(self@),
            self@.len() <= 5,
    {
    }

    /// Frame the bytes of `raw`, which must be one whole item.
    pub fn new(raw: &[u8]) -> (r: Result<Frame, HidError>)
        ensures
            !is_frame(raw@) ==> (r matches Err(e) && e == framing_error(raw@)),
            is_frame(raw@) ==> r is Ok && r->Ok_0@ == raw@,
    {
        if raw.len() == 0 {
            return Err(HidError::EmptyRawInput);
        }
        let expected = __data_size(raw[0]);
        if expected + 1 != raw.len() {
            return Err(HidError::DataSizeNotMatch { expected, provided: raw.len() - 1 });
        }
        Ok(Frame::new_unchecked(raw))
    }

    /// Frame the bytes of `raw` without looking at its length.
    pub fn new_unchecked(raw: &[u8]) -> (frame: Frame)
        requires
            is_frame(raw@),
        ensures
            frame@ == raw@,
    {
        let mut storage: [u8; 5] = [0; 5];
        let mut i: usize = 0;
        while i < raw.len()
            invariant
                i <= raw.len() <= 5,
                forall|j: int| 0 <= j < i ==> storage[j] == raw[j],
            decreases raw.len() - i,
        {
            storage[i] = raw[i];
            i += 1;
        }
        Frame { raw: storage }
    }

    /// Get prefix part of the frame.
    pub fn prefix(&self) -> (prefix: u8)
        ensures
            prefix == self@[0],
    {
        self.raw[0]
    }

    /// Get data part of the frame.
    pub fn data(&self) -> (data: &[u8])
        ensures
            data@ == self@.skip(1),
    {
        let end = __data_size(self.raw[0]) + 1;
        let data = &self.raw[1..end];
        data
    }

    /// All bytes of the frame: the prefix, then the data.
    pub fn as_ref(&self) -> (bytes: &[u8])
        ensures
            bytes@ == self@,
    {
        let end = __data_size(self.raw[0]) + 1;
        &self.raw[0..end]
    }

    /// Set data part of the frame. The size selector of the prefix follows
    /// the new length.
    ///
    /// Data of a length other than 0, 1, 2 or 4 is refused and leaves the
    /// frame as it was.
    pub fn set_data(&mut self, data: &[u8]) -> (r: Result<&mut Self, HidError>)
        ensures
            is_data_len(data@.len()) ==> r is Ok && r->Ok_0@ == with_data(old(self)@, data@)
                && *final(self) == *final(r->Ok_0),
            !is_data_len(data@.len()) ==> r matches Err(HidError::InvalidDataSize),
            !is_data_len(data@.len()) ==> *final(self) == *old(self),
    {
        let mut prefix = self.raw[0];
        __set_data_size(&mut prefix, data)?;
        proof {
            lemma_with_data_size(self.raw[0], data@.len());
        }
        self.raw[0] = prefix;
        let mut i: usize = 0;
        while i < data.len()
            invariant
                i <= data.len() <= 4,
                self.raw[0] == prefix,
                forall|j: int| 0 <= j < i ==> self.raw[1 + j] == data[j],
            decreases data.len() - i,
        {
            self.raw[i + 1] = data[i];
            i += 1;
        }
        Ok(self)
    }

    /// Get mutable data part of the frame. What is written through the
    /// returned slice becomes the data of the frame; the prefix stays.
    pub fn data_mut(&mut self) -> (data: &mut [u8])
        ensures
            data@ == old(self)@.skip(1),
            final(self)@ == seq![old(self)@[0]] + final(data)@,
    {
        let end = __data_size(self.raw[0]) + 1;
        data_part(&mut self.raw, end)
    }
}

impl PartialEq for Frame {
    /// Two frames are equal when the bytes in use are.
    fn eq(&self, other: &Self) -> (r: bool) {
        let a = self.as_ref();
        let b = other.as_ref();
        if a.len() != b.len() {
            return false;
        }
        let mut i: usize = 0;
        while i < a.len()
            invariant
                i <= a.len(),
                a.len() == b.len(),
                a@ == self@,
                b@ == other@,
                forall|j: int| 0 <= j < i ==> a@[j] == b@[j],
            decreases a.len() - i,
        {
            if a[i] != b[i] {
                return false;
            }
            i += 1;
        }
        assert(a@ =~= b@);
        true
    }
}

impl PartialEqSpecImpl for Frame {
    open spec fn obeys_eq_spec() -> bool {
        true
    }

    open spec fn eq_spec(&self, other: &Self) -> bool {
        self@ == other@
    }
}

} // verus!
