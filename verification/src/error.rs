//! The errors that decoding and editing an item can report.

use crate::reserved::Reserved;
use vstd::prelude::*;
use vstd::std_specs::cmp::PartialEqSpecImpl;

verus! {

/// Error type.
#[derive(Debug, Clone, Copy, Eq)]
pub enum HidError {
    /// Unexpected data size for short item, must be 0, 1, 2 or 4.
    InvalidDataSize,
    /// Data size in prefix doesn't match provided data size.
    DataSizeNotMatch {
        /// Expected data size described in the prefix part.
        expected: usize,
        /// Provided data size.
        provided: usize,
    },
    /// Prefix doesn't match the item type.
    PrefixNotMatch,
    /// Raw input is empty.
    EmptyRawInput,
    /// Strict mode is set and reserved item is found.
    ReservedItem(Reserved),
}

impl PartialEq for HidError {
    /// Two errors are equal when they are of one kind and say the same of
    /// what went wrong.
    fn eq(&self, other: &Self) -> (r: bool) {
        match (self, other) {
            (HidError::InvalidDataSize, HidError::InvalidDataSize) => true,
            (
                HidError::DataSizeNotMatch { expected: a, provided: b },
                HidError::DataSizeNotMatch { expected: c, provided: d },
            ) => *a == *c && *b == *d,
            (HidError::PrefixNotMatch, HidError::PrefixNotMatch) => true,
            (HidError::EmptyRawInput, HidError::EmptyRawInput) => true,
            (HidError::ReservedItem(a), HidError::ReservedItem(b)) => a == b,
            _ => false,
        }
    }
}

impl PartialEqSpecImpl for HidError {
    open spec fn obeys_eq_spec() -> bool {
        true
    }

    open spec fn eq_spec(&self, other: &Self) -> bool {
        match (*self, *other) {
            (HidError::InvalidDataSize, HidError::InvalidDataSize) => true,
            (
                HidError::DataSizeNotMatch { expected: a, provided: b },
                HidError::DataSizeNotMatch { expected: c, provided: d },
            ) => a == c && b == d,
            (HidError::PrefixNotMatch, HidError::PrefixNotMatch) => true,
            (HidError::EmptyRawInput, HidError::EmptyRawInput) => true,
            (HidError::ReservedItem(a), HidError::ReservedItem(b)) => a@ == b@,
            _ => false,
        }
    }
}

} // verus!
