//! Parse USB HID report descriptors and pretty print them.
//!
//! A report descriptor is a run of short items. Each item is one prefix
//! byte (tag in bits 7-4, type in bits 3-2, size selector in bits 1-0)
//! followed by 0, 1, 2 or 4 little-endian data bytes. [`parse`] decodes such
//! a run into [`ReportItem`]s, [`dump`] encodes items back into bytes, and
//! [`pretty_print`] lays items out as an annotated listing:
//!
//! ```text
//! 0x05, 0x0C        // Usage Page (Consumer)
//! 0xA1, 0x01        //   Collection (Application)
//! 0x26, 0x3C, 0x02  //   Logical Maximum (572)
//! 0xC0              // End Collection
//! ```

pub mod error;
pub mod frame;
pub mod global_items;
pub mod label;
pub mod local_items;
pub mod main_items;
pub mod privates;
pub mod render;
pub mod report_item;
pub mod reserved;
pub mod short_item;
pub mod stream;
pub mod text;

pub use error::HidError;
pub use frame::Frame;
pub use global_items::{
    LogicalMaximum, LogicalMinimum, PhysicalMaximum, PhysicalMinimum, Pop, Push, ReportCount,
    ReportId, ReportSize, Unit, UnitExponent, UsagePage,
};
pub use local_items::{
    Delimiter, DesignatorIndex, DesignatorMaximum, DesignatorMinimum, StringIndex, StringMaximum,
    StringMinimum, Usage, UsageItem, UsageMaximum, UsageMinimum,
};
pub use main_items::{Collection, EndCollection, Feature, Input, Output};
pub use render::pretty_print;
pub use report_item::ReportItem;
pub use reserved::Reserved;
pub use short_item::ShortItem;
pub use stream::{dump, parse, parse_strict, Decoder};
