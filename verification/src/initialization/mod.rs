//! The reading of items as they come from outside, each field a text.

pub mod fields;
pub mod raw_item;
