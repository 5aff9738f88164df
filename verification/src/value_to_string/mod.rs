//! Planning logic of the `ValueToString` derive: parsing of its format
//! strings and attributes, and the shape of the code it generates.

pub mod attr;
pub mod format;
pub mod laws;
pub mod plan;
