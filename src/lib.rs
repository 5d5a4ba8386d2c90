//! Resolution of loosely typed styling parameters into typed style descriptors.
//!
//! A content node carries a bag of dynamically typed parameters. The resolvers
//! here turn that bag into a `TableStyle`, a `CellStyle` or a `ParagraphStyle`:
//! a value of the expected kind at a recognised path overrides one field; an
//! absent or mistyped value leaves that field at its default. Resolution never
//! fails.
//!
//! Every number is a `Fixed`, a decimal fixed-point value in millionths.

pub mod units;
pub mod value;
pub mod styles;
pub mod laws;
