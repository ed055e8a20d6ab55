//! Welcome-screen logo sizing and moon glyphs, and the mapping of a Kimi
//! `/usages` quota payload onto the billing summary that the pager renders.

pub mod logo;
pub mod moon;
pub mod spans;

pub mod billing;
pub mod kimi;

pub mod clock;
pub mod double;
pub mod json;
pub mod text;
