//! Formatting of WGSL front-end errors: the error values that the WGSL
//! front end produces, their rendering into human-readable reports, and the
//! source positions they point at.

pub mod span;
pub mod text;
pub mod types;
pub mod error;
pub mod words;
pub mod report;
pub mod debug;
pub mod display;
pub mod parse_error;
pub mod render;
pub mod frontend;
pub mod laws;
