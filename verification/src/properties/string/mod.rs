//! Strings of the form format: a length with a compression flag, and the bytes.
pub mod parser;
pub mod stream;

pub use parser::parse_string;
