//! Attribute processing for a derive macro that builds command-line parsers:
//! the rules that turn a struct's or a field's attributes into the list of
//! builder methods to emit, with every rule stated and proved.

pub mod text;
pub mod tokens;
pub mod author;
pub mod error;
pub mod casing;
pub mod parser;
pub mod doc;
pub mod attrs;
pub mod laws;
