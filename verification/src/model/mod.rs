//! The description of a model (a struct mapped to a table) and its parsing.
pub mod field;
pub mod index;
pub mod laws;
pub mod primary_key;
pub mod parser;
pub mod relation;
pub mod rust_type;
pub mod table;
