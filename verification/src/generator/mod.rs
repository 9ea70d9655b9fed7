//! What the model derive generates for a model, computed as plain values:
//! the table schema, the typed columns, the columns of an insert, how a row
//! is read back, and the relation bookkeeping of the repository.
pub mod entity;
pub mod from_row;
pub mod insert_plan;
pub mod repository;
pub mod schema;
