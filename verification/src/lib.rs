//! Schema diffing, SQL rendering and model bookkeeping for a small ORM,
//! with every computation stated by contracts and proved with Verus.
pub mod schema;
pub mod text;
pub mod dialect;
pub mod diff_engine;
pub mod model;
pub mod runner;
pub mod migration_generator;
pub mod registry;
pub mod generator;
pub mod test_entities;
pub mod cli;
pub mod validation;
