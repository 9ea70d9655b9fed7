# corrosion_orm

The schema and migration logic of a small Rust ORM, written in Verus: every
function of the library states what it computes in its contract, and Verus
proves it.

- `src/schema.rs`, `src/dialect.rs`: table schemas and the SQLite DDL they render to.
- `src/diff_engine/`: the operations that turn one schema snapshot into
  another, and the SQL and Rust code rendered for them in both directions.
- `src/model/`: reading a model declaration (columns, primary key, indexes,
  relations) into table data; `src/generator/`: what the model derive
  generates from that data; `src/validation.rs`: field validations.
- `src/runner.rs`, `src/cli.rs`, `src/migration_generator.rs`,
  `src/registry.rs`: which migrations to apply or roll back, what a command
  line asks for, and the text of a new migration.
- `tests/`: tests run against the compiled library.
- `app/`: the I/O around it: the command line, running migrations against a
  database, files and snapshots, and reading Rust syntax.
