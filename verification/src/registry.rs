//! The table in which applied migrations are recorded.
use vstd::prelude::*;
use crate::dialect::{create_table_spec, create_table_sql, SqlDialect};
use crate::schema::{
    ColumnSchemaModel, ColumnSchemaView, GenerationType, PrimaryKeyModel, PrimaryKeyView, SqlType,
    SqlTypeView, TableSchemaModel, TableSchemaView,
};

verus! {

/// `chrono::NaiveDateTime`, a date and time without a time zone; carried
/// through as it is.
#[verifier::external_type_specification]
#[verifier::external_body]
pub struct ExNaiveDateTime(chrono::NaiveDateTime);

/// One applied migration: its name and when it was applied.
pub struct MigrationRegistry {
    pub id: i64,
    pub name: String,
    pub applied_at: chrono::NaiveDateTime,
}

impl MigrationRegistry {
    /// A record of the migration `name` applied at `applied_at`; the id is
    /// left for the database to assign.
    pub fn new(name: String, applied_at: chrono::NaiveDateTime) -> (r: MigrationRegistry)
        ensures
            r.id == 0,
            r.name == name,
            r.applied_at == applied_at,
    {
        MigrationRegistry { id: 0, name, applied_at }
    }

    /// The table that holds the records.
    pub fn get_table_name() -> (r: &'static str)
        ensures
            r@ == registry_table_name(),
    {
        "__migration_registry"
    }

    /// The schema of the table that holds the records.
    pub fn get_schema() -> (r: TableSchemaModel)
        ensures
            r@ == registry_schema(),
    {
        let fields = vec![
            ColumnSchemaModel {
                name: String::from_str("migration_name"),
                is_nullable: false,
                is_unique: false,
                sql_type: SqlType::Text,
                generation_type: None,
            },
            ColumnSchemaModel {
                name: String::from_str("applied_at"),
                is_nullable: false,
                is_unique: false,
                sql_type: SqlType::Timestamp,
                generation_type: None,
            },
        ];
        let r = TableSchemaModel {
            name: String::from_str("__migration_registry"),
            fields,
            indexes: Vec::new(),
            primary_key: PrimaryKeyModel::new(
                String::from_str("id"),
                Some(GenerationType::AutoIncrement),
                SqlType::Integer,
            ),
            relations: Vec::new(),
        };
        assert(r@.fields =~= registry_schema().fields);
        assert(r@.indexes =~= registry_schema().indexes);
        assert(r@.relations =~= registry_schema().relations);
        r
    }
}

/// The name of the registry table.
pub open spec fn registry_table_name() -> Seq<char> {
    "__migration_registry"@
}

/// The registry table: an auto-incremented integer key `id`, the text column
/// `migration_name` and the timestamp column `applied_at`, neither nullable.
pub open spec fn registry_schema() -> TableSchemaView {
    TableSchemaView {
        name: registry_table_name(),
        fields: seq![
            ColumnSchemaView {
                name: "migration_name"@,
                is_nullable: false,
                is_unique: false,
                sql_type: SqlTypeView::Text,
                generation_type: None,
            },
            ColumnSchemaView {
                name: "applied_at"@,
                is_nullable: false,
                is_unique: false,
                sql_type: SqlTypeView::Timestamp,
                generation_type: None,
            },
        ],
        indexes: Seq::empty(),
        primary_key: PrimaryKeyView {
            name: "id"@,
            ty: SqlTypeView::Integer,
            generation_type: Some(GenerationType::AutoIncrement),
        },
        relations: Seq::empty(),
    }
}

/// The statement that creates the registry table unless it exists.
pub fn ensure_registry_table_sql<D: SqlDialect>(d: &D) -> (r: String)
    ensures
        r@ == create_table_spec(d, registry_schema(), true),
{
    let schema = MigrationRegistry::get_schema();
    create_table_sql(d, &schema, true)
}

} // verus!
