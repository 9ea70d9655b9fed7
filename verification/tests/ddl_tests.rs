use corrosion_orm::dialect::{
    alter_table_sql, create_index_ddl, create_table_sql, drop_table_sql, get_dialect, AlterAction,
    SqlDialect, SqliteDialect,
};
use corrosion_orm::schema::{ColumnSchemaModel, IndexModel, SqlType};
use corrosion_orm::test_entities::{MockSqliteDialect, Post, Product, Teacher, User};

fn render_alter(table: &str, action: AlterAction) -> String {
    alter_table_sql(&SqliteDialect, table, &action)
}

#[test]
fn test_alter_add_column() {
    let col = ColumnSchemaModel {
        name: "email".to_string(),
        is_nullable: false,
        is_unique: true,
        sql_type: SqlType::Varchar(255),
        generation_type: None,
    };
    let sql = render_alter("users", AlterAction::AddColumn { column: col });
    assert_eq!(sql, "ALTER TABLE users ADD     email TEXT NOT NULL UNIQUE");
}

#[test]
fn test_alter_drop_column() {
    let sql = render_alter("users", AlterAction::DropColumn { name: "age".to_string() });
    assert_eq!(sql, "ALTER TABLE users DROP COLUMN age");
}

#[test]
fn test_alter_rename_column() {
    let sql = render_alter(
        "users",
        AlterAction::RenameColumn { from: "username".to_string(), to: "display_name".to_string() },
    );
    assert_eq!(sql, "ALTER TABLE users RENAME COLUMN username TO display_name");
}

#[test]
fn test_alter_rename_table() {
    let sql = render_alter("users", AlterAction::RenameTable { to: "accounts".to_string() });
    assert_eq!(sql, "ALTER TABLE users RENAME TO accounts");
}

const USER_DDL: &str = "users (
    id INTEGER PRIMARY KEY,
    name TEXT NULL UNIQUE
);
CREATE UNIQUE INDEX IF NOT EXISTS idx_users_id ON users (id);";

#[test]
fn test_create_from_schema() {
    let schema = User::get_schema();
    let sql = create_table_sql(&SqliteDialect, &schema, false);
    assert_eq!(sql, format!("CREATE TABLE {USER_DDL}"));
}

#[test]
fn test_create_if_not_exists() {
    let schema = User::get_schema();
    let sql = create_table_sql(&SqliteDialect, &schema, true);
    assert_eq!(sql, format!("CREATE TABLE IF NOT EXISTS {USER_DDL}"));
}

#[test]
fn test_create_from_impl() {
    let schema = User::get_schema();
    let sql = create_table_sql(&get_dialect(), &schema, false);
    assert_eq!(sql, format!("CREATE TABLE {USER_DDL}"));
}

#[test]
fn sqlite_type_names() {
    let d = SqliteDialect;
    assert_eq!(d.cast_type(&SqlType::Integer), "INTEGER");
    assert_eq!(d.cast_type(&SqlType::Boolean), "INTEGER");
    assert_eq!(d.cast_type(&SqlType::Float), "REAL");
    assert_eq!(d.cast_type(&SqlType::Double), "REAL");
    assert_eq!(d.cast_type(&SqlType::Varchar(10)), "TEXT");
    assert_eq!(d.cast_type(&SqlType::Timestamp), "TEXT");
    assert_eq!(d.cast_type(&SqlType::Custom("JSONB".into())), "JSONB");
}

#[test]
fn post_ddl_adds_key_column_and_constraint() {
    let sql = create_table_sql(&SqliteDialect, &Post::get_schema(), false);
    assert_eq!(
        sql,
        "CREATE TABLE Post (\n    id INTEGER PRIMARY KEY,\n    teacher_id INTEGER NOT NULL,\n    user_id INTEGER NOT NULL,\n    FOREIGN KEY (user_id) REFERENCES users (id)\n);"
    );
}

#[test]
fn teacher_ddl_has_no_constraint_for_has_many() {
    let sql = create_table_sql(&SqliteDialect, &Teacher::get_schema(), false);
    assert_eq!(sql, "CREATE TABLE Teacher (\n    id INTEGER PRIMARY KEY,\n    name TEXT NOT NULL\n);");
}

#[test]
fn product_ddl_auto_increments() {
    let sql = create_table_sql(&SqliteDialect, &Product::get_schema(), false);
    assert_eq!(
        sql,
        "CREATE TABLE products (\n    id INTEGER PRIMARY KEY AUTOINCREMENT,\n    name TEXT NOT NULL\n);"
    );
}

#[test]
fn index_and_drop_statements() {
    let idx = IndexModel { name: "idx_a".into(), fields: vec!["a".into(), "b".into()], unique: false };
    assert_eq!(create_index_ddl("t", &idx), "CREATE INDEX IF NOT EXISTS idx_a ON t (a, b)");
    assert_eq!(drop_table_sql("t"), "DROP TABLE IF EXISTS t;");
}

#[test]
fn mock_dialect_spells_nothing() {
    let d = MockSqliteDialect;
    assert_eq!(d.cast_type(&SqlType::Integer), "");
    assert_eq!(d.bind_param(&3), "?");
    assert_eq!(d.generate_empty_insert("t"), "");
    let sql = create_table_sql(&d, &Product::get_schema(), false);
    assert_eq!(sql, "CREATE TABLE products (\n    id  PRIMARY KEY AUTOINCREMENT,\n    name  NOT NULL\n);");
}

#[test]
fn test_generate_ddl_sqlite() {
    let dialect = SqliteDialect;
    let schema = User::get_schema();
    let ddl = create_table_sql(&dialect, &schema, false);
    assert_eq!(ddl, format!("CREATE TABLE {USER_DDL}"));
}

#[test]
fn test_generate_ddl_relation_has_one() {
    let dialect = SqliteDialect;
    let schema = Post::get_schema();
    let ddl = create_table_sql(&dialect, &schema, false);
    assert!(ddl.contains("    user_id INTEGER NOT NULL"));
    assert!(ddl.ends_with("    FOREIGN KEY (user_id) REFERENCES users (id)\n);"));
}
