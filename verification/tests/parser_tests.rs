use corrosion_orm::model::field::ColumnAttribute;
use corrosion_orm::model::parser::parse_model;
use corrosion_orm::model::primary_key::PrimaryKeyAttribute;
use corrosion_orm::model::relation::{BelongsToAttribute, FieldRelation, HasManyAttribute};
use corrosion_orm::model::rust_type::RustType;
use corrosion_orm::model::table::{FieldInput, ModelInput, TableAttribute};
use corrosion_orm::schema::{GenerationType, RelationType};

fn ty(name: &str) -> RustType {
    RustType::Path { segments: vec![name.to_string()], first_arg: None }
}

fn generic(outer: &str, inner: RustType) -> RustType {
    RustType::Path { segments: vec![outer.to_string()], first_arg: Some(Box::new(inner)) }
}

fn col(name: &str) -> ColumnAttribute {
    ColumnAttribute { name: name.to_string(), ..ColumnAttribute::default() }
}

fn field(ident: &str, t: RustType, column: ColumnAttribute) -> FieldInput {
    FieldInput {
        ident: Some(ident.to_string()),
        ty: t,
        is_lazy: false,
        column,
        primary_key: None,
        relation: None,
    }
}

fn key(ident: &str, t: RustType, column: ColumnAttribute, g: Option<GenerationType>) -> FieldInput {
    FieldInput {
        primary_key: Some(PrimaryKeyAttribute { generation_strategy: g }),
        ..field(ident, t, column)
    }
}

fn model(table: &str, index_args: Vec<&str>, fields: Vec<FieldInput>) -> ModelInput {
    ModelInput {
        ident: "User".to_string(),
        is_struct: true,
        table: TableAttribute { name: table.to_string() },
        index_args: index_args.into_iter().map(|s| s.to_string()).collect(),
        fields,
    }
}

fn user_fields(second_key: bool) -> Vec<FieldInput> {
    let username = ColumnAttribute { unique: true, ..col("username") };
    let email = ColumnAttribute { unique: false, nullable: true, ..col("email") };
    vec![
        key("id", ty("i32"), col("id"), None),
        if second_key {
            key("username", ty("String"), username, None)
        } else {
            field("username", ty("String"), username)
        },
        field("email", generic("Option", ty("String")), email),
    ]
}

#[test]
fn test_parse_model() {
    let table_data = parse_model(&model("users", vec![], user_fields(false))).unwrap();
    assert_eq!(table_data.name, "users");
    assert_eq!(table_data.fields[0].name, "username");
    assert_eq!(table_data.primary_key.name, "id");
}

#[test]
fn fail_multiple_primary_keys() {
    let result = parse_model(&model("users", vec![], user_fields(true)));
    assert!(result.is_err());
    assert_eq!(result.unwrap_err(), "Only one field can be marked with #[PrimaryKey]");
}

#[test]
fn fail_missing_primary_key() {
    let mut fields = user_fields(false);
    fields[0].primary_key = None;
    let result = parse_model(&model("users", vec![], fields));
    assert!(result.is_err());
    assert_eq!(result.unwrap_err(), "A Model must have exactly one field marked with #[PrimaryKey]");
}

#[test]
fn primary_key_with_generation_strategy() {
    let mut fields = user_fields(false);
    fields[0].primary_key = Some(PrimaryKeyAttribute {
        generation_strategy: Some(GenerationType::AutoIncrement),
    });
    let table_data = parse_model(&model("users", vec![], fields)).unwrap();
    assert_eq!(table_data.primary_key.generation_strategy.unwrap(), GenerationType::AutoIncrement);
}

#[test]
fn test_column_definition() {
    let mut fields = user_fields(false);
    fields[1].column.column_definition = Some("INTEGER".to_string());
    let table_data = parse_model(&model("users", vec![], fields)).unwrap();
    assert_eq!(table_data.fields[0].column_definition, Some(String::from("INTEGER")));
}

#[test]
fn test_field_level_index() {
    let fields = vec![
        key("id", ty("i32"), col("id"), None),
        field("email", ty("String"), ColumnAttribute { index: true, ..col("email") }),
    ];
    let table_data = parse_model(&model("users", vec![], fields)).unwrap();
    assert_eq!(table_data.indexes.len(), 1);
    assert_eq!(table_data.indexes[0].fields, vec!["email"]);
    assert_eq!(table_data.indexes[0].name, "idx_users_email");
}

#[test]
fn test_table_level_index() {
    let fields = vec![key("id", ty("i32"), col("id"), None), field("email", ty("String"), col("email"))];
    let m = model("users", vec![r#"name = "idx_email", fields = ["email"], unique = true"#], fields);
    let table_data = parse_model(&m).unwrap();
    assert_eq!(table_data.indexes.len(), 1);
    assert_eq!(table_data.indexes[0].name, "idx_email");
    assert!(table_data.indexes[0].unique);
}

#[test]
fn test_auto_generate_index_name() {
    let fields = vec![
        key("id", ty("i32"), col("id"), None),
        field("email", ty("String"), col("email")),
        field("created_at", ty("String"), col("created_at")),
    ];
    let m = model("users", vec![r#"fields = ["email", "created_at"]"#], fields);
    let table_data = parse_model(&m).unwrap();
    assert_eq!(table_data.indexes.len(), 1);
    assert_eq!(table_data.indexes[0].name, "idx_users_email_created_at");
}

#[test]
fn test_duplicate_index_names() {
    let fields = vec![key("id", ty("i32"), col("id"), None), field("email", ty("String"), col("email"))];
    let m = model(
        "users",
        vec![r#"name = "idx_email", fields = ["email"]"#, r#"name = "idx_email", fields = ["username"]"#],
        fields,
    );
    let result = parse_model(&m);
    assert!(result.is_err());
    assert!(result.unwrap_err().contains("Duplicate index name"));
}

#[test]
fn test_mixed_field_and_table_indexes() {
    let fields = vec![
        key("id", ty("i32"), col("id"), None),
        field("email", ty("String"), ColumnAttribute { index: true, ..col("email") }),
        field("username", ty("String"), col("username")),
    ];
    let m = model(
        "users",
        vec![r#"name = "idx_composite", fields = ["email", "username"], unique = true"#],
        fields,
    );
    let table_data = parse_model(&m).unwrap();
    assert_eq!(table_data.indexes.len(), 2);
    let has_composite = table_data.indexes.iter().any(|idx| idx.name == "idx_composite");
    let has_email = table_data.indexes.iter().any(|idx| idx.name == "idx_users_email");
    assert!(has_composite);
    assert!(has_email);
}

#[test]
fn field_no_ident() {
    let mut f = key("id", ty("i32"), col("id"), None);
    f.ident = None;
    let m = ModelInput { table: TableAttribute { name: String::new() }, ..model("", vec![], vec![f]) };
    let result = parse_model(&m);
    assert!(result.is_err());
    assert!(result.unwrap_err().contains("Field must be named"));
}

#[test]
fn table_name_defaults_to_type_name() {
    let m = model("", vec![], vec![key("id", ty("i32"), ColumnAttribute::default(), None)]);
    let t = parse_model(&m).unwrap();
    assert_eq!(t.name, "User");
    assert_eq!(t.primary_key.name, "id");
}

#[test]
fn only_structs_derive_models() {
    let m = ModelInput { is_struct: false, ..model("users", vec![], user_fields(false)) };
    assert_eq!(parse_model(&m).unwrap_err(), "Model can only be derived for structs");
}

#[test]
fn malformed_index_arguments_are_skipped() {
    let fields = vec![key("id", ty("i32"), col("id"), None)];
    let m = model("users", vec![r#"name = "x", fields = [1]"#], fields);
    let t = parse_model(&m).unwrap();
    assert!(t.indexes.is_empty());
}

#[test]
fn optional_field_is_nullable_and_relations_are_kept() {
    let mut fields = user_fields(false);
    fields.push(FieldInput {
        relation: Some(FieldRelation::BelongsTo(BelongsToAttribute {
            table: Some("teams".into()),
            foreign_key: None,
            cascade: true,
        })),
        ..field("team", ty("Team"), ColumnAttribute::default())
    });
    fields.push(FieldInput {
        is_lazy: true,
        relation: Some(FieldRelation::HasMany(HasManyAttribute {
            table: None,
            foreign_key: Some("owner_id".into()),
            cascade: false,
        })),
        ..field("posts", generic("Vec", ty("Post")), ColumnAttribute::default())
    });
    let t = parse_model(&model("users", vec![], fields)).unwrap();
    assert_eq!(t.fields.len(), 2);
    assert!(!t.fields[0].is_nullable);
    assert!(t.fields[1].is_nullable);
    assert_eq!(t.relations.len(), 2);
    assert_eq!(t.relations[0].relation_type, RelationType::BelongsTo);
    assert_eq!(t.relations[0].foreign_key, "team_id");
    assert!(t.relations[0].is_eager);
    assert_eq!(t.relations[1].foreign_key, "owner_id");
    assert!(!t.relations[1].is_eager);
    assert!(!t.relations[1].cascade);
}
