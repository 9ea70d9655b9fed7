use corrosion_orm::generator::entity::{
    custom_wrapper, entity_columns, entity_module_name, sql_type_to_wrapper, ColumnWrapper,
};
use corrosion_orm::generator::from_row::{field_reads, relation_reads, ReadKind, RelationRead};
use corrosion_orm::generator::insert_plan::{insert_column_names, insert_plan_columns, ValueSource};
use corrosion_orm::generator::repository::{
    cache_names, cascade_steps, relation_descriptors, CascadeKind, TargetTable,
};
use corrosion_orm::generator::schema::{relation_target_type, schema_of, RelationTarget};
use corrosion_orm::model::field::ColumnAttribute;
use corrosion_orm::model::parser::parse_model;
use corrosion_orm::model::primary_key::PrimaryKeyAttribute;
use corrosion_orm::model::relation::{BelongsToAttribute, FieldRelation, HasManyAttribute, HasOneAttribute};
use corrosion_orm::model::rust_type::{
    extract_inner_type, extract_type_ident, get_sql_type_from_rust_type, is_option_type,
    type_is_ident, RustType,
};
use corrosion_orm::model::table::{FieldInput, ModelInput, TableAttribute, TableData};
use corrosion_orm::schema::{GenerationType, SqlType};
use corrosion_orm::test_entities::{Post, Product, Teacher, User};

fn ty(name: &str) -> RustType {
    RustType::Path { segments: vec![name.to_string()], first_arg: None }
}

fn generic(outer: &str, inner: RustType) -> RustType {
    RustType::Path { segments: vec![outer.to_string()], first_arg: Some(Box::new(inner)) }
}

fn col(name: &str) -> ColumnAttribute {
    ColumnAttribute { name: name.to_string(), ..ColumnAttribute::default() }
}

fn field(ident: &str, t: RustType, column: ColumnAttribute) -> FieldInput {
    FieldInput { ident: Some(ident.to_string()), ty: t, is_lazy: false, column, primary_key: None, relation: None }
}

fn key(ident: &str, t: RustType, column: ColumnAttribute) -> FieldInput {
    FieldInput { primary_key: Some(PrimaryKeyAttribute { generation_strategy: None }), ..field(ident, t, column) }
}

fn model(ident: &str, table: &str, index_args: Vec<&str>, fields: Vec<FieldInput>) -> TableData {
    let m = ModelInput {
        ident: ident.to_string(),
        is_struct: true,
        table: TableAttribute { name: table.to_string() },
        index_args: index_args.into_iter().map(|s| s.to_string()).collect(),
        fields,
    };
    parse_model(&m).unwrap()
}

fn user_model() -> TableData {
    model(
        "User",
        "users",
        vec![r#"name = "idx_users_id", fields = ["id"], unique = true"#],
        vec![
            key("id", ty("i32"), col("id")),
            field("name", ty("String"), ColumnAttribute { unique: true, nullable: true, ..col("name") }),
        ],
    )
}

fn product_model() -> TableData {
    model(
        "Product",
        "products",
        vec![],
        vec![
            key(
                "id",
                ty("i32"),
                ColumnAttribute { generation_strategy: Some(GenerationType::AutoIncrement), ..col("id") },
            ),
            field("name", ty("String"), col("name")),
        ],
    )
}

fn post_model() -> TableData {
    model(
        "Post",
        "",
        vec![],
        vec![
            key("id", ty("i32"), col("id")),
            field("teacher_id", ty("i64"), col("teacher_id")),
            FieldInput {
                relation: Some(FieldRelation::BelongsTo(BelongsToAttribute {
                    table: Some("users".into()),
                    foreign_key: Some("user_id".into()),
                    cascade: true,
                })),
                ..field("user", ty("User"), ColumnAttribute::default())
            },
        ],
    )
}

fn teacher_model() -> TableData {
    model(
        "Teacher",
        "",
        vec![],
        vec![
            key("id", ty("i64"), col("id")),
            field("name", ty("String"), col("name")),
            FieldInput {
                relation: Some(FieldRelation::HasMany(HasManyAttribute {
                    table: Some("Post".into()),
                    foreign_key: Some("teacher_id".into()),
                    cascade: true,
                })),
                ..field("posts", generic("Vec", ty("Post")), ColumnAttribute::default())
            },
        ],
    )
}

#[test]
fn test_user_insert_plan() {
    let t = user_model();
    assert_eq!(User::get_table_name(), "users");
    assert_eq!(insert_column_names(&t), vec!["id", "name"]);
}

#[test]
fn test_product_insert_plan_excludes_autoincrement() {
    let t = product_model();
    assert_eq!(Product::get_table_name(), "products");
    assert_eq!(insert_column_names(&t), vec!["name"]);
}

#[test]
fn test_insert_plan_with_provided_values() {
    let t = user_model();
    let plan = insert_plan_columns(&t);
    let names: Vec<&str> = plan.insert.iter().map(|c| c.column.as_str()).collect();
    assert_eq!(names, vec!["id", "name"]);
    assert!(matches!(&plan.insert[1].source, ValueSource::Field(f) if f == "name"));
}

#[test]
fn test_post_insert_plan_includes_relation_fk() {
    let t = post_model();
    assert_eq!(Post::get_table_name(), "Post");
    assert_eq!(insert_column_names(&t), vec!["id", "teacher_id", "user_id"]);
    let plan = insert_plan_columns(&t);
    assert!(matches!(&plan.insert[2].source, ValueSource::RelationId { ident, eager: true } if ident == "user"));
}

#[test]
fn full_write_keeps_generated_key() {
    let plan = insert_plan_columns(&product_model());
    let all: Vec<&str> = plan.all.iter().map(|c| c.column.as_str()).collect();
    assert_eq!(all, vec!["id", "name"]);
    assert_eq!(plan.insert.len(), 1);
}

#[test]
fn has_many_writes_no_foreign_key() {
    let plan = insert_plan_columns(&teacher_model());
    let all: Vec<&str> = plan.all.iter().map(|c| c.column.as_str()).collect();
    assert_eq!(all, vec!["id", "name"]);
}

#[test]
fn derived_schemas_match_the_entities() {
    assert_eq!(schema_of(&user_model(), &vec![]), User::get_schema());
    assert_eq!(schema_of(&product_model(), &vec![]), Product::get_schema());
    let user_target = RelationTarget { table_name: "users".into(), key_name: "id".into(), key_type: SqlType::Integer };
    assert_eq!(schema_of(&post_model(), &vec![user_target]), Post::get_schema());
    let post_target = RelationTarget { table_name: "Post".into(), key_name: "id".into(), key_type: SqlType::Integer };
    assert_eq!(schema_of(&teacher_model(), &vec![post_target]), Teacher::get_schema());
}

#[test]
fn relation_table_falls_back_to_target_and_has_one_is_unique() {
    let t = model(
        "Owner",
        "owners",
        vec![],
        vec![
            key("id", ty("i32"), col("id")),
            FieldInput {
                relation: Some(FieldRelation::HasOne(HasOneAttribute { table: None, foreign_key: None, cascade: true })),
                ..field("profile", ty("Profile"), ColumnAttribute::default())
            },
        ],
    );
    assert_eq!(relation_target_type(&t.relations[0]).clone_segments(), vec!["Profile".to_string()]);
    let target = RelationTarget { table_name: "profiles".into(), key_name: "pid".into(), key_type: SqlType::Text };
    let s = schema_of(&t, &vec![target]);
    assert_eq!(s.relations[0].table, "profiles");
    assert_eq!(s.relations[0].foreign_key, "profile_id");
    assert_eq!(s.relations[0].target_key, "pid");
    assert!(s.relations[0].field.is_unique);
    assert_eq!(s.relations[0].field.sql_type, SqlType::Text);
    assert_eq!(s.relations[0].source_table, "owners");
}

trait Segments {
    fn clone_segments(&self) -> Vec<String>;
}

impl Segments for RustType {
    fn clone_segments(&self) -> Vec<String> {
        match self {
            RustType::Path { segments, .. } => segments.clone(),
            _ => vec![],
        }
    }
}

#[test]
fn column_types_of_rust_types() {
    assert_eq!(get_sql_type_from_rust_type(&ty("String")), SqlType::Text);
    assert_eq!(get_sql_type_from_rust_type(&ty("u8")), SqlType::Integer);
    assert_eq!(get_sql_type_from_rust_type(&ty("f32")), SqlType::Float);
    assert_eq!(get_sql_type_from_rust_type(&ty("f64")), SqlType::Double);
    assert_eq!(get_sql_type_from_rust_type(&ty("bool")), SqlType::Boolean);
    assert_eq!(get_sql_type_from_rust_type(&ty("NaiveDate")), SqlType::Date);
    assert_eq!(get_sql_type_from_rust_type(&ty("NaiveDateTime")), SqlType::Timestamp);
    assert_eq!(get_sql_type_from_rust_type(&generic("Option", ty("i64"))), SqlType::Integer);
    assert_eq!(get_sql_type_from_rust_type(&ty("Uuid")), SqlType::Custom("Uuid".into()));
    assert_eq!(get_sql_type_from_rust_type(&RustType::Other), SqlType::Custom("Unknown".into()));
}

#[test]
fn type_shape_queries() {
    let opt = generic("Option", ty("String"));
    assert!(is_option_type(&opt));
    assert!(!is_option_type(&ty("String")));
    let reference = RustType::Wrapped(Box::new(ty("Lazy")));
    assert!(type_is_ident(&reference, "Lazy"));
    assert!(!type_is_ident(&reference, "Option"));
    assert_eq!(extract_inner_type(&opt).clone_segments(), vec!["String".to_string()]);
    assert_eq!(extract_inner_type(&ty("i32")).clone_segments(), vec!["i32".to_string()]);
    assert_eq!(extract_type_ident(&opt), Some("Option".to_string()));
    assert_eq!(extract_type_ident(&RustType::Other), None);
}

#[test]
fn wrappers_of_column_types() {
    assert_eq!(sql_type_to_wrapper(&SqlType::Varchar(3)), ColumnWrapper::StringColumn);
    assert_eq!(sql_type_to_wrapper(&SqlType::Double), ColumnWrapper::NumericColumn);
    assert_eq!(sql_type_to_wrapper(&SqlType::Boolean), ColumnWrapper::BooleanColumn);
    assert_eq!(sql_type_to_wrapper(&SqlType::Timestamp), ColumnWrapper::DateLikeColumn);
    assert_eq!(sql_type_to_wrapper(&SqlType::Custom("DATETIME".into())), ColumnWrapper::DateLikeColumn);
    assert_eq!(sql_type_to_wrapper(&SqlType::Custom("BigInt".into())), ColumnWrapper::NumericColumn);
    assert_eq!(sql_type_to_wrapper(&SqlType::Custom("JSON".into())), ColumnWrapper::StringColumn);
    assert_eq!(custom_wrapper("numeric(10)"), ColumnWrapper::NumericColumn);
    assert_eq!(custom_wrapper("NUMERIC"), ColumnWrapper::StringColumn);
}

#[test]
fn entity_columns_of_user() {
    let t = model(
        "Account",
        "accounts",
        vec![],
        vec![key("id", ty("i32"), col("ID")), field("Created", ty("NaiveDate"), col("Created"))],
    );
    assert_eq!(entity_module_name(&t), "account");
    let cols = entity_columns(&t);
    assert_eq!(cols.len(), 2);
    assert_eq!(cols[0].field_name, "id");
    assert_eq!(cols[0].column_name, "ID");
    assert_eq!(cols[0].wrapper, ColumnWrapper::NumericColumn);
    assert_eq!(cols[1].field_name, "created");
    assert_eq!(cols[1].wrapper, ColumnWrapper::DateLikeColumn);
}

#[test]
fn rows_are_read_by_nullability() {
    let t = model(
        "Thing",
        "things",
        vec![],
        vec![
            key("id", ty("i32"), col("id")),
            field("a", ty("String"), col("a")),
            field("b", generic("Option", ty("String")), col("b")),
            field("c", ty("String"), ColumnAttribute { nullable: true, ..col("c") }),
        ],
    );
    let reads = field_reads(&t);
    let kinds: Vec<ReadKind> = reads.iter().map(|r| r.kind).collect();
    assert_eq!(
        kinds,
        vec![ReadKind::Required, ReadKind::Required, ReadKind::Optional, ReadKind::OptionalOrDefault]
    );
    assert_eq!(reads[0].column, "id");
}

#[test]
fn relations_are_read_by_kind() {
    let mut lazy_posts = FieldInput {
        is_lazy: true,
        relation: Some(FieldRelation::HasMany(HasManyAttribute {
            table: None,
            foreign_key: Some("teacher_id".into()),
            cascade: true,
        })),
        ..field("posts", generic("LazyCollection", ty("Post")), ColumnAttribute::default())
    };
    let owner = FieldInput {
        relation: Some(FieldRelation::BelongsTo(BelongsToAttribute { table: None, foreign_key: None, cascade: true })),
        ..field("owner", ty("User"), ColumnAttribute::default())
    };
    let t = model("Teacher", "", vec![], vec![key("id", ty("i64"), col("id")), owner, lazy_posts.clone()]);
    let reads = relation_reads(&t);
    assert!(matches!(&reads[0], RelationRead::EagerSingle { field, foreign_key } if field == "owner" && foreign_key == "owner_id"));
    assert!(matches!(&reads[1], RelationRead::LazyMany { field, child_module, foreign_key }
        if field == "posts" && child_module == "post" && foreign_key == "teacher_id"));
    lazy_posts.is_lazy = false;
    let t2 = model("Teacher", "", vec![], vec![key("id", ty("i64"), col("id")), lazy_posts]);
    assert!(matches!(&relation_reads(&t2)[0], RelationRead::Default { field } if field == "posts"));
}

#[test]
fn repository_descriptors_and_cascades() {
    let t = teacher_model();
    let d = relation_descriptors(&t);
    assert_eq!(d.len(), 1);
    assert_eq!(d[0].field_name, "posts");
    assert!(matches!(&d[0].target_table, TargetTable::Named(n) if n == "Post"));
    let steps = cascade_steps(&t);
    assert_eq!(steps.len(), 1);
    assert!(matches!(&steps[0].kind, CascadeKind::Many { child_module, foreign_key }
        if child_module == "post" && foreign_key == "teacher_id"));
    let p = post_model();
    assert!(matches!(cascade_steps(&p)[0].kind, CascadeKind::Single));
    let (a, b) = cache_names(&t);
    assert_eq!(a, "TEACHER_CACHE");
    assert_eq!(b, "TEACHER_QUERY_CACHE");
}

#[test]
fn descriptor_target_falls_back_to_type_argument() {
    let t = model(
        "Teacher",
        "",
        vec![],
        vec![
            key("id", ty("i64"), col("id")),
            FieldInput {
                is_lazy: true,
                relation: Some(FieldRelation::HasMany(HasManyAttribute { table: None, foreign_key: None, cascade: true })),
                ..field("posts", generic("LazyCollection", ty("Post")), ColumnAttribute::default())
            },
        ],
    );
    let d = relation_descriptors(&t);
    assert!(matches!(&d[0].target_table, TargetTable::OfType(RustType::Path { segments, .. }) if segments == &vec!["Post".to_string()]));
    assert!(!d[0].is_eager);
    assert!(cascade_steps(&t).is_empty());
}

#[test]
fn insert_writes_all_without_generated_values() {
    let plan = insert_plan_columns(&post_model());
    let insert: Vec<&str> = plan.insert.iter().map(|c| c.column.as_str()).collect();
    let all: Vec<&str> = plan.all.iter().map(|c| c.column.as_str()).collect();
    assert_eq!(insert, all);
}
