//! Sample entities and the schemas their model declarations give.
use vstd::prelude::*;
use crate::dialect::SqlDialect;
use crate::schema::{
    ColumnSchemaModel, ColumnSchemaView, GenerationType, IndexModel, IndexView, PrimaryKeyModel,
    PrimaryKeyView, RelationModel, RelationType, RelationView, SqlType, SqlTypeView,
    TableSchemaModel, TableSchemaView,
};

verus! {

/// A user: table `users`, a unique nullable `name`, and a unique index on `id`.
#[derive(Clone, Debug, Default)]
pub struct User {
    pub id: i32,
    pub name: String,
}

/// A post that belongs to a user.
#[derive(Clone, Debug, Default)]
pub struct Post {
    pub id: i32,
    pub teacher_id: i64,
    pub user: User,
}

/// A teacher with many posts.
#[derive(Debug, Default)]
pub struct Teacher {
    pub id: i64,
    pub name: String,
    pub posts: Vec<Post>,
}

/// A product whose key the database generates.
#[derive(Clone, Debug, Default)]
pub struct Product {
    pub id: i32,
    pub name: String,
}

/// A column that is neither nullable nor unique.
pub open spec fn plain_column(name: Seq<char>, t: SqlTypeView) -> ColumnSchemaView {
    ColumnSchemaView {
        name,
        is_nullable: false,
        is_unique: false,
        sql_type: t,
        generation_type: None,
    }
}

/// The integer key `id`.
pub open spec fn id_key(generation_type: Option<GenerationType>) -> PrimaryKeyView {
    PrimaryKeyView { name: "id"@, ty: SqlTypeView::Integer, generation_type }
}

/// The schema of [`User`].
pub open spec fn user_schema() -> TableSchemaView {
    TableSchemaView {
        name: "users"@,
        fields: seq![
            ColumnSchemaView {
                name: "name"@,
                is_nullable: true,
                is_unique: true,
                sql_type: SqlTypeView::Text,
                generation_type: None,
            },
        ],
        indexes: seq![IndexView { name: "idx_users_id"@, fields: seq!["id"@], unique: true }],
        primary_key: id_key(None),
        relations: Seq::empty(),
    }
}

/// The schema of [`Post`]: its relation to `users` through `user_id`.
pub open spec fn post_schema() -> TableSchemaView {
    TableSchemaView {
        name: "Post"@,
        fields: seq![plain_column("teacher_id"@, SqlTypeView::Integer)],
        indexes: Seq::empty(),
        primary_key: id_key(None),
        relations: seq![
            RelationView {
                relation_type: RelationType::BelongsTo,
                table: "users"@,
                foreign_key: "user_id"@,
                target_key: "id"@,
                relation_name: "user"@,
                source_table: "Post"@,
                field: plain_column("user_id"@, SqlTypeView::Integer),
                is_eager: false,
            },
        ],
    }
}

/// The schema of [`Teacher`]: its posts, found through their `teacher_id`.
pub open spec fn teacher_schema() -> TableSchemaView {
    TableSchemaView {
        name: "Teacher"@,
        fields: seq![plain_column("name"@, SqlTypeView::Text)],
        indexes: Seq::empty(),
        primary_key: id_key(None),
        relations: seq![
            RelationView {
                relation_type: RelationType::HasMany,
                table: "Post"@,
                foreign_key: "teacher_id"@,
                target_key: "id"@,
                relation_name: "posts"@,
                source_table: "Teacher"@,
                field: plain_column("teacher_id"@, SqlTypeView::Integer),
                is_eager: false,
            },
        ],
    }
}

/// The schema of [`Product`].
pub open spec fn product_schema() -> TableSchemaView {
    TableSchemaView {
        name: "products"@,
        fields: seq![plain_column("name"@, SqlTypeView::Text)],
        indexes: Seq::empty(),
        primary_key: id_key(Some(GenerationType::AutoIncrement)),
        relations: Seq::empty(),
    }
}

fn column(name: &str, t: SqlType) -> (c: ColumnSchemaModel)
    ensures
        c@ == plain_column(name@, t@),
{
    ColumnSchemaModel {
        name: String::from_str(name),
        is_nullable: false,
        is_unique: false,
        sql_type: t,
        generation_type: None,
    }
}

fn id_key_model(generation_type: Option<GenerationType>) -> (k: PrimaryKeyModel)
    ensures
        k@ == id_key(generation_type),
{
    PrimaryKeyModel::new(String::from_str("id"), generation_type, SqlType::Integer)
}

impl User {
    /// A sample user: id 1, named `Bob`.
    pub fn example() -> (u: User)
        ensures
            u.id == 1,
            u.name@ == "Bob"@,
    {
        User { id: 1, name: String::from_str("Bob") }
    }

    /// The table of users.
    pub fn get_table_name() -> (r: &'static str)
        ensures
            r@ == user_schema().name,
    {
        "users"
    }

    /// The schema of the users table.
    pub fn get_schema() -> (s: TableSchemaModel)
        ensures
            s@ == user_schema(),
    {
        let fields = vec![
            ColumnSchemaModel {
                name: String::from_str("name"),
                is_nullable: true,
                is_unique: true,
                sql_type: SqlType::Text,
                generation_type: None,
            },
        ];
        let indexes = vec![
            IndexModel {
                name: String::from_str("idx_users_id"),
                fields: vec![String::from_str("id")],
                unique: true,
            },
        ];
        let s = TableSchemaModel {
            name: String::from_str("users"),
            fields,
            indexes,
            primary_key: id_key_model(None),
            relations: Vec::new(),
        };
        assert(s@.fields =~= user_schema().fields);
        assert(s@.indexes[0].fields =~= user_schema().indexes[0].fields);
        assert(s@.indexes =~= user_schema().indexes);
        assert(s@.relations =~= user_schema().relations);
        s
    }
}

impl Post {
    /// The table of posts.
    pub fn get_table_name() -> (r: &'static str)
        ensures
            r@ == post_schema().name,
    {
        "Post"
    }

    /// The schema of the posts table.
    pub fn get_schema() -> (s: TableSchemaModel)
        ensures
            s@ == post_schema(),
    {
        let relations = vec![
            RelationModel::new(
                RelationType::BelongsTo,
                String::from_str("users"),
                String::from_str("user_id"),
                String::from_str("id"),
                String::from_str("user"),
                String::from_str("Post"),
                column("user_id", SqlType::Integer),
            ),
        ];
        let s = TableSchemaModel {
            name: String::from_str("Post"),
            fields: vec![column("teacher_id", SqlType::Integer)],
            indexes: Vec::new(),
            primary_key: id_key_model(None),
            relations,
        };
        assert(s@.fields =~= post_schema().fields);
        assert(s@.indexes =~= post_schema().indexes);
        assert(s@.relations =~= post_schema().relations);
        s
    }
}

impl Teacher {
    /// The table of teachers.
    pub fn get_table_name() -> (r: &'static str)
        ensures
            r@ == teacher_schema().name,
    {
        "Teacher"
    }

    /// The schema of the teachers table.
    pub fn get_schema() -> (s: TableSchemaModel)
        ensures
            s@ == teacher_schema(),
    {
        let relations = vec![
            RelationModel::new(
                RelationType::HasMany,
                String::from_str("Post"),
                String::from_str("teacher_id"),
                String::from_str("id"),
                String::from_str("posts"),
                String::from_str("Teacher"),
                column("teacher_id", SqlType::Integer),
            ),
        ];
        let s = TableSchemaModel {
            name: String::from_str("Teacher"),
            fields: vec![column("name", SqlType::Text)],
            indexes: Vec::new(),
            primary_key: id_key_model(None),
            relations,
        };
        assert(s@.fields =~= teacher_schema().fields);
        assert(s@.indexes =~= teacher_schema().indexes);
        assert(s@.relations =~= teacher_schema().relations);
        s
    }
}

impl Product {
    /// The table of products.
    pub fn get_table_name() -> (r: &'static str)
        ensures
            r@ == product_schema().name,
    {
        "products"
    }

    /// The schema of the products table.
    pub fn get_schema() -> (s: TableSchemaModel)
        ensures
            s@ == product_schema(),
    {
        let s = TableSchemaModel {
            name: String::from_str("products"),
            fields: vec![column("name", SqlType::Text)],
            indexes: Vec::new(),
            primary_key: id_key_model(Some(GenerationType::AutoIncrement)),
            relations: Vec::new(),
        };
        assert(s@.fields =~= product_schema().fields);
        assert(s@.indexes =~= product_schema().indexes);
        assert(s@.relations =~= product_schema().relations);
        s
    }
}

/// A dialect for tests that spells every column type as the empty text.
pub struct MockSqliteDialect;

impl SqlDialect for MockSqliteDialect {
    open spec fn cast_type_spec(&self, t: SqlTypeView) -> Seq<char> {
        Seq::empty()
    }

    fn cast_type(&self, t: &SqlType) -> (r: String) {
        String::new()
    }
}

impl MockSqliteDialect {
    /// The SQLite bind-parameter placeholder, `?`, whatever the position.
    pub fn bind_param(&self, count: &usize) -> (r: String)
        ensures
            r@ == "?"@,
    {
        String::from_str("?")
    }

    /// No statement for an insert without values.
    pub fn generate_empty_insert(&self, table_name: &str) -> (r: String)
        ensures
            r@.len() == 0,
    {
        String::new()
    }
}

} // verus!
