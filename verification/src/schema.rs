//! The schema model of a table: columns, primary key, indexes and relations.
//!
//! Every type has a mathematical view in which names are `Seq<char>`; all
//! contracts of the crate are stated over these views.
use vstd::prelude::*;

verus! {

/// Values that can be copied with a proof that the copy has the same view.
pub trait Duplicate: Sized + DeepView {
    /// A copy with the same view.
    fn duplicate(&self) -> (r: Self)
        ensures
            r.deep_view() == self.deep_view(),
    ;
}

/// A copy of a list with the same view.
pub fn duplicate_vec<T: Duplicate>(v: &Vec<T>) -> (r: Vec<T>)
    ensures
        r.deep_view() == v.deep_view(),
{
    let mut r: Vec<T> = Vec::new();
    let mut i: usize = 0;
    while i < v.len()
        invariant
            i <= v.len(),
            r.len() == i,
            forall|k: int| 0 <= k < i ==> r@[k].deep_view() == v@[k].deep_view(),
        decreases v.len() - i,
    {
        r.push(v[i].duplicate());
        i = i + 1;
    }
    assert(r.deep_view() =~= v.deep_view());
    r
}

/// Column types understood by the ORM.
#[derive(Debug, Clone, PartialEq)]
pub enum SqlType {
    Integer,
    Float,
    Double,
    Boolean,
    Date,
    Timestamp,
    Text,
    Varchar(u32),
    Char(u32),
    Custom(String),
}

/// The view of a [`SqlType`].
pub enum SqlTypeView {
    Integer,
    Float,
    Double,
    Boolean,
    Date,
    Timestamp,
    Text,
    Varchar(u32),
    Char(u32),
    Custom(Seq<char>),
}

impl View for SqlType {
    type V = SqlTypeView;

    open spec fn view(&self) -> SqlTypeView {
        match self {
            SqlType::Integer => SqlTypeView::Integer,
            SqlType::Float => SqlTypeView::Float,
            SqlType::Double => SqlTypeView::Double,
            SqlType::Boolean => SqlTypeView::Boolean,
            SqlType::Date => SqlTypeView::Date,
            SqlType::Timestamp => SqlTypeView::Timestamp,
            SqlType::Text => SqlTypeView::Text,
            SqlType::Varchar(n) => SqlTypeView::Varchar(*n),
            SqlType::Char(n) => SqlTypeView::Char(*n),
            SqlType::Custom(s) => SqlTypeView::Custom(s@),
        }
    }
}

impl DeepView for SqlType {
    type V = SqlTypeView;

    open spec fn deep_view(&self) -> SqlTypeView {
        self@
    }
}

impl Duplicate for SqlType {
    fn duplicate(&self) -> (r: SqlType) {
        match self {
            SqlType::Integer => SqlType::Integer,
            SqlType::Float => SqlType::Float,
            SqlType::Double => SqlType::Double,
            SqlType::Boolean => SqlType::Boolean,
            SqlType::Date => SqlType::Date,
            SqlType::Timestamp => SqlType::Timestamp,
            SqlType::Text => SqlType::Text,
            SqlType::Varchar(n) => SqlType::Varchar(*n),
            SqlType::Char(n) => SqlType::Char(*n),
            SqlType::Custom(s) => SqlType::Custom(s.clone()),
        }
    }
}

impl SqlType {
    /// Whether two types have the same view.
    pub fn same_as(&self, other: &SqlType) -> (r: bool)
        ensures
            r == (self@ == other@),
    {
        match self {
            SqlType::Integer => match other {
                SqlType::Integer => true,
                _ => false,
            },
            SqlType::Float => match other {
                SqlType::Float => true,
                _ => false,
            },
            SqlType::Double => match other {
                SqlType::Double => true,
                _ => false,
            },
            SqlType::Boolean => match other {
                SqlType::Boolean => true,
                _ => false,
            },
            SqlType::Date => match other {
                SqlType::Date => true,
                _ => false,
            },
            SqlType::Timestamp => match other {
                SqlType::Timestamp => true,
                _ => false,
            },
            SqlType::Text => match other {
                SqlType::Text => true,
                _ => false,
            },
            SqlType::Varchar(a) => match other {
                SqlType::Varchar(b) => *a == *b,
                _ => false,
            },
            SqlType::Char(a) => match other {
                SqlType::Char(b) => *a == *b,
                _ => false,
            },
            SqlType::Custom(a) => match other {
                SqlType::Custom(b) => *a == *b,
                _ => false,
            },
        }
    }
}

/// How the database generates a key.
#[derive(Debug, Clone, Copy, PartialEq, Eq, Structural)]
pub enum GenerationType {
    AutoIncrement,
}

/// Whether two optional generation strategies are the same.
pub fn same_generation(a: &Option<GenerationType>, b: &Option<GenerationType>) -> (r: bool)
    ensures
        r == (*a == *b),
{
    let r = a.is_some() == b.is_some();
    proof {
        if a.is_some() && b.is_some() {
            assert(a.unwrap() == b.unwrap());
        }
    }
    r
}

/// A column of a table.
#[derive(Debug, Clone, PartialEq)]
pub struct ColumnSchemaModel {
    pub name: String,
    pub is_nullable: bool,
    pub is_unique: bool,
    pub sql_type: SqlType,
    pub generation_type: Option<GenerationType>,
}

/// The view of a [`ColumnSchemaModel`].
pub struct ColumnSchemaView {
    pub name: Seq<char>,
    pub is_nullable: bool,
    pub is_unique: bool,
    pub sql_type: SqlTypeView,
    pub generation_type: Option<GenerationType>,
}

impl View for ColumnSchemaModel {
    type V = ColumnSchemaView;

    open spec fn view(&self) -> ColumnSchemaView {
        ColumnSchemaView {
            name: self.name@,
            is_nullable: self.is_nullable,
            is_unique: self.is_unique,
            sql_type: self.sql_type@,
            generation_type: self.generation_type,
        }
    }
}

impl DeepView for ColumnSchemaModel {
    type V = ColumnSchemaView;

    open spec fn deep_view(&self) -> ColumnSchemaView {
        self@
    }
}

impl Duplicate for ColumnSchemaModel {
    fn duplicate(&self) -> (r: ColumnSchemaModel) {
        ColumnSchemaModel {
            name: self.name.clone(),
            is_nullable: self.is_nullable,
            is_unique: self.is_unique,
            sql_type: self.sql_type.duplicate(),
            generation_type: self.generation_type,
        }
    }
}

/// The primary key of a table.
#[derive(Debug, Clone, PartialEq)]
pub struct PrimaryKeyModel {
    pub name: String,
    pub ty: SqlType,
    pub generation_type: Option<GenerationType>,
}

/// The view of a [`PrimaryKeyModel`].
pub struct PrimaryKeyView {
    pub name: Seq<char>,
    pub ty: SqlTypeView,
    pub generation_type: Option<GenerationType>,
}

impl View for PrimaryKeyModel {
    type V = PrimaryKeyView;

    open spec fn view(&self) -> PrimaryKeyView {
        PrimaryKeyView { name: self.name@, ty: self.ty@, generation_type: self.generation_type }
    }
}

impl DeepView for PrimaryKeyModel {
    type V = PrimaryKeyView;

    open spec fn deep_view(&self) -> PrimaryKeyView {
        self@
    }
}

impl Duplicate for PrimaryKeyModel {
    fn duplicate(&self) -> (r: PrimaryKeyModel) {
        PrimaryKeyModel {
            name: self.name.clone(),
            ty: self.ty.duplicate(),
            generation_type: self.generation_type,
        }
    }
}

impl PrimaryKeyModel {
    /// A primary key with the given name, generation strategy and column type.
    pub fn new(name: String, generation_type: Option<GenerationType>, ty: SqlType) -> (r:
        PrimaryKeyModel)
        ensures
            r.name == name,
            r.generation_type == generation_type,
            r.ty == ty,
    {
        PrimaryKeyModel { name, ty, generation_type }
    }

    /// Whether two keys have the same view.
    pub fn same_as(&self, other: &PrimaryKeyModel) -> (r: bool)
        ensures
            r == (self@ == other@),
    {
        self.name == other.name && self.ty.same_as(&other.ty) && same_generation(
            &self.generation_type,
            &other.generation_type,
        )
    }
}

/// An index over one or more columns of a table.
#[derive(Debug, Clone, PartialEq)]
pub struct IndexModel {
    pub name: String,
    pub fields: Vec<String>,
    pub unique: bool,
}

/// The view of an [`IndexModel`].
pub struct IndexView {
    pub name: Seq<char>,
    pub fields: Seq<Seq<char>>,
    pub unique: bool,
}

impl View for IndexModel {
    type V = IndexView;

    open spec fn view(&self) -> IndexView {
        IndexView { name: self.name@, fields: self.fields.deep_view(), unique: self.unique }
    }
}

impl DeepView for IndexModel {
    type V = IndexView;

    open spec fn deep_view(&self) -> IndexView {
        self@
    }
}

/// A copy of a list of strings with the same view.
pub fn duplicate_strings(v: &Vec<String>) -> (r: Vec<String>)
    ensures
        r.deep_view() == v.deep_view(),
{
    let mut r: Vec<String> = Vec::new();
    let mut i: usize = 0;
    while i < v.len()
        invariant
            i <= v.len(),
            r.len() == i,
            forall|k: int| 0 <= k < i ==> r@[k]@ == v@[k]@,
        decreases v.len() - i,
    {
        r.push(v[i].clone());
        i = i + 1;
    }
    assert(r.deep_view() =~= v.deep_view());
    r
}

/// Whether two lists of strings have the same view.
pub fn same_strings(a: &Vec<String>, b: &Vec<String>) -> (r: bool)
    ensures
        r == (a.deep_view() == b.deep_view()),
{
    if a.len() != b.len() {
        assert(a.deep_view().len() != b.deep_view().len());
        return false;
    }
    let mut i: usize = 0;
    while i < a.len()
        invariant
            i <= a.len(),
            a.len() == b.len(),
            forall|j: int| 0 <= j < i ==> a.deep_view()[j] == b.deep_view()[j],
        decreases a.len() - i,
    {
        if a[i] != b[i] {
            assert(a.deep_view()[i as int] != b.deep_view()[i as int]);
            return false;
        }
        i = i + 1;
    }
    assert(a.deep_view() =~= b.deep_view());
    true
}

impl Duplicate for IndexModel {
    fn duplicate(&self) -> (r: IndexModel) {
        IndexModel {
            name: self.name.clone(),
            fields: duplicate_strings(&self.fields),
            unique: self.unique,
        }
    }
}

/// The kinds of relation between two tables.
#[derive(Debug, Clone, Copy, PartialEq, Eq, Structural)]
pub enum RelationType {
    HasOne,
    HasMany,
    BelongsTo,
    BelongsToMany,
}

/// Whether a relation of this kind stores a foreign key in the owning table.
pub open spec fn holds_foreign_key(t: RelationType) -> bool {
    t == RelationType::BelongsTo || t == RelationType::HasOne
}

/// A relation from the table that holds it to another table.
#[derive(Debug, Clone, PartialEq)]
pub struct RelationModel {
    pub relation_type: RelationType,
    pub table: String,
    pub foreign_key: String,
    pub target_key: String,
    pub relation_name: String,
    pub source_table: String,
    pub field: ColumnSchemaModel,
    pub is_eager: bool,
}

/// The view of a [`RelationModel`].
pub struct RelationView {
    pub relation_type: RelationType,
    pub table: Seq<char>,
    pub foreign_key: Seq<char>,
    pub target_key: Seq<char>,
    pub relation_name: Seq<char>,
    pub source_table: Seq<char>,
    pub field: ColumnSchemaView,
    pub is_eager: bool,
}

impl View for RelationModel {
    type V = RelationView;

    open spec fn view(&self) -> RelationView {
        RelationView {
            relation_type: self.relation_type,
            table: self.table@,
            foreign_key: self.foreign_key@,
            target_key: self.target_key@,
            relation_name: self.relation_name@,
            source_table: self.source_table@,
            field: self.field@,
            is_eager: self.is_eager,
        }
    }
}

impl DeepView for RelationModel {
    type V = RelationView;

    open spec fn deep_view(&self) -> RelationView {
        self@
    }
}

impl RelationModel {
    /// A relation built from its parts; it is loaded lazily.
    pub fn new(
        relation_type: RelationType,
        table: String,
        foreign_key: String,
        target_key: String,
        relation_name: String,
        source_table: String,
        field: ColumnSchemaModel,
    ) -> (r: RelationModel)
        ensures
            r.relation_type == relation_type,
            r.table == table,
            r.foreign_key == foreign_key,
            r.target_key == target_key,
            r.relation_name == relation_name,
            r.source_table == source_table,
            r.field == field,
            !r.is_eager,
    {
        RelationModel {
            relation_type,
            table,
            foreign_key,
            target_key,
            relation_name,
            source_table,
            field,
            is_eager: false,
        }
    }

}

impl Duplicate for RelationModel {
    fn duplicate(&self) -> (r: RelationModel) {
        RelationModel {
            relation_type: self.relation_type,
            table: self.table.clone(),
            foreign_key: self.foreign_key.clone(),
            target_key: self.target_key.clone(),
            relation_name: self.relation_name.clone(),
            source_table: self.source_table.clone(),
            field: self.field.duplicate(),
            is_eager: self.is_eager,
        }
    }
}

/// The full schema of one table.
#[derive(Debug, Clone, PartialEq)]
pub struct TableSchemaModel {
    pub name: String,
    pub fields: Vec<ColumnSchemaModel>,
    pub indexes: Vec<IndexModel>,
    pub primary_key: PrimaryKeyModel,
    pub relations: Vec<RelationModel>,
}

/// The view of a [`TableSchemaModel`].
pub struct TableSchemaView {
    pub name: Seq<char>,
    pub fields: Seq<ColumnSchemaView>,
    pub indexes: Seq<IndexView>,
    pub primary_key: PrimaryKeyView,
    pub relations: Seq<RelationView>,
}

impl View for TableSchemaModel {
    type V = TableSchemaView;

    open spec fn view(&self) -> TableSchemaView {
        TableSchemaView {
            name: self.name@,
            fields: self.fields.deep_view(),
            indexes: self.indexes.deep_view(),
            primary_key: self.primary_key@,
            relations: self.relations.deep_view(),
        }
    }
}

impl DeepView for TableSchemaModel {
    type V = TableSchemaView;

    open spec fn deep_view(&self) -> TableSchemaView {
        self@
    }
}

impl Duplicate for TableSchemaModel {
    fn duplicate(&self) -> (r: TableSchemaModel) {
        TableSchemaModel {
            name: self.name.clone(),
            fields: duplicate_vec(&self.fields),
            indexes: duplicate_vec(&self.indexes),
            primary_key: self.primary_key.duplicate(),
            relations: duplicate_vec(&self.relations),
        }
    }
}

impl TableSchemaModel {
    /// An empty schema named `name`, keyed by an integer column `id`.
    pub fn new(name: String) -> (r: TableSchemaModel)
        ensures
            r.name == name,
            r@.fields.len() == 0,
            r@.indexes.len() == 0,
            r@.relations.len() == 0,
            r.primary_key@ == (PrimaryKeyView {
                name: "id"@,
                ty: SqlTypeView::Integer,
                generation_type: None,
            }),
    {
        TableSchemaModel {
            name,
            fields: Vec::new(),
            indexes: Vec::new(),
            primary_key: PrimaryKeyModel {
                name: String::from_str("id"),
                ty: SqlType::Integer,
                generation_type: None,
            },
            relations: Vec::new(),
        }
    }
}

} // verus!
