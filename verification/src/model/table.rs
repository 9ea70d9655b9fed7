//! The input that describes a model and the table data parsed from it.
use vstd::prelude::*;
use crate::schema::IndexView;
use super::field::{ColumnAttribute, Field, FieldView};
use super::index::IndexDefinition;
use super::primary_key::{PrimaryKeyAttribute, PrimaryKeyField, PrimaryKeyFieldView};
use super::relation::{FieldRelation, RelationDefinition, RelationDefinitionView};
use super::rust_type::RustType;

verus! {

/// The arguments of `#[Table(...)]`.
#[derive(Debug, Clone, PartialEq)]
pub struct TableAttribute {
    pub name: String,
}

/// One field of a struct that derives a model, with its attributes.
#[derive(Debug, Clone)]
pub struct FieldInput {
    /// The field's name; `None` for a field of a tuple struct.
    pub ident: Option<String>,
    /// The field's type.
    pub ty: RustType,
    /// Whether the field's type loads its relation lazily.
    pub is_lazy: bool,
    pub column: ColumnAttribute,
    pub primary_key: Option<PrimaryKeyAttribute>,
    pub relation: Option<FieldRelation>,
}

/// A type that derives a model, with its attributes.
#[derive(Debug, Clone)]
pub struct ModelInput {
    pub ident: String,
    /// Whether the type is a struct.
    pub is_struct: bool,
    pub table: TableAttribute,
    /// The argument texts of its `#[Index(...)]` attributes.
    pub index_args: Vec<String>,
    pub fields: Vec<FieldInput>,
}

/// Everything parsed from a model.
#[derive(Debug, Clone)]
pub struct TableData {
    pub ident: String,
    pub name: String,
    pub fields: Vec<Field>,
    pub primary_key: PrimaryKeyField,
    pub indexes: Vec<IndexDefinition>,
    pub relations: Vec<RelationDefinition>,
}

/// The view of a [`TableData`].
pub struct TableDataView {
    pub ident: Seq<char>,
    pub name: Seq<char>,
    pub fields: Seq<FieldView>,
    pub primary_key: PrimaryKeyFieldView,
    pub indexes: Seq<IndexView>,
    pub relations: Seq<RelationDefinitionView>,
}

impl View for TableData {
    type V = TableDataView;

    open spec fn view(&self) -> TableDataView {
        TableDataView {
            ident: self.ident@,
            name: self.name@,
            fields: self.fields.deep_view(),
            primary_key: self.primary_key@,
            indexes: self.indexes.deep_view(),
            relations: self.relations.deep_view(),
        }
    }
}

} // verus!
