//! Column attributes and the columns of a model.
use vstd::prelude::*;
use crate::schema::GenerationType;
use super::rust_type::{is_option_spec, is_option_type, RustType, RustTypeView};

verus! {

/// The arguments of `#[Column(...)]`.
#[derive(Debug, Clone, PartialEq)]
pub struct ColumnAttribute {
    pub name: String,
    pub unique: bool,
    pub nullable: bool,
    pub column_definition: Option<String>,
    pub index: bool,
    pub generation_strategy: Option<GenerationType>,
}

impl Default for ColumnAttribute {
    /// No explicit name, not unique, not nullable, no custom type, no index,
    /// no generation strategy.
    fn default() -> (r: ColumnAttribute)
        ensures
            r.name@.len() == 0,
            !r.unique,
            !r.nullable,
            r.column_definition is None,
            !r.index,
            r.generation_strategy is None,
    {
        ColumnAttribute {
            name: String::new(),
            unique: false,
            nullable: false,
            column_definition: None,
            index: false,
            generation_strategy: None,
        }
    }
}

/// A column of a model.
#[derive(Debug, Clone)]
pub struct Field {
    pub iden: String,
    pub name: String,
    pub ty: RustType,
    pub is_unique: bool,
    pub is_nullable: bool,
    pub column_definition: Option<String>,
    pub has_index: bool,
    pub generation_strategy: Option<GenerationType>,
}

/// The view of a [`Field`].
pub struct FieldView {
    pub iden: Seq<char>,
    pub name: Seq<char>,
    pub ty: RustTypeView,
    pub is_unique: bool,
    pub is_nullable: bool,
    pub column_definition: Option<Seq<char>>,
    pub has_index: bool,
    pub generation_strategy: Option<GenerationType>,
}

impl View for Field {
    type V = FieldView;

    open spec fn view(&self) -> FieldView {
        FieldView {
            iden: self.iden@,
            name: self.name@,
            ty: self.ty@,
            is_unique: self.is_unique,
            is_nullable: self.is_nullable,
            column_definition: self.column_definition.deep_view(),
            has_index: self.has_index,
            generation_strategy: self.generation_strategy,
        }
    }
}

impl DeepView for Field {
    type V = FieldView;

    open spec fn deep_view(&self) -> FieldView {
        self@
    }
}

/// The column name: the one given in the attribute, or else the field's name.
pub open spec fn column_name_of(attr_name: Seq<char>, ident: Seq<char>) -> Seq<char> {
    if attr_name.len() == 0 {
        ident
    } else {
        attr_name
    }
}

/// The column that a field named `ident` of type `ty` with the attribute
/// `attr` describes; an optional type makes the column nullable.
pub open spec fn field_spec(attr: ColumnAttribute, ident: Seq<char>, ty: RustTypeView) -> FieldView {
    FieldView {
        iden: ident,
        name: column_name_of(attr.name@, ident),
        ty,
        is_unique: attr.unique,
        is_nullable: attr.nullable || is_option_spec(ty),
        column_definition: attr.column_definition.deep_view(),
        has_index: attr.index,
        generation_strategy: attr.generation_strategy,
    }
}

/// A copy of an optional string with the same view.
pub fn duplicate_opt_string(s: &Option<String>) -> (r: Option<String>)
    ensures
        r.deep_view() == s.deep_view(),
{
    match s {
        Some(v) => Some(v.clone()),
        None => None,
    }
}

impl Field {
    /// The column of a field named `ident` of type `ty`; an optional type
    /// makes the column nullable.
    pub fn from(attr: &ColumnAttribute, ident: &String, ty: &RustType) -> (r: Field)
        ensures
            r@ == field_spec(*attr, ident@, ty@),
    {
        let name = if attr.name.as_str().is_empty() {
            ident.clone()
        } else {
            attr.name.clone()
        };
        Field {
            iden: ident.clone(),
            name,
            ty: ty.duplicate(),
            is_unique: attr.unique,
            is_nullable: attr.nullable || is_option_type(ty),
            column_definition: duplicate_opt_string(&attr.column_definition),
            has_index: attr.index,
            generation_strategy: attr.generation_strategy,
        }
    }
}

} // verus!
