//! The primary key of a model.
use vstd::prelude::*;
use crate::schema::GenerationType;
use super::field::{column_name_of, ColumnAttribute};
use super::rust_type::{RustType, RustTypeView};

verus! {

/// The arguments of `#[PrimaryKey(...)]`.
#[derive(Debug, Clone, PartialEq)]
pub struct PrimaryKeyAttribute {
    pub generation_strategy: Option<GenerationType>,
}

/// The primary key field of a model.
#[derive(Debug, Clone)]
pub struct PrimaryKeyField {
    pub iden: String,
    pub name: String,
    pub ty: RustType,
    pub generation_strategy: Option<GenerationType>,
}

/// The view of a [`PrimaryKeyField`].
pub struct PrimaryKeyFieldView {
    pub iden: Seq<char>,
    pub name: Seq<char>,
    pub ty: RustTypeView,
    pub generation_strategy: Option<GenerationType>,
}

impl View for PrimaryKeyField {
    type V = PrimaryKeyFieldView;

    open spec fn view(&self) -> PrimaryKeyFieldView {
        PrimaryKeyFieldView {
            iden: self.iden@,
            name: self.name@,
            ty: self.ty@,
            generation_strategy: self.generation_strategy,
        }
    }
}

/// The generation strategy of the primary key attribute, or else that of the
/// column attribute.
pub open spec fn key_strategy(
    pk: Option<GenerationType>,
    col: Option<GenerationType>,
) -> Option<GenerationType> {
    if pk is Some {
        pk
    } else {
        col
    }
}

/// The primary key that a field named `ident` of type `ty` with these
/// attributes describes.
pub open spec fn primary_key_spec(
    col: ColumnAttribute,
    pk: PrimaryKeyAttribute,
    ident: Seq<char>,
    ty: RustTypeView,
) -> PrimaryKeyFieldView {
    PrimaryKeyFieldView {
        iden: ident,
        name: column_name_of(col.name@, ident),
        ty,
        generation_strategy: key_strategy(pk.generation_strategy, col.generation_strategy),
    }
}

impl PrimaryKeyField {
    /// The primary key of a field: the column's name, or else the field's
    /// name; the key's generation strategy, or else the column's.
    pub fn from(
        col_attr: &ColumnAttribute,
        pk_attr: &PrimaryKeyAttribute,
        ident: &String,
        ty: &RustType,
    ) -> (r: PrimaryKeyField)
        ensures
            r@ == primary_key_spec(*col_attr, *pk_attr, ident@, ty@),
    {
        let name = if col_attr.name.as_str().is_empty() {
            ident.clone()
        } else {
            col_attr.name.clone()
        };
        let generation_strategy = match pk_attr.generation_strategy {
            Some(g) => Some(g),
            None => col_attr.generation_strategy,
        };
        PrimaryKeyField { iden: ident.clone(), name, ty: ty.duplicate(), generation_strategy }
    }
}

} // verus!
