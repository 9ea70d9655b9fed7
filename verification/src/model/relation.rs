//! Relation attributes and the relations of a model.
use vstd::prelude::*;
use crate::schema::RelationType;
use super::field::duplicate_opt_string;
use super::rust_type::{RustType, RustTypeView};

verus! {

/// The arguments of `#[HasOne(...)]`.
#[derive(Debug, Clone, PartialEq)]
pub struct HasOneAttribute {
    pub table: Option<String>,
    pub foreign_key: Option<String>,
    pub cascade: bool,
}

/// The arguments of `#[HasMany(...)]`.
#[derive(Debug, Clone, PartialEq)]
pub struct HasManyAttribute {
    pub table: Option<String>,
    pub foreign_key: Option<String>,
    pub cascade: bool,
}

/// The arguments of `#[BelongsTo(...)]`.
#[derive(Debug, Clone, PartialEq)]
pub struct BelongsToAttribute {
    pub table: Option<String>,
    pub foreign_key: Option<String>,
    pub cascade: bool,
}

/// The relation attribute found on a field.
#[derive(Debug, Clone, PartialEq)]
pub enum FieldRelation {
    HasOne(HasOneAttribute),
    HasMany(HasManyAttribute),
    BelongsTo(BelongsToAttribute),
}

/// A relation of a model.
#[derive(Debug, Clone)]
pub struct RelationDefinition {
    pub relation_type: RelationType,
    pub table: Option<String>,
    pub foreign_key: String,
    pub relation_name: String,
    pub ty: RustType,
    pub ident: String,
    pub is_eager: bool,
    pub cascade: bool,
}

/// The view of a [`RelationDefinition`].
pub struct RelationDefinitionView {
    pub relation_type: RelationType,
    pub table: Option<Seq<char>>,
    pub foreign_key: Seq<char>,
    pub relation_name: Seq<char>,
    pub ty: RustTypeView,
    pub ident: Seq<char>,
    pub is_eager: bool,
    pub cascade: bool,
}

impl View for RelationDefinition {
    type V = RelationDefinitionView;

    open spec fn view(&self) -> RelationDefinitionView {
        RelationDefinitionView {
            relation_type: self.relation_type,
            table: self.table.deep_view(),
            foreign_key: self.foreign_key@,
            relation_name: self.relation_name@,
            ty: self.ty@,
            ident: self.ident@,
            is_eager: self.is_eager,
            cascade: self.cascade,
        }
    }
}

impl DeepView for RelationDefinition {
    type V = RelationDefinitionView;

    open spec fn deep_view(&self) -> RelationDefinitionView {
        self@
    }
}

/// The kind of a relation attribute.
pub open spec fn relation_kind(r: FieldRelation) -> RelationType {
    match r {
        FieldRelation::HasOne(_) => RelationType::HasOne,
        FieldRelation::HasMany(_) => RelationType::HasMany,
        FieldRelation::BelongsTo(_) => RelationType::BelongsTo,
    }
}

/// The target table, foreign key and cascade flag of a relation attribute.
pub open spec fn relation_parts(r: FieldRelation) -> (Option<Seq<char>>, Option<Seq<char>>, bool) {
    match r {
        FieldRelation::HasOne(a) => (a.table.deep_view(), a.foreign_key.deep_view(), a.cascade),
        FieldRelation::HasMany(a) => (a.table.deep_view(), a.foreign_key.deep_view(), a.cascade),
        FieldRelation::BelongsTo(a) => (a.table.deep_view(), a.foreign_key.deep_view(), a.cascade),
    }
}

/// The relation that a field named `ident` of type `ty` describes; the
/// foreign key is the one given, or else `{ident}_id`; a field of a lazily
/// loaded type makes a relation that is not eager.
pub open spec fn relation_spec(
    r: FieldRelation,
    ident: Seq<char>,
    ty: RustTypeView,
    is_lazy: bool,
) -> RelationDefinitionView {
    let (table, fk, cascade) = relation_parts(r);
    RelationDefinitionView {
        relation_type: relation_kind(r),
        table,
        foreign_key: match fk {
            Some(k) => k,
            None => ident + "_id"@,
        },
        relation_name: ident,
        ty,
        ident,
        is_eager: !is_lazy,
        cascade,
    }
}

impl RelationDefinition {
    /// The relation of a field named `ident` with the attribute `r`.
    pub fn from(r: &FieldRelation, ident: &String, ty: &RustType, is_lazy: bool) -> (d:
        RelationDefinition)
        ensures
            d@ == relation_spec(*r, ident@, ty@, is_lazy),
    {
        let (relation_type, table, fk, cascade) = match r {
            FieldRelation::HasOne(a) => (RelationType::HasOne, &a.table, &a.foreign_key, a.cascade),
            FieldRelation::HasMany(a) => (
                RelationType::HasMany,
                &a.table,
                &a.foreign_key,
                a.cascade,
            ),
            FieldRelation::BelongsTo(a) => (
                RelationType::BelongsTo,
                &a.table,
                &a.foreign_key,
                a.cascade,
            ),
        };
        let foreign_key = match fk {
            Some(k) => k.clone(),
            None => {
                let mut k = ident.clone();
                k.append("_id");
                k
            },
        };
        RelationDefinition {
            relation_type,
            table: duplicate_opt_string(table),
            foreign_key,
            relation_name: ident.clone(),
            ty: ty.duplicate(),
            ident: ident.clone(),
            is_eager: !is_lazy,
            cascade,
        }
    }
}

} // verus!
