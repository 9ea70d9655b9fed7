//! How an entity is read back from a row.
use vstd::prelude::*;
use crate::model::field::FieldView;
use crate::model::relation::{RelationDefinition, RelationDefinitionView};
use crate::model::rust_type::{
    extract_inner_type, extract_type_ident, inner_type_spec, is_option_spec, is_option_type,
    last_ident_spec,
};
use crate::model::table::{TableData, TableDataView};
use crate::schema::RelationType;
use crate::text::{lowercase, to_lowercase};

verus! {

/// How a column's value is read.
#[derive(Debug, Clone, Copy, PartialEq, Eq, Structural)]
pub enum ReadKind {
    /// The value must be present.
    Required,
    /// The field is an `Option`: a missing value reads as `None`.
    Optional,
    /// The column is nullable but the field is not an `Option`: a missing
    /// value reads as the type's default.
    OptionalOrDefault,
}

/// A field read from the column of the same entity.
pub struct FieldRead {
    pub iden: String,
    pub column: String,
    pub kind: ReadKind,
}

/// The view of a [`FieldRead`].
pub struct FieldReadView {
    pub iden: Seq<char>,
    pub column: Seq<char>,
    pub kind: ReadKind,
}

impl View for FieldRead {
    type V = FieldReadView;

    open spec fn view(&self) -> FieldReadView {
        FieldReadView { iden: self.iden@, column: self.column@, kind: self.kind }
    }
}

impl DeepView for FieldRead {
    type V = FieldReadView;

    open spec fn deep_view(&self) -> FieldReadView {
        self@
    }
}

/// How a relation field is filled when a row is read.
pub enum RelationRead {
    /// A lazily loaded single relation, keyed by the id in the foreign key column.
    LazySingle { field: String, foreign_key: String },
    /// An eagerly held single relation whose id is set from the foreign key column.
    EagerSingle { field: String, foreign_key: String },
    /// A lazily loaded collection of the children whose foreign key column
    /// (in the child's column module) holds this entity's key.
    LazyMany { field: String, child_module: String, foreign_key: String },
    /// The field's default value.
    Default { field: String },
}

/// The view of a [`RelationRead`].
pub enum RelationReadView {
    LazySingle { field: Seq<char>, foreign_key: Seq<char> },
    EagerSingle { field: Seq<char>, foreign_key: Seq<char> },
    LazyMany { field: Seq<char>, child_module: Seq<char>, foreign_key: Seq<char> },
    Default { field: Seq<char> },
}

impl View for RelationRead {
    type V = RelationReadView;

    open spec fn view(&self) -> RelationReadView {
        match self {
            RelationRead::LazySingle { field, foreign_key } => RelationReadView::LazySingle {
                field: field@,
                foreign_key: foreign_key@,
            },
            RelationRead::EagerSingle { field, foreign_key } => RelationReadView::EagerSingle {
                field: field@,
                foreign_key: foreign_key@,
            },
            RelationRead::LazyMany { field, child_module, foreign_key } =>
                RelationReadView::LazyMany {
                field: field@,
                child_module: child_module@,
                foreign_key: foreign_key@,
            },
            RelationRead::Default { field } => RelationReadView::Default { field: field@ },
        }
    }
}

impl DeepView for RelationRead {
    type V = RelationReadView;

    open spec fn deep_view(&self) -> RelationReadView {
        self@
    }
}

/// How a field is read: required unless the column is nullable; then as an
/// `Option` when the field is one, else with a default.
pub open spec fn field_read_spec(f: FieldView) -> FieldReadView {
    FieldReadView {
        iden: f.iden,
        column: f.name,
        kind: if !f.is_nullable {
            ReadKind::Required
        } else if is_option_spec(f.ty) {
            ReadKind::Optional
        } else {
            ReadKind::OptionalOrDefault
        },
    }
}

/// The fields read from a row: the primary key (required), then each column.
pub open spec fn field_reads_spec(t: TableDataView) -> Seq<FieldReadView> {
    seq![
        FieldReadView {
            iden: t.primary_key.iden,
            column: t.primary_key.name,
            kind: ReadKind::Required,
        },
    ] + t.fields.map_values(|f: FieldView| field_read_spec(f))
}

/// Whether a lazily loaded collection can name its child's column module:
/// the type argument of the relation's type is a path.
pub open spec fn child_named(r: RelationDefinitionView) -> bool {
    last_ident_spec(inner_type_spec(r.ty)) is Some
}

/// How a relation field is filled: single relations through their foreign
/// key, lazily or eagerly; a lazy `HasMany` through the child's foreign key
/// column; anything else by its default.
pub open spec fn relation_read_spec(r: RelationDefinitionView) -> RelationReadView {
    match r.relation_type {
        RelationType::BelongsTo | RelationType::HasOne => if r.is_eager {
            RelationReadView::EagerSingle { field: r.relation_name, foreign_key: r.foreign_key }
        } else {
            RelationReadView::LazySingle { field: r.relation_name, foreign_key: r.foreign_key }
        },
        RelationType::HasMany => if r.is_eager {
            RelationReadView::Default { field: r.relation_name }
        } else {
            RelationReadView::LazyMany {
                field: r.relation_name,
                child_module: lowercase(last_ident_spec(inner_type_spec(r.ty)).unwrap()),
                foreign_key: r.foreign_key,
            }
        },
        _ => RelationReadView::Default { field: r.relation_name },
    }
}

fn relation_read(r: &RelationDefinition) -> (out: RelationRead)
    requires
        r@.relation_type == RelationType::HasMany && !r@.is_eager ==> child_named(r@),
    ensures
        out@ == relation_read_spec(r@),
{
    match r.relation_type {
        RelationType::BelongsTo | RelationType::HasOne => {
            if r.is_eager {
                RelationRead::EagerSingle {
                    field: r.relation_name.clone(),
                    foreign_key: r.foreign_key.clone(),
                }
            } else {
                RelationRead::LazySingle {
                    field: r.relation_name.clone(),
                    foreign_key: r.foreign_key.clone(),
                }
            }
        },
        RelationType::HasMany => {
            if r.is_eager {
                RelationRead::Default { field: r.relation_name.clone() }
            } else {
                let child = extract_inner_type(&r.ty);
                let id = extract_type_ident(&child);
                let name = id.unwrap();
                RelationRead::LazyMany {
                    field: r.relation_name.clone(),
                    child_module: to_lowercase(name.as_str()),
                    foreign_key: r.foreign_key.clone(),
                }
            }
        },
        _ => RelationRead::Default { field: r.relation_name.clone() },
    }
}

/// How each field of an entity is read from a row: the primary key, then
/// each column in order.
pub fn field_reads(table: &TableData) -> (r: Vec<FieldRead>)
    ensures
        r.deep_view() == field_reads_spec(table@),
{
    let mut r: Vec<FieldRead> = Vec::new();
    r.push(
        FieldRead {
            iden: table.primary_key.iden.clone(),
            column: table.primary_key.name.clone(),
            kind: ReadKind::Required,
        },
    );
    let mut i: usize = 0;
    while i < table.fields.len()
        invariant
            i <= table.fields.len(),
            r.len() == i + 1,
            r@[0].deep_view() == field_reads_spec(table@)[0],
            forall|k: int|
                0 <= k < i ==> #[trigger] r@[k + 1].deep_view() == field_read_spec(
                    table.fields@[k]@,
                ),
        decreases table.fields.len() - i,
    {
        let f = &table.fields[i];
        let kind = if !f.is_nullable {
            ReadKind::Required
        } else if is_option_type(&f.ty) {
            ReadKind::Optional
        } else {
            ReadKind::OptionalOrDefault
        };
        r.push(FieldRead { iden: f.iden.clone(), column: f.name.clone(), kind });
        i = i + 1;
    }
    proof {
        let want = field_reads_spec(table@);
        assert forall|k: int| 0 <= k < want.len() implies r.deep_view()[k] == want[k] by {
            if k > 0 {
                assert(r@[(k - 1) + 1].deep_view() == field_read_spec(table.fields@[k - 1]@));
            }
        }
        assert(r.deep_view() =~= want);
    }
    r
}

/// How each relation field of an entity is filled when a row is read, in
/// order. Every lazily loaded collection must have a type argument that is
/// a path, which names the child's column module.
pub fn relation_reads(table: &TableData) -> (r: Vec<RelationRead>)
    requires
        forall|k: int|
            0 <= k < table@.relations.len() && (#[trigger] table@.relations[k]).relation_type
                == RelationType::HasMany && !table@.relations[k].is_eager ==> child_named(
                table@.relations[k],
            ),
    ensures
        r.deep_view() == table@.relations.map_values(
            |x: RelationDefinitionView| relation_read_spec(x),
        ),
{
    let mut r: Vec<RelationRead> = Vec::new();
    let mut i: usize = 0;
    while i < table.relations.len()
        invariant
            i <= table.relations.len(),
            r.len() == i,
            forall|k: int|
                0 <= k < table@.relations.len() && (#[trigger] table@.relations[k]).relation_type
                    == RelationType::HasMany && !table@.relations[k].is_eager ==> child_named(
                    table@.relations[k],
                ),
            forall|k: int|
                0 <= k < i ==> #[trigger] r@[k].deep_view() == relation_read_spec(
                    table.relations@[k]@,
                ),
        decreases table.relations.len() - i,
    {
        assert(table@.relations[i as int] == table.relations@[i as int]@);
        r.push(relation_read(&table.relations[i]));
        i = i + 1;
    }
    assert(r.deep_view() =~= table@.relations.map_values(
        |x: RelationDefinitionView| relation_read_spec(x),
    ));
    r
}

} // verus!
