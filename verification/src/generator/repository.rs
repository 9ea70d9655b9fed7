//! The relation bookkeeping of an entity's repository: its relation
//! descriptors, the relations saved, loaded and deleted with it, and the
//! names of its caches.
use vstd::prelude::*;
use crate::model::relation::{RelationDefinition, RelationDefinitionView};
use crate::model::rust_type::{
    extract_inner_type, inner_type_spec, last_ident_spec, RustType, RustTypeView,
};
use crate::model::table::{TableData, TableDataView};
use crate::schema::RelationType;
use crate::text::{ascii_upper, lowercase, text_is, to_ascii_uppercase, to_lowercase};

verus! {

/// The table a relation points at: named in its attribute, or else the
/// table of the entity type given here.
pub enum TargetTable {
    Named(String),
    OfType(RustType),
}

/// The view of a [`TargetTable`].
pub enum TargetTableView {
    Named(Seq<char>),
    OfType(RustTypeView),
}

/// What the repository knows of one relation.
pub struct RelationDescriptor {
    pub relation_type: RelationType,
    pub field_name: String,
    pub foreign_key: String,
    pub target_table: TargetTable,
    pub is_eager: bool,
}

/// The view of a [`RelationDescriptor`].
pub struct RelationDescriptorView {
    pub relation_type: RelationType,
    pub field_name: Seq<char>,
    pub foreign_key: Seq<char>,
    pub target_table: TargetTableView,
    pub is_eager: bool,
}

impl View for RelationDescriptor {
    type V = RelationDescriptorView;

    open spec fn view(&self) -> RelationDescriptorView {
        RelationDescriptorView {
            relation_type: self.relation_type,
            field_name: self.field_name@,
            foreign_key: self.foreign_key@,
            target_table: match self.target_table {
                TargetTable::Named(n) => TargetTableView::Named(n@),
                TargetTable::OfType(t) => TargetTableView::OfType(t@),
            },
            is_eager: self.is_eager,
        }
    }
}

impl DeepView for RelationDescriptor {
    type V = RelationDescriptorView;

    open spec fn deep_view(&self) -> RelationDescriptorView {
        self@
    }
}

/// The descriptor of a relation: its kind, field, foreign key, eagerness,
/// and the table named in its attribute or else that of the type argument of
/// its field's type.
pub open spec fn descriptor_spec(r: RelationDefinitionView) -> RelationDescriptorView {
    RelationDescriptorView {
        relation_type: r.relation_type,
        field_name: r.ident,
        foreign_key: r.foreign_key,
        target_table: match r.table {
            Some(t) => TargetTableView::Named(t),
            None => TargetTableView::OfType(inner_type_spec(r.ty)),
        },
        is_eager: r.is_eager,
    }
}

fn descriptor(r: &RelationDefinition) -> (d: RelationDescriptor)
    ensures
        d@ == descriptor_spec(r@),
{
    let target_table = match &r.table {
        Some(t) => TargetTable::Named(t.clone()),
        None => TargetTable::OfType(extract_inner_type(&r.ty)),
    };
    RelationDescriptor {
        relation_type: r.relation_type,
        field_name: r.ident.clone(),
        foreign_key: r.foreign_key.clone(),
        target_table,
        is_eager: r.is_eager,
    }
}

/// The relation descriptors of an entity, one per relation, in order.
pub fn relation_descriptors(table: &TableData) -> (r: Vec<RelationDescriptor>)
    ensures
        r.deep_view() == table@.relations.map_values(
            |x: RelationDefinitionView| descriptor_spec(x),
        ),
{
    let mut r: Vec<RelationDescriptor> = Vec::new();
    let mut i: usize = 0;
    while i < table.relations.len()
        invariant
            i <= table.relations.len(),
            r.len() == i,
            forall|k: int|
                0 <= k < i ==> #[trigger] r@[k].deep_view() == descriptor_spec(
                    table.relations@[k]@,
                ),
        decreases table.relations.len() - i,
    {
        r.push(descriptor(&table.relations[i]));
        i = i + 1;
    }
    assert(r.deep_view() =~= table@.relations.map_values(
        |x: RelationDefinitionView| descriptor_spec(x),
    ));
    r
}

/// How a relation is saved, loaded and deleted together with its owner.
pub enum CascadeKind {
    /// A single related entity, saved before its owner and deleted after it.
    Single,
    /// Children saved after their owner with their foreign key set, and
    /// deleted before it; `child_module` names the children's column module.
    Many { child_module: String, foreign_key: String },
}

/// One relation that cascades.
pub struct CascadeStep {
    pub ident: String,
    pub kind: CascadeKind,
}

/// The view of a [`CascadeStep`].
pub struct CascadeStepView {
    pub ident: Seq<char>,
    /// `None` for a single relation; for children, their column module and
    /// foreign key.
    pub many: Option<(Seq<char>, Seq<char>)>,
}

impl View for CascadeStep {
    type V = CascadeStepView;

    open spec fn view(&self) -> CascadeStepView {
        CascadeStepView {
            ident: self.ident@,
            many: match self.kind {
                CascadeKind::Single => None,
                CascadeKind::Many { child_module, foreign_key } => Some(
                    (child_module@, foreign_key@),
                ),
            },
        }
    }
}

impl DeepView for CascadeStep {
    type V = CascadeStepView;

    open spec fn deep_view(&self) -> CascadeStepView {
        self@
    }
}

/// The element type of a `Vec<T>` type, or else the type itself.
pub open spec fn vec_element_spec(t: RustTypeView) -> RustTypeView {
    match t {
        RustTypeView::Path { segments, first_arg: Some(a) } => if segments.len() > 0
            && segments.last() == "Vec"@ {
            *a
        } else {
            t
        },
        _ => t,
    }
}

/// The identifier naming the children of a collection: that of its element
/// type, or `Unknown` when the element type is not a path.
pub open spec fn child_ident_spec(t: RustTypeView) -> Seq<char> {
    match last_ident_spec(vec_element_spec(t)) {
        Some(id) => id,
        None => "Unknown"@,
    }
}

/// Whether a relation cascades: it is eagerly held and marked to cascade,
/// and its kind is `HasOne`, `BelongsTo` or `HasMany`.
pub open spec fn cascades(r: RelationDefinitionView) -> bool {
    r.cascade && r.is_eager && r.relation_type != RelationType::BelongsToMany
}

/// The cascade step of a relation that cascades.
pub open spec fn cascade_step_spec(r: RelationDefinitionView) -> CascadeStepView {
    CascadeStepView {
        ident: r.ident,
        many: if r.relation_type == RelationType::HasMany {
            Some((lowercase(child_ident_spec(r.ty)), r.foreign_key))
        } else {
            None
        },
    }
}

/// The cascade steps of the relations, in order, those that do not cascade
/// left out.
pub open spec fn cascade_steps_spec(rs: Seq<RelationDefinitionView>) -> Seq<CascadeStepView>
    decreases rs.len(),
{
    if rs.len() == 0 {
        Seq::empty()
    } else {
        cascade_steps_spec(rs.drop_last()) + if cascades(rs.last()) {
            seq![cascade_step_spec(rs.last())]
        } else {
            Seq::empty()
        }
    }
}

fn child_ident(t: &RustType) -> (r: String)
    ensures
        r@ == child_ident_spec(t@),
{
    let elem: &RustType = match t {
        RustType::Path { segments, first_arg: Some(a) } => {
            if segments.len() > 0 && text_is(segments[segments.len() - 1].as_str(), "Vec") {
                assert(segments.deep_view().last() == segments@.last()@);
                &**a
            } else {
                t
            }
        },
        _ => t,
    };
    proof {
        match t {
            RustType::Path { segments, first_arg: Some(a) } => {
                if segments.len() > 0 {
                    assert(segments.deep_view().last() == segments@.last()@);
                }
            },
            _ => {},
        }
    }
    assert(elem@ == vec_element_spec(t@));
    match elem {
        RustType::Path { segments, .. } => {
            if segments.len() > 0 {
                assert(segments.deep_view().last() == segments@.last()@);
                segments[segments.len() - 1].clone()
            } else {
                String::from_str("Unknown")
            }
        },
        _ => String::from_str("Unknown"),
    }
}

/// The relations that are saved, loaded and deleted with the entity, in order.
pub fn cascade_steps(table: &TableData) -> (r: Vec<CascadeStep>)
    ensures
        r.deep_view() == cascade_steps_spec(table@.relations),
{
    let mut r: Vec<CascadeStep> = Vec::new();
    let mut i: usize = 0;
    assert(table@.relations.take(0) =~= Seq::<RelationDefinitionView>::empty());
    while i < table.relations.len()
        invariant
            i <= table.relations.len(),
            r.deep_view() == cascade_steps_spec(table@.relations.take(i as int)),
        decreases table.relations.len() - i,
    {
        let rel = &table.relations[i];
        let ghost before = r.deep_view();
        let ghost t = table@.relations.take(i + 1);
        proof {
            assert(t.drop_last() =~= table@.relations.take(i as int));
            assert(t.last() == rel@);
        }
        let kind = match rel.relation_type {
            RelationType::HasOne | RelationType::BelongsTo => Some(CascadeKind::Single),
            RelationType::HasMany => {
                let id = child_ident(&rel.ty);
                Some(
                    CascadeKind::Many {
                        child_module: to_lowercase(id.as_str()),
                        foreign_key: rel.foreign_key.clone(),
                    },
                )
            },
            RelationType::BelongsToMany => None,
        };
        if rel.cascade && rel.is_eager && kind.is_some() {
            let step = CascadeStep { ident: rel.ident.clone(), kind: kind.unwrap() };
            assert(step@ == cascade_step_spec(rel@));
            r.push(step);
            assert(r.deep_view() =~= before.push(step@));
            assert(r.deep_view() =~= cascade_steps_spec(t));
        } else {
            assert(before =~= cascade_steps_spec(t));
        }
        i = i + 1;
    }
    assert(table@.relations.take(table.relations.len() as int) =~= table@.relations);
    r
}

/// The names of an entity's entity cache and query cache:
/// `{IDENT}_CACHE` and `{IDENT}_QUERY_CACHE`, the type's name in ASCII
/// uppercase.
pub open spec fn cache_names_spec(ident: Seq<char>) -> (Seq<char>, Seq<char>) {
    let upper = ident.map_values(|c: char| ascii_upper(c));
    (upper + "_CACHE"@, upper + "_QUERY_CACHE"@)
}

/// The names of an entity's caches.
pub fn cache_names(table: &TableData) -> (r: (String, String))
    ensures
        (r.0@, r.1@) == cache_names_spec(table@.ident),
{
    let upper = to_ascii_uppercase(table.ident.as_str());
    let mut a = upper.clone();
    a.append("_CACHE");
    let mut b = upper;
    b.append("_QUERY_CACHE");
    (a, b)
}

} // verus!
