//! The columns that an entity writes, with where each value comes from.
use vstd::prelude::*;
use crate::model::field::FieldView;
use crate::model::relation::RelationDefinitionView;
use crate::model::table::{TableData, TableDataView};
use crate::schema::{holds_foreign_key, GenerationType, RelationType};

verus! {

/// Where the value written to a column comes from.
pub enum ValueSource {
    /// The entity's field with this name.
    Field(String),
    /// The id of the related entity held in this field; for a lazily loaded
    /// relation the id is resolved when the value is written.
    RelationId { ident: String, eager: bool },
}

/// The view of a [`ValueSource`].
pub enum ValueSourceView {
    Field(Seq<char>),
    RelationId { ident: Seq<char>, eager: bool },
}

/// A column that is written, with the source of its value.
pub struct PlanColumn {
    pub column: String,
    pub source: ValueSource,
}

/// The view of a [`PlanColumn`].
pub struct PlanColumnView {
    pub column: Seq<char>,
    pub source: ValueSourceView,
}

impl View for PlanColumn {
    type V = PlanColumnView;

    open spec fn view(&self) -> PlanColumnView {
        PlanColumnView {
            column: self.column@,
            source: match self.source {
                ValueSource::Field(f) => ValueSourceView::Field(f@),
                ValueSource::RelationId { ident, eager } => ValueSourceView::RelationId {
                    ident: ident@,
                    eager,
                },
            },
        }
    }
}

impl DeepView for PlanColumn {
    type V = PlanColumnView;

    open spec fn deep_view(&self) -> PlanColumnView {
        self@
    }
}

/// The columns of an entity's insert (the values the database does not
/// generate) and the columns of its update (every value).
pub struct InsertPlanColumns {
    pub insert: Vec<PlanColumn>,
    pub all: Vec<PlanColumn>,
}

/// Whether the database generates the value.
pub open spec fn is_generated(g: Option<GenerationType>) -> bool {
    g == Some(GenerationType::AutoIncrement)
}

fn generated(g: Option<GenerationType>) -> (r: bool)
    ensures
        r == is_generated(g),
{
    match g {
        Some(x) => {
            assert(x == GenerationType::AutoIncrement);
            true
        },
        None => false,
    }
}

/// The column of a field, read from that field.
pub open spec fn field_column(f: FieldView) -> PlanColumnView {
    PlanColumnView { column: f.name, source: ValueSourceView::Field(f.iden) }
}

/// The foreign key column of a relation, read from the related entity's id.
pub open spec fn relation_column(r: RelationDefinitionView) -> PlanColumnView {
    PlanColumnView {
        column: r.foreign_key,
        source: ValueSourceView::RelationId { ident: r.ident, eager: r.is_eager },
    }
}

/// The columns of the fields, those the database generates left out when
/// `skip_generated` holds.
pub open spec fn field_columns(fs: Seq<FieldView>, skip_generated: bool) -> Seq<PlanColumnView>
    decreases fs.len(),
{
    if fs.len() == 0 {
        Seq::empty()
    } else {
        field_columns(fs.drop_last(), skip_generated) + if skip_generated && is_generated(
            fs.last().generation_strategy,
        ) {
            Seq::empty()
        } else {
            seq![field_column(fs.last())]
        }
    }
}

/// The foreign key columns of the relations that hold one (`HasOne`,
/// `BelongsTo`).
pub open spec fn relation_columns(rs: Seq<RelationDefinitionView>) -> Seq<PlanColumnView>
    decreases rs.len(),
{
    if rs.len() == 0 {
        Seq::empty()
    } else {
        relation_columns(rs.drop_last()) + if holds_foreign_key(rs.last().relation_type) {
            seq![relation_column(rs.last())]
        } else {
            Seq::empty()
        }
    }
}

/// The primary key column, unless it is left out because the database
/// generates it.
pub open spec fn key_columns(t: TableDataView, skip_generated: bool) -> Seq<PlanColumnView> {
    if skip_generated && is_generated(t.primary_key.generation_strategy) {
        Seq::empty()
    } else {
        seq![PlanColumnView { column: t.primary_key.name, source: ValueSourceView::Field(t.primary_key.iden) }]
    }
}

/// The columns written for an entity: the primary key, the columns, then the
/// foreign keys; with `skip_generated`, the key and columns the database
/// generates are left out.
pub open spec fn plan_columns_spec(t: TableDataView, skip_generated: bool) -> Seq<PlanColumnView> {
    key_columns(t, skip_generated) + field_columns(t.fields, skip_generated) + relation_columns(
        t.relations,
    )
}

fn plan_columns(table: &TableData, skip_generated: bool) -> (r: Vec<PlanColumn>)
    ensures
        r.deep_view() == plan_columns_spec(table@, skip_generated),
{
    let mut r: Vec<PlanColumn> = Vec::new();
    let pk = &table.primary_key;
    if !(skip_generated && generated(pk.generation_strategy)) {
        let c = PlanColumn { column: pk.name.clone(), source: ValueSource::Field(pk.iden.clone()) };
        assert(c@ == key_columns(table@, skip_generated)[0]);
        r.push(c);
        assert(r.deep_view()[0] == c@);
        assert(r.deep_view().len() == 1);
    } else {
        assert(r.deep_view().len() == 0);
    }
    assert(r.deep_view().len() == key_columns(table@, skip_generated).len());
    assert(r.deep_view() =~= key_columns(table@, skip_generated));
    let ghost head = r.deep_view();
    let mut i: usize = 0;
    assert(table@.fields.take(0) =~= Seq::<FieldView>::empty());
    while i < table.fields.len()
        invariant
            i <= table.fields.len(),
            r.deep_view() == head + field_columns(table@.fields.take(i as int), skip_generated),
        decreases table.fields.len() - i,
    {
        let f = &table.fields[i];
        let ghost before = r.deep_view();
        let ghost t = table@.fields.take(i + 1);
        proof {
            assert(t.drop_last() =~= table@.fields.take(i as int));
            assert(t.last() == f@);
        }
        if !(skip_generated && generated(f.generation_strategy)) {
            let c = PlanColumn { column: f.name.clone(), source: ValueSource::Field(f.iden.clone()) };
            assert(c@ == field_column(f@));
            r.push(c);
            assert(r.deep_view() =~= before.push(c@));
            assert(r.deep_view() =~= head + field_columns(t, skip_generated));
        } else {
            assert(before =~= head + field_columns(t, skip_generated));
        }
        i = i + 1;
    }
    assert(table@.fields.take(table.fields.len() as int) =~= table@.fields);
    let ghost mid = r.deep_view();
    let mut j: usize = 0;
    assert(table@.relations.take(0) =~= Seq::<RelationDefinitionView>::empty());
    while j < table.relations.len()
        invariant
            j <= table.relations.len(),
            r.deep_view() == mid + relation_columns(table@.relations.take(j as int)),
        decreases table.relations.len() - j,
    {
        let rel = &table.relations[j];
        let holds = match rel.relation_type {
            RelationType::HasOne => true,
            RelationType::BelongsTo => true,
            _ => false,
        };
        let ghost before = r.deep_view();
        let ghost t = table@.relations.take(j + 1);
        proof {
            assert(t.drop_last() =~= table@.relations.take(j as int));
            assert(t.last() == rel@);
        }
        if holds {
            let c = PlanColumn {
                column: rel.foreign_key.clone(),
                source: ValueSource::RelationId { ident: rel.ident.clone(), eager: rel.is_eager },
            };
            assert(c@ == relation_column(rel@));
            r.push(c);
            assert(r.deep_view() =~= before.push(c@));
            assert(r.deep_view() =~= mid + relation_columns(t));
        } else {
            assert(before =~= mid + relation_columns(t));
        }
        j = j + 1;
    }
    assert(table@.relations.take(table.relations.len() as int) =~= table@.relations);
    r
}

/// The columns of an entity's insert and of its full write.
pub fn insert_plan_columns(table: &TableData) -> (r: InsertPlanColumns)
    ensures
        r.insert.deep_view() == plan_columns_spec(table@, true),
        r.all.deep_view() == plan_columns_spec(table@, false),
{
    InsertPlanColumns { insert: plan_columns(table, true), all: plan_columns(table, false) }
}

/// The names of the written columns.
pub open spec fn column_names_spec(cols: Seq<PlanColumnView>) -> Seq<Seq<char>> {
    cols.map_values(|c: PlanColumnView| c.column)
}

/// The names of the columns an insert writes (`get_insert_columns`).
pub fn insert_column_names(table: &TableData) -> (r: Vec<String>)
    ensures
        r.deep_view() == column_names_spec(plan_columns_spec(table@, true)),
{
    let cols = plan_columns(table, true);
    let mut r: Vec<String> = Vec::new();
    let mut i: usize = 0;
    while i < cols.len()
        invariant
            i <= cols.len(),
            r.len() == i,
            forall|k: int| 0 <= k < i ==> #[trigger] r@[k]@ == cols@[k].column@,
        decreases cols.len() - i,
    {
        r.push(cols[i].column.clone());
        i = i + 1;
    }
    proof {
        assert forall|k: int| 0 <= k < r.len() implies r.deep_view()[k] == column_names_spec(
            cols.deep_view(),
        )[k] by {
            assert(cols.deep_view()[k] == cols@[k]@);
        }
        assert(r.deep_view() =~= column_names_spec(cols.deep_view()));
    }
    r
}

proof fn lemma_field_columns_ungenerated(fs: Seq<FieldView>)
    requires
        forall|k: int| 0 <= k < fs.len() ==> !is_generated(#[trigger] fs[k].generation_strategy),
    ensures
        field_columns(fs, true) == field_columns(fs, false),
    decreases fs.len(),
{
    if fs.len() > 0 {
        let p = fs.drop_last();
        assert forall|k: int| 0 <= k < p.len() implies !is_generated(
            #[trigger] p[k].generation_strategy,
        ) by {
            assert(p[k] == fs[k]);
        }
        lemma_field_columns_ungenerated(p);
        assert(!is_generated(fs[fs.len() - 1].generation_strategy));
    }
}

/// When the database generates neither the key nor any column, an insert
/// writes exactly the columns of a full write, in the same order.
pub proof fn law_insert_writes_all_without_generated(t: TableDataView)
    requires
        !is_generated(t.primary_key.generation_strategy),
        forall|k: int|
            0 <= k < t.fields.len() ==> !is_generated(#[trigger] t.fields[k].generation_strategy),
    ensures
        plan_columns_spec(t, true) == plan_columns_spec(t, false),
{
    lemma_field_columns_ungenerated(t.fields);
}

/// A generated primary key is left out of the insert and kept first in a
/// full write.
pub proof fn law_generated_key_left_out(t: TableDataView)
    requires
        is_generated(t.primary_key.generation_strategy),
    ensures
        plan_columns_spec(t, false)[0].column == t.primary_key.name,
        plan_columns_spec(t, true) == field_columns(t.fields, true) + relation_columns(
            t.relations,
        ),
{
    assert(key_columns(t, true) =~= Seq::<PlanColumnView>::empty());
    assert(Seq::<PlanColumnView>::empty() + field_columns(t.fields, true) =~= field_columns(
        t.fields,
        true,
    ));
}

/// Whether the database does not generate a column's value.
pub open spec fn not_generated(f: FieldView) -> bool {
    !is_generated(f.generation_strategy)
}

/// Whether a relation holds a foreign key column in its table.
pub open spec fn holds_key(r: RelationDefinitionView) -> bool {
    holds_foreign_key(r.relation_type)
}

proof fn lemma_field_columns_shape(fs: Seq<FieldView>, skip_generated: bool)
    ensures
        field_columns(fs, skip_generated) == (if skip_generated {
            fs.filter(|f: FieldView| not_generated(f))
        } else {
            fs
        }).map_values(|f: FieldView| field_column(f)),
    decreases fs.len(),
{
    reveal(Seq::filter);
    if fs.len() > 0 {
        lemma_field_columns_shape(fs.drop_last(), skip_generated);
        let kept = if skip_generated {
            fs.filter(|f: FieldView| not_generated(f))
        } else {
            fs
        };
        let prev = if skip_generated {
            fs.drop_last().filter(|f: FieldView| not_generated(f))
        } else {
            fs.drop_last()
        };
        if skip_generated && is_generated(fs.last().generation_strategy) {
            assert(kept == prev);
            assert(field_columns(fs, skip_generated) =~= field_columns(fs.drop_last(), skip_generated));
        } else {
            assert(kept =~= prev.push(fs.last()));
            assert(kept.map_values(|f: FieldView| field_column(f)) =~= prev.map_values(
                |f: FieldView| field_column(f),
            ).push(field_column(fs.last())));
        }
    } else {
        assert(fs.filter(|f: FieldView| not_generated(f)) =~= fs);
    }
}

proof fn lemma_relation_columns_shape(rs: Seq<RelationDefinitionView>)
    ensures
        relation_columns(rs) == rs.filter(|r: RelationDefinitionView| holds_key(r)).map_values(
            |r: RelationDefinitionView| relation_column(r),
        ),
    decreases rs.len(),
{
    reveal(Seq::filter);
    if rs.len() > 0 {
        lemma_relation_columns_shape(rs.drop_last());
        let kept = rs.filter(|r: RelationDefinitionView| holds_key(r));
        let prev = rs.drop_last().filter(|r: RelationDefinitionView| holds_key(r));
        if holds_foreign_key(rs.last().relation_type) {
            assert(kept =~= prev.push(rs.last()));
            assert(kept.map_values(|r: RelationDefinitionView| relation_column(r)) =~= prev.map_values(
                |r: RelationDefinitionView| relation_column(r),
            ).push(relation_column(rs.last())));
        } else {
            assert(kept == prev);
            assert(relation_columns(rs) =~= relation_columns(rs.drop_last()));
        }
    } else {
        assert(rs.filter(|r: RelationDefinitionView| holds_key(r)) =~= rs);
    }
}

/// The columns an entity writes, each with the source of its value (so
/// there is one value per column): a full write has the primary key, every
/// column in order, then the foreign key of every `HasOne` and `BelongsTo`
/// relation in order (a `HasMany` adds none); an insert has the same list
/// with the key and the columns that the database generates left out.
pub proof fn law_insert_plan_columns(t: TableDataView)
    ensures
        plan_columns_spec(t, false) == seq![
            PlanColumnView {
                column: t.primary_key.name,
                source: ValueSourceView::Field(t.primary_key.iden),
            },
        ] + t.fields.map_values(|f: FieldView| field_column(f)) + t.relations.filter(
            |r: RelationDefinitionView| holds_key(r),
        ).map_values(|r: RelationDefinitionView| relation_column(r)),
        plan_columns_spec(t, true) == (if is_generated(t.primary_key.generation_strategy) {
            Seq::empty()
        } else {
            seq![
                PlanColumnView {
                    column: t.primary_key.name,
                    source: ValueSourceView::Field(t.primary_key.iden),
                },
            ]
        }) + t.fields.filter(|f: FieldView| not_generated(f)).map_values(
            |f: FieldView| field_column(f),
        ) + t.relations.filter(|r: RelationDefinitionView| holds_key(r)).map_values(
            |r: RelationDefinitionView| relation_column(r),
        ),
{
    lemma_field_columns_shape(t.fields, true);
    lemma_field_columns_shape(t.fields, false);
    lemma_relation_columns_shape(t.relations);
}

} // verus!
