//! The table schema that a model declares.
use vstd::prelude::*;
use crate::model::field::{Field, FieldView};
use crate::model::relation::{RelationDefinition, RelationDefinitionView};
use crate::model::rust_type::{get_sql_type_from_rust_type, sql_type_of_spec, RustType, RustTypeView};
use crate::model::table::{TableData, TableDataView};
use crate::schema::{
    duplicate_strings, ColumnSchemaModel, ColumnSchemaView, Duplicate, IndexModel, IndexView,
    PrimaryKeyModel, PrimaryKeyView, RelationModel, RelationType, RelationView, SqlType,
    SqlTypeView, TableSchemaModel, TableSchemaView,
};
use crate::generator::repository::vec_element_spec;

verus! {

/// What a relation needs of the entity it points at: that entity's table
/// name and its primary key's name and column type.
pub struct RelationTarget {
    pub table_name: String,
    pub key_name: String,
    pub key_type: SqlType,
}

/// The view of a [`RelationTarget`].
pub struct RelationTargetView {
    pub table_name: Seq<char>,
    pub key_name: Seq<char>,
    pub key_type: SqlTypeView,
}

impl View for RelationTarget {
    type V = RelationTargetView;

    open spec fn view(&self) -> RelationTargetView {
        RelationTargetView {
            table_name: self.table_name@,
            key_name: self.key_name@,
            key_type: self.key_type@,
        }
    }
}

impl DeepView for RelationTarget {
    type V = RelationTargetView;

    open spec fn deep_view(&self) -> RelationTargetView {
        self@
    }
}

/// The type of the entity a relation points at: the element type of a
/// collection for `HasMany` and `BelongsToMany`, else the field's type.
pub open spec fn target_type_spec(r: RelationDefinitionView) -> RustTypeView {
    if r.relation_type == RelationType::HasMany || r.relation_type == RelationType::BelongsToMany {
        vec_element_spec(r.ty)
    } else {
        r.ty
    }
}

/// The type of the entity a relation points at.
pub fn relation_target_type(r: &RelationDefinition) -> (t: RustType)
    ensures
        t@ == target_type_spec(r@),
{
    match r.relation_type {
        RelationType::HasMany | RelationType::BelongsToMany => {
            let elem: &RustType = match &r.ty {
                RustType::Path { segments, first_arg: Some(a) } => {
                    if segments.len() > 0 && crate::text::text_is(
                        segments[segments.len() - 1].as_str(),
                        "Vec",
                    ) {
                        assert(segments.deep_view().last() == segments@.last()@);
                        &**a
                    } else {
                        &r.ty
                    }
                },
                _ => &r.ty,
            };
            proof {
                match &r.ty {
                    RustType::Path { segments, first_arg: Some(a) } => {
                        if segments.len() > 0 {
                            assert(segments.deep_view().last() == segments@.last()@);
                        }
                    },
                    _ => {},
                }
            }
            elem.duplicate()
        },
        _ => r.ty.duplicate(),
    }
}

/// The column of a field: its name, nullability and uniqueness, and the
/// custom type of its definition or else the type mapped from its Rust type.
pub open spec fn column_of_field(f: FieldView) -> ColumnSchemaView {
    ColumnSchemaView {
        name: f.name,
        is_nullable: f.is_nullable,
        is_unique: f.is_unique,
        sql_type: match f.column_definition {
            Some(d) => SqlTypeView::Custom(d),
            None => sql_type_of_spec(f.ty),
        },
        generation_type: None,
    }
}

/// The relation of the schema for a relation of the model whose target is
/// `target`: the table named in the attribute or else the target's, keyed
/// by the target's primary key, with a foreign key column of the target's
/// key type that is unique exactly for `HasOne`.
pub open spec fn relation_of(
    r: RelationDefinitionView,
    target: RelationTargetView,
    source: Seq<char>,
) -> RelationView {
    RelationView {
        relation_type: r.relation_type,
        table: match r.table {
            Some(t) => t,
            None => target.table_name,
        },
        foreign_key: r.foreign_key,
        target_key: target.key_name,
        relation_name: r.relation_name,
        source_table: source,
        field: ColumnSchemaView {
            name: r.foreign_key,
            is_nullable: false,
            is_unique: r.relation_type == RelationType::HasOne,
            sql_type: target.key_type,
            generation_type: None,
        },
        is_eager: false,
    }
}

/// The schema a model declares, given the targets of its relations in order.
pub open spec fn schema_of_spec(t: TableDataView, targets: Seq<RelationTargetView>) -> TableSchemaView {
    TableSchemaView {
        name: t.name,
        fields: t.fields.map_values(|f: FieldView| column_of_field(f)),
        indexes: t.indexes,
        primary_key: PrimaryKeyView {
            name: t.primary_key.name,
            ty: sql_type_of_spec(t.primary_key.ty),
            generation_type: t.primary_key.generation_strategy,
        },
        relations: Seq::new(t.relations.len(), |i: int| relation_of(t.relations[i], targets[i], t.name)),
    }
}

fn column_of(f: &Field) -> (c: ColumnSchemaModel)
    ensures
        c@ == column_of_field(f@),
{
    let sql_type = match &f.column_definition {
        Some(d) => SqlType::Custom(d.clone()),
        None => get_sql_type_from_rust_type(&f.ty),
    };
    ColumnSchemaModel {
        name: f.name.clone(),
        is_nullable: f.is_nullable,
        is_unique: f.is_unique,
        sql_type,
        generation_type: None,
    }
}

fn relation_model(r: &RelationDefinition, target: &RelationTarget, source: &String) -> (m:
    RelationModel)
    ensures
        m@ == relation_of(r@, target@, source@),
{
    let table = match &r.table {
        Some(t) => t.clone(),
        None => target.table_name.clone(),
    };
    let is_unique = match r.relation_type {
        RelationType::HasOne => true,
        _ => false,
    };
    let field = ColumnSchemaModel {
        name: r.foreign_key.clone(),
        is_nullable: false,
        is_unique,
        sql_type: target.key_type.duplicate(),
        generation_type: None,
    };
    RelationModel::new(
        r.relation_type,
        table,
        r.foreign_key.clone(),
        target.key_name.clone(),
        r.relation_name.clone(),
        source.clone(),
        field,
    )
}

/// The schema that a model declares (`TableSchema::get_schema` of the
/// derive), given for each relation, in order, the entity it points at.
pub fn schema_of(table: &TableData, targets: &Vec<RelationTarget>) -> (s: TableSchemaModel)
    requires
        targets.len() == table.relations.len(),
    ensures
        s@ == schema_of_spec(table@, targets.deep_view()),
{
    let mut fields: Vec<ColumnSchemaModel> = Vec::new();
    let mut i: usize = 0;
    while i < table.fields.len()
        invariant
            i <= table.fields.len(),
            fields.len() == i,
            forall|k: int|
                0 <= k < i ==> #[trigger] fields@[k]@ == column_of_field(table.fields@[k]@),
        decreases table.fields.len() - i,
    {
        fields.push(column_of(&table.fields[i]));
        i = i + 1;
    }
    let mut indexes: Vec<IndexModel> = Vec::new();
    let mut j: usize = 0;
    while j < table.indexes.len()
        invariant
            j <= table.indexes.len(),
            indexes.len() == j,
            forall|k: int| 0 <= k < j ==> #[trigger] indexes@[k]@ == table.indexes@[k]@,
        decreases table.indexes.len() - j,
    {
        let idx = &table.indexes[j];
        indexes.push(
            IndexModel {
                name: idx.name.clone(),
                fields: duplicate_strings(&idx.fields),
                unique: idx.unique,
            },
        );
        j = j + 1;
    }
    let mut relations: Vec<RelationModel> = Vec::new();
    let mut k: usize = 0;
    while k < table.relations.len()
        invariant
            k <= table.relations.len(),
            targets.len() == table.relations.len(),
            relations.len() == k,
            forall|m: int|
                0 <= m < k ==> #[trigger] relations@[m]@ == relation_of(
                    table.relations@[m]@,
                    targets@[m]@,
                    table.name@,
                ),
        decreases table.relations.len() - k,
    {
        relations.push(relation_model(&table.relations[k], &targets[k], &table.name));
        k = k + 1;
    }
    let primary_key = PrimaryKeyModel::new(
        table.primary_key.name.clone(),
        table.primary_key.generation_strategy,
        get_sql_type_from_rust_type(&table.primary_key.ty),
    );
    let s = TableSchemaModel {
        name: table.name.clone(),
        fields,
        indexes,
        primary_key,
        relations,
    };
    proof {
        let want = schema_of_spec(table@, targets.deep_view());
        assert(s@.fields =~= want.fields);
        assert(s@.indexes =~= want.indexes);
        assert(s@.relations =~= want.relations);
    }
    s
}

/// In a declared schema, the foreign key column of a relation is unique
/// exactly when the relation is `HasOne`, never nullable, and of the target
/// key's type; the relation's source is the model's own table.
pub proof fn law_relation_key_columns(t: TableDataView, targets: Seq<RelationTargetView>, i: int)
    requires
        targets.len() == t.relations.len(),
        0 <= i < t.relations.len(),
    ensures
        schema_of_spec(t, targets).relations[i].field.is_unique <==> t.relations[i].relation_type
            == RelationType::HasOne,
        !schema_of_spec(t, targets).relations[i].field.is_nullable,
        schema_of_spec(t, targets).relations[i].field.sql_type == targets[i].key_type,
        schema_of_spec(t, targets).relations[i].source_table == t.name,
{
}

} // verus!
