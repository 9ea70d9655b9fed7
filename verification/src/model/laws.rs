//! Properties of a parsed model that hold for every input.
use vstd::prelude::*;
use crate::diff_engine::names::first_occurrence;
use crate::schema::IndexView;
use super::field::FieldView;
use super::index::generated_index_name;
use super::parser::{
    definition_names, field_indexes_spec, first_duplicate, model_indexes_spec, named_index,
    parse_fields_spec, parse_model_spec, ParsedFields,
};
use super::table::{FieldInput, ModelInput};

verus! {

/// How many fields carry `#[PrimaryKey]`.
pub open spec fn primary_key_count(fs: Seq<FieldInput>) -> nat
    decreases fs.len(),
{
    if fs.len() == 0 {
        0
    } else {
        primary_key_count(fs.drop_last()) + if fs.last().primary_key is Some {
            1nat
        } else {
            0nat
        }
    }
}

proof fn lemma_fields_key_count(fs: Seq<FieldInput>)
    requires
        parse_fields_spec(fs) is Ok,
    ensures
        primary_key_count(fs) <= 1,
        (parse_fields_spec(fs)->Ok_0).1 is Some <==> primary_key_count(fs) == 1,
    decreases fs.len(),
{
    if fs.len() > 0 {
        lemma_fields_key_count(fs.drop_last());
    }
}

proof fn lemma_no_duplicate(names: Seq<Seq<char>>, n: nat)
    requires
        n <= names.len(),
        first_duplicate(names, n) is None,
    ensures
        forall|i: int, j: int| 0 <= i < j < n ==> names[i] != names[j],
    decreases n,
{
    if n > 0 {
        lemma_no_duplicate(names, (n - 1) as nat);
        assert(first_occurrence(names, n - 1));
    }
}

/// A model that parses has exactly one field marked as its primary key.
pub proof fn law_single_primary_key(m: ModelInput)
    requires
        parse_model_spec(m) is Ok,
    ensures
        primary_key_count(m.fields@) == 1,
{
    lemma_fields_key_count(m.fields@);
}

/// The indexes of a model that parses have distinct, non-empty names.
pub proof fn law_index_names_distinct(m: ModelInput)
    requires
        parse_model_spec(m) is Ok,
    ensures
        forall|i: int, j: int|
            0 <= i < j < (parse_model_spec(m)->Ok_0).indexes.len() ==> (parse_model_spec(
                m,
            )->Ok_0).indexes[i].name != (parse_model_spec(m)->Ok_0).indexes[j].name,
        forall|i: int|
            0 <= i < (parse_model_spec(m)->Ok_0).indexes.len() ==> (parse_model_spec(
                m,
            )->Ok_0).indexes[i].name.len() > 0,
{
    let t = parse_model_spec(m)->Ok_0;
    let names = definition_names(t.indexes);
    lemma_no_duplicate(names, t.indexes.len());
    assert forall|i: int, j: int| 0 <= i < j < t.indexes.len() implies t.indexes[i].name
        != t.indexes[j].name by {
        assert(names[i] == t.indexes[i].name);
        assert(names[j] == t.indexes[j].name);
    }
    reveal_strlit("idx_");
    assert forall|i: int| 0 <= i < t.indexes.len() implies t.indexes[i].name.len() > 0 by {
    }
}

/// The index that a column marked `index` gets.
pub open spec fn column_index(table: Seq<char>, column: Seq<char>) -> IndexView {
    IndexView { name: generated_index_name(table, seq![column]), fields: seq![column], unique: false }
}

proof fn lemma_field_index_present(fields: Seq<FieldView>, table: Seq<char>, k: int)
    requires
        0 <= k < fields.len(),
        fields[k].has_index,
    ensures
        field_indexes_spec(fields, table).contains(column_index(table, fields[k].name)),
    decreases fields.len(),
{
    let prev = field_indexes_spec(fields.drop_last(), table);
    if k == fields.len() - 1 {
        let all = field_indexes_spec(fields, table);
        assert(all[prev.len() as int] == column_index(table, fields[k].name));
    } else {
        lemma_field_index_present(fields.drop_last(), table, k);
        let w = choose|w: int| 0 <= w < prev.len() && prev[w] == column_index(
            table,
            fields[k].name,
        );
        assert(field_indexes_spec(fields, table)[w] == prev[w]);
    }
}

/// Every column marked `index` of a model that parses has a non-unique
/// index on that column alone, named `idx_{table}_{column}`.
pub proof fn law_column_index(m: ModelInput, k: int)
    requires
        parse_model_spec(m) is Ok,
        0 <= k < (parse_model_spec(m)->Ok_0).fields.len(),
        (parse_model_spec(m)->Ok_0).fields[k].has_index,
    ensures
        (parse_model_spec(m)->Ok_0).indexes.contains(
            column_index(
                (parse_model_spec(m)->Ok_0).name,
                (parse_model_spec(m)->Ok_0).fields[k].name,
            ),
        ),
{
    let t = parse_model_spec(m)->Ok_0;
    let v = column_index(t.name, t.fields[k].name);
    lemma_field_index_present(t.fields, t.name, k);
    let fi = field_indexes_spec(t.fields, t.name);
    let w = choose|w: int| 0 <= w < fi.len() && fi[w] == v;
    let tables = super::parser::table_indexes_spec(m.index_args.deep_view());
    let all = tables + fi;
    assert(all[tables.len() + w] == v);
    reveal_strlit("idx_");
    assert(v.name.len() > 0);
    assert(named_index(v, t.name) == v);
    assert(model_indexes_spec(m.index_args.deep_view(), t.fields, t.name)[tables.len() + w] == v);
}

} // verus!
