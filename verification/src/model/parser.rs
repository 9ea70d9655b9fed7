//! Parsing a model: its columns, its single primary key, its indexes
//! (table-level and column-level) and its relations.
use vstd::prelude::*;
use crate::diff_engine::names::{first_occurrence, is_first_occurrence};
use crate::schema::IndexView;
use super::field::{field_spec, Field, FieldView};
use super::index::{
    generated_index_name, parse_index_attribute_spec, IndexAttribute, IndexDefinition,
};
use super::primary_key::{primary_key_spec, PrimaryKeyField, PrimaryKeyFieldView};
use super::relation::{relation_spec, RelationDefinition, RelationDefinitionView};
use super::table::{FieldInput, ModelInput, TableData, TableDataView};

verus! {

/// What the fields of a model yield: columns, the primary key if any, relations.
pub type ParsedFields = (Seq<FieldView>, Option<PrimaryKeyFieldView>, Seq<RelationDefinitionView>);

/// The effect of one more field on what the fields before it yielded.
pub open spec fn field_step(acc: ParsedFields, f: FieldInput) -> Result<ParsedFields, Seq<char>> {
    match f.ident {
        None => Err("Field must be named"@),
        Some(id) => match f.primary_key {
            Some(pk) => if acc.1 is Some {
                Err("Only one field can be marked with #[PrimaryKey]"@)
            } else {
                Ok((acc.0, Some(primary_key_spec(f.column, pk, id@, f.ty@)), acc.2))
            },
            None => match f.relation {
                Some(r) => Ok((acc.0, acc.1, acc.2.push(relation_spec(r, id@, f.ty@, f.is_lazy)))),
                None => Ok((acc.0.push(field_spec(f.column, id@, f.ty@)), acc.1, acc.2)),
            },
        },
    }
}

/// What the fields yield, or the error of the first field that is unnamed or
/// is a second primary key.
pub open spec fn parse_fields_spec(fs: Seq<FieldInput>) -> Result<ParsedFields, Seq<char>>
    decreases fs.len(),
{
    if fs.len() == 0 {
        Ok((Seq::empty(), None, Seq::empty()))
    } else {
        match parse_fields_spec(fs.drop_last()) {
            Err(e) => Err(e),
            Ok(acc) => field_step(acc, fs.last()),
        }
    }
}

proof fn lemma_error_persists(fs: Seq<FieldInput>, i: int, e: Seq<char>)
    requires
        0 <= i <= fs.len(),
        parse_fields_spec(fs.take(i)) == Err::<ParsedFields, Seq<char>>(e),
    ensures
        parse_fields_spec(fs) == Err::<ParsedFields, Seq<char>>(e),
    decreases fs.len() - i,
{
    if i < fs.len() {
        assert(fs.take(i + 1).drop_last() =~= fs.take(i));
        lemma_error_persists(fs, i + 1, e);
    } else {
        assert(fs.take(i) =~= fs);
    }
}

/// The view of an optional primary key.
pub open spec fn opt_key_view(k: Option<PrimaryKeyField>) -> Option<PrimaryKeyFieldView> {
    match k {
        Some(p) => Some(p@),
        None => None,
    }
}

/// Parse the fields of a model into columns, the primary key and relations.
pub fn parse_fields(fs: &Vec<FieldInput>) -> (r: Result<
    (Vec<Field>, Option<PrimaryKeyField>, Vec<RelationDefinition>),
    String,
>)
    ensures
        match r {
            Ok((f, k, rel)) => parse_fields_spec(fs@) == Ok::<ParsedFields, Seq<char>>(
                (f.deep_view(), opt_key_view(k), rel.deep_view()),
            ),
            Err(e) => parse_fields_spec(fs@) == Err::<ParsedFields, Seq<char>>(e@),
        },
{
    let mut fields_vec: Vec<Field> = Vec::new();
    let mut primary_key: Option<PrimaryKeyField> = None;
    let mut relations: Vec<RelationDefinition> = Vec::new();
    let mut i: usize = 0;
    assert(fs@.take(0) =~= Seq::<FieldInput>::empty());
    assert(fields_vec.deep_view() =~= Seq::<FieldView>::empty());
    assert(relations.deep_view() =~= Seq::<RelationDefinitionView>::empty());
    while i < fs.len()
        invariant
            i <= fs.len(),
            parse_fields_spec(fs@.take(i as int)) == Ok::<ParsedFields, Seq<char>>(
                (fields_vec.deep_view(), opt_key_view(primary_key), relations.deep_view()),
            ),
        decreases fs.len() - i,
    {
        let f = &fs[i];
        proof {
            assert(fs@.take(i + 1).drop_last() =~= fs@.take(i as int));
            assert(fs@.take(i + 1).last() == fs@[i as int]);
        }
        let ident = match &f.ident {
            Some(id) => id,
            None => {
                let e = String::from_str("Field must be named");
                proof {
                    lemma_error_persists(fs@, i + 1, e@);
                }
                return Err(e);
            },
        };
        match &f.primary_key {
            Some(pk) => {
                if primary_key.is_some() {
                    let e = String::from_str("Only one field can be marked with #[PrimaryKey]");
                    proof {
                        lemma_error_persists(fs@, i + 1, e@);
                    }
                    return Err(e);
                }
                primary_key = Some(PrimaryKeyField::from(&f.column, pk, ident, &f.ty));
            },
            None => match &f.relation {
                Some(r) => {
                    let ghost r0 = relations.deep_view();
                    relations.push(RelationDefinition::from(r, ident, &f.ty, f.is_lazy));
                    assert(relations.deep_view() =~= r0.push(
                        relation_spec(*r, ident@, f.ty@, f.is_lazy),
                    ));
                },
                None => {
                    let ghost f0 = fields_vec.deep_view();
                    fields_vec.push(Field::from(&f.column, ident, &f.ty));
                    assert(fields_vec.deep_view() =~= f0.push(field_spec(f.column, ident@, f.ty@)));
                },
            },
        }
        i = i + 1;
    }
    assert(fs@.take(fs.len() as int) =~= fs@);
    Ok((fields_vec, primary_key, relations))
}

/// The indexes of the `#[Index(...)]` argument texts that follow the syntax,
/// in order; the others are left out.
pub open spec fn table_indexes_spec(args: Seq<Seq<char>>) -> Seq<IndexView>
    decreases args.len(),
{
    if args.len() == 0 {
        Seq::empty()
    } else {
        table_indexes_spec(args.drop_last()) + match parse_index_attribute_spec(args.last()) {
            Some(a) => seq![a],
            None => Seq::empty(),
        }
    }
}

/// A single-column, non-unique index for each column marked `index`, named
/// `idx_{table}_{column}`.
pub open spec fn field_indexes_spec(fields: Seq<FieldView>, table: Seq<char>) -> Seq<IndexView>
    decreases fields.len(),
{
    if fields.len() == 0 {
        Seq::empty()
    } else {
        let f = fields.last();
        field_indexes_spec(fields.drop_last(), table) + if f.has_index {
            seq![
                IndexView {
                    name: generated_index_name(table, seq![f.name]),
                    fields: seq![f.name],
                    unique: false,
                },
            ]
        } else {
            Seq::empty()
        }
    }
}

/// An index with its generated name when it has none.
pub open spec fn named_index(i: IndexView, table: Seq<char>) -> IndexView {
    if i.name.len() == 0 {
        IndexView { name: generated_index_name(table, i.fields), ..i }
    } else {
        i
    }
}

/// The indexes of a model: table-level ones, then column-level ones, each
/// with its generated name when it has none.
pub open spec fn model_indexes_spec(args: Seq<Seq<char>>, fields: Seq<FieldView>, table: Seq<char>) -> Seq<
    IndexView,
> {
    (table_indexes_spec(args) + field_indexes_spec(fields, table)).map_values(
        |i: IndexView| named_index(i, table),
    )
}

/// The name of the first index whose name was used by an earlier index,
/// among the first `n`.
pub open spec fn first_duplicate(names: Seq<Seq<char>>, n: nat) -> Option<Seq<char>>
    decreases n,
{
    if n == 0 {
        None
    } else {
        match first_duplicate(names, (n - 1) as nat) {
            Some(x) => Some(x),
            None => if !first_occurrence(names, n - 1) {
                Some(names[n - 1])
            } else {
                None
            },
        }
    }
}

/// The message for a repeated index name.
pub open spec fn duplicate_message(name: Seq<char>) -> Seq<char> {
    "Duplicate index name: '"@ + name + "'. Index names must be unique."@
}

/// The names of a list of index definitions.
pub open spec fn definition_names(s: Seq<IndexView>) -> Seq<Seq<char>> {
    Seq::new(s.len(), |i: int| s[i].name)
}

/// Validates that every index has a unique name; the error names the first
/// index whose name was used before.
pub fn validate_unique_index_names(indexes: &Vec<IndexDefinition>) -> (r: Result<(), String>)
    ensures
        match r {
            Ok(()) => first_duplicate(definition_names(indexes.deep_view()), indexes.len() as nat)
                is None,
            Err(e) => first_duplicate(definition_names(indexes.deep_view()), indexes.len() as nat)
                matches Some(n) && e@ == duplicate_message(n),
        },
{
    let mut names: Vec<String> = Vec::new();
    let mut i: usize = 0;
    while i < indexes.len()
        invariant
            i <= indexes.len(),
            names.len() == i,
            forall|k: int| 0 <= k < i ==> names@[k]@ == indexes@[k].name@,
        decreases indexes.len() - i,
    {
        names.push(indexes[i].name.clone());
        i = i + 1;
    }
    let ghost dn = definition_names(indexes.deep_view());
    assert(names.deep_view() =~= dn);
    let mut j: usize = 0;
    while j < names.len()
        invariant
            j <= names.len(),
            names.len() == indexes.len(),
            names.deep_view() == dn,
            dn == definition_names(indexes.deep_view()),
            first_duplicate(dn, j as nat) is None,
        decreases names.len() - j,
    {
        if !is_first_occurrence(&names, j) {
            let mut e = String::from_str("Duplicate index name: '");
            e.append(names[j].as_str());
            e.append("'. Index names must be unique.");
            proof {
                lemma_duplicate_persists(dn, (j + 1) as nat, names.len() as nat);
            }
            return Err(e);
        }
        j = j + 1;
    }
    Ok(())
}

proof fn lemma_duplicate_persists(names: Seq<Seq<char>>, i: nat, n: nat)
    requires
        i <= n,
        first_duplicate(names, i) is Some,
    ensures
        first_duplicate(names, n) == first_duplicate(names, i),
    decreases n - i,
{
    if i < n {
        lemma_duplicate_persists(names, i, (n - 1) as nat);
    }
}

fn table_indexes(args: &Vec<String>) -> (r: Vec<IndexDefinition>)
    ensures
        r.deep_view() == table_indexes_spec(args.deep_view()),
{
    let mut r: Vec<IndexDefinition> = Vec::new();
    let mut i: usize = 0;
    while i < args.len()
        invariant
            i <= args.len(),
            r.deep_view() == table_indexes_spec(args.deep_view().take(i as int)),
        decreases args.len() - i,
    {
        let ghost r0 = r.deep_view();
        match IndexAttribute::parse(args[i].as_str()) {
            Some(a) => {
                r.push(IndexDefinition::from(a));
            },
            None => {},
        }
        i = i + 1;
        proof {
            let t = args.deep_view().take(i as int);
            assert(t.drop_last() =~= args.deep_view().take(i - 1));
            assert(r.deep_view() =~= table_indexes_spec(t));
        }
    }
    assert(args.deep_view().take(args.len() as int) =~= args.deep_view());
    r
}

fn append_field_indexes(out: &mut Vec<IndexDefinition>, fields: &Vec<Field>, table: &String)
    ensures
        final(out).deep_view() == old(out).deep_view() + field_indexes_spec(
            fields.deep_view(),
            table@,
        ),
{
    let ghost start = out.deep_view();
    let mut i: usize = 0;
    while i < fields.len()
        invariant
            i <= fields.len(),
            out.deep_view() == start + field_indexes_spec(fields.deep_view().take(i as int), table@),
        decreases fields.len() - i,
    {
        let ghost r0 = out.deep_view();
        let ghost f = fields@[i as int]@;
        let ghost extra = if f.has_index {
            seq![
                IndexView {
                    name: generated_index_name(table@, seq![f.name]),
                    fields: seq![f.name],
                    unique: false,
                },
            ]
        } else {
            Seq::<IndexView>::empty()
        };
        if fields[i].has_index {
            let mut cols: Vec<String> = Vec::new();
            cols.push(fields[i].name.clone());
            assert(cols.deep_view() =~= seq![f.name]);
            let sl = cols.as_slice();
            assert(sl.deep_view() =~= seq![f.name]);
            let name = IndexDefinition::generate_name(table.as_str(), sl);
            let mut cols2: Vec<String> = Vec::new();
            cols2.push(fields[i].name.clone());
            assert(cols2.deep_view() =~= seq![f.name]);
            let d = IndexDefinition::new(name, cols2, false);
            out.push(d);
            assert(out.deep_view() =~= r0 + extra);
        } else {
            assert(out.deep_view() =~= r0 + extra);
        }
        i = i + 1;
        proof {
            let t = fields.deep_view().take(i as int);
            assert(t.drop_last() =~= fields.deep_view().take(i - 1));
            assert(t.last() == f);
            assert(out.deep_view() =~= start + field_indexes_spec(t, table@));
        }
    }
    assert(fields.deep_view().take(fields.len() as int) =~= fields.deep_view());
}

fn name_indexes(all: Vec<IndexDefinition>, table: &String) -> (r: Vec<IndexDefinition>)
    ensures
        r.deep_view() == all.deep_view().map_values(|i: IndexView| named_index(i, table@)),
{
    let mut r: Vec<IndexDefinition> = Vec::new();
    let mut i: usize = 0;
    while i < all.len()
        invariant
            i <= all.len(),
            r.len() == i,
            forall|k: int| 0 <= k < i ==> r@[k]@ == named_index(all@[k]@, table@),
        decreases all.len() - i,
    {
        let idx = &all[i];
        if idx.name.as_str().is_empty() {
            let name = IndexDefinition::generate_name(table.as_str(), idx.fields.as_slice());
            let d = idx.duplicate();
            r.push(IndexDefinition::new(name, d.fields, d.unique));
        } else {
            r.push(idx.duplicate());
        }
        i = i + 1;
    }
    assert(r.deep_view() =~= all.deep_view().map_values(|i: IndexView| named_index(i, table@)));
    r
}

/// The table data of a model, or the first error met: a type that is not a
/// struct, an unnamed field, a second primary key, no primary key, or a
/// repeated index name.
pub open spec fn parse_model_spec(m: ModelInput) -> Result<TableDataView, Seq<char>> {
    if !m.is_struct {
        Err("Model can only be derived for structs"@)
    } else {
        match parse_fields_spec(m.fields@) {
            Err(e) => Err(e),
            Ok((fields, pk, rels)) => match pk {
                None => Err("A Model must have exactly one field marked with #[PrimaryKey]"@),
                Some(key) => {
                    let name = if m.table.name@.len() == 0 {
                        m.ident@
                    } else {
                        m.table.name@
                    };
                    let indexes = model_indexes_spec(m.index_args.deep_view(), fields, name);
                    match first_duplicate(definition_names(indexes), indexes.len()) {
                        Some(n) => Err(duplicate_message(n)),
                        None => Ok(
                            TableDataView {
                                ident: m.ident@,
                                name,
                                fields,
                                primary_key: key,
                                indexes,
                                relations: rels,
                            },
                        ),
                    }
                },
            },
        }
    }
}

/// Builds the table data of a model: its name (from `#[Table]`, or else the
/// type's name), columns, single primary key, indexes and relations.
pub fn parse_model(m: &ModelInput) -> (r: Result<TableData, String>)
    ensures
        match r {
            Ok(t) => parse_model_spec(*m) == Ok::<TableDataView, Seq<char>>(t@),
            Err(e) => parse_model_spec(*m) == Err::<TableDataView, Seq<char>>(e@),
        },
{
    if !m.is_struct {
        return Err(String::from_str("Model can only be derived for structs"));
    }
    let (fields, primary_key, relations) = match parse_fields(&m.fields) {
        Ok(p) => p,
        Err(e) => {
            return Err(e);
        },
    };
    let primary_key = match primary_key {
        Some(k) => k,
        None => {
            return Err(
                String::from_str("A Model must have exactly one field marked with #[PrimaryKey]"),
            );
        },
    };
    let table_name = if m.table.name.as_str().is_empty() {
        m.ident.clone()
    } else {
        m.table.name.clone()
    };
    let mut all = table_indexes(&m.index_args);
    append_field_indexes(&mut all, &fields, &table_name);
    let indexes = name_indexes(all, &table_name);
    match validate_unique_index_names(&indexes) {
        Ok(()) => {},
        Err(e) => {
            return Err(e);
        },
    }
    Ok(
        TableData {
            ident: m.ident.clone(),
            name: table_name,
            fields,
            primary_key,
            indexes,
            relations,
        },
    )
}

} // verus!
