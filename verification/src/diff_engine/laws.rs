//! Properties of the diff and of the rendered SQL that hold for all inputs.
use vstd::prelude::*;
use crate::dialect::SqlDialect;
use crate::dialect::relation_lines_spec;
use crate::schema::{holds_foreign_key, ColumnSchemaView, IndexView, RelationView, TableSchemaView};
use super::names::first_occurrence;
use super::migration_op::{
    changes_empty, close_statement, down_sql_spec, escape_char, escape_chars, op_sql_spec,
    reverse_sql_spec, up_sql_spec,
    ColumnChangesView, ForeignKeyView, MigrationOpView,
};
use super::{
    added_columns, added_foreign_keys, added_indexes, altered_columns, by_name, column_names,
    created_tables, diff_column_spec, diff_spec, diff_table_spec, dropped_columns,
    dropped_foreign_keys, dropped_indexes, dropped_tables, foreign_keys_spec, index_names,
    kept_tables, primary_key_ops, table_changes_spec, table_drops_spec, table_names, table_part,
};

verus! {

proof fn lemma_contains_own(s: Seq<Seq<char>>, k: int)
    requires
        0 <= k < s.len(),
    ensures
        s.contains(s[k]),
{
}

proof fn lemma_dropped_tables_same(on: Seq<Seq<char>>, n: nat)
    requires
        n <= on.len(),
    ensures
        dropped_tables(on, on, n) =~= Seq::<MigrationOpView>::empty(),
    decreases n,
{
    if n > 0 {
        lemma_dropped_tables_same(on, (n - 1) as nat);
        lemma_contains_own(on, n - 1);
    }
}

proof fn lemma_created_tables_same(s: Seq<TableSchemaView>, n: nat)
    requires
        n <= s.len(),
    ensures
        created_tables(s, s, n) =~= Seq::<MigrationOpView>::empty(),
    decreases n,
{
    if n > 0 {
        lemma_created_tables_same(s, (n - 1) as nat);
        lemma_contains_own(table_names(s), n - 1);
    }
}

proof fn lemma_added_columns_same(c: Seq<ColumnSchemaView>, t: Seq<char>, n: nat)
    requires
        n <= c.len(),
    ensures
        added_columns(c, c, t, n) =~= Seq::<MigrationOpView>::empty(),
    decreases n,
{
    if n > 0 {
        lemma_added_columns_same(c, t, (n - 1) as nat);
        lemma_contains_own(column_names(c), n - 1);
    }
}

proof fn lemma_dropped_columns_same(on: Seq<Seq<char>>, t: Seq<char>, n: nat)
    requires
        n <= on.len(),
    ensures
        dropped_columns(on, on, t, n) =~= Seq::<MigrationOpView>::empty(),
    decreases n,
{
    if n > 0 {
        lemma_dropped_columns_same(on, t, (n - 1) as nat);
        lemma_contains_own(on, n - 1);
    }
}

proof fn lemma_altered_columns_same(c: Seq<ColumnSchemaView>, t: Seq<char>, n: nat)
    requires
        n <= c.len(),
    ensures
        altered_columns(c, c, t, n) =~= Seq::<MigrationOpView>::empty(),
    decreases n,
{
    if n > 0 {
        lemma_altered_columns_same(c, t, (n - 1) as nat);
        let nn = column_names(c);
        let x = by_name(c, nn, nn[n - 1]);
        assert(changes_empty(diff_column_spec(x, x)));
    }
}

proof fn lemma_dropped_indexes_same(on: Seq<Seq<char>>, t: Seq<char>, n: nat)
    requires
        n <= on.len(),
    ensures
        dropped_indexes(on, on, t, n) =~= Seq::<MigrationOpView>::empty(),
    decreases n,
{
    if n > 0 {
        lemma_dropped_indexes_same(on, t, (n - 1) as nat);
        lemma_contains_own(on, n - 1);
    }
}

proof fn lemma_added_indexes_same(i: Seq<IndexView>, t: Seq<char>, n: nat, drops: bool)
    requires
        n <= i.len(),
    ensures
        added_indexes(i, i, t, n, drops) =~= Seq::<MigrationOpView>::empty(),
    decreases n,
{
    if n > 0 {
        lemma_added_indexes_same(i, t, (n - 1) as nat, drops);
        lemma_contains_own(index_names(i), n - 1);
    }
}

proof fn lemma_fks_contain_own(f: Seq<ForeignKeyView>, k: int)
    requires
        0 <= k < f.len(),
    ensures
        f.contains(f[k]),
{
}

proof fn lemma_dropped_fks_same(f: Seq<ForeignKeyView>, t: Seq<char>, n: nat)
    requires
        n <= f.len(),
    ensures
        dropped_foreign_keys(f, f, t, n) =~= Seq::<MigrationOpView>::empty(),
    decreases n,
{
    if n > 0 {
        lemma_dropped_fks_same(f, t, (n - 1) as nat);
        lemma_fks_contain_own(f, n - 1);
    }
}

proof fn lemma_added_fks_same(f: Seq<ForeignKeyView>, t: Seq<char>, n: nat)
    requires
        n <= f.len(),
    ensures
        added_foreign_keys(f, f, t, n) =~= Seq::<MigrationOpView>::empty(),
    decreases n,
{
    if n > 0 {
        lemma_added_fks_same(f, t, (n - 1) as nat);
        lemma_fks_contain_own(f, n - 1);
    }
}

/// A table compared with itself yields no operation.
pub proof fn law_diff_table_identity(t: TableSchemaView)
    ensures
        diff_table_spec(t, t) =~= Seq::<MigrationOpView>::empty(),
{
    let f = foreign_keys_spec(t.relations);
    lemma_added_columns_same(t.fields, t.name, t.fields.len());
    lemma_dropped_columns_same(column_names(t.fields), t.name, t.fields.len());
    lemma_altered_columns_same(t.fields, t.name, t.fields.len());
    lemma_dropped_indexes_same(index_names(t.indexes), t.name, t.indexes.len());
    lemma_added_indexes_same(t.indexes, t.name, t.indexes.len(), true);
    lemma_added_indexes_same(t.indexes, t.name, t.indexes.len(), false);
    lemma_dropped_fks_same(f, t.name, f.len());
    lemma_added_fks_same(f, t.name, f.len());
    assert(primary_key_ops(t, t) =~= Seq::<MigrationOpView>::empty());
}

proof fn lemma_kept_tables_same(s: Seq<TableSchemaView>, n: nat, drops: bool)
    requires
        n <= s.len(),
    ensures
        kept_tables(s, s, n, drops) =~= Seq::<MigrationOpView>::empty(),
    decreases n,
{
    if n > 0 {
        lemma_kept_tables_same(s, (n - 1) as nat, drops);
        let nn = table_names(s);
        let t = by_name(s, nn, nn[n - 1]);
        law_diff_table_identity(t);
        assert(table_drops_spec(t, t).len() == 0);
        assert(table_changes_spec(t, t).len() == 0);
    }
}

/// A snapshot compared with itself yields no operation.
pub proof fn law_diff_identity(s: Seq<TableSchemaView>)
    ensures
        diff_spec(s, s) =~= Seq::<MigrationOpView>::empty(),
{
    lemma_dropped_tables_same(table_names(s), s.len());
    lemma_created_tables_same(s, s.len());
    lemma_kept_tables_same(s, s.len(), true);
    lemma_kept_tables_same(s, s.len(), false);
}

/// A column compared with itself has no change, and a change set between two
/// columns is empty exactly when they agree on type, nullability, uniqueness
/// and generation strategy.
pub proof fn law_diff_column_empty(o: ColumnSchemaView, n: ColumnSchemaView)
    ensures
        changes_empty(diff_column_spec(o, o)),
        changes_empty(diff_column_spec(o, n)) <==> (o.sql_type == n.sql_type && o.is_nullable
            == n.is_nullable && o.is_unique == n.is_unique && o.generation_type
            == n.generation_type),
{
}

/// The place of an operation in the order of a diff: drops of tables,
/// columns, indexes and foreign keys (0), then created tables (1), then
/// everything else (2).
pub open spec fn op_rank(op: MigrationOpView) -> int {
    match op {
        MigrationOpView::DropTable { .. } => 0,
        MigrationOpView::DropColumn { .. } => 0,
        MigrationOpView::DropIndex { .. } => 0,
        MigrationOpView::DropForeignKey { .. } => 0,
        MigrationOpView::CreateTable(..) => 1,
        _ => 2,
    }
}

/// Whether an operation drops a table, an index or a foreign key.
pub open spec fn is_drop(op: MigrationOpView) -> bool {
    op is DropTable || op is DropIndex || op is DropForeignKey
}

/// Whether an operation adds a table, a column, an index or a foreign key.
pub open spec fn is_addition(op: MigrationOpView) -> bool {
    op is CreateTable || op is AddColumn || op is AddIndex || op is AddForeignKey
}

/// Whether an operation creates or drops a whole table.
pub open spec fn is_table_op(op: MigrationOpView) -> bool {
    op is CreateTable || op is DropTable
}

/// No operation of `s` creates or drops a whole table.
pub open spec fn no_table_ops(s: Seq<MigrationOpView>) -> bool {
    forall|k: int| 0 <= k < s.len() ==> !is_table_op(#[trigger] s[k])
}

/// Every operation of `s` has rank `r`.
pub open spec fn all_of_rank(s: Seq<MigrationOpView>, r: int) -> bool {
    forall|k: int| 0 <= k < s.len() ==> op_rank(#[trigger] s[k]) == r
}

proof fn lemma_rank_concat(a: Seq<MigrationOpView>, b: Seq<MigrationOpView>, r: int)
    requires
        all_of_rank(a, r),
        all_of_rank(b, r),
    ensures
        all_of_rank(a + b, r),
{
    assert forall|k: int| 0 <= k < (a + b).len() implies op_rank(#[trigger] (a + b)[k]) == r by {
        if k < a.len() {
            assert((a + b)[k] == a[k]);
        } else {
            assert((a + b)[k] == b[k - a.len()]);
        }
    }
}

proof fn lemma_rank_dropped_tables(on: Seq<Seq<char>>, nn: Seq<Seq<char>>, n: nat)
    ensures
        all_of_rank(dropped_tables(on, nn, n), 0),
    decreases n,
{
    if n > 0 {
        let k = n - 1;
        lemma_rank_dropped_tables(on, nn, (n - 1) as nat);
        let e = if first_occurrence(on, k) && !nn.contains(on[k]) {
            seq![MigrationOpView::DropTable { table: on[k] }]
        } else {
            Seq::empty()
        };
        lemma_rank_concat(dropped_tables(on, nn, (n - 1) as nat), e, 0);
    }
}

proof fn lemma_rank_created_tables(old: Seq<TableSchemaView>, new: Seq<TableSchemaView>, n: nat)
    ensures
        all_of_rank(created_tables(old, new, n), 1),
    decreases n,
{
    if n > 0 {
        let k = n - 1;
        let nn = table_names(new);
        lemma_rank_created_tables(old, new, (n - 1) as nat);
        let e = if first_occurrence(nn, k) && !table_names(old).contains(nn[k]) {
            seq![MigrationOpView::CreateTable(by_name(new, nn, nn[k]))]
        } else {
            Seq::empty()
        };
        lemma_rank_concat(created_tables(old, new, (n - 1) as nat), e, 1);
    }
}

proof fn lemma_rank_added_columns(
    oc: Seq<ColumnSchemaView>,
    nc: Seq<ColumnSchemaView>,
    t: Seq<char>,
    n: nat,
)
    ensures
        all_of_rank(added_columns(oc, nc, t, n), 2),
    decreases n,
{
    if n > 0 {
        lemma_rank_added_columns(oc, nc, t, (n - 1) as nat);
        let s = added_columns(oc, nc, t, n);
        let p = added_columns(oc, nc, t, (n - 1) as nat);
        assert forall|k: int| 0 <= k < s.len() implies op_rank(#[trigger] s[k]) == 2 by {
            if k < p.len() {
                assert(s[k] == p[k]);
            }
        }
    }
}

proof fn lemma_rank_dropped_columns(on: Seq<Seq<char>>, nn: Seq<Seq<char>>, t: Seq<char>, n: nat)
    ensures
        all_of_rank(dropped_columns(on, nn, t, n), 0),
    decreases n,
{
    if n > 0 {
        lemma_rank_dropped_columns(on, nn, t, (n - 1) as nat);
        let s = dropped_columns(on, nn, t, n);
        let p = dropped_columns(on, nn, t, (n - 1) as nat);
        assert forall|k: int| 0 <= k < s.len() implies op_rank(#[trigger] s[k]) == 0 by {
            if k < p.len() {
                assert(s[k] == p[k]);
            }
        }
    }
}

proof fn lemma_rank_altered_columns(
    oc: Seq<ColumnSchemaView>,
    nc: Seq<ColumnSchemaView>,
    t: Seq<char>,
    n: nat,
)
    ensures
        all_of_rank(altered_columns(oc, nc, t, n), 2),
    decreases n,
{
    if n > 0 {
        lemma_rank_altered_columns(oc, nc, t, (n - 1) as nat);
        let s = altered_columns(oc, nc, t, n);
        let p = altered_columns(oc, nc, t, (n - 1) as nat);
        assert forall|k: int| 0 <= k < s.len() implies op_rank(#[trigger] s[k]) == 2 by {
            if k < p.len() {
                assert(s[k] == p[k]);
            }
        }
    }
}

proof fn lemma_rank_dropped_indexes(on: Seq<Seq<char>>, nn: Seq<Seq<char>>, t: Seq<char>, n: nat)
    ensures
        all_of_rank(dropped_indexes(on, nn, t, n), 0),
    decreases n,
{
    if n > 0 {
        lemma_rank_dropped_indexes(on, nn, t, (n - 1) as nat);
        let s = dropped_indexes(on, nn, t, n);
        let p = dropped_indexes(on, nn, t, (n - 1) as nat);
        assert forall|k: int| 0 <= k < s.len() implies op_rank(#[trigger] s[k]) == 0 by {
            if k < p.len() {
                assert(s[k] == p[k]);
            }
        }
    }
}

proof fn lemma_rank_added_indexes(
    oi: Seq<IndexView>,
    ni: Seq<IndexView>,
    t: Seq<char>,
    n: nat,
    drops: bool,
)
    ensures
        all_of_rank(added_indexes(oi, ni, t, n, drops), if drops { 0 } else { 2 }),
        no_table_ops(added_indexes(oi, ni, t, n, drops)),
    decreases n,
{
    if n > 0 {
        lemma_rank_added_indexes(oi, ni, t, (n - 1) as nat, drops);
        let s = added_indexes(oi, ni, t, n, drops);
        let p = added_indexes(oi, ni, t, (n - 1) as nat, drops);
        assert forall|k: int| 0 <= k < s.len() implies op_rank(#[trigger] s[k]) == (if drops {
            0int
        } else {
            2int
        }) && !is_table_op(s[k]) by {
            if k < p.len() {
                assert(s[k] == p[k]);
            }
        }
    }
}

proof fn lemma_rank_dropped_fks(
    ofk: Seq<ForeignKeyView>,
    nfk: Seq<ForeignKeyView>,
    t: Seq<char>,
    n: nat,
)
    ensures
        all_of_rank(dropped_foreign_keys(ofk, nfk, t, n), 0),
    decreases n,
{
    if n > 0 {
        lemma_rank_dropped_fks(ofk, nfk, t, (n - 1) as nat);
        let s = dropped_foreign_keys(ofk, nfk, t, n);
        let p = dropped_foreign_keys(ofk, nfk, t, (n - 1) as nat);
        assert forall|k: int| 0 <= k < s.len() implies op_rank(#[trigger] s[k]) == 0 by {
            if k < p.len() {
                assert(s[k] == p[k]);
            }
        }
    }
}

proof fn lemma_rank_added_fks(ofk: Seq<ForeignKeyView>, nfk: Seq<ForeignKeyView>, t: Seq<char>, n: nat)
    ensures
        all_of_rank(added_foreign_keys(ofk, nfk, t, n), 2),
    decreases n,
{
    if n > 0 {
        lemma_rank_added_fks(ofk, nfk, t, (n - 1) as nat);
        let s = added_foreign_keys(ofk, nfk, t, n);
        let p = added_foreign_keys(ofk, nfk, t, (n - 1) as nat);
        assert forall|k: int| 0 <= k < s.len() implies op_rank(#[trigger] s[k]) == 2 by {
            if k < p.len() {
                assert(s[k] == p[k]);
            }
        }
    }
}

proof fn lemma_rank_no_table_ops(s: Seq<MigrationOpView>)
    requires
        all_of_rank(s, 2),
    ensures
        no_table_ops(s),
{
    assert forall|k: int| 0 <= k < s.len() implies !is_table_op(#[trigger] s[k]) by {
        assert(op_rank(s[k]) == 2);
    }
}

proof fn lemma_no_table_ops_concat(a: Seq<MigrationOpView>, b: Seq<MigrationOpView>)
    requires
        no_table_ops(a),
        no_table_ops(b),
    ensures
        no_table_ops(a + b),
{
    assert forall|k: int| 0 <= k < (a + b).len() implies !is_table_op(#[trigger] (a + b)[k]) by {
        if k < a.len() {
            assert((a + b)[k] == a[k]);
        } else {
            assert((a + b)[k] == b[k - a.len()]);
        }
    }
}

proof fn lemma_kinds_dropped_columns(on: Seq<Seq<char>>, nn: Seq<Seq<char>>, t: Seq<char>, n: nat)
    ensures
        no_table_ops(dropped_columns(on, nn, t, n)),
    decreases n,
{
    if n > 0 {
        lemma_kinds_dropped_columns(on, nn, t, (n - 1) as nat);
        let s = dropped_columns(on, nn, t, n);
        let p = dropped_columns(on, nn, t, (n - 1) as nat);
        assert forall|k: int| 0 <= k < s.len() implies !is_table_op(#[trigger] s[k]) by {
            if k < p.len() {
                assert(s[k] == p[k]);
            }
        }
    }
}

proof fn lemma_kinds_dropped_indexes(on: Seq<Seq<char>>, nn: Seq<Seq<char>>, t: Seq<char>, n: nat)
    ensures
        no_table_ops(dropped_indexes(on, nn, t, n)),
    decreases n,
{
    if n > 0 {
        lemma_kinds_dropped_indexes(on, nn, t, (n - 1) as nat);
        let s = dropped_indexes(on, nn, t, n);
        let p = dropped_indexes(on, nn, t, (n - 1) as nat);
        assert forall|k: int| 0 <= k < s.len() implies !is_table_op(#[trigger] s[k]) by {
            if k < p.len() {
                assert(s[k] == p[k]);
            }
        }
    }
}

proof fn lemma_kinds_dropped_fks(
    ofk: Seq<ForeignKeyView>,
    nfk: Seq<ForeignKeyView>,
    t: Seq<char>,
    n: nat,
)
    ensures
        no_table_ops(dropped_foreign_keys(ofk, nfk, t, n)),
    decreases n,
{
    if n > 0 {
        lemma_kinds_dropped_fks(ofk, nfk, t, (n - 1) as nat);
        let s = dropped_foreign_keys(ofk, nfk, t, n);
        let p = dropped_foreign_keys(ofk, nfk, t, (n - 1) as nat);
        assert forall|k: int| 0 <= k < s.len() implies !is_table_op(#[trigger] s[k]) by {
            if k < p.len() {
                assert(s[k] == p[k]);
            }
        }
    }
}

/// The operations inside one table never drop or create a table; its drops
/// (columns, indexes, foreign keys) come first, its other changes after.
pub proof fn law_diff_table_detail_only(o: TableSchemaView, n: TableSchemaView)
    ensures
        all_of_rank(table_drops_spec(o, n), 0),
        all_of_rank(table_changes_spec(o, n), 2),
        diff_table_spec(o, n) == table_drops_spec(o, n) + table_changes_spec(o, n),
        no_table_ops(diff_table_spec(o, n)),
{
    let t = n.name;
    let ofk = foreign_keys_spec(o.relations);
    let nfk = foreign_keys_spec(n.relations);
    let a = added_columns(o.fields, n.fields, t, n.fields.len());
    let b = dropped_columns(column_names(o.fields), column_names(n.fields), t, o.fields.len());
    let c = altered_columns(o.fields, n.fields, t, n.fields.len());
    let d = primary_key_ops(o, n);
    let e = dropped_indexes(index_names(o.indexes), index_names(n.indexes), t, o.indexes.len());
    let e2 = added_indexes(o.indexes, n.indexes, t, n.indexes.len(), true);
    let f = added_indexes(o.indexes, n.indexes, t, n.indexes.len(), false);
    let g = dropped_foreign_keys(ofk, nfk, t, ofk.len());
    let h = added_foreign_keys(ofk, nfk, t, nfk.len());
    lemma_rank_added_columns(o.fields, n.fields, t, n.fields.len());
    lemma_rank_dropped_columns(column_names(o.fields), column_names(n.fields), t, o.fields.len());
    lemma_rank_altered_columns(o.fields, n.fields, t, n.fields.len());
    lemma_rank_dropped_indexes(index_names(o.indexes), index_names(n.indexes), t, o.indexes.len());
    lemma_rank_added_indexes(o.indexes, n.indexes, t, n.indexes.len(), true);
    lemma_rank_added_indexes(o.indexes, n.indexes, t, n.indexes.len(), false);
    lemma_rank_dropped_fks(ofk, nfk, t, ofk.len());
    lemma_rank_added_fks(ofk, nfk, t, nfk.len());
    assert(all_of_rank(d, 2));
    lemma_rank_concat(b, e, 0);
    lemma_rank_concat(b + e, e2, 0);
    lemma_rank_concat(b + e + e2, g, 0);
    lemma_rank_concat(a, c, 2);
    lemma_rank_concat(a + c, d, 2);
    lemma_rank_concat(a + c + d, f, 2);
    lemma_rank_concat(a + c + d + f, h, 2);
    lemma_kinds_dropped_columns(column_names(o.fields), column_names(n.fields), t, o.fields.len());
    lemma_kinds_dropped_indexes(index_names(o.indexes), index_names(n.indexes), t, o.indexes.len());
    lemma_kinds_dropped_fks(ofk, nfk, t, ofk.len());
    lemma_no_table_ops_concat(b, e);
    lemma_no_table_ops_concat(b + e, e2);
    lemma_no_table_ops_concat(b + e + e2, g);
    lemma_rank_no_table_ops(a + c + d + f + h);
    lemma_no_table_ops_concat(b + e + e2 + g, a + c + d + f + h);
}

proof fn lemma_rank_kept_tables(
    old: Seq<TableSchemaView>,
    new: Seq<TableSchemaView>,
    n: nat,
    drops: bool,
)
    ensures
        all_of_rank(kept_tables(old, new, n, drops), if drops { 0 } else { 2 }),
    decreases n,
{
    let r = if drops { 0int } else { 2int };
    if n > 0 {
        let k = n - 1;
        let nn = table_names(new);
        let on = table_names(old);
        lemma_rank_kept_tables(old, new, (n - 1) as nat, drops);
        let e = if first_occurrence(nn, k) && on.contains(nn[k]) {
            law_diff_table_detail_only(by_name(old, on, nn[k]), by_name(new, nn, nn[k]));
            table_part(by_name(old, on, nn[k]), by_name(new, nn, nn[k]), drops)
        } else {
            Seq::empty()
        };
        lemma_rank_concat(kept_tables(old, new, (n - 1) as nat, drops), e, r);
    }
}

/// In a diff, every drop (of a table, a column, an index, a foreign key)
/// comes before every created table, and every created table before every
/// other change. So no addition comes before a drop of a table, an index or
/// a foreign key, and no column, index or foreign key is added before a
/// table is created.
pub proof fn law_diff_order(old: Seq<TableSchemaView>, new: Seq<TableSchemaView>)
    ensures
        forall|i: int, j: int|
            0 <= i < j < diff_spec(old, new).len() ==> op_rank(#[trigger] diff_spec(old, new)[i])
                <= op_rank(#[trigger] diff_spec(old, new)[j]),
        forall|i: int, j: int|
            0 <= i < j < diff_spec(old, new).len() && is_drop(#[trigger] diff_spec(old, new)[j])
                ==> !is_addition(#[trigger] diff_spec(old, new)[i]),
        forall|i: int, j: int|
            0 <= i < j < diff_spec(old, new).len() && (#[trigger] diff_spec(old, new)[j]) is CreateTable
                ==> !(#[trigger] diff_spec(old, new)[i] is AddColumn || diff_spec(old, new)[i] is AddIndex
                || diff_spec(old, new)[i] is AddForeignKey),
{
    let a = dropped_tables(table_names(old), table_names(new), old.len());
    let kd = kept_tables(old, new, new.len(), true);
    let b = created_tables(old, new, new.len());
    let kc = kept_tables(old, new, new.len(), false);
    lemma_rank_dropped_tables(table_names(old), table_names(new), old.len());
    lemma_rank_kept_tables(old, new, new.len(), true);
    lemma_rank_created_tables(old, new, new.len());
    lemma_rank_kept_tables(old, new, new.len(), false);
    let s = diff_spec(old, new);
    assert(s == a + kd + b + kc);
    assert forall|k: int| 0 <= k < s.len() implies op_rank(#[trigger] s[k]) == (if k < a.len()
        + kd.len() {
        0int
    } else if k < a.len() + kd.len() + b.len() {
        1int
    } else {
        2int
    }) by {
        if k < a.len() {
            assert(s[k] == a[k]);
        } else if k < a.len() + kd.len() {
            assert(s[k] == kd[k - a.len()]);
        } else if k < a.len() + kd.len() + b.len() {
            assert(s[k] == b[k - a.len() - kd.len()]);
        } else {
            assert(s[k] == kc[k - a.len() - kd.len() - b.len()]);
        }
    }
}

proof fn lemma_created_contains(new: Seq<TableSchemaView>, n: nat, k: int)
    requires
        n <= new.len(),
        0 <= k < n,
    ensures
        created_tables(Seq::empty(), new, n).contains(
            MigrationOpView::CreateTable(
                by_name(new, table_names(new), table_names(new)[k]),
            ),
        ),
    decreases n, k,
{
    let nn = table_names(new);
    let op = MigrationOpView::CreateTable(by_name(new, nn, nn[k]));
    let p = created_tables(Seq::empty(), new, (n - 1) as nat);
    let s = created_tables(Seq::empty(), new, n);
    assert(!table_names(Seq::<TableSchemaView>::empty()).contains(nn[n - 1]));
    if k < n - 1 {
        lemma_created_contains(new, (n - 1) as nat, k);
        let w = choose|w: int| 0 <= w < p.len() && p[w] == op;
        assert(s[w] == op);
    } else if first_occurrence(nn, k) {
        assert(s[p.len() as int] == op);
    } else {
        let j = choose|j: int| 0 <= j < k && nn[j] == nn[k];
        lemma_created_contains(new, n, j);
    }
}

proof fn lemma_dropped_contains(on: Seq<Seq<char>>, n: nat, k: int)
    requires
        n <= on.len(),
        0 <= k < n,
    ensures
        dropped_tables(on, Seq::empty(), n).contains(MigrationOpView::DropTable { table: on[k] }),
    decreases n, k,
{
    let op = MigrationOpView::DropTable { table: on[k] };
    let p = dropped_tables(on, Seq::empty(), (n - 1) as nat);
    let s = dropped_tables(on, Seq::empty(), n);
    assert(!Seq::<Seq<char>>::empty().contains(on[n - 1]));
    if k < n - 1 {
        lemma_dropped_contains(on, (n - 1) as nat, k);
        let w = choose|w: int| 0 <= w < p.len() && p[w] == op;
        assert(s[w] == op);
    } else if first_occurrence(on, k) {
        assert(s[p.len() as int] == op);
    } else {
        let j = choose|j: int| 0 <= j < k && on[j] == on[k];
        lemma_dropped_contains(on, n, j);
    }
}

proof fn lemma_kept_none_from_empty(new: Seq<TableSchemaView>, n: nat, drops: bool)
    ensures
        kept_tables(Seq::empty(), new, n, drops) =~= Seq::<MigrationOpView>::empty(),
    decreases n,
{
    if n > 0 {
        lemma_kept_none_from_empty(new, (n - 1) as nat, drops);
        assert(!table_names(Seq::<TableSchemaView>::empty()).contains(table_names(new)[n - 1]));
    }
}

/// Against an empty snapshot every operation creates a table, and each table
/// name of the new snapshot is created (from the last table that carries it).
pub proof fn law_diff_from_empty(new: Seq<TableSchemaView>)
    ensures
        all_of_rank(diff_spec(Seq::empty(), new), 1),
        forall|k: int|
            0 <= k < new.len() ==> diff_spec(Seq::empty(), new).contains(
                MigrationOpView::CreateTable(
                    by_name(new, table_names(new), #[trigger] table_names(new)[k]),
                ),
            ),
{
    let e = Seq::<TableSchemaView>::empty();
    lemma_kept_none_from_empty(new, new.len(), true);
    lemma_kept_none_from_empty(new, new.len(), false);
    assert(dropped_tables(table_names(e), table_names(new), 0) =~= Seq::<MigrationOpView>::empty());
    let c = created_tables(e, new, new.len());
    assert(diff_spec(e, new) =~= c);
    lemma_rank_created_tables(e, new, new.len());
    assert forall|k: int| 0 <= k < new.len() implies diff_spec(e, new).contains(
        MigrationOpView::CreateTable(by_name(new, table_names(new), #[trigger] table_names(new)[k])),
    ) by {
        lemma_created_contains(new, new.len(), k);
    }
}

/// Towards an empty snapshot every operation drops a table, and each table
/// name of the old snapshot is dropped.
pub proof fn law_diff_to_empty(old: Seq<TableSchemaView>)
    ensures
        all_of_rank(diff_spec(old, Seq::empty()), 0),
        forall|k: int|
            0 <= k < old.len() ==> diff_spec(old, Seq::empty()).contains(
                MigrationOpView::DropTable { table: #[trigger] table_names(old)[k] },
            ),
{
    let e = Seq::<TableSchemaView>::empty();
    assert(table_names(e) =~= Seq::<Seq<char>>::empty());
    assert(created_tables(old, e, 0) =~= Seq::<MigrationOpView>::empty());
    assert(kept_tables(old, e, 0, true) =~= Seq::<MigrationOpView>::empty());
    assert(kept_tables(old, e, 0, false) =~= Seq::<MigrationOpView>::empty());
    let a = dropped_tables(table_names(old), table_names(e), old.len());
    assert(diff_spec(old, e) =~= a);
    lemma_rank_dropped_tables(table_names(old), table_names(e), old.len());
    assert forall|k: int| 0 <= k < old.len() implies diff_spec(old, e).contains(
        MigrationOpView::DropTable { table: #[trigger] table_names(old)[k] },
    ) by {
        lemma_dropped_contains(table_names(old), old.len(), k);
    }
}

/// The reverse of creating a table is the statement that drops it.
pub proof fn law_reverse_create_table<D: SqlDialect>(d: &D, s: TableSchemaView)
    ensures
        reverse_sql_spec(d, MigrationOpView::CreateTable(s)) == op_sql_spec(
            d,
            MigrationOpView::DropTable { table: s.name },
        ),
{
    reveal_strlit(";");
    let raw = crate::dialect::drop_table_spec(s.name);
    assert(raw.last() == ';');
}

/// The reverse of a rename is the rename back.
pub proof fn law_reverse_rename_table<D: SqlDialect>(d: &D, from: Seq<char>, to: Seq<char>)
    ensures
        reverse_sql_spec(d, MigrationOpView::RenameTable { from, to }) == op_sql_spec(
            d,
            MigrationOpView::RenameTable { from: to, to: from },
        ),
{
}

/// The reverse of adding a column is dropping it.
pub proof fn law_reverse_add_column<D: SqlDialect>(
    d: &D,
    table: Seq<char>,
    column: super::migration_op::ColumnDefView,
)
    ensures
        reverse_sql_spec(d, MigrationOpView::AddColumn { table, column }) == op_sql_spec(
            d,
            MigrationOpView::DropColumn { table, column: column.name },
        ),
{
}

/// The reverse of adding an index is dropping it, for index names that do
/// not end with `;`.
pub proof fn law_reverse_add_index<D: SqlDialect>(d: &D, table: Seq<char>, index: IndexView)
    requires
        index.name.len() == 0 || index.name.last() != ';',
    ensures
        reverse_sql_spec(d, MigrationOpView::AddIndex { table, index }) == op_sql_spec(
            d,
            MigrationOpView::DropIndex { table, index: index.name },
        ),
{
    reveal_strlit("DROP INDEX IF EXISTS ");
    reveal_strlit(";");
    let raw = "DROP INDEX IF EXISTS "@ + index.name;
    if index.name.len() == 0 {
        assert(raw.last() == ' ');
    } else {
        assert(raw.last() == index.name.last());
    }
}

/// The reverse of adding a foreign key is dropping its constraint, for key
/// columns that do not end with `;`.
pub proof fn law_reverse_add_foreign_key<D: SqlDialect>(
    d: &D,
    table: Seq<char>,
    fk: ForeignKeyView,
)
    requires
        fk.column.len() == 0 || fk.column.last() != ';',
    ensures
        reverse_sql_spec(d, MigrationOpView::AddForeignKey { table, fk }) == op_sql_spec(
            d,
            MigrationOpView::DropForeignKey { table, constraint_name: fk.column },
        ),
{
    reveal_strlit(" DROP CONSTRAINT ");
    reveal_strlit(";");
    let raw = "ALTER TABLE "@ + table + " DROP CONSTRAINT "@ + fk.column;
    if fk.column.len() == 0 {
        assert(raw.last() == ' ');
    } else {
        assert(raw.last() == fk.column.last());
    }
}

proof fn lemma_index_lines_end(table: Seq<char>, idx: Seq<IndexView>)
    ensures
        crate::dialect::index_lines_spec(table, idx).len() > 0 ==> crate::dialect::index_lines_spec(
            table,
            idx,
        ).last() == ';',
{
    reveal_strlit(";");
    if idx.len() > 0 {
        let s = crate::dialect::index_lines_spec(table, idx);
        assert(s.last() == ";"@[0]);
    }
}

/// The statement of every operation is complete: it ends with `;`, unless it
/// is empty (an `ALTER COLUMN` without changes).
pub proof fn law_op_sql_closed<D: SqlDialect>(d: &D, op: MigrationOpView)
    ensures
        op_sql_spec(d, op).len() > 0 ==> op_sql_spec(d, op).last() == ';',
{
    reveal_strlit(";");
    reveal_strlit("\n);");
    match op {
        MigrationOpView::CreateTable(t) => {
            lemma_index_lines_end(t.name, t.indexes);
            let l = crate::dialect::index_lines_spec(t.name, t.indexes);
            if l.len() == 0 {
                let s = crate::dialect::create_table_spec(d, t, false);
                assert(s == (s.subrange(0, s.len() - l.len() as int)) + l);
                assert(s.last() == "\n);"@.last());
            }
        },
        _ => {},
    }
}

/// The `up` SQL of one more operation ends with that operation's statement.
pub proof fn law_up_sql_push<D: SqlDialect>(d: &D, ops: Seq<MigrationOpView>, op: MigrationOpView)
    ensures
        up_sql_spec(d, ops.push(op)) == up_sql_spec(d, ops) + op_sql_spec(d, op) + "\n"@,
{
    assert(ops.push(op).drop_last() =~= ops);
}

/// The `down` SQL of one more operation starts with that operation's
/// reverse statement: the last operation is taken back first.
pub proof fn law_down_sql_push<D: SqlDialect>(d: &D, ops: Seq<MigrationOpView>, op: MigrationOpView)
    ensures
        down_sql_spec(d, ops.push(op)) =~= reverse_sql_spec(d, op) + "\n"@ + down_sql_spec(d, ops),
    decreases ops.len(),
{
    if ops.len() == 0 {
        assert(ops.push(op).drop_first() =~= Seq::<MigrationOpView>::empty());
        assert(ops =~= Seq::<MigrationOpView>::empty());
    } else {
        let rest = ops.drop_first();
        law_down_sql_push(d, rest, op);
        assert(ops.push(op).drop_first() =~= rest.push(op));
        assert(ops.push(op).first() == ops.first());
    }
}

/// The text that the body of a Rust string literal stands for, for the
/// escapes that [`escape_chars`] writes: `\\`, `\"` and `\n` each read as
/// the one character they escape.
pub open spec fn unescape(s: Seq<char>) -> Seq<char>
    decreases s.len(),
{
    if s.len() == 0 {
        Seq::empty()
    } else if s[0] == '\\' && s.len() >= 2 {
        seq![if s[1] == 'n' { '\n' } else { s[1] }] + unescape(s.skip(2))
    } else {
        seq![s[0]] + unescape(s.skip(1))
    }
}

proof fn lemma_escape_front(a: Seq<char>)
    requires
        a.len() > 0,
    ensures
        escape_chars(a) == escape_char(a[0]) + escape_chars(a.drop_first()),
    decreases a.len(),
{
    if a.len() == 1 {
        assert(a.drop_first() =~= Seq::<char>::empty());
        assert(a.drop_last() =~= Seq::<char>::empty());
        assert(escape_chars(a.drop_last()) =~= Seq::<char>::empty());
        assert(escape_chars(a.drop_first()) =~= Seq::<char>::empty());
        assert(a.last() == a[0]);
        assert(escape_chars(a) =~= escape_char(a[0]) + escape_chars(a.drop_first()));
    } else {
        let p = a.drop_last();
        lemma_escape_front(p);
        assert(p.drop_first() =~= a.drop_first().drop_last());
        assert(a.drop_first().last() == a.last());
        assert(escape_chars(a) =~= escape_char(a[0]) + escape_chars(a.drop_first()));
    }
}

proof fn lemma_unescape_char(c: char, r: Seq<char>)
    ensures
        unescape(escape_char(c) + r) == seq![c] + unescape(r),
{
    reveal_strlit("\\\\");
    reveal_strlit("\\\"");
    reveal_strlit("\\n");
    let s = escape_char(c) + r;
    if c == '\\' || c == '"' || c == '\n' {
        assert(s.skip(2) =~= r);
    } else {
        assert(s.skip(1) =~= r);
    }
}

/// Escaping is undone by reading the literal back: the Rust string literal
/// of a generated migration stands for exactly the SQL statement.
pub proof fn law_escape_round_trip(a: Seq<char>)
    ensures
        unescape(escape_chars(a)) == a,
    decreases a.len(),
{
    if a.len() == 0 {
        assert(escape_chars(a) =~= Seq::<char>::empty());
    } else {
        lemma_escape_front(a);
        law_escape_round_trip(a.drop_first());
        lemma_unescape_char(a[0], escape_chars(a.drop_first()));
        assert(seq![a[0]] + a.drop_first() =~= a);
    }
}

/// An escaped statement holds no line break, so the generated code has one
/// line per statement.
pub proof fn law_escaped_single_line(a: Seq<char>)
    ensures
        forall|k: int| 0 <= k < escape_chars(a).len() ==> escape_chars(a)[k] != '\n',
    decreases a.len(),
{
    reveal_strlit("\\\\");
    reveal_strlit("\\\"");
    reveal_strlit("\\n");
    if a.len() > 0 {
        law_escaped_single_line(a.drop_last());
        let p = escape_chars(a.drop_last());
        let e = escape_char(a.last());
        assert forall|k: int| 0 <= k < escape_chars(a).len() implies escape_chars(a)[k] != '\n' by {
            if k < p.len() {
                assert(escape_chars(a)[k] == p[k]);
            } else {
                assert(escape_chars(a)[k] == e[k - p.len()]);
            }
        }
    }
}


/// The up SQL of adding a foreign key alters the table and names, in this
/// order, the key column in parentheses, then after `REFERENCES` the
/// referenced table, then the referenced column in parentheses.
pub proof fn law_add_foreign_key_sql<D: SqlDialect>(d: &D, table: Seq<char>, fk: ForeignKeyView)
    ensures
        op_sql_spec(d, MigrationOpView::AddForeignKey { table, fk }) == "ALTER TABLE "@ + table
            + " ADD FOREIGN KEY ("@ + fk.column + ") REFERENCES "@ + fk.referenced_table + " ("@
            + fk.referenced_column + ");"@,
{
    reveal_strlit(")");
    reveal_strlit(";");
    reveal_strlit(");");
    assert(")"@ + ";"@ =~= ");"@);
    let a = "ALTER TABLE "@ + table + " ADD FOREIGN KEY ("@ + fk.column + ") REFERENCES "@
        + fk.referenced_table + " ("@ + fk.referenced_column;
    assert(a + ")"@ + ";"@ =~= a + ");"@);
}

/// Adding a foreign key to a table writes the same `FOREIGN KEY` clause that
/// `CREATE TABLE` ends the lines of the relation with: the diff's key of a
/// `HasOne` or `BelongsTo` relation references the relation's table and
/// target key, and `ALTER TABLE t ADD` puts that clause to the table.
pub proof fn law_add_foreign_key_matches_create<D: SqlDialect>(
    d: &D,
    table: Seq<char>,
    cols: Seq<ColumnSchemaView>,
    rels: Seq<RelationView>,
    r: RelationView,
)
    requires
        holds_foreign_key(r.relation_type),
    ensures
        ({
            let clause = "FOREIGN KEY ("@ + r.foreign_key + ") REFERENCES "@ + r.table + " ("@
                + r.target_key + ")"@;
            let lines = relation_lines_spec(d, cols, rels.push(r));
            let fk = foreign_keys_spec(rels.push(r)).last();
            &&& fk == ForeignKeyView {
                column: r.foreign_key,
                referenced_table: r.table,
                referenced_column: r.target_key,
            }
            &&& lines.len() >= clause.len() + 4
            &&& lines.subrange(lines.len() - clause.len() - 4, lines.len() as int) == "    "@
                + clause
            &&& op_sql_spec(d, MigrationOpView::AddForeignKey { table, fk }) == "ALTER TABLE "@
                + table + " ADD "@ + clause + ";"@
        }),
{
    reveal_strlit("    ");
    reveal_strlit("    FOREIGN KEY (");
    reveal_strlit("FOREIGN KEY (");
    reveal_strlit(" ADD ");
    reveal_strlit(" ADD FOREIGN KEY (");
    assert(rels.push(r).drop_last() =~= rels);
    let clause = "FOREIGN KEY ("@ + r.foreign_key + ") REFERENCES "@ + r.table + " ("@
        + r.target_key + ")"@;
    let fk = ForeignKeyView {
        column: r.foreign_key,
        referenced_table: r.table,
        referenced_column: r.target_key,
    };
    assert(foreign_keys_spec(rels.push(r)) =~= foreign_keys_spec(rels) + seq![fk]);
    crate::dialect::law_foreign_key_constraint(d, cols, rels, r);
    let extra = if crate::dialect::has_column_named(cols, r.foreign_key) {
        Seq::<char>::empty()
    } else {
        ",\n"@ + crate::dialect::column_def_spec(d, r.field)
    };
    let pre = relation_lines_spec(d, cols, rels) + extra + ",\n"@;
    let lines = relation_lines_spec(d, cols, rels.push(r));
    assert("    FOREIGN KEY ("@ =~= "    "@ + "FOREIGN KEY ("@);
    assert(lines =~= pre + ("    "@ + clause));
    assert(lines.subrange(pre.len() as int, lines.len() as int) =~= "    "@ + clause);
    law_add_foreign_key_sql(d, table, fk);
    assert(" ADD FOREIGN KEY ("@ =~= " ADD "@ + "FOREIGN KEY ("@);
    reveal_strlit(")");
    reveal_strlit(";");
    reveal_strlit(");");
    assert("ALTER TABLE "@ + table + " ADD FOREIGN KEY ("@ + fk.column + ") REFERENCES "@
        + fk.referenced_table + " ("@ + fk.referenced_column + ");"@ =~= "ALTER TABLE "@ + table
        + " ADD "@ + clause + ";"@);
}

/// The SQL that restores a column's nullability after the up changed it.
pub open spec fn restore_nullability_sql(table: Seq<char>, column: Seq<char>, made_nullable: bool) -> Seq<
    char,
> {
    "ALTER TABLE "@ + table + " ALTER COLUMN "@ + column + if made_nullable {
        " SET NOT NULL;"@
    } else {
        " DROP NOT NULL;"@
    }
}

/// Taking back a change of nullability restores the old nullability: the
/// down of making a column nullable is `SET NOT NULL`, the down of making it
/// `NOT NULL` is `DROP NOT NULL`; when nullability is all that changed, that
/// statement is the whole down.
pub proof fn law_reverse_nullability<D: SqlDialect>(
    d: &D,
    table: Seq<char>,
    column: Seq<char>,
    made_nullable: bool,
)
    ensures
        reverse_sql_spec(
            d,
            MigrationOpView::AlterColumn {
                table,
                column,
                changes: ColumnChangesView {
                    new_type: None,
                    nullable: Some(made_nullable),
                    unique: None,
                    auto_increment: None,
                },
            },
        ) == restore_nullability_sql(table, column, made_nullable),
{
    reveal_strlit(" SET NOT NULL;");
    reveal_strlit(" DROP NOT NULL;");
    let s = restore_nullability_sql(table, column, made_nullable);
    let raw = Seq::<char>::empty() + s + Seq::<char>::empty() + Seq::<char>::empty();
    assert(raw =~= s);
    assert(s.last() == ';');
}

/// Whatever else an `ALTER COLUMN` changed, its down holds the statement
/// that restores the old nullability, when the nullability changed.
#[verifier::spinoff_prover]
#[verifier::rlimit(30)]
pub proof fn law_reverse_nullability_within<D: SqlDialect>(
    d: &D,
    table: Seq<char>,
    column: Seq<char>,
    changes: ColumnChangesView,
    made_nullable: bool,
)
    requires
        changes.nullable == Some(made_nullable),
    ensures
        exists|pre: Seq<char>, post: Seq<char>|
            reverse_sql_spec(d, MigrationOpView::AlterColumn { table, column, changes }) == pre
                + restore_nullability_sql(table, column, made_nullable) + post,
{
    reveal_strlit(" SET NOT NULL;");
    reveal_strlit(" DROP NOT NULL;");
    reveal_strlit(" (old type unknown);");
    reveal_strlit(" (constraint name unknown);");
    reveal_strlit(");");
    reveal_strlit(" (old value unknown);");
    let pre = if changes.new_type is Some {
        "-- REVERSE: ALTER COLUMN "@ + table + "."@ + column + " (old type unknown);"@
    } else {
        Seq::<char>::empty()
    };
    let s = restore_nullability_sql(table, column, made_nullable);
    let u = match changes.unique {
        Some(true) => "-- REVERSE: DROP UNIQUE on "@ + table + "."@ + column
            + " (constraint name unknown);"@,
        Some(false) => "ALTER TABLE "@ + table + " ADD UNIQUE ("@ + column + ");"@,
        None => Seq::<char>::empty(),
    };
    let x = if changes.auto_increment is Some {
        "-- REVERSE: AUTO_INCREMENT change on "@ + table + "."@ + column + " (old value unknown);"@
    } else {
        Seq::<char>::empty()
    };
    let post = u + x;
    let raw = super::migration_op::reverse_alter_column_spec(table, column, changes);
    assert(raw =~= pre + s + post);
    assert(s.last() == ';');
    assert(u.len() > 0 ==> u.last() == ';');
    assert(x.len() > 0 ==> x.last() == ';');
    assert((pre + s + post).last() == ';') by {
        if x.len() > 0 {
            assert((pre + s + post).last() == x.last());
        } else if u.len() > 0 {
            assert(post =~= u);
            assert((pre + s + post).last() == u.last());
        } else {
            assert(post =~= Seq::<char>::empty());
            assert(pre + s + post =~= pre + s);
        }
    }
    assert(reverse_sql_spec(d, MigrationOpView::AlterColumn { table, column, changes }) == pre + s
        + post);
}

proof fn lemma_first_occurrence_before(names: Seq<Seq<char>>, j: int) -> (k: int)
    requires
        0 <= j < names.len(),
    ensures
        0 <= k <= j,
        names[k] == names[j],
        first_occurrence(names, k),
    decreases j,
{
    if first_occurrence(names, j) {
        j
    } else {
        let j2 = choose|j2: int| 0 <= j2 < j && names[j2] == names[j];
        lemma_first_occurrence_before(names, j2)
    }
}

proof fn lemma_last_position(names: Seq<Seq<char>>, j: int)
    requires
        0 <= j < names.len(),
        forall|k: int| j < k < names.len() ==> names[k] != names[j],
    ensures
        names.contains(names[j]),
        super::names::last_index_of(names, names[j]) == j,
{
    super::names::lemma_last_index_of(names, names[j]);
    assert(names.contains(names[j]));
}

proof fn lemma_contains_concat<T>(a: Seq<T>, b: Seq<T>, x: T)
    ensures
        a.contains(x) ==> (a + b).contains(x),
        b.contains(x) ==> (a + b).contains(x),
{
    if a.contains(x) {
        let k = choose|k: int| 0 <= k < a.len() && a[k] == x;
        assert((a + b)[k] == x);
    }
    if b.contains(x) {
        let k = choose|k: int| 0 <= k < b.len() && b[k] == x;
        assert((a + b)[a.len() + k] == x);
    }
}

proof fn lemma_added_indexes_grow(
    oi: Seq<IndexView>,
    ni: Seq<IndexView>,
    t: Seq<char>,
    m1: nat,
    m2: nat,
    drops: bool,
    op: MigrationOpView,
)
    requires
        m1 <= m2,
        added_indexes(oi, ni, t, m1, drops).contains(op),
    ensures
        added_indexes(oi, ni, t, m2, drops).contains(op),
    decreases m2,
{
    if m2 > m1 {
        lemma_added_indexes_grow(oi, ni, t, m1, (m2 - 1) as nat, drops, op);
        let prev = added_indexes(oi, ni, t, (m2 - 1) as nat, drops);
        let k = choose|k: int| 0 <= k < prev.len() && prev[k] == op;
        assert(added_indexes(oi, ni, t, m2, drops)[k] == op);
    }
}

proof fn lemma_dropped_indexes_grow(
    on: Seq<Seq<char>>,
    nn: Seq<Seq<char>>,
    t: Seq<char>,
    m1: nat,
    m2: nat,
    op: MigrationOpView,
)
    requires
        m1 <= m2,
        dropped_indexes(on, nn, t, m1).contains(op),
    ensures
        dropped_indexes(on, nn, t, m2).contains(op),
    decreases m2,
{
    if m2 > m1 {
        lemma_dropped_indexes_grow(on, nn, t, m1, (m2 - 1) as nat, op);
        let prev = dropped_indexes(on, nn, t, (m2 - 1) as nat);
        let k = choose|k: int| 0 <= k < prev.len() && prev[k] == op;
        assert(dropped_indexes(on, nn, t, m2)[k] == op);
    }
}

/// Whether position `j` holds the last index of its name in `s`: the one
/// that counts where a name occurs more than once.
pub open spec fn last_of_name(s: Seq<IndexView>, j: int) -> bool {
    &&& 0 <= j < s.len()
    &&& forall|k: int| j < k < s.len() ==> #[trigger] s[k].name != s[j].name
}

proof fn lemma_table_drops_has(o: TableSchemaView, n: TableSchemaView, op: MigrationOpView)
    requires
        dropped_columns(column_names(o.fields), column_names(n.fields), n.name, o.fields.len()).contains(op)
            || dropped_indexes(index_names(o.indexes), index_names(n.indexes), n.name, o.indexes.len()).contains(op)
            || added_indexes(o.indexes, n.indexes, n.name, n.indexes.len(), true).contains(op)
            || dropped_foreign_keys(
            foreign_keys_spec(o.relations),
            foreign_keys_spec(n.relations),
            n.name,
            foreign_keys_spec(o.relations).len(),
        ).contains(op),
    ensures
        diff_table_spec(o, n).contains(op),
{
    let t = n.name;
    let ofk = foreign_keys_spec(o.relations);
    let nfk = foreign_keys_spec(n.relations);
    let dc = dropped_columns(column_names(o.fields), column_names(n.fields), t, o.fields.len());
    let di = dropped_indexes(index_names(o.indexes), index_names(n.indexes), t, o.indexes.len());
    let ai = added_indexes(o.indexes, n.indexes, t, n.indexes.len(), true);
    let df = dropped_foreign_keys(ofk, nfk, t, ofk.len());
    lemma_contains_concat(dc, di, op);
    lemma_contains_concat(dc + di, ai, op);
    lemma_contains_concat(dc + di + ai, df, op);
    assert(table_drops_spec(o, n) == dc + di + ai + df);
    lemma_contains_concat(table_drops_spec(o, n), table_changes_spec(o, n), op);
}

proof fn lemma_table_changes_has(o: TableSchemaView, n: TableSchemaView, op: MigrationOpView)
    requires
        added_columns(o.fields, n.fields, n.name, n.fields.len()).contains(op)
            || altered_columns(o.fields, n.fields, n.name, n.fields.len()).contains(op)
            || primary_key_ops(o, n).contains(op)
            || added_indexes(o.indexes, n.indexes, n.name, n.indexes.len(), false).contains(op)
            || added_foreign_keys(
            foreign_keys_spec(o.relations),
            foreign_keys_spec(n.relations),
            n.name,
            foreign_keys_spec(n.relations).len(),
        ).contains(op),
    ensures
        diff_table_spec(o, n).contains(op),
{
    let t = n.name;
    let ofk = foreign_keys_spec(o.relations);
    let nfk = foreign_keys_spec(n.relations);
    let ac = added_columns(o.fields, n.fields, t, n.fields.len());
    let al = altered_columns(o.fields, n.fields, t, n.fields.len());
    let pk = primary_key_ops(o, n);
    let ai = added_indexes(o.indexes, n.indexes, t, n.indexes.len(), false);
    let af = added_foreign_keys(ofk, nfk, t, nfk.len());
    lemma_contains_concat(ac, al, op);
    lemma_contains_concat(ac + al, pk, op);
    lemma_contains_concat(ac + al + pk, ai, op);
    lemma_contains_concat(ac + al + pk + ai, af, op);
    assert(table_changes_spec(o, n) == ac + al + pk + ai + af);
    lemma_contains_concat(table_drops_spec(o, n), table_changes_spec(o, n), op);
}

/// When a table keeps an index name but the index's columns or its
/// uniqueness change, the diff of the table drops the old index and adds
/// the new one.
pub proof fn law_changed_index_remade(o: TableSchemaView, n: TableSchemaView, i: int, j: int)
    requires
        last_of_name(o.indexes, i),
        last_of_name(n.indexes, j),
        o.indexes[i].name == n.indexes[j].name,
        o.indexes[i].fields != n.indexes[j].fields || o.indexes[i].unique != n.indexes[j].unique,
    ensures
        diff_table_spec(o, n).contains(
            MigrationOpView::DropIndex { table: n.name, index: n.indexes[j].name },
        ),
        diff_table_spec(o, n).contains(
            MigrationOpView::AddIndex { table: n.name, index: n.indexes[j] },
        ),
{
    let oi = o.indexes;
    let ni = n.indexes;
    let on = index_names(oi);
    let nn = index_names(ni);
    let t = n.name;
    let name = ni[j].name;
    assert(nn[j] == name);
    assert(on[i] == name);
    assert forall|k: int| j < k < nn.len() implies nn[k] != nn[j] by {
        assert(nn[k] == ni[k].name);
    }
    assert forall|k: int| i < k < on.len() implies on[k] != on[i] by {
        assert(on[k] == oi[k].name);
    }
    lemma_last_position(nn, j);
    lemma_last_position(on, i);
    assert(by_name(ni, nn, name) == ni[j]);
    assert(by_name(oi, on, name) == oi[i]);
    let k = lemma_first_occurrence_before(nn, j);
    let drop_op = MigrationOpView::DropIndex { table: t, index: name };
    let add_op = MigrationOpView::AddIndex { table: t, index: ni[j] };
    let before_d = added_indexes(oi, ni, t, k as nat, true);
    assert(added_indexes(oi, ni, t, (k + 1) as nat, true) == before_d + seq![drop_op]);
    assert(added_indexes(oi, ni, t, (k + 1) as nat, true)[before_d.len() as int] == drop_op);
    lemma_added_indexes_grow(oi, ni, t, (k + 1) as nat, ni.len(), true, drop_op);
    let before_a = added_indexes(oi, ni, t, k as nat, false);
    assert(added_indexes(oi, ni, t, (k + 1) as nat, false) == before_a + seq![add_op]);
    assert(added_indexes(oi, ni, t, (k + 1) as nat, false)[before_a.len() as int] == add_op);
    lemma_added_indexes_grow(oi, ni, t, (k + 1) as nat, ni.len(), false, add_op);
    lemma_table_drops_has(o, n, drop_op);
    lemma_table_changes_has(o, n, add_op);
}

/// An index under a name that the old table does not have is added.
pub proof fn law_new_index_added(o: TableSchemaView, n: TableSchemaView, j: int)
    requires
        last_of_name(n.indexes, j),
        forall|k: int| 0 <= k < o.indexes.len() ==> #[trigger] o.indexes[k].name != n.indexes[j].name,
    ensures
        diff_table_spec(o, n).contains(
            MigrationOpView::AddIndex { table: n.name, index: n.indexes[j] },
        ),
{
    let oi = o.indexes;
    let ni = n.indexes;
    let on = index_names(oi);
    let nn = index_names(ni);
    let t = n.name;
    let name = ni[j].name;
    assert(nn[j] == name);
    assert forall|k: int| j < k < nn.len() implies nn[k] != nn[j] by {
        assert(nn[k] == ni[k].name);
    }
    lemma_last_position(nn, j);
    assert(by_name(ni, nn, name) == ni[j]);
    assert(!on.contains(name)) by {
        if on.contains(name) {
            let k = choose|k: int| 0 <= k < on.len() && on[k] == name;
            assert(oi[k].name == on[k]);
        }
    }
    let k = lemma_first_occurrence_before(nn, j);
    let add_op = MigrationOpView::AddIndex { table: t, index: ni[j] };
    let before_a = added_indexes(oi, ni, t, k as nat, false);
    assert(added_indexes(oi, ni, t, (k + 1) as nat, false) == before_a + seq![add_op]);
    assert(added_indexes(oi, ni, t, (k + 1) as nat, false)[before_a.len() as int] == add_op);
    lemma_added_indexes_grow(oi, ni, t, (k + 1) as nat, ni.len(), false, add_op);
    lemma_table_changes_has(o, n, add_op);
}

/// An index whose name the new table no longer has is dropped.
pub proof fn law_removed_index_dropped(o: TableSchemaView, n: TableSchemaView, i: int)
    requires
        0 <= i < o.indexes.len(),
        forall|k: int| 0 <= k < n.indexes.len() ==> #[trigger] n.indexes[k].name != o.indexes[i].name,
    ensures
        diff_table_spec(o, n).contains(
            MigrationOpView::DropIndex { table: n.name, index: o.indexes[i].name },
        ),
{
    let oi = o.indexes;
    let ni = n.indexes;
    let on = index_names(oi);
    let nn = index_names(ni);
    let t = n.name;
    let name = oi[i].name;
    assert(on[i] == name);
    assert(!nn.contains(name)) by {
        if nn.contains(name) {
            let k = choose|k: int| 0 <= k < nn.len() && nn[k] == name;
            assert(ni[k].name == nn[k]);
        }
    }
    let k = lemma_first_occurrence_before(on, i);
    let drop_op = MigrationOpView::DropIndex { table: t, index: name };
    let before = dropped_indexes(on, nn, t, k as nat);
    assert(dropped_indexes(on, nn, t, (k + 1) as nat) == before + seq![drop_op]);
    assert(dropped_indexes(on, nn, t, (k + 1) as nat)[before.len() as int] == drop_op);
    lemma_dropped_indexes_grow(on, nn, t, (k + 1) as nat, oi.len(), drop_op);
    lemma_table_drops_has(o, n, drop_op);
}

/// The diff of two tables is empty only when their indexes agree: every
/// index name of one is an index name of the other, and under each name the
/// index that counts has the same columns and the same uniqueness.
pub proof fn law_empty_table_diff_keeps_indexes(o: TableSchemaView, n: TableSchemaView)
    requires
        diff_table_spec(o, n).len() == 0,
    ensures
        forall|i: int|
            0 <= i < o.indexes.len() ==> exists|k: int|
                0 <= k < n.indexes.len() && #[trigger] n.indexes[k].name == #[trigger] o.indexes[i].name,
        forall|j: int|
            last_of_name(n.indexes, j) ==> exists|i: int|
                #[trigger] last_of_name(o.indexes, i) && o.indexes[i] == #[trigger] n.indexes[j],
{
    assert forall|i: int|
        0 <= i < o.indexes.len() implies exists|k: int|
            0 <= k < n.indexes.len() && #[trigger] n.indexes[k].name == #[trigger] o.indexes[i].name by {
        if !(exists|k: int|
            0 <= k < n.indexes.len() && #[trigger] n.indexes[k].name == o.indexes[i].name) {
            law_removed_index_dropped(o, n, i);
        }
    }
    assert forall|j: int| last_of_name(n.indexes, j) implies exists|i: int|
        #[trigger] last_of_name(o.indexes, i) && o.indexes[i] == #[trigger] n.indexes[j] by {
        let name = n.indexes[j].name;
        let on = index_names(o.indexes);
        if exists|k: int| 0 <= k < o.indexes.len() && #[trigger] o.indexes[k].name == name {
            let k = choose|k: int| 0 <= k < o.indexes.len() && #[trigger] o.indexes[k].name == name;
            assert(on[k] == name);
            assert(on.contains(name));
            super::names::lemma_last_index_of(on, name);
            let i = super::names::last_index_of(on, name);
            assert(o.indexes[i].name == name);
            assert forall|m: int| i < m < o.indexes.len() implies #[trigger] o.indexes[m].name
                != o.indexes[i].name by {
                assert(on[m] == o.indexes[m].name);
            }
            assert(last_of_name(o.indexes, i));
            if o.indexes[i].fields != n.indexes[j].fields || o.indexes[i].unique
                != n.indexes[j].unique {
                law_changed_index_remade(o, n, i, j);
            } else {
                assert(o.indexes[i] == n.indexes[j]);
            }
        } else {
            law_new_index_added(o, n, j);
        }
    }
}

proof fn lemma_added_columns_grow(
    oc: Seq<ColumnSchemaView>,
    nc: Seq<ColumnSchemaView>,
    t: Seq<char>,
    m1: nat,
    m2: nat,
    op: MigrationOpView,
)
    requires
        m1 <= m2,
        added_columns(oc, nc, t, m1).contains(op),
    ensures
        added_columns(oc, nc, t, m2).contains(op),
    decreases m2,
{
    if m2 > m1 {
        lemma_added_columns_grow(oc, nc, t, m1, (m2 - 1) as nat, op);
        let prev = added_columns(oc, nc, t, (m2 - 1) as nat);
        let k = choose|k: int| 0 <= k < prev.len() && prev[k] == op;
        assert(added_columns(oc, nc, t, m2)[k] == op);
    }
}

proof fn lemma_altered_columns_grow(
    oc: Seq<ColumnSchemaView>,
    nc: Seq<ColumnSchemaView>,
    t: Seq<char>,
    m1: nat,
    m2: nat,
    op: MigrationOpView,
)
    requires
        m1 <= m2,
        altered_columns(oc, nc, t, m1).contains(op),
    ensures
        altered_columns(oc, nc, t, m2).contains(op),
    decreases m2,
{
    if m2 > m1 {
        lemma_altered_columns_grow(oc, nc, t, m1, (m2 - 1) as nat, op);
        let prev = altered_columns(oc, nc, t, (m2 - 1) as nat);
        let k = choose|k: int| 0 <= k < prev.len() && prev[k] == op;
        assert(altered_columns(oc, nc, t, m2)[k] == op);
    }
}

proof fn lemma_dropped_columns_grow(
    on: Seq<Seq<char>>,
    nn: Seq<Seq<char>>,
    t: Seq<char>,
    m1: nat,
    m2: nat,
    op: MigrationOpView,
)
    requires
        m1 <= m2,
        dropped_columns(on, nn, t, m1).contains(op),
    ensures
        dropped_columns(on, nn, t, m2).contains(op),
    decreases m2,
{
    if m2 > m1 {
        lemma_dropped_columns_grow(on, nn, t, m1, (m2 - 1) as nat, op);
        let prev = dropped_columns(on, nn, t, (m2 - 1) as nat);
        let k = choose|k: int| 0 <= k < prev.len() && prev[k] == op;
        assert(dropped_columns(on, nn, t, m2)[k] == op);
    }
}

proof fn lemma_added_fks_grow(
    ofk: Seq<ForeignKeyView>,
    nfk: Seq<ForeignKeyView>,
    t: Seq<char>,
    m1: nat,
    m2: nat,
    op: MigrationOpView,
)
    requires
        m1 <= m2,
        added_foreign_keys(ofk, nfk, t, m1).contains(op),
    ensures
        added_foreign_keys(ofk, nfk, t, m2).contains(op),
    decreases m2,
{
    if m2 > m1 {
        lemma_added_fks_grow(ofk, nfk, t, m1, (m2 - 1) as nat, op);
        let prev = added_foreign_keys(ofk, nfk, t, (m2 - 1) as nat);
        let k = choose|k: int| 0 <= k < prev.len() && prev[k] == op;
        assert(added_foreign_keys(ofk, nfk, t, m2)[k] == op);
    }
}

proof fn lemma_dropped_fks_grow(
    ofk: Seq<ForeignKeyView>,
    nfk: Seq<ForeignKeyView>,
    t: Seq<char>,
    m1: nat,
    m2: nat,
    op: MigrationOpView,
)
    requires
        m1 <= m2,
        dropped_foreign_keys(ofk, nfk, t, m1).contains(op),
    ensures
        dropped_foreign_keys(ofk, nfk, t, m2).contains(op),
    decreases m2,
{
    if m2 > m1 {
        lemma_dropped_fks_grow(ofk, nfk, t, m1, (m2 - 1) as nat, op);
        let prev = dropped_foreign_keys(ofk, nfk, t, (m2 - 1) as nat);
        let k = choose|k: int| 0 <= k < prev.len() && prev[k] == op;
        assert(dropped_foreign_keys(ofk, nfk, t, m2)[k] == op);
    }
}

/// Whether position `j` holds the last column of its name in `s`: the one
/// that counts where a name occurs more than once.
pub open spec fn last_column_of_name(s: Seq<ColumnSchemaView>, j: int) -> bool {
    &&& 0 <= j < s.len()
    &&& forall|k: int| j < k < s.len() ==> #[trigger] s[k].name != s[j].name
}

/// A column under a name that the old table does not have is added, with
/// its name, type, nullability, uniqueness, and auto increment exactly when
/// it has a generation strategy.
pub proof fn law_new_column_added(o: TableSchemaView, n: TableSchemaView, j: int)
    requires
        last_column_of_name(n.fields, j),
        forall|k: int| 0 <= k < o.fields.len() ==> #[trigger] o.fields[k].name != n.fields[j].name,
    ensures
        diff_table_spec(o, n).contains(
            MigrationOpView::AddColumn {
                table: n.name,
                column: super::migration_op::ColumnDefView {
                    name: n.fields[j].name,
                    sql_type: n.fields[j].sql_type,
                    nullable: n.fields[j].is_nullable,
                    unique: n.fields[j].is_unique,
                    auto_increment: n.fields[j].generation_type is Some,
                },
            },
        ),
{
    let oc = o.fields;
    let nc = n.fields;
    let on = column_names(oc);
    let nn = column_names(nc);
    let t = n.name;
    let name = nc[j].name;
    assert(nn[j] == name);
    assert forall|k: int| j < k < nn.len() implies nn[k] != nn[j] by {
        assert(nn[k] == nc[k].name);
    }
    lemma_last_position(nn, j);
    assert(by_name(nc, nn, name) == nc[j]);
    assert(!on.contains(name)) by {
        if on.contains(name) {
            let k = choose|k: int| 0 <= k < on.len() && on[k] == name;
            assert(oc[k].name == on[k]);
        }
    }
    let k = lemma_first_occurrence_before(nn, j);
    let add_op = MigrationOpView::AddColumn {
        table: t,
        column: super::migration_op::column_def_of(nc[j]),
    };
    let before = added_columns(oc, nc, t, k as nat);
    assert(added_columns(oc, nc, t, (k + 1) as nat) == before + seq![add_op]);
    assert(added_columns(oc, nc, t, (k + 1) as nat)[before.len() as int] == add_op);
    lemma_added_columns_grow(oc, nc, t, (k + 1) as nat, nc.len(), add_op);
    lemma_table_changes_has(o, n, add_op);
}

/// When a table keeps a column name but the column's type, nullability,
/// uniqueness or generation changes, the diff alters that column, and the
/// change records exactly the new value of each property that changed.
pub proof fn law_changed_column_altered(o: TableSchemaView, n: TableSchemaView, i: int, j: int)
    requires
        last_column_of_name(o.fields, i),
        last_column_of_name(n.fields, j),
        o.fields[i].name == n.fields[j].name,
        o.fields[i] != n.fields[j],
    ensures
        diff_table_spec(o, n).contains(
            MigrationOpView::AlterColumn {
                table: n.name,
                column: n.fields[j].name,
                changes: ColumnChangesView {
                    new_type: if o.fields[i].sql_type != n.fields[j].sql_type {
                        Some(n.fields[j].sql_type)
                    } else {
                        None
                    },
                    nullable: if o.fields[i].is_nullable != n.fields[j].is_nullable {
                        Some(n.fields[j].is_nullable)
                    } else {
                        None
                    },
                    unique: if o.fields[i].is_unique != n.fields[j].is_unique {
                        Some(n.fields[j].is_unique)
                    } else {
                        None
                    },
                    auto_increment: if o.fields[i].generation_type != n.fields[j].generation_type {
                        Some(n.fields[j].generation_type is Some)
                    } else {
                        None
                    },
                },
            },
        ),
{
    let oc = o.fields;
    let nc = n.fields;
    let on = column_names(oc);
    let nn = column_names(nc);
    let t = n.name;
    let name = nc[j].name;
    assert(nn[j] == name);
    assert(on[i] == name);
    assert forall|k: int| j < k < nn.len() implies nn[k] != nn[j] by {
        assert(nn[k] == nc[k].name);
    }
    assert forall|k: int| i < k < on.len() implies on[k] != on[i] by {
        assert(on[k] == oc[k].name);
    }
    lemma_last_position(nn, j);
    lemma_last_position(on, i);
    assert(by_name(nc, nn, name) == nc[j]);
    assert(by_name(oc, on, name) == oc[i]);
    let changes = diff_column_spec(oc[i], nc[j]);
    assert(!changes_empty(changes));
    let k = lemma_first_occurrence_before(nn, j);
    let op = MigrationOpView::AlterColumn { table: t, column: name, changes };
    let before = altered_columns(oc, nc, t, k as nat);
    assert(altered_columns(oc, nc, t, (k + 1) as nat) == before + seq![op]);
    assert(altered_columns(oc, nc, t, (k + 1) as nat)[before.len() as int] == op);
    lemma_altered_columns_grow(oc, nc, t, (k + 1) as nat, nc.len(), op);
    lemma_table_changes_has(o, n, op);
}

/// A column whose name the new table no longer has is dropped.
pub proof fn law_removed_column_dropped(o: TableSchemaView, n: TableSchemaView, i: int)
    requires
        0 <= i < o.fields.len(),
        forall|k: int| 0 <= k < n.fields.len() ==> #[trigger] n.fields[k].name != o.fields[i].name,
    ensures
        diff_table_spec(o, n).contains(
            MigrationOpView::DropColumn { table: n.name, column: o.fields[i].name },
        ),
{
    let oc = o.fields;
    let nc = n.fields;
    let on = column_names(oc);
    let nn = column_names(nc);
    let t = n.name;
    let name = oc[i].name;
    assert(on[i] == name);
    assert(!nn.contains(name)) by {
        if nn.contains(name) {
            let k = choose|k: int| 0 <= k < nn.len() && nn[k] == name;
            assert(nc[k].name == nn[k]);
        }
    }
    let k = lemma_first_occurrence_before(on, i);
    let op = MigrationOpView::DropColumn { table: t, column: name };
    let before = dropped_columns(on, nn, t, k as nat);
    assert(dropped_columns(on, nn, t, (k + 1) as nat) == before + seq![op]);
    assert(dropped_columns(on, nn, t, (k + 1) as nat)[before.len() as int] == op);
    lemma_dropped_columns_grow(on, nn, t, (k + 1) as nat, oc.len(), op);
    lemma_table_drops_has(o, n, op);
}

/// A foreign key of the new table that the old one lacks is added, and one
/// of the old table that the new one lacks is dropped by its column's name.
pub proof fn law_foreign_key_changes(o: TableSchemaView, n: TableSchemaView)
    ensures
        forall|k: int|
            0 <= k < foreign_keys_spec(n.relations).len() && !foreign_keys_spec(o.relations).contains(
                #[trigger] foreign_keys_spec(n.relations)[k],
            ) ==> diff_table_spec(o, n).contains(
                MigrationOpView::AddForeignKey { table: n.name, fk: foreign_keys_spec(n.relations)[k] },
            ),
        forall|k: int|
            0 <= k < foreign_keys_spec(o.relations).len() && !foreign_keys_spec(n.relations).contains(
                #[trigger] foreign_keys_spec(o.relations)[k],
            ) ==> diff_table_spec(o, n).contains(
                MigrationOpView::DropForeignKey {
                    table: n.name,
                    constraint_name: foreign_keys_spec(o.relations)[k].column,
                },
            ),
{
    let ofk = foreign_keys_spec(o.relations);
    let nfk = foreign_keys_spec(n.relations);
    let t = n.name;
    assert forall|k: int|
        0 <= k < nfk.len() && !ofk.contains(#[trigger] nfk[k]) implies diff_table_spec(o, n).contains(
        MigrationOpView::AddForeignKey { table: t, fk: nfk[k] },
    ) by {
        let op = MigrationOpView::AddForeignKey { table: t, fk: nfk[k] };
        let before = added_foreign_keys(ofk, nfk, t, k as nat);
        assert(added_foreign_keys(ofk, nfk, t, (k + 1) as nat) == before + seq![op]);
        assert(added_foreign_keys(ofk, nfk, t, (k + 1) as nat)[before.len() as int] == op);
        lemma_added_fks_grow(ofk, nfk, t, (k + 1) as nat, nfk.len(), op);
        lemma_table_changes_has(o, n, op);
    }
    assert forall|k: int|
        0 <= k < ofk.len() && !nfk.contains(#[trigger] ofk[k]) implies diff_table_spec(o, n).contains(
        MigrationOpView::DropForeignKey { table: t, constraint_name: ofk[k].column },
    ) by {
        let op = MigrationOpView::DropForeignKey { table: t, constraint_name: ofk[k].column };
        let before = dropped_foreign_keys(ofk, nfk, t, k as nat);
        assert(dropped_foreign_keys(ofk, nfk, t, (k + 1) as nat) == before + seq![op]);
        assert(dropped_foreign_keys(ofk, nfk, t, (k + 1) as nat)[before.len() as int] == op);
        lemma_dropped_fks_grow(ofk, nfk, t, (k + 1) as nat, ofk.len(), op);
        lemma_table_drops_has(o, n, op);
    }
}

/// A primary key that changed, on a table that lists a column of its name,
/// has that column's auto increment set to whether the new key is generated.
pub proof fn law_primary_key_change(o: TableSchemaView, n: TableSchemaView)
    requires
        o.primary_key != n.primary_key,
        exists|k: int| 0 <= k < n.fields.len() && #[trigger] n.fields[k].name == n.primary_key.name,
    ensures
        diff_table_spec(o, n).contains(
            MigrationOpView::AlterColumn {
                table: n.name,
                column: n.primary_key.name,
                changes: ColumnChangesView {
                    new_type: None,
                    nullable: None,
                    unique: None,
                    auto_increment: Some(n.primary_key.generation_type is Some),
                },
            },
        ),
{
    let k = choose|k: int| 0 <= k < n.fields.len() && #[trigger] n.fields[k].name == n.primary_key.name;
    assert(column_names(n.fields)[k] == n.primary_key.name);
    let op = primary_key_ops(o, n)[0];
    assert(primary_key_ops(o, n).contains(op));
    lemma_table_changes_has(o, n, op);
}

/// The diff of two tables is empty only when the tables agree: the same
/// column names, each column that counts with the same type, nullability,
/// uniqueness and generation; the same foreign keys; and the same primary
/// key, unless the new table lists no column of the key's name. (The
/// indexes agree too: see `law_empty_table_diff_keeps_indexes`.)
pub proof fn law_empty_table_diff_agrees(o: TableSchemaView, n: TableSchemaView)
    requires
        diff_table_spec(o, n).len() == 0,
    ensures
        forall|i: int|
            0 <= i < o.fields.len() ==> exists|k: int|
                0 <= k < n.fields.len() && #[trigger] n.fields[k].name == #[trigger] o.fields[i].name,
        forall|j: int|
            last_column_of_name(n.fields, j) ==> exists|i: int|
                #[trigger] last_column_of_name(o.fields, i) && o.fields[i] == #[trigger] n.fields[j],
        forall|k: int|
            0 <= k < foreign_keys_spec(n.relations).len() ==> foreign_keys_spec(o.relations).contains(
                #[trigger] foreign_keys_spec(n.relations)[k],
            ),
        forall|k: int|
            0 <= k < foreign_keys_spec(o.relations).len() ==> foreign_keys_spec(n.relations).contains(
                #[trigger] foreign_keys_spec(o.relations)[k],
            ),
        o.primary_key == n.primary_key || !(exists|k: int|
            0 <= k < n.fields.len() && #[trigger] n.fields[k].name == n.primary_key.name),
{
    law_foreign_key_changes(o, n);
    if o.primary_key != n.primary_key && exists|k: int|
        0 <= k < n.fields.len() && #[trigger] n.fields[k].name == n.primary_key.name {
        law_primary_key_change(o, n);
    }
    assert forall|i: int|
        0 <= i < o.fields.len() implies exists|k: int|
            0 <= k < n.fields.len() && #[trigger] n.fields[k].name == #[trigger] o.fields[i].name by {
        if !(exists|k: int| 0 <= k < n.fields.len() && #[trigger] n.fields[k].name == o.fields[i].name) {
            law_removed_column_dropped(o, n, i);
        }
    }
    assert forall|j: int| last_column_of_name(n.fields, j) implies exists|i: int|
        #[trigger] last_column_of_name(o.fields, i) && o.fields[i] == #[trigger] n.fields[j] by {
        let name = n.fields[j].name;
        let on = column_names(o.fields);
        if exists|k: int| 0 <= k < o.fields.len() && #[trigger] o.fields[k].name == name {
            let k = choose|k: int| 0 <= k < o.fields.len() && #[trigger] o.fields[k].name == name;
            assert(on[k] == name);
            assert(on.contains(name));
            super::names::lemma_last_index_of(on, name);
            let i = super::names::last_index_of(on, name);
            assert(o.fields[i].name == name);
            assert forall|m: int| i < m < o.fields.len() implies #[trigger] o.fields[m].name
                != o.fields[i].name by {
                assert(on[m] == o.fields[m].name);
            }
            assert(last_column_of_name(o.fields, i));
            if o.fields[i] != n.fields[j] {
                law_changed_column_altered(o, n, i, j);
            }
        } else {
            law_new_column_added(o, n, j);
        }
    }
}

/// The up SQL of the operations that drop something, or add an index, names
/// each part in its place: the dropped table; the renamed table, then its
/// new name; the table, then the dropped column; the dropped index; the
/// table, then the dropped constraint; and for an added index, `UNIQUE`
/// exactly when the index is unique, its name, its table and its columns.
/// A rename or dropped column whose name ends in `;` keeps just that `;`.
pub proof fn law_simple_op_sql<D: SqlDialect>(
    d: &D,
    table: Seq<char>,
    other: Seq<char>,
    index: IndexView,
)
    requires
        other.len() == 0 || other.last() != ';',
    ensures
        op_sql_spec(d, MigrationOpView::DropTable { table }) == "DROP TABLE IF EXISTS "@ + table
            + ";"@,
        op_sql_spec(d, MigrationOpView::RenameTable { from: table, to: other }) == "ALTER TABLE "@
            + table + " RENAME TO "@ + other + ";"@,
        op_sql_spec(d, MigrationOpView::DropColumn { table, column: other }) == "ALTER TABLE "@
            + table + " DROP COLUMN "@ + other + ";"@,
        op_sql_spec(d, MigrationOpView::DropIndex { table, index: other }) == "DROP INDEX IF EXISTS "@
            + other + ";"@,
        op_sql_spec(d, MigrationOpView::DropForeignKey { table, constraint_name: other })
            == "ALTER TABLE "@ + table + " DROP CONSTRAINT "@ + other + ";"@,
        op_sql_spec(d, MigrationOpView::AddIndex { table, index }) == (if index.unique {
            "CREATE UNIQUE INDEX IF NOT EXISTS "@
        } else {
            "CREATE INDEX IF NOT EXISTS "@
        }) + index.name + " ON "@ + table + " ("@ + crate::dialect::join(index.fields, ", "@)
            + ");"@,
{
    reveal_strlit(" ");
    reveal_strlit("RENAME TO ");
    reveal_strlit(" RENAME TO ");
    reveal_strlit("DROP COLUMN ");
    reveal_strlit(" DROP COLUMN ");
    reveal_strlit("CREATE ");
    reveal_strlit("UNIQUE ");
    reveal_strlit("INDEX IF NOT EXISTS ");
    reveal_strlit("CREATE UNIQUE INDEX IF NOT EXISTS ");
    reveal_strlit("CREATE INDEX IF NOT EXISTS ");
    reveal_strlit(")");
    reveal_strlit(";");
    reveal_strlit(");");
    let r = "ALTER TABLE "@ + table + " "@ + "RENAME TO "@ + other;
    assert(r =~= "ALTER TABLE "@ + table + " RENAME TO "@ + other);
    if other.len() == 0 {
        assert(r.last() == ' ');
    } else {
        assert(r.last() == other.last());
    }
    let c = "ALTER TABLE "@ + table + " "@ + "DROP COLUMN "@ + other;
    assert(c =~= "ALTER TABLE "@ + table + " DROP COLUMN "@ + other);
    if other.len() == 0 {
        assert(c.last() == ' ');
    } else {
        assert(c.last() == other.last());
    }
    let tail = index.name + " ON "@ + table + " ("@ + crate::dialect::join(index.fields, ", "@);
    if index.unique {
        assert("CREATE "@ + "UNIQUE "@ + "INDEX IF NOT EXISTS "@ =~= "CREATE UNIQUE INDEX IF NOT EXISTS "@);
        assert("CREATE "@ + "UNIQUE "@ + "INDEX IF NOT EXISTS "@ + index.name + " ON "@ + table
            + " ("@ + crate::dialect::join(index.fields, ", "@) + ")"@ + ";"@
            =~= "CREATE UNIQUE INDEX IF NOT EXISTS "@ + tail + ");"@);
    } else {
        assert("CREATE "@ + Seq::<char>::empty() + "INDEX IF NOT EXISTS "@ =~= "CREATE INDEX IF NOT EXISTS "@);
        assert("CREATE "@ + Seq::<char>::empty() + "INDEX IF NOT EXISTS "@ + index.name + " ON "@
            + table + " ("@ + crate::dialect::join(index.fields, ", "@) + ")"@ + ";"@
            =~= "CREATE INDEX IF NOT EXISTS "@ + tail + ");"@);
    }
}

/// The down SQL of a uniqueness change restores the old uniqueness where
/// SQLite can: a column made not unique gets `ADD UNIQUE` back; a column
/// made unique gets a note, as the constraint's name is not known.
pub proof fn law_reverse_uniqueness<D: SqlDialect>(d: &D, table: Seq<char>, column: Seq<char>, made_unique: bool)
    ensures
        reverse_sql_spec(
            d,
            MigrationOpView::AlterColumn {
                table,
                column,
                changes: ColumnChangesView {
                    new_type: None,
                    nullable: None,
                    unique: Some(made_unique),
                    auto_increment: None,
                },
            },
        ) == if made_unique {
            "-- REVERSE: DROP UNIQUE on "@ + table + "."@ + column + " (constraint name unknown);"@
        } else {
            "ALTER TABLE "@ + table + " ADD UNIQUE ("@ + column + ");"@
        },
{
    reveal_strlit(" (constraint name unknown);");
    reveal_strlit(");");
    let u = if made_unique {
        "-- REVERSE: DROP UNIQUE on "@ + table + "."@ + column + " (constraint name unknown);"@
    } else {
        "ALTER TABLE "@ + table + " ADD UNIQUE ("@ + column + ");"@
    };
    let raw = Seq::<char>::empty() + Seq::<char>::empty() + u + Seq::<char>::empty();
    assert(raw =~= u);
    assert(u.last() == ';');
}

} // verus!
