//! Comparing two schema snapshots and producing the migration operations
//! that turn the old one into the new one.
//!
//! A list of tables (and, inside a table, its columns and its indexes) is
//! read as a map keyed by name: the keys are the distinct names, visited in
//! order of first appearance, and a key stands for the last element that
//! carries it.
pub mod migration_op;
pub mod laws;
pub mod names;

use vstd::prelude::*;
use crate::schema::{
    holds_foreign_key, Duplicate, ColumnSchemaModel, ColumnSchemaView, IndexModel, IndexView,
    RelationModel, RelationType, RelationView, TableSchemaModel, TableSchemaView,
};
use self::migration_op::{
    changes_empty, column_def_of, ColumnChanges, ColumnChangesView, ColumnDef, ForeignKeyDef,
    ForeignKeyView, MigrationOp, MigrationOpView,
};
use self::names::{
    contains_name, first_occurrence, is_first_occurrence, last_index, last_index_of,
    lemma_last_index_of,
};

verus! {

/// The names of a list of tables.
pub open spec fn table_names(s: Seq<TableSchemaView>) -> Seq<Seq<char>> {
    Seq::new(s.len(), |i: int| s[i].name)
}

/// The names of a list of columns.
pub open spec fn column_names(s: Seq<ColumnSchemaView>) -> Seq<Seq<char>> {
    Seq::new(s.len(), |i: int| s[i].name)
}

/// The names of a list of indexes.
pub open spec fn index_names(s: Seq<IndexView>) -> Seq<Seq<char>> {
    Seq::new(s.len(), |i: int| s[i].name)
}

/// The element of `s` that stands for the key `name`.
pub open spec fn by_name<T>(s: Seq<T>, names: Seq<Seq<char>>, name: Seq<char>) -> T {
    s[last_index_of(names, name)]
}

/// `DropTable` for each key of `old` among its first `n` positions that `new` lacks.
pub open spec fn dropped_tables(on: Seq<Seq<char>>, nn: Seq<Seq<char>>, n: nat) -> Seq<
    MigrationOpView,
>
    decreases n,
{
    if n == 0 {
        Seq::empty()
    } else {
        let k = n - 1;
        dropped_tables(on, nn, (n - 1) as nat) + if first_occurrence(on, k) && !nn.contains(
            on[k],
        ) {
            seq![MigrationOpView::DropTable { table: on[k] }]
        } else {
            Seq::empty()
        }
    }
}

/// `CreateTable` for each key of `new` among its first `n` positions that `old` lacks.
pub open spec fn created_tables(
    old: Seq<TableSchemaView>,
    new: Seq<TableSchemaView>,
    n: nat,
) -> Seq<MigrationOpView>
    decreases n,
{
    if n == 0 {
        Seq::empty()
    } else {
        let k = n - 1;
        let nn = table_names(new);
        created_tables(old, new, (n - 1) as nat) + if first_occurrence(nn, k) && !table_names(
            old,
        ).contains(nn[k]) {
            seq![MigrationOpView::CreateTable(by_name(new, nn, nn[k]))]
        } else {
            Seq::empty()
        }
    }
}

/// The detail operations of each key of `new` among its first `n` positions
/// that `old` has too: their drops when `drops` holds, else their other
/// changes.
pub open spec fn kept_tables(
    old: Seq<TableSchemaView>,
    new: Seq<TableSchemaView>,
    n: nat,
    drops: bool,
) -> Seq<MigrationOpView>
    decreases n,
{
    if n == 0 {
        Seq::empty()
    } else {
        let k = n - 1;
        let nn = table_names(new);
        let on = table_names(old);
        kept_tables(old, new, (n - 1) as nat, drops) + if first_occurrence(nn, k) && on.contains(
            nn[k],
        ) {
            table_part(by_name(old, on, nn[k]), by_name(new, nn, nn[k]), drops)
        } else {
            Seq::empty()
        }
    }
}

/// The operations that turn the tables `old` into the tables `new`: dropped
/// tables, then the drops inside kept tables (columns, indexes, foreign
/// keys), then created tables, then the other changes inside kept tables.
pub open spec fn diff_spec(old: Seq<TableSchemaView>, new: Seq<TableSchemaView>) -> Seq<
    MigrationOpView,
> {
    dropped_tables(table_names(old), table_names(new), old.len()) + kept_tables(
        old,
        new,
        new.len(),
        true,
    ) + created_tables(old, new, new.len()) + kept_tables(old, new, new.len(), false)
}

/// What changed from column `o` to column `n`.
pub open spec fn diff_column_spec(o: ColumnSchemaView, n: ColumnSchemaView) -> ColumnChangesView {
    ColumnChangesView {
        new_type: if o.sql_type != n.sql_type {
            Some(n.sql_type)
        } else {
            None
        },
        nullable: if o.is_nullable != n.is_nullable {
            Some(n.is_nullable)
        } else {
            None
        },
        unique: if o.is_unique != n.is_unique {
            Some(n.is_unique)
        } else {
            None
        },
        auto_increment: if o.generation_type != n.generation_type {
            Some(n.generation_type is Some)
        } else {
            None
        },
    }
}

/// `AddColumn` for each key of `nc` among its first `n` positions that `oc` lacks.
pub open spec fn added_columns(
    oc: Seq<ColumnSchemaView>,
    nc: Seq<ColumnSchemaView>,
    table: Seq<char>,
    n: nat,
) -> Seq<MigrationOpView>
    decreases n,
{
    if n == 0 {
        Seq::empty()
    } else {
        let k = n - 1;
        let nn = column_names(nc);
        added_columns(oc, nc, table, (n - 1) as nat) + if first_occurrence(nn, k)
            && !column_names(oc).contains(nn[k]) {
            seq![
                MigrationOpView::AddColumn {
                    table,
                    column: column_def_of(by_name(nc, nn, nn[k])),
                },
            ]
        } else {
            Seq::empty()
        }
    }
}

/// `DropColumn` for each key of `on` among its first `n` positions that `nn` lacks.
pub open spec fn dropped_columns(
    on: Seq<Seq<char>>,
    nn: Seq<Seq<char>>,
    table: Seq<char>,
    n: nat,
) -> Seq<MigrationOpView>
    decreases n,
{
    if n == 0 {
        Seq::empty()
    } else {
        let k = n - 1;
        dropped_columns(on, nn, table, (n - 1) as nat) + if first_occurrence(on, k) && !nn.contains(
            on[k],
        ) {
            seq![MigrationOpView::DropColumn { table, column: on[k] }]
        } else {
            Seq::empty()
        }
    }
}

/// `AlterColumn` for each key of `nc` among its first `n` positions that
/// `oc` has too, when a property of the column changed.
pub open spec fn altered_columns(
    oc: Seq<ColumnSchemaView>,
    nc: Seq<ColumnSchemaView>,
    table: Seq<char>,
    n: nat,
) -> Seq<MigrationOpView>
    decreases n,
{
    if n == 0 {
        Seq::empty()
    } else {
        let k = n - 1;
        let nn = column_names(nc);
        let on = column_names(oc);
        let changes = diff_column_spec(by_name(oc, on, nn[k]), by_name(nc, nn, nn[k]));
        altered_columns(oc, nc, table, (n - 1) as nat) + if first_occurrence(nn, k) && on.contains(
            nn[k],
        ) && !changes_empty(changes) {
            seq![MigrationOpView::AlterColumn { table, column: nn[k], changes }]
        } else {
            Seq::empty()
        }
    }
}

/// The auto-increment change of a primary key that changed and is listed
/// among the new columns.
pub open spec fn primary_key_ops(o: TableSchemaView, n: TableSchemaView) -> Seq<MigrationOpView> {
    if o.primary_key != n.primary_key && column_names(n.fields).contains(n.primary_key.name) {
        seq![
            MigrationOpView::AlterColumn {
                table: n.name,
                column: n.primary_key.name,
                changes: ColumnChangesView {
                    new_type: None,
                    nullable: None,
                    unique: None,
                    auto_increment: Some(n.primary_key.generation_type is Some),
                },
            },
        ]
    } else {
        Seq::empty()
    }
}

/// `DropIndex` for each key of `on` among its first `n` positions that `nn` lacks.
pub open spec fn dropped_indexes(
    on: Seq<Seq<char>>,
    nn: Seq<Seq<char>>,
    table: Seq<char>,
    n: nat,
) -> Seq<MigrationOpView>
    decreases n,
{
    if n == 0 {
        Seq::empty()
    } else {
        let k = n - 1;
        dropped_indexes(on, nn, table, (n - 1) as nat) + if first_occurrence(on, k) && !nn.contains(
            on[k],
        ) {
            seq![MigrationOpView::DropIndex { table, index: on[k] }]
        } else {
            Seq::empty()
        }
    }
}

/// For each key of `ni` among its first `n` positions whose index changed
/// (its columns or uniqueness differ from the one `oi` holds): with `drops`,
/// the `DropIndex` of the old one; without, the `AddIndex` of the new one.
/// Without `drops`, a key that `oi` lacks gets its `AddIndex` too.
pub open spec fn added_indexes(
    oi: Seq<IndexView>,
    ni: Seq<IndexView>,
    table: Seq<char>,
    n: nat,
    drops: bool,
) -> Seq<MigrationOpView>
    decreases n,
{
    if n == 0 {
        Seq::empty()
    } else {
        let k = n - 1;
        let nn = index_names(ni);
        let on = index_names(oi);
        let new_i = by_name(ni, nn, nn[k]);
        let old_i = by_name(oi, on, nn[k]);
        added_indexes(oi, ni, table, (n - 1) as nat, drops) + if !first_occurrence(nn, k) {
            Seq::empty()
        } else if !on.contains(nn[k]) {
            if drops {
                Seq::empty()
            } else {
                seq![MigrationOpView::AddIndex { table, index: new_i }]
            }
        } else if old_i.fields != new_i.fields || old_i.unique != new_i.unique {
            if drops {
                seq![MigrationOpView::DropIndex { table, index: nn[k] }]
            } else {
                seq![MigrationOpView::AddIndex { table, index: new_i }]
            }
        } else {
            Seq::empty()
        }
    }
}

/// The foreign keys that the relations hold, in order.
pub open spec fn foreign_keys_spec(rels: Seq<RelationView>) -> Seq<ForeignKeyView>
    decreases rels.len(),
{
    if rels.len() == 0 {
        Seq::empty()
    } else {
        let r = rels.last();
        foreign_keys_spec(rels.drop_last()) + if holds_foreign_key(r.relation_type) {
            seq![
                ForeignKeyView {
                    column: r.foreign_key,
                    referenced_table: r.table,
                    referenced_column: r.target_key,
                },
            ]
        } else {
            Seq::empty()
        }
    }
}

/// `DropForeignKey` for each of the first `n` old keys that the new keys lack.
pub open spec fn dropped_foreign_keys(
    ofk: Seq<ForeignKeyView>,
    nfk: Seq<ForeignKeyView>,
    table: Seq<char>,
    n: nat,
) -> Seq<MigrationOpView>
    decreases n,
{
    if n == 0 {
        Seq::empty()
    } else {
        let k = n - 1;
        dropped_foreign_keys(ofk, nfk, table, (n - 1) as nat) + if !nfk.contains(ofk[k]) {
            seq![MigrationOpView::DropForeignKey { table, constraint_name: ofk[k].column }]
        } else {
            Seq::empty()
        }
    }
}

/// `AddForeignKey` for each of the first `n` new keys that the old keys lack.
pub open spec fn added_foreign_keys(
    ofk: Seq<ForeignKeyView>,
    nfk: Seq<ForeignKeyView>,
    table: Seq<char>,
    n: nat,
) -> Seq<MigrationOpView>
    decreases n,
{
    if n == 0 {
        Seq::empty()
    } else {
        let k = n - 1;
        added_foreign_keys(ofk, nfk, table, (n - 1) as nat) + if !ofk.contains(nfk[k]) {
            seq![MigrationOpView::AddForeignKey { table, fk: nfk[k] }]
        } else {
            Seq::empty()
        }
    }
}

/// What table `o` loses on its way to table `n` (named `n.name` in the
/// operations): dropped columns, dropped indexes (those gone, then those
/// that changed and are made anew), dropped foreign keys.
pub open spec fn table_drops_spec(o: TableSchemaView, n: TableSchemaView) -> Seq<MigrationOpView> {
    let t = n.name;
    let ofk = foreign_keys_spec(o.relations);
    let nfk = foreign_keys_spec(n.relations);
    dropped_columns(column_names(o.fields), column_names(n.fields), t, o.fields.len())
        + dropped_indexes(index_names(o.indexes), index_names(n.indexes), t, o.indexes.len())
        + added_indexes(o.indexes, n.indexes, t, n.indexes.len(), true) + dropped_foreign_keys(
        ofk,
        nfk,
        t,
        ofk.len(),
    )
}

/// The other changes from table `o` to table `n`: added and altered
/// columns, the primary key, added indexes, added foreign keys.
pub open spec fn table_changes_spec(o: TableSchemaView, n: TableSchemaView) -> Seq<
    MigrationOpView,
> {
    let t = n.name;
    let ofk = foreign_keys_spec(o.relations);
    let nfk = foreign_keys_spec(n.relations);
    added_columns(o.fields, n.fields, t, n.fields.len()) + altered_columns(
        o.fields,
        n.fields,
        t,
        n.fields.len(),
    ) + primary_key_ops(o, n) + added_indexes(o.indexes, n.indexes, t, n.indexes.len(), false)
        + added_foreign_keys(ofk, nfk, t, nfk.len())
}

/// The drops of a table change when `drops` holds, else its other changes.
pub open spec fn table_part(o: TableSchemaView, n: TableSchemaView, drops: bool) -> Seq<
    MigrationOpView,
> {
    if drops {
        table_drops_spec(o, n)
    } else {
        table_changes_spec(o, n)
    }
}

/// The operations that turn table `o` into table `n`: its drops first, then
/// its other changes.
pub open spec fn diff_table_spec(o: TableSchemaView, n: TableSchemaView) -> Seq<MigrationOpView> {
    table_drops_spec(o, n) + table_changes_spec(o, n)
}

fn names_of_tables(ts: &[TableSchemaModel]) -> (r: Vec<String>)
    ensures
        r.deep_view() == table_names(ts.deep_view()),
        r.len() == ts.len(),
{
    let mut r: Vec<String> = Vec::new();
    let mut i: usize = 0;
    while i < ts.len()
        invariant
            i <= ts.len(),
            r.len() == i,
            forall|k: int| 0 <= k < i ==> r@[k]@ == ts@[k].name@,
        decreases ts.len() - i,
    {
        r.push(ts[i].name.clone());
        i = i + 1;
    }
    assert(r.deep_view() =~= table_names(ts.deep_view()));
    r
}

fn names_of_columns(cs: &Vec<ColumnSchemaModel>) -> (r: Vec<String>)
    ensures
        r.deep_view() == column_names(cs.deep_view()),
        r.len() == cs.len(),
{
    let mut r: Vec<String> = Vec::new();
    let mut i: usize = 0;
    while i < cs.len()
        invariant
            i <= cs.len(),
            r.len() == i,
            forall|k: int| 0 <= k < i ==> r@[k]@ == cs@[k].name@,
        decreases cs.len() - i,
    {
        r.push(cs[i].name.clone());
        i = i + 1;
    }
    assert(r.deep_view() =~= column_names(cs.deep_view()));
    r
}

fn names_of_indexes(xs: &Vec<IndexModel>) -> (r: Vec<String>)
    ensures
        r.deep_view() == index_names(xs.deep_view()),
        r.len() == xs.len(),
{
    let mut r: Vec<String> = Vec::new();
    let mut i: usize = 0;
    while i < xs.len()
        invariant
            i <= xs.len(),
            r.len() == i,
            forall|k: int| 0 <= k < i ==> r@[k]@ == xs@[k].name@,
        decreases xs.len() - i,
    {
        r.push(xs[i].name.clone());
        i = i + 1;
    }
    assert(r.deep_view() =~= index_names(xs.deep_view()));
    r
}

/// Append `more` to `ops`.
fn append_ops(ops: &mut Vec<MigrationOp>, more: Vec<MigrationOp>)
    ensures
        final(ops).deep_view() == old(ops).deep_view() + more.deep_view(),
{
    let mut more = more;
    let ghost m = more.deep_view();
    ops.append(&mut more);
    assert(ops.deep_view() =~= old(ops).deep_view() + m);
}

fn dropped_tables_ops(on: &Vec<String>, nn: &Vec<String>) -> (r: Vec<MigrationOp>)
    ensures
        r.deep_view() == dropped_tables(on.deep_view(), nn.deep_view(), on.len() as nat),
{
    let mut ops: Vec<MigrationOp> = Vec::new();
    let mut i: usize = 0;
    while i < on.len()
        invariant
            i <= on.len(),
            ops.deep_view() == dropped_tables(on.deep_view(), nn.deep_view(), i as nat),
        decreases on.len() - i,
    {
        if is_first_occurrence(on, i) && !contains_name(nn, &on[i]) {
            ops.push(MigrationOp::DropTable { table: on[i].clone() });
        }
        i = i + 1;
        assert(ops.deep_view() =~= dropped_tables(on.deep_view(), nn.deep_view(), i as nat));
    }
    ops
}

fn created_tables_ops(
    old: &[TableSchemaModel],
    new: &[TableSchemaModel],
    on: &Vec<String>,
    nn: &Vec<String>,
) -> (r: Vec<MigrationOp>)
    requires
        on.deep_view() == table_names(old.deep_view()),
        nn.deep_view() == table_names(new.deep_view()),
        on.len() == old.len(),
        nn.len() == new.len(),
    ensures
        r.deep_view() == created_tables(old.deep_view(), new.deep_view(), new.len() as nat),
{
    let mut ops: Vec<MigrationOp> = Vec::new();
    let mut i: usize = 0;
    while i < new.len()
        invariant
            i <= new.len(),
            nn.len() == new.len(),
            on.deep_view() == table_names(old.deep_view()),
            nn.deep_view() == table_names(new.deep_view()),
            ops.deep_view() == created_tables(old.deep_view(), new.deep_view(), i as nat),
        decreases new.len() - i,
    {
        if is_first_occurrence(nn, i) && !contains_name(on, &nn[i]) {
            let k = last_index(nn, &nn[i]);
            proof {
                lemma_last_index_of(nn.deep_view(), nn.deep_view()[i as int]);
                assert(nn.deep_view().contains(nn.deep_view()[i as int]));
            }
            let k = k.unwrap();
            ops.push(MigrationOp::CreateTable(new[k].duplicate()));
        }
        i = i + 1;
        assert(ops.deep_view() =~= created_tables(old.deep_view(), new.deep_view(), i as nat));
    }
    ops
}

fn kept_tables_ops(
    old: &[TableSchemaModel],
    new: &[TableSchemaModel],
    on: &Vec<String>,
    nn: &Vec<String>,
    drops: bool,
) -> (r: Vec<MigrationOp>)
    requires
        on.deep_view() == table_names(old.deep_view()),
        nn.deep_view() == table_names(new.deep_view()),
        on.len() == old.len(),
        nn.len() == new.len(),
    ensures
        r.deep_view() == kept_tables(old.deep_view(), new.deep_view(), new.len() as nat, drops),
{
    let mut ops: Vec<MigrationOp> = Vec::new();
    let mut i: usize = 0;
    while i < new.len()
        invariant
            i <= new.len(),
            nn.len() == new.len(),
            on.len() == old.len(),
            on.deep_view() == table_names(old.deep_view()),
            nn.deep_view() == table_names(new.deep_view()),
            ops.deep_view() == kept_tables(old.deep_view(), new.deep_view(), i as nat, drops),
        decreases new.len() - i,
    {
        if is_first_occurrence(nn, i) && contains_name(on, &nn[i]) {
            let ko = last_index(on, &nn[i]);
            let kn = last_index(nn, &nn[i]);
            proof {
                assert(nn.deep_view().contains(nn.deep_view()[i as int]));
            }
            let ko = ko.unwrap();
            let kn = kn.unwrap();
            let detail = if drops {
                table_drop_ops(&old[ko], &new[kn])
            } else {
                table_change_ops(&old[ko], &new[kn])
            };
            append_ops(&mut ops, detail);
        }
        i = i + 1;
        assert(ops.deep_view() =~= kept_tables(old.deep_view(), new.deep_view(), i as nat, drops));
    }
    ops
}

fn added_columns_ops(oc: &Vec<ColumnSchemaModel>, nc: &Vec<ColumnSchemaModel>, table: &String) -> (r:
    Vec<MigrationOp>)
    ensures
        r.deep_view() == added_columns(oc.deep_view(), nc.deep_view(), table@, nc.len() as nat),
{
    let on = names_of_columns(oc);
    let nn = names_of_columns(nc);
    let mut ops: Vec<MigrationOp> = Vec::new();
    let mut i: usize = 0;
    while i < nc.len()
        invariant
            i <= nc.len(),
            nn.len() == nc.len(),
            on.deep_view() == column_names(oc.deep_view()),
            nn.deep_view() == column_names(nc.deep_view()),
            ops.deep_view() == added_columns(oc.deep_view(), nc.deep_view(), table@, i as nat),
        decreases nc.len() - i,
    {
        if is_first_occurrence(&nn, i) && !contains_name(&on, &nn[i]) {
            let k = last_index(&nn, &nn[i]);
            proof {
                assert(nn.deep_view().contains(nn.deep_view()[i as int]));
            }
            let k = k.unwrap();
            ops.push(MigrationOp::AddColumn { table: table.clone(), column: ColumnDef::from(&nc[k]) });
        }
        i = i + 1;
        assert(ops.deep_view() =~= added_columns(oc.deep_view(), nc.deep_view(), table@, i as nat));
    }
    ops
}

fn dropped_columns_ops(on: &Vec<String>, nn: &Vec<String>, table: &String) -> (r: Vec<MigrationOp>)
    ensures
        r.deep_view() == dropped_columns(on.deep_view(), nn.deep_view(), table@, on.len() as nat),
{
    let mut ops: Vec<MigrationOp> = Vec::new();
    let mut i: usize = 0;
    while i < on.len()
        invariant
            i <= on.len(),
            ops.deep_view() == dropped_columns(on.deep_view(), nn.deep_view(), table@, i as nat),
        decreases on.len() - i,
    {
        if is_first_occurrence(on, i) && !contains_name(nn, &on[i]) {
            ops.push(MigrationOp::DropColumn { table: table.clone(), column: on[i].clone() });
        }
        i = i + 1;
        assert(ops.deep_view() =~= dropped_columns(on.deep_view(), nn.deep_view(), table@, i as nat));
    }
    ops
}

fn altered_columns_ops(oc: &Vec<ColumnSchemaModel>, nc: &Vec<ColumnSchemaModel>, table: &String) -> (r:
    Vec<MigrationOp>)
    ensures
        r.deep_view() == altered_columns(oc.deep_view(), nc.deep_view(), table@, nc.len() as nat),
{
    let on = names_of_columns(oc);
    let nn = names_of_columns(nc);
    let mut ops: Vec<MigrationOp> = Vec::new();
    let mut i: usize = 0;
    while i < nc.len()
        invariant
            i <= nc.len(),
            nn.len() == nc.len(),
            on.len() == oc.len(),
            on.deep_view() == column_names(oc.deep_view()),
            nn.deep_view() == column_names(nc.deep_view()),
            ops.deep_view() == altered_columns(oc.deep_view(), nc.deep_view(), table@, i as nat),
        decreases nc.len() - i,
    {
        if is_first_occurrence(&nn, i) && contains_name(&on, &nn[i]) {
            let ko = last_index(&on, &nn[i]);
            let kn = last_index(&nn, &nn[i]);
            proof {
                assert(nn.deep_view().contains(nn.deep_view()[i as int]));
            }
            let ko = ko.unwrap();
            let kn = kn.unwrap();
            let changes = DiffEngine::diff_column(&oc[ko], &nc[kn]);
            if !changes.is_empty() {
                ops.push(
                    MigrationOp::AlterColumn {
                        table: table.clone(),
                        column: nn[i].clone(),
                        changes,
                    },
                );
            }
        }
        i = i + 1;
        assert(ops.deep_view() =~= altered_columns(oc.deep_view(), nc.deep_view(), table@, i as nat));
    }
    ops
}

fn primary_key_change_ops(o: &TableSchemaModel, n: &TableSchemaModel, nn: &Vec<String>) -> (r: Vec<
    MigrationOp,
>)
    requires
        nn.deep_view() == column_names(n.fields.deep_view()),
    ensures
        r.deep_view() == primary_key_ops(o@, n@),
{
    let mut ops: Vec<MigrationOp> = Vec::new();
    if !o.primary_key.same_as(&n.primary_key) && contains_name(nn, &n.primary_key.name) {
        let changes = ColumnChanges {
            new_type: None,
            nullable: None,
            unique: None,
            auto_increment: Some(n.primary_key.generation_type.is_some()),
        };
        ops.push(
            MigrationOp::AlterColumn {
                table: n.name.clone(),
                column: n.primary_key.name.clone(),
                changes,
            },
        );
    }
    assert(ops.deep_view() =~= primary_key_ops(o@, n@));
    ops
}

fn dropped_indexes_ops(on: &Vec<String>, nn: &Vec<String>, table: &String) -> (r: Vec<MigrationOp>)
    ensures
        r.deep_view() == dropped_indexes(on.deep_view(), nn.deep_view(), table@, on.len() as nat),
{
    let mut ops: Vec<MigrationOp> = Vec::new();
    let mut i: usize = 0;
    while i < on.len()
        invariant
            i <= on.len(),
            ops.deep_view() == dropped_indexes(on.deep_view(), nn.deep_view(), table@, i as nat),
        decreases on.len() - i,
    {
        if is_first_occurrence(on, i) && !contains_name(nn, &on[i]) {
            ops.push(MigrationOp::DropIndex { table: table.clone(), index: on[i].clone() });
        }
        i = i + 1;
        assert(ops.deep_view() =~= dropped_indexes(on.deep_view(), nn.deep_view(), table@, i as nat));
    }
    ops
}

fn added_indexes_ops(oi: &Vec<IndexModel>, ni: &Vec<IndexModel>, table: &String, drops: bool) -> (r:
    Vec<MigrationOp>)
    ensures
        r.deep_view() == added_indexes(
            oi.deep_view(),
            ni.deep_view(),
            table@,
            ni.len() as nat,
            drops,
        ),
{
    let on = names_of_indexes(oi);
    let nn = names_of_indexes(ni);
    let mut ops: Vec<MigrationOp> = Vec::new();
    let mut i: usize = 0;
    while i < ni.len()
        invariant
            i <= ni.len(),
            nn.len() == ni.len(),
            on.len() == oi.len(),
            on.deep_view() == index_names(oi.deep_view()),
            nn.deep_view() == index_names(ni.deep_view()),
            ops.deep_view() == added_indexes(oi.deep_view(), ni.deep_view(), table@, i as nat, drops),
        decreases ni.len() - i,
    {
        if is_first_occurrence(&nn, i) {
            let kn = last_index(&nn, &nn[i]);
            proof {
                assert(nn.deep_view().contains(nn.deep_view()[i as int]));
            }
            let kn = kn.unwrap();
            match last_index(&on, &nn[i]) {
                None => {
                    if !drops {
                        ops.push(
                            MigrationOp::AddIndex { table: table.clone(), index: ni[kn].duplicate() },
                        );
                    }
                },
                Some(ko) => {
                    if !crate::schema::same_strings(&oi[ko].fields, &ni[kn].fields) || oi[ko].unique
                        != ni[kn].unique {
                        if drops {
                            ops.push(
                                MigrationOp::DropIndex { table: table.clone(), index: nn[i].clone() },
                            );
                        } else {
                            ops.push(
                                MigrationOp::AddIndex {
                                    table: table.clone(),
                                    index: ni[kn].duplicate(),
                                },
                            );
                        }
                    }
                },
            }
        }
        i = i + 1;
        assert(ops.deep_view() =~= added_indexes(
            oi.deep_view(),
            ni.deep_view(),
            table@,
            i as nat,
            drops,
        ));
    }
    ops
}

/// The foreign keys that the relations hold, in order.
fn foreign_keys(rels: &Vec<RelationModel>) -> (r: Vec<ForeignKeyDef>)
    ensures
        r.deep_view() == foreign_keys_spec(rels.deep_view()),
{
    let mut r: Vec<ForeignKeyDef> = Vec::new();
    let mut i: usize = 0;
    while i < rels.len()
        invariant
            i <= rels.len(),
            r.deep_view() == foreign_keys_spec(rels.deep_view().take(i as int)),
        decreases rels.len() - i,
    {
        let rel = &rels[i];
        let holds = match rel.relation_type {
            RelationType::BelongsTo => true,
            RelationType::HasOne => true,
            _ => false,
        };
        if holds {
            r.push(
                ForeignKeyDef {
                    column: rel.foreign_key.clone(),
                    referenced_table: rel.table.clone(),
                    referenced_column: rel.target_key.clone(),
                },
            );
        }
        i = i + 1;
        proof {
            let t = rels.deep_view().take(i as int);
            assert(t.drop_last() =~= rels.deep_view().take(i - 1));
            assert(r.deep_view() =~= foreign_keys_spec(t));
        }
    }
    assert(rels.deep_view().take(rels.len() as int) =~= rels.deep_view());
    r
}

fn contains_fk(v: &Vec<ForeignKeyDef>, fk: &ForeignKeyDef) -> (r: bool)
    ensures
        r == v.deep_view().contains(fk@),
{
    let mut i: usize = 0;
    while i < v.len()
        invariant
            i <= v.len(),
            forall|k: int| 0 <= k < i ==> v.deep_view()[k] != fk@,
        decreases v.len() - i,
    {
        if v[i].column == fk.column && v[i].referenced_table == fk.referenced_table
            && v[i].referenced_column == fk.referenced_column {
            assert(v.deep_view()[i as int] == fk@);
            return true;
        }
        i = i + 1;
    }
    false
}

fn dropped_fk_ops(ofk: &Vec<ForeignKeyDef>, nfk: &Vec<ForeignKeyDef>, table: &String) -> (r: Vec<
    MigrationOp,
>)
    ensures
        r.deep_view() == dropped_foreign_keys(
            ofk.deep_view(),
            nfk.deep_view(),
            table@,
            ofk.len() as nat,
        ),
{
    let mut ops: Vec<MigrationOp> = Vec::new();
    let mut i: usize = 0;
    while i < ofk.len()
        invariant
            i <= ofk.len(),
            ops.deep_view() == dropped_foreign_keys(
                ofk.deep_view(),
                nfk.deep_view(),
                table@,
                i as nat,
            ),
        decreases ofk.len() - i,
    {
        if !contains_fk(nfk, &ofk[i]) {
            ops.push(
                MigrationOp::DropForeignKey {
                    table: table.clone(),
                    constraint_name: ofk[i].column.clone(),
                },
            );
        }
        i = i + 1;
        assert(ops.deep_view() =~= dropped_foreign_keys(
            ofk.deep_view(),
            nfk.deep_view(),
            table@,
            i as nat,
        ));
    }
    ops
}

fn added_fk_ops(ofk: &Vec<ForeignKeyDef>, nfk: &Vec<ForeignKeyDef>, table: &String) -> (r: Vec<
    MigrationOp,
>)
    ensures
        r.deep_view() == added_foreign_keys(
            ofk.deep_view(),
            nfk.deep_view(),
            table@,
            nfk.len() as nat,
        ),
{
    let mut ops: Vec<MigrationOp> = Vec::new();
    let mut i: usize = 0;
    while i < nfk.len()
        invariant
            i <= nfk.len(),
            ops.deep_view() == added_foreign_keys(
                ofk.deep_view(),
                nfk.deep_view(),
                table@,
                i as nat,
            ),
        decreases nfk.len() - i,
    {
        if !contains_fk(ofk, &nfk[i]) {
            ops.push(
                MigrationOp::AddForeignKey {
                    table: table.clone(),
                    fk: ForeignKeyDef {
                        column: nfk[i].column.clone(),
                        referenced_table: nfk[i].referenced_table.clone(),
                        referenced_column: nfk[i].referenced_column.clone(),
                    },
                },
            );
        }
        i = i + 1;
        assert(ops.deep_view() =~= added_foreign_keys(
            ofk.deep_view(),
            nfk.deep_view(),
            table@,
            i as nat,
        ));
    }
    ops
}

/// What `old` loses on its way to `new`.
fn table_drop_ops(old: &TableSchemaModel, new: &TableSchemaModel) -> (r: Vec<MigrationOp>)
    ensures
        r.deep_view() == table_drops_spec(old@, new@),
{
    let table = &new.name;
    let ocn = names_of_columns(&old.fields);
    let ncn = names_of_columns(&new.fields);
    let mut ops = dropped_columns_ops(&ocn, &ncn, table);
    let oin = names_of_indexes(&old.indexes);
    let nin = names_of_indexes(&new.indexes);
    append_ops(&mut ops, dropped_indexes_ops(&oin, &nin, table));
    append_ops(&mut ops, added_indexes_ops(&old.indexes, &new.indexes, table, true));
    let ofk = foreign_keys(&old.relations);
    let nfk = foreign_keys(&new.relations);
    append_ops(&mut ops, dropped_fk_ops(&ofk, &nfk, table));
    ops
}

/// The other changes from `old` to `new`.
fn table_change_ops(old: &TableSchemaModel, new: &TableSchemaModel) -> (r: Vec<MigrationOp>)
    ensures
        r.deep_view() == table_changes_spec(old@, new@),
{
    let table = &new.name;
    let ncn = names_of_columns(&new.fields);
    let mut ops = added_columns_ops(&old.fields, &new.fields, table);
    append_ops(&mut ops, altered_columns_ops(&old.fields, &new.fields, table));
    append_ops(&mut ops, primary_key_change_ops(old, new, &ncn));
    append_ops(&mut ops, added_indexes_ops(&old.indexes, &new.indexes, table, false));
    let ofk = foreign_keys(&old.relations);
    let nfk = foreign_keys(&new.relations);
    append_ops(&mut ops, added_fk_ops(&ofk, &nfk, table));
    ops
}

/// Compares two schema snapshots and produces the operations that turn the
/// old one into the new one.
pub struct DiffEngine;

impl DiffEngine {
    /// Produce the ordered list of migration operations: dropped tables,
    /// then what kept tables lose (columns, indexes, foreign keys), then
    /// created tables, then the other changes inside kept tables. So every
    /// drop comes before every addition, and every created table before the
    /// columns, indexes and foreign keys added to kept tables.
    pub fn diff(old: &[TableSchemaModel], new: &[TableSchemaModel]) -> (r: Vec<MigrationOp>)
        ensures
            r.deep_view() == diff_spec(old.deep_view(), new.deep_view()),
    {
        let on = names_of_tables(old);
        let nn = names_of_tables(new);
        let mut ops = dropped_tables_ops(&on, &nn);
        let kept_drops = kept_tables_ops(old, new, &on, &nn, true);
        append_ops(&mut ops, kept_drops);
        let created = created_tables_ops(old, new, &on, &nn);
        append_ops(&mut ops, created);
        let kept_changes = kept_tables_ops(old, new, &on, &nn, false);
        append_ops(&mut ops, kept_changes);
        ops
    }

    /// Diff columns, primary key, indexes and foreign keys of one table: the
    /// drops first, then the other changes.
    pub fn diff_table(old: &TableSchemaModel, new: &TableSchemaModel) -> (r: Vec<MigrationOp>)
        ensures
            r.deep_view() == diff_table_spec(old@, new@),
    {
        let mut ops = table_drop_ops(old, new);
        append_ops(&mut ops, table_change_ops(old, new));
        ops
    }

    /// What changed from column `old` to column `new`.
    pub fn diff_column(old: &ColumnSchemaModel, new: &ColumnSchemaModel) -> (r: ColumnChanges)
        ensures
            r@ == diff_column_spec(old@, new@),
    {
        let new_type = if !old.sql_type.same_as(&new.sql_type) {
            Some(new.sql_type.duplicate())
        } else {
            None
        };
        let nullable = if old.is_nullable != new.is_nullable {
            Some(new.is_nullable)
        } else {
            None
        };
        let unique = if old.is_unique != new.is_unique {
            Some(new.is_unique)
        } else {
            None
        };
        let auto_increment = if !crate::schema::same_generation(
            &old.generation_type,
            &new.generation_type,
        ) {
            Some(new.generation_type.is_some())
        } else {
            None
        };
        ColumnChanges { new_type, nullable, unique, auto_increment }
    }
}

} // verus!
