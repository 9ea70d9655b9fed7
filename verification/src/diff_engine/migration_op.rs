//! Migration operations and the SQL and Rust code rendered for them.
use vstd::prelude::*;
use crate::dialect::{
    alter_spec, alter_table_sql, create_index_ddl, create_index_spec, create_table_spec,
    create_table_sql, drop_table_spec, drop_table_sql, AlterAction, AlterActionView, SqlDialect,
};
use crate::text::{is_white_space, white_space};
use crate::schema::{
    ColumnSchemaModel, ColumnSchemaView, Duplicate, GenerationType, IndexModel, IndexView,
    PrimaryKeyModel,
    SqlType, SqlTypeView, TableSchemaModel, TableSchemaView,
};

verus! {

/// A single schema-level migration operation.
///
/// Each variant describes one atomic DDL change that transforms the old
/// schema into the new one.
#[derive(Debug, Clone, PartialEq)]
pub enum MigrationOp {
    /// Create a new table with its full schema.
    CreateTable(TableSchemaModel),
    /// Drop an existing table.
    DropTable { table: String },
    RenameTable { from: String, to: String },
    AddColumn { table: String, column: ColumnDef },
    DropColumn { table: String, column: String },
    AlterColumn { table: String, column: String, changes: ColumnChanges },
    AddIndex { table: String, index: IndexModel },
    DropIndex { table: String, index: String },
    AddForeignKey { table: String, fk: ForeignKeyDef },
    DropForeignKey { table: String, constraint_name: String },
}

/// Simplified column descriptor for DDL generation: only a boolean
/// `auto_increment` flag instead of a generation strategy.
#[derive(Debug, Clone, PartialEq)]
pub struct ColumnDef {
    pub name: String,
    pub sql_type: SqlType,
    pub nullable: bool,
    pub unique: bool,
    pub auto_increment: bool,
}

/// Simplified primary-key descriptor for DDL generation.
#[derive(Debug, Clone, PartialEq)]
pub struct PrimaryKeyDef {
    pub name: String,
    pub sql_type: SqlType,
    pub auto_increment: bool,
}

/// Describes a foreign-key constraint (which column points where).
#[derive(Debug, Clone, PartialEq)]
pub struct ForeignKeyDef {
    pub column: String,
    pub referenced_table: String,
    pub referenced_column: String,
}

/// Describes which properties of a column changed.
#[derive(Debug, Clone, Default, PartialEq)]
pub struct ColumnChanges {
    pub new_type: Option<SqlType>,
    pub nullable: Option<bool>,
    pub unique: Option<bool>,
    pub auto_increment: Option<bool>,
}

/// The view of a [`ColumnDef`].
pub struct ColumnDefView {
    pub name: Seq<char>,
    pub sql_type: SqlTypeView,
    pub nullable: bool,
    pub unique: bool,
    pub auto_increment: bool,
}

/// The view of a [`PrimaryKeyDef`].
pub struct PrimaryKeyDefView {
    pub name: Seq<char>,
    pub sql_type: SqlTypeView,
    pub auto_increment: bool,
}

/// The view of a [`ForeignKeyDef`].
pub struct ForeignKeyView {
    pub column: Seq<char>,
    pub referenced_table: Seq<char>,
    pub referenced_column: Seq<char>,
}

/// The view of a [`ColumnChanges`].
pub struct ColumnChangesView {
    pub new_type: Option<SqlTypeView>,
    pub nullable: Option<bool>,
    pub unique: Option<bool>,
    pub auto_increment: Option<bool>,
}

/// The view of a [`MigrationOp`].
pub enum MigrationOpView {
    CreateTable(TableSchemaView),
    DropTable { table: Seq<char> },
    RenameTable { from: Seq<char>, to: Seq<char> },
    AddColumn { table: Seq<char>, column: ColumnDefView },
    DropColumn { table: Seq<char>, column: Seq<char> },
    AlterColumn { table: Seq<char>, column: Seq<char>, changes: ColumnChangesView },
    AddIndex { table: Seq<char>, index: IndexView },
    DropIndex { table: Seq<char>, index: Seq<char> },
    AddForeignKey { table: Seq<char>, fk: ForeignKeyView },
    DropForeignKey { table: Seq<char>, constraint_name: Seq<char> },
}

impl View for ColumnDef {
    type V = ColumnDefView;

    open spec fn view(&self) -> ColumnDefView {
        ColumnDefView {
            name: self.name@,
            sql_type: self.sql_type@,
            nullable: self.nullable,
            unique: self.unique,
            auto_increment: self.auto_increment,
        }
    }
}

impl View for PrimaryKeyDef {
    type V = PrimaryKeyDefView;

    open spec fn view(&self) -> PrimaryKeyDefView {
        PrimaryKeyDefView {
            name: self.name@,
            sql_type: self.sql_type@,
            auto_increment: self.auto_increment,
        }
    }
}

impl View for ForeignKeyDef {
    type V = ForeignKeyView;

    open spec fn view(&self) -> ForeignKeyView {
        ForeignKeyView {
            column: self.column@,
            referenced_table: self.referenced_table@,
            referenced_column: self.referenced_column@,
        }
    }
}

impl DeepView for ForeignKeyDef {
    type V = ForeignKeyView;

    open spec fn deep_view(&self) -> ForeignKeyView {
        self@
    }
}

impl View for ColumnChanges {
    type V = ColumnChangesView;

    open spec fn view(&self) -> ColumnChangesView {
        ColumnChangesView {
            new_type: match self.new_type {
                Some(t) => Some(t@),
                None => None,
            },
            nullable: self.nullable,
            unique: self.unique,
            auto_increment: self.auto_increment,
        }
    }
}

impl View for MigrationOp {
    type V = MigrationOpView;

    open spec fn view(&self) -> MigrationOpView {
        match self {
            MigrationOp::CreateTable(s) => MigrationOpView::CreateTable(s@),
            MigrationOp::DropTable { table } => MigrationOpView::DropTable { table: table@ },
            MigrationOp::RenameTable { from, to } => MigrationOpView::RenameTable {
                from: from@,
                to: to@,
            },
            MigrationOp::AddColumn { table, column } => MigrationOpView::AddColumn {
                table: table@,
                column: column@,
            },
            MigrationOp::DropColumn { table, column } => MigrationOpView::DropColumn {
                table: table@,
                column: column@,
            },
            MigrationOp::AlterColumn { table, column, changes } => MigrationOpView::AlterColumn {
                table: table@,
                column: column@,
                changes: changes@,
            },
            MigrationOp::AddIndex { table, index } => MigrationOpView::AddIndex {
                table: table@,
                index: index@,
            },
            MigrationOp::DropIndex { table, index } => MigrationOpView::DropIndex {
                table: table@,
                index: index@,
            },
            MigrationOp::AddForeignKey { table, fk } => MigrationOpView::AddForeignKey {
                table: table@,
                fk: fk@,
            },
            MigrationOp::DropForeignKey { table, constraint_name } =>
                MigrationOpView::DropForeignKey { table: table@, constraint_name: constraint_name@ },
        }
    }
}

impl DeepView for MigrationOp {
    type V = MigrationOpView;

    open spec fn deep_view(&self) -> MigrationOpView {
        self@
    }
}

/// The column descriptor of a schema column.
pub open spec fn column_def_of(c: ColumnSchemaView) -> ColumnDefView {
    ColumnDefView {
        name: c.name,
        sql_type: c.sql_type,
        nullable: c.is_nullable,
        unique: c.is_unique,
        auto_increment: c.generation_type is Some,
    }
}

impl ColumnDef {
    /// The descriptor of a schema column; `auto_increment` is set exactly when
    /// the column has a generation strategy.
    pub fn from(c: &ColumnSchemaModel) -> (r: ColumnDef)
        ensures
            r@ == column_def_of(c@),
    {
        ColumnDef {
            name: c.name.clone(),
            sql_type: c.sql_type.duplicate(),
            nullable: c.is_nullable,
            unique: c.is_unique,
            auto_increment: c.generation_type.is_some(),
        }
    }
}

impl PrimaryKeyDef {
    /// The descriptor of a primary key; `auto_increment` is set exactly when
    /// the key has a generation strategy.
    pub fn from(pk: &PrimaryKeyModel) -> (r: PrimaryKeyDef)
        ensures
            r@ == (PrimaryKeyDefView {
                name: pk.name@,
                sql_type: pk.ty@,
                auto_increment: pk.generation_type is Some,
            }),
    {
        PrimaryKeyDef {
            name: pk.name.clone(),
            sql_type: pk.ty.duplicate(),
            auto_increment: pk.generation_type.is_some(),
        }
    }
}

/// Whether a change set changes nothing.
pub open spec fn changes_empty(c: ColumnChangesView) -> bool {
    c.new_type is None && c.nullable is None && c.unique is None && c.auto_increment is None
}

impl ColumnChanges {
    /// True exactly when no property is marked as changed.
    pub fn is_empty(&self) -> (r: bool)
        ensures
            r == changes_empty(self@),
    {
        self.new_type.is_none() && self.nullable.is_none() && self.unique.is_none()
            && self.auto_increment.is_none()
    }
}

/// The schema column that a column descriptor adds.
pub open spec fn column_schema_of(c: ColumnDefView) -> ColumnSchemaView {
    ColumnSchemaView {
        name: c.name,
        is_nullable: c.nullable,
        is_unique: c.unique,
        sql_type: c.sql_type,
        generation_type: if c.auto_increment {
            Some(GenerationType::AutoIncrement)
        } else {
            None
        },
    }
}

/// The comment that stands for a type change, which SQLite cannot run.
pub open spec fn type_change_note<D: SqlDialect>(
    d: &D,
    table: Seq<char>,
    column: Seq<char>,
    new_type: Option<SqlTypeView>,
) -> Seq<char> {
    match new_type {
        Some(t) => "-- SQLite does not support ALTER COLUMN type; manually recreate table "@ + table
            + "\n--  desired: ALTER TABLE "@ + table + " ALTER COLUMN "@ + column + " "@
            + d.cast_type_spec(t),
        None => Seq::empty(),
    }
}

/// The comment that stands for a nullability change.
pub open spec fn nullable_change_note(table: Seq<char>, column: Seq<char>, changed: bool) -> Seq<
    char,
> {
    if changed {
        "-- TODO: "@ + table + "."@ + column + " nullability change (not supported by SQLite)"@
    } else {
        Seq::empty()
    }
}

/// The comment that stands for a uniqueness change.
pub open spec fn unique_change_note(table: Seq<char>, column: Seq<char>, changed: bool) -> Seq<
    char,
> {
    if changed {
        "-- TODO: "@ + table + "."@ + column + " uniqueness change (not supported by SQLite)"@
    } else {
        Seq::empty()
    }
}

/// The comment that stands for turning on auto increment.
pub open spec fn auto_increment_note(table: Seq<char>, column: Seq<char>, turned_on: bool) -> Seq<
    char,
> {
    if turned_on {
        "-- TODO: make "@ + table + "."@ + column + " AUTO_INCREMENT (not supported by SQLite)"@
    } else {
        Seq::empty()
    }
}

/// The comment lines that stand for an `ALTER COLUMN`, which SQLite cannot run.
pub open spec fn alter_column_spec<D: SqlDialect>(
    d: &D,
    table: Seq<char>,
    column: Seq<char>,
    changes: ColumnChangesView,
) -> Seq<char> {
    type_change_note(d, table, column, changes.new_type) + nullable_change_note(
        table,
        column,
        changes.nullable is Some,
    ) + unique_change_note(table, column, changes.unique is Some) + auto_increment_note(
        table,
        column,
        changes.auto_increment == Some(true),
    )
}

/// The SQL that applies one operation: a complete statement closed by `;`,
/// or nothing for an `ALTER COLUMN` without changes.
pub open spec fn op_sql_spec<D: SqlDialect>(d: &D, op: MigrationOpView) -> Seq<char> {
    match op {
        MigrationOpView::CreateTable(s) => create_table_spec(d, s, false),
        MigrationOpView::DropTable { table } => drop_table_spec(table),
        MigrationOpView::RenameTable { from, to } => close_statement(
            alter_spec(d, from, AlterActionView::RenameTable { to }),
        ),
        MigrationOpView::AddColumn { table, column } => close_statement(
            alter_spec(d, table, AlterActionView::AddColumn { column: column_schema_of(column) }),
        ),
        MigrationOpView::DropColumn { table, column } => close_statement(
            alter_spec(d, table, AlterActionView::DropColumn { name: column }),
        ),
        MigrationOpView::AlterColumn { table, column, changes } => close_statement(
            alter_column_spec(d, table, column, changes),
        ),
        MigrationOpView::AddIndex { table, index } => create_index_spec(table, index) + ";"@,
        MigrationOpView::DropIndex { table, index } => "DROP INDEX IF EXISTS "@ + index + ";"@,
        MigrationOpView::AddForeignKey { table, fk } => "ALTER TABLE "@ + table
            + " ADD FOREIGN KEY ("@ + fk.column + ") REFERENCES "@ + fk.referenced_table + " ("@
            + fk.referenced_column + ")"@ + ";"@,
        MigrationOpView::DropForeignKey { table, constraint_name } => "ALTER TABLE "@ + table
            + " DROP CONSTRAINT "@ + constraint_name + ";"@,
    }
}

fn type_change_text<D: SqlDialect>(
    d: &D,
    table: &String,
    column: &String,
    new_type: &Option<SqlType>,
) -> (r: String)
    ensures
        r@ == type_change_note(
            d,
            table@,
            column@,
            match new_type {
                Some(t) => Some(t@),
                None => None,
            },
        ),
{
    match new_type {
        Some(t) => {
            let mut out = String::from_str(
                "-- SQLite does not support ALTER COLUMN type; manually recreate table ",
            );
            out.append(table.as_str());
            out.append("\n--  desired: ALTER TABLE ");
            out.append(table.as_str());
            out.append(" ALTER COLUMN ");
            out.append(column.as_str());
            out.append(" ");
            let c = d.cast_type(t);
            out.append(c.as_str());
            out
        },
        None => String::new(),
    }
}

fn change_note_text(present: bool, table: &String, column: &String, prefix: &str, suffix: &str) -> (r:
    String)
    ensures
        r@ == (if present {
            prefix@ + table@ + "."@ + column@ + suffix@
        } else {
            Seq::empty()
        }),
{
    if present {
        let mut out = String::from_str(prefix);
        out.append(table.as_str());
        out.append(".");
        out.append(column.as_str());
        out.append(suffix);
        out
    } else {
        String::new()
    }
}

fn alter_column_text<D: SqlDialect>(
    d: &D,
    table: &String,
    column: &String,
    changes: &ColumnChanges,
) -> (r: String)
    ensures
        r@ == alter_column_spec(d, table@, column@, changes@),
{
    let mut r = type_change_text(d, table, column, &changes.new_type);
    let n = change_note_text(
        changes.nullable.is_some(),
        table,
        column,
        "-- TODO: ",
        " nullability change (not supported by SQLite)",
    );
    r.append(n.as_str());
    let u = change_note_text(
        changes.unique.is_some(),
        table,
        column,
        "-- TODO: ",
        " uniqueness change (not supported by SQLite)",
    );
    r.append(u.as_str());
    let on = match changes.auto_increment {
        Some(b) => b,
        None => false,
    };
    let a = change_note_text(
        on,
        table,
        column,
        "-- TODO: make ",
        " AUTO_INCREMENT (not supported by SQLite)",
    );
    r.append(a.as_str());
    r
}

/// Render a single migration operation into a complete SQL statement.
pub fn op_to_sql<D: SqlDialect>(op: &MigrationOp, d: &D) -> (r: String)
    ensures
        r@ == op_sql_spec(d, op@),
{
    match op {
        MigrationOp::CreateTable(schema) => create_table_sql(d, schema, false),
        MigrationOp::DropTable { table } => drop_table_sql(table.as_str()),
        MigrationOp::RenameTable { from, to } => close_sql(
            alter_table_sql(d, from.as_str(), &AlterAction::RenameTable { to: to.clone() }),
        ),
        MigrationOp::AddColumn { table, column } => {
            let col_schema = ColumnSchemaModel {
                name: column.name.clone(),
                is_nullable: column.nullable,
                is_unique: column.unique,
                sql_type: column.sql_type.duplicate(),
                generation_type: if column.auto_increment {
                    Some(GenerationType::AutoIncrement)
                } else {
                    None
                },
            };
            close_sql(
                alter_table_sql(d, table.as_str(), &AlterAction::AddColumn { column: col_schema }),
            )
        },
        MigrationOp::DropColumn { table, column } => close_sql(
            alter_table_sql(d, table.as_str(), &AlterAction::DropColumn { name: column.clone() }),
        ),
        MigrationOp::AlterColumn { table, column, changes } => {
            close_sql(alter_column_text(d, table, column, changes))
        },
        MigrationOp::AddIndex { table, index } => {
            let mut r = create_index_ddl(table.as_str(), index);
            r.append(";");
            r
        },
        MigrationOp::DropIndex { table: _, index } => {
            let mut r = String::from_str("DROP INDEX IF EXISTS ");
            r.append(index.as_str());
            r.append(";");
            r
        },
        MigrationOp::AddForeignKey { table, fk } => {
            let mut r = String::from_str("ALTER TABLE ");
            r.append(table.as_str());
            r.append(" ADD FOREIGN KEY (");
            r.append(fk.column.as_str());
            r.append(") REFERENCES ");
            r.append(fk.referenced_table.as_str());
            r.append(" (");
            r.append(fk.referenced_column.as_str());
            r.append(")");
            r.append(";");
            r
        },
        MigrationOp::DropForeignKey { table, constraint_name } => {
            let mut r = String::from_str("ALTER TABLE ");
            r.append(table.as_str());
            r.append(" DROP CONSTRAINT ");
            r.append(constraint_name.as_str());
            r.append(";");
            r
        },
    }
}

/// The SQL that takes back an `ALTER COLUMN`, as far as it can be known.
pub open spec fn reverse_alter_column_spec(
    table: Seq<char>,
    column: Seq<char>,
    changes: ColumnChangesView,
) -> Seq<char> {
    (if changes.new_type is Some {
        "-- REVERSE: ALTER COLUMN "@ + table + "."@ + column + " (old type unknown);"@
    } else {
        Seq::empty()
    }) + (match changes.nullable {
        Some(true) => "ALTER TABLE "@ + table + " ALTER COLUMN "@ + column + " SET NOT NULL;"@,
        Some(false) => "ALTER TABLE "@ + table + " ALTER COLUMN "@ + column + " DROP NOT NULL;"@,
        None => Seq::empty(),
    }) + (match changes.unique {
        Some(true) => "-- REVERSE: DROP UNIQUE on "@ + table + "."@ + column
            + " (constraint name unknown);"@,
        Some(false) => "ALTER TABLE "@ + table + " ADD UNIQUE ("@ + column + ");"@,
        None => Seq::empty(),
    }) + (if changes.auto_increment is Some {
        "-- REVERSE: AUTO_INCREMENT change on "@ + table + "."@ + column + " (old value unknown);"@
    } else {
        Seq::empty()
    })
}

/// The SQL that takes back one operation, before the closing `;` is settled.
pub open spec fn reverse_raw_spec<D: SqlDialect>(d: &D, op: MigrationOpView) -> Seq<char> {
    match op {
        MigrationOpView::CreateTable(s) => drop_table_spec(s.name),
        MigrationOpView::DropTable { table } => "-- REVERSE: cannot recreate "@ + table
            + ", schema unknown"@,
        MigrationOpView::RenameTable { from, to } => alter_spec(
            d,
            to,
            AlterActionView::RenameTable { to: from },
        ),
        MigrationOpView::AddColumn { table, column } => alter_spec(
            d,
            table,
            AlterActionView::DropColumn { name: column.name },
        ),
        MigrationOpView::DropColumn { table, column } => "-- REVERSE: cannot recreate "@ + table
            + "."@ + column + ", schema unknown"@,
        MigrationOpView::AlterColumn { table, column, changes } => reverse_alter_column_spec(
            table,
            column,
            changes,
        ),
        MigrationOpView::AddIndex { table, index } => "DROP INDEX IF EXISTS "@ + index.name,
        MigrationOpView::DropIndex { table, index } => "-- REVERSE: cannot recreate index "@
            + index,
        MigrationOpView::AddForeignKey { table, fk } => "ALTER TABLE "@ + table
            + " DROP CONSTRAINT "@ + fk.column,
        MigrationOpView::DropForeignKey { table, constraint_name } =>
            "-- REVERSE: cannot recreate FK "@ + constraint_name + " on "@ + table,
    }
}

/// `s` closed by `;`, unless it is empty or already closed.
pub open spec fn close_statement(s: Seq<char>) -> Seq<char> {
    if s.len() == 0 || s.last() == ';' {
        s
    } else {
        s + ";"@
    }
}

/// The SQL that takes back one operation.
pub open spec fn reverse_sql_spec<D: SqlDialect>(d: &D, op: MigrationOpView) -> Seq<char> {
    close_statement(reverse_raw_spec(d, op))
}

fn note_text(present: bool, a: &str, b: &String, c: &str, e: &String, f: &str) -> (r: String)
    ensures
        r@ == (if present {
            a@ + b@ + c@ + e@ + f@
        } else {
            Seq::empty()
        }),
{
    if present {
        let mut out = String::from_str(a);
        out.append(b.as_str());
        out.append(c);
        out.append(e.as_str());
        out.append(f);
        out
    } else {
        String::new()
    }
}

fn reverse_alter_column_text(table: &String, column: &String, changes: &ColumnChanges) -> (r:
    String)
    ensures
        r@ == reverse_alter_column_spec(table@, column@, changes@),
{
    let mut r = note_text(
        changes.new_type.is_some(),
        "-- REVERSE: ALTER COLUMN ",
        table,
        ".",
        column,
        " (old type unknown);",
    );
    let n = match changes.nullable {
        Some(true) => note_text(
            true,
            "ALTER TABLE ",
            table,
            " ALTER COLUMN ",
            column,
            " SET NOT NULL;",
        ),
        Some(false) => note_text(
            true,
            "ALTER TABLE ",
            table,
            " ALTER COLUMN ",
            column,
            " DROP NOT NULL;",
        ),
        None => String::new(),
    };
    r.append(n.as_str());
    let u = match changes.unique {
        Some(true) => note_text(
            true,
            "-- REVERSE: DROP UNIQUE on ",
            table,
            ".",
            column,
            " (constraint name unknown);",
        ),
        Some(false) => note_text(true, "ALTER TABLE ", table, " ADD UNIQUE (", column, ");"),
        None => String::new(),
    };
    r.append(u.as_str());
    let a = note_text(
        changes.auto_increment.is_some(),
        "-- REVERSE: AUTO_INCREMENT change on ",
        table,
        ".",
        column,
        " (old value unknown);",
    );
    r.append(a.as_str());
    r
}

/// Whether `s` ends with `;`.
fn ends_with_semicolon(s: &String) -> (r: bool)
    ensures
        r == (s@.len() > 0 && s@.last() == ';'),
{
    let n = s.as_str().unicode_len();
    if n == 0 {
        false
    } else {
        s.as_str().get_char(n - 1) == ';'
    }
}

fn reverse_raw<D: SqlDialect>(op: &MigrationOp, d: &D) -> (r: String)
    ensures
        r@ == reverse_raw_spec(d, op@),
{
    match op {
        MigrationOp::CreateTable(schema) => drop_table_sql(schema.name.as_str()),
        MigrationOp::DropTable { table } => {
            let mut r = String::from_str("-- REVERSE: cannot recreate ");
            r.append(table.as_str());
            r.append(", schema unknown");
            r
        },
        MigrationOp::RenameTable { from, to } => alter_table_sql(
            d,
            to.as_str(),
            &AlterAction::RenameTable { to: from.clone() },
        ),
        MigrationOp::AddColumn { table, column } => alter_table_sql(
            d,
            table.as_str(),
            &AlterAction::DropColumn { name: column.name.clone() },
        ),
        MigrationOp::DropColumn { table, column } => note_text(
            true,
            "-- REVERSE: cannot recreate ",
            table,
            ".",
            column,
            ", schema unknown",
        ),
        MigrationOp::AlterColumn { table, column, changes } => reverse_alter_column_text(
            table,
            column,
            changes,
        ),
        MigrationOp::AddIndex { table: _, index } => {
            let mut r = String::from_str("DROP INDEX IF EXISTS ");
            r.append(index.name.as_str());
            r
        },
        MigrationOp::DropIndex { index, .. } => {
            let mut r = String::from_str("-- REVERSE: cannot recreate index ");
            r.append(index.as_str());
            r
        },
        MigrationOp::AddForeignKey { table, fk } => {
            let mut r = String::from_str("ALTER TABLE ");
            r.append(table.as_str());
            r.append(" DROP CONSTRAINT ");
            r.append(fk.column.as_str());
            r
        },
        MigrationOp::DropForeignKey { table, constraint_name } => {
            let mut r = String::from_str("-- REVERSE: cannot recreate FK ");
            r.append(constraint_name.as_str());
            r.append(" on ");
            r.append(table.as_str());
            r
        },
    }
}

/// Render the SQL for the reverse of a migration operation (used for `down`).
pub fn reverse_op_to_sql<D: SqlDialect>(op: &MigrationOp, d: &D) -> (r: String)
    ensures
        r@ == reverse_sql_spec(d, op@),
{
    close_sql(reverse_raw(op, d))
}

/// A statement closed by `;` (see [`close_statement`]).
fn close_sql(s: String) -> (r: String)
    ensures
        r@ == close_statement(s@),
{
    let mut r = s;
    if r.as_str().unicode_len() == 0 || ends_with_semicolon(&r) {
        r
    } else {
        r.append(";");
        r
    }
}

/// The `up` SQL: each operation's statement on a line of its own.
pub open spec fn up_sql_spec<D: SqlDialect>(d: &D, ops: Seq<MigrationOpView>) -> Seq<char>
    decreases ops.len(),
{
    if ops.len() == 0 {
        Seq::empty()
    } else {
        up_sql_spec(d, ops.drop_last()) + op_sql_spec(d, ops.last()) + "\n"@
    }
}

/// The `down` SQL: the reverse statements of the operations, last operation first.
pub open spec fn down_sql_spec<D: SqlDialect>(d: &D, ops: Seq<MigrationOpView>) -> Seq<char>
    decreases ops.len(),
{
    if ops.len() == 0 {
        Seq::empty()
    } else {
        down_sql_spec(d, ops.drop_first()) + reverse_sql_spec(d, ops.first()) + "\n"@
    }
}

/// Render the operations for the `up` direction (apply changes).
pub fn render_up_sql<D: SqlDialect>(ops: &[MigrationOp], d: &D) -> (r: String)
    ensures
        r@ == up_sql_spec(d, ops.deep_view()),
{
    let mut sql = String::new();
    let mut i: usize = 0;
    while i < ops.len()
        invariant
            i <= ops.len(),
            sql@ == up_sql_spec(d, ops.deep_view().take(i as int)),
        decreases ops.len() - i,
    {
        let s = op_to_sql(&ops[i], d);
        sql.append(s.as_str());
        sql.append("\n");
        i = i + 1;
        proof {
            let t = ops.deep_view().take(i as int);
            assert(t.drop_last() =~= ops.deep_view().take(i - 1));
        }
    }
    assert(ops.deep_view().take(ops.len() as int) =~= ops.deep_view());
    sql
}

/// Render the operations for the `down` direction (revert changes), last operation first.
pub fn render_down_sql<D: SqlDialect>(ops: &[MigrationOp], d: &D) -> (r: String)
    ensures
        r@ == down_sql_spec(d, ops.deep_view()),
{
    let mut sql = String::new();
    let mut i: usize = ops.len();
    assert(ops.deep_view().skip(i as int) =~= Seq::<MigrationOpView>::empty());
    while i > 0
        invariant
            i <= ops.len(),
            sql@ == down_sql_spec(d, ops.deep_view().skip(i as int)),
        decreases i,
    {
        let s = reverse_op_to_sql(&ops[i - 1], d);
        sql.append(s.as_str());
        sql.append("\n");
        i = i - 1;
        proof {
            let t = ops.deep_view().skip(i as int);
            assert(t.drop_first() =~= ops.deep_view().skip(i + 1));
        }
    }
    assert(ops.deep_view().skip(0) =~= ops.deep_view());
    sql
}

/// Whether `s` consists of white space only (the empty text included).
pub open spec fn is_blank_spec(s: Seq<char>) -> bool {
    forall|k: int| 0 <= k < s.len() ==> is_white_space(#[trigger] s[k])
}

/// Whether `s` holds nothing but white space.
pub fn is_blank(s: &str) -> (r: bool)
    ensures
        r == is_blank_spec(s@),
{
    let n = s.unicode_len();
    let mut i: usize = 0;
    while i < n
        invariant
            i <= n,
            n == s@.len(),
            forall|k: int| 0 <= k < i ==> is_white_space(#[trigger] s@[k]),
        decreases n - i,
    {
        if !white_space(s.get_char(i)) {
            return false;
        }
        i = i + 1;
    }
    true
}

/// How one character is written inside a Rust string literal.
pub open spec fn escape_char(c: char) -> Seq<char> {
    if c == '\\' {
        "\\\\"@
    } else if c == '"' {
        "\\\""@
    } else if c == '\n' {
        "\\n"@
    } else {
        seq![c]
    }
}

/// `s` written inside a Rust string literal: backslashes, quotes and line
/// breaks escaped.
pub open spec fn escape_chars(s: Seq<char>) -> Seq<char>
    decreases s.len(),
{
    if s.len() == 0 {
        Seq::empty()
    } else {
        escape_chars(s.drop_last()) + escape_char(s.last())
    }
}

/// The line of Rust code that runs one SQL statement in a generated migration.
pub open spec fn escaped_statement_spec(sql: Seq<char>) -> Seq<char> {
    "_db.execute_query(&mut QueryContext::from(\""@ + escape_chars(sql) + "\")).await?;"@
}

/// The line of Rust code that runs `sql` in a generated migration.
pub fn escape_sql_statement(sql: &str) -> (r: String)
    ensures
        r@ == escaped_statement_spec(sql@),
{
    let mut out = String::from_str("_db.execute_query(&mut QueryContext::from(\"");
    let ghost start = out@;
    let n = sql.unicode_len();
    let mut i: usize = 0;
    while i < n
        invariant
            i <= n,
            n == sql@.len(),
            out@ == start + escape_chars(sql@.take(i as int)),
        decreases n - i,
    {
        let c = sql.get_char(i);
        if c == '\\' {
            out.append("\\\\");
        } else if c == '"' {
            out.append("\\\"");
        } else if c == '\n' {
            out.append("\\n");
        } else {
            let one = sql.substring_char(i, i + 1);
            assert(one@ =~= seq![c]);
            out.append(one);
        }
        i = i + 1;
        proof {
            let t = sql@.take(i as int);
            assert(t.drop_last() =~= sql@.take(i - 1));
            assert(t.last() == c);
        }
    }
    assert(sql@.take(n as int) =~= sql@);
    out.append("\")).await?;");
    out
}

/// One operation's code line, or nothing when its SQL is blank.
pub open spec fn code_line(sql: Seq<char>) -> Seq<char> {
    if is_blank_spec(sql) {
        Seq::empty()
    } else {
        escaped_statement_spec(sql) + "\n"@
    }
}

/// The `up` code: one line per operation whose SQL is not blank.
pub open spec fn up_code_spec<D: SqlDialect>(d: &D, ops: Seq<MigrationOpView>) -> Seq<char>
    decreases ops.len(),
{
    if ops.len() == 0 {
        Seq::empty()
    } else {
        up_code_spec(d, ops.drop_last()) + code_line(op_sql_spec(d, ops.last()))
    }
}

/// The `down` code: one line per reverse statement that is not blank, last operation first.
pub open spec fn down_code_spec<D: SqlDialect>(d: &D, ops: Seq<MigrationOpView>) -> Seq<char>
    decreases ops.len(),
{
    if ops.len() == 0 {
        Seq::empty()
    } else {
        down_code_spec(d, ops.drop_first()) + code_line(reverse_sql_spec(d, ops.first()))
    }
}

fn append_code_line(code: &mut String, sql: &String)
    ensures
        final(code)@ == old(code)@ + code_line(sql@),
{
    if !is_blank(sql.as_str()) {
        let e = escape_sql_statement(sql.as_str());
        let ghost before = code@;
        code.append(e.as_str());
        code.append("\n");
        assert(code@ =~= before + code_line(sql@));
    } else {
        assert(code@ + Seq::<char>::empty() =~= code@);
    }
}

/// Generate Rust code for the `up` direction using raw SQL via `QueryContext`.
pub fn render_up_code<D: SqlDialect>(ops: &[MigrationOp], d: &D) -> (r: String)
    ensures
        r@ == up_code_spec(d, ops.deep_view()),
{
    let mut code = String::new();
    let mut i: usize = 0;
    while i < ops.len()
        invariant
            i <= ops.len(),
            code@ == up_code_spec(d, ops.deep_view().take(i as int)),
        decreases ops.len() - i,
    {
        let sql = op_to_sql(&ops[i], d);
        append_code_line(&mut code, &sql);
        i = i + 1;
        proof {
            let t = ops.deep_view().take(i as int);
            assert(t.drop_last() =~= ops.deep_view().take(i - 1));
        }
    }
    assert(ops.deep_view().take(ops.len() as int) =~= ops.deep_view());
    code
}

/// Generate Rust code for the `down` direction using reverse operation SQL.
pub fn render_down_code<D: SqlDialect>(ops: &[MigrationOp], d: &D) -> (r: String)
    ensures
        r@ == down_code_spec(d, ops.deep_view()),
{
    let mut code = String::new();
    let mut i: usize = ops.len();
    assert(ops.deep_view().skip(i as int) =~= Seq::<MigrationOpView>::empty());
    while i > 0
        invariant
            i <= ops.len(),
            code@ == down_code_spec(d, ops.deep_view().skip(i as int)),
        decreases i,
    {
        let sql = reverse_op_to_sql(&ops[i - 1], d);
        append_code_line(&mut code, &sql);
        i = i - 1;
        proof {
            let t = ops.deep_view().skip(i as int);
            assert(t.drop_first() =~= ops.deep_view().skip(i + 1));
        }
    }
    assert(ops.deep_view().skip(0) =~= ops.deep_view());
    code
}

} // verus!
