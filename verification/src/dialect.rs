//! SQL dialects and the DDL text rendered for schemas.
//!
//! A dialect decides how a column type is spelled; everything else of the
//! DDL (`CREATE TABLE`, `CREATE INDEX`, `DROP TABLE`, `ALTER TABLE`) is
//! rendered from that choice and stated exactly as character sequences.
use vstd::prelude::*;
use crate::schema::{
    holds_foreign_key, ColumnSchemaModel, ColumnSchemaView, IndexModel, IndexView, PrimaryKeyModel,
    PrimaryKeyView, RelationModel, RelationType, RelationView, SqlType, SqlTypeView,
    TableSchemaModel, TableSchemaView,
};

verus! {

/// A database flavour: the spelling of column types.
pub trait SqlDialect {
    /// The text that names a column type in this dialect.
    spec fn cast_type_spec(&self, t: SqlTypeView) -> Seq<char>;

    /// Spell a column type in this dialect.
    fn cast_type(&self, t: &SqlType) -> (r: String)
        ensures
            r@ == self.cast_type_spec(t@),
    ;
}

/// The SQLite dialect.
#[derive(Debug, Clone, Copy, PartialEq, Eq, Structural)]
pub struct SqliteDialect;

/// The SQLite spelling of each column type.
pub open spec fn sqlite_type_name(t: SqlTypeView) -> Seq<char> {
    match t {
        SqlTypeView::Integer => "INTEGER"@,
        SqlTypeView::Boolean => "INTEGER"@,
        SqlTypeView::Float => "REAL"@,
        SqlTypeView::Double => "REAL"@,
        SqlTypeView::Custom(s) => s,
        _ => "TEXT"@,
    }
}

impl SqlDialect for SqliteDialect {
    open spec fn cast_type_spec(&self, t: SqlTypeView) -> Seq<char> {
        sqlite_type_name(t)
    }

    fn cast_type(&self, t: &SqlType) -> (r: String) {
        match t {
            SqlType::Integer => String::from_str("INTEGER"),
            SqlType::Boolean => String::from_str("INTEGER"),
            SqlType::Float => String::from_str("REAL"),
            SqlType::Double => String::from_str("REAL"),
            SqlType::Custom(s) => s.clone(),
            SqlType::Date => String::from_str("TEXT"),
            SqlType::Timestamp => String::from_str("TEXT"),
            SqlType::Text => String::from_str("TEXT"),
            SqlType::Varchar(_) => String::from_str("TEXT"),
            SqlType::Char(_) => String::from_str("TEXT"),
        }
    }
}

/// The dialect the migration tooling renders with.
pub fn get_dialect() -> (d: SqliteDialect)
    ensures
        d == SqliteDialect,
{
    SqliteDialect
}

/// `parts` joined with `sep` between neighbours.
pub open spec fn join(parts: Seq<Seq<char>>, sep: Seq<char>) -> Seq<char>
    decreases parts.len(),
{
    if parts.len() == 0 {
        Seq::empty()
    } else if parts.len() == 1 {
        parts[0]
    } else {
        join(parts.drop_last(), sep) + sep + parts.last()
    }
}

/// Append `parts` joined with `sep` to `out`.
pub fn append_joined(out: &mut String, parts: &[String], sep: &str)
    ensures
        final(out)@ == old(out)@ + join(parts.deep_view(), sep@),
{
    let ghost start = out@;
    let mut i: usize = 0;
    while i < parts.len()
        invariant
            i <= parts.len(),
            out@ == start + join(parts.deep_view().take(i as int), sep@),
        decreases parts.len() - i,
    {
        if i > 0 {
            out.append(sep);
        }
        out.append(parts[i].as_str());
        i = i + 1;
        proof {
            let t = parts.deep_view().take(i as int);
            assert(t.drop_last() =~= parts.deep_view().take(i - 1));
            if i == 1 {
                assert(parts.deep_view().take(0) =~= Seq::<Seq<char>>::empty());
            }
        }
    }
    assert(parts.deep_view().take(parts.len() as int) =~= parts.deep_view());
}

/// The definition of a column inside `CREATE TABLE` or `ALTER TABLE ... ADD`.
pub open spec fn column_def_spec<D: SqlDialect>(d: &D, c: ColumnSchemaView) -> Seq<char> {
    "    "@ + c.name + " "@ + d.cast_type_spec(c.sql_type) + (if c.is_nullable {
        " NULL"@
    } else {
        " NOT NULL"@
    }) + (if c.is_unique {
        " UNIQUE"@
    } else {
        Seq::empty()
    })
}

/// Render the definition of a column.
pub fn column_definition<D: SqlDialect>(d: &D, c: &ColumnSchemaModel) -> (r: String)
    ensures
        r@ == column_def_spec(d, c@),
{
    let mut r = String::from_str("    ");
    r.append(c.name.as_str());
    r.append(" ");
    let t = d.cast_type(&c.sql_type);
    r.append(t.as_str());
    if c.is_nullable {
        r.append(" NULL");
    } else {
        r.append(" NOT NULL");
    }
    if c.is_unique {
        r.append(" UNIQUE");
    } else {
        assert(r@ + Seq::<char>::empty() =~= r@);
    }
    r
}

/// The statement that creates an index (without the closing `;`).
pub open spec fn create_index_spec(table: Seq<char>, index: IndexView) -> Seq<char> {
    "CREATE "@ + (if index.unique {
        "UNIQUE "@
    } else {
        Seq::empty()
    }) + "INDEX IF NOT EXISTS "@ + index.name + " ON "@ + table + " ("@ + join(
        index.fields,
        ", "@,
    ) + ")"@
}

/// Render the statement that creates `index` on `table`.
pub fn create_index_ddl(table: &str, index: &IndexModel) -> (r: String)
    ensures
        r@ == create_index_spec(table@, index@),
{
    let mut r = String::from_str("CREATE ");
    if index.unique {
        r.append("UNIQUE ");
    } else {
        assert(r@ + Seq::<char>::empty() =~= r@);
    }
    r.append("INDEX IF NOT EXISTS ");
    r.append(index.name.as_str());
    r.append(" ON ");
    r.append(table);
    r.append(" (");
    append_joined(&mut r, index.fields.as_slice(), ", ");
    r.append(")");
    r
}

/// The line of the primary key inside `CREATE TABLE`.
pub open spec fn primary_key_line_spec<D: SqlDialect>(d: &D, pk: PrimaryKeyView) -> Seq<char> {
    "    "@ + pk.name + " "@ + d.cast_type_spec(pk.ty) + " PRIMARY KEY"@ + (if pk.generation_type
        is Some {
        " AUTOINCREMENT"@
    } else {
        Seq::empty()
    })
}

/// The column lines of `cols`, each preceded by `,\n`.
pub open spec fn column_lines_spec<D: SqlDialect>(d: &D, cols: Seq<ColumnSchemaView>) -> Seq<
    char,
>
    decreases cols.len(),
{
    if cols.len() == 0 {
        Seq::empty()
    } else {
        column_lines_spec(d, cols.drop_last()) + ",\n"@ + column_def_spec(d, cols.last())
    }
}

/// Whether some column of `cols` is named `name`.
pub open spec fn has_column_named(cols: Seq<ColumnSchemaView>, name: Seq<char>) -> bool {
    exists|k: int| 0 <= k < cols.len() && #[trigger] cols[k].name == name
}

/// The lines that a relation adds to `CREATE TABLE`: its key column, when
/// the table does not list it already, and its foreign key constraint.
pub open spec fn relation_lines_spec<D: SqlDialect>(
    d: &D,
    cols: Seq<ColumnSchemaView>,
    rels: Seq<RelationView>,
) -> Seq<char>
    decreases rels.len(),
{
    if rels.len() == 0 {
        Seq::empty()
    } else {
        let r = rels.last();
        relation_lines_spec(d, cols, rels.drop_last()) + if holds_foreign_key(r.relation_type) {
            (if has_column_named(cols, r.foreign_key) {
                Seq::empty()
            } else {
                ",\n"@ + column_def_spec(d, r.field)
            }) + ",\n"@ + "    FOREIGN KEY ("@ + r.foreign_key + ") REFERENCES "@ + r.table + " ("@
                + r.target_key + ")"@
        } else {
            Seq::empty()
        }
    }
}

/// The index statements that follow `CREATE TABLE`, each on its own line.
pub open spec fn index_lines_spec(table: Seq<char>, idx: Seq<IndexView>) -> Seq<char>
    decreases idx.len(),
{
    if idx.len() == 0 {
        Seq::empty()
    } else {
        index_lines_spec(table, idx.drop_last()) + "\n"@ + create_index_spec(table, idx.last())
            + ";"@
    }
}

/// The statement that creates a table with its keys, relations and indexes.
pub open spec fn create_table_spec<D: SqlDialect>(
    d: &D,
    t: TableSchemaView,
    if_not_exists: bool,
) -> Seq<char> {
    "CREATE TABLE "@ + (if if_not_exists {
        "IF NOT EXISTS "@
    } else {
        Seq::empty()
    }) + t.name + " (\n"@ + primary_key_line_spec(d, t.primary_key) + column_lines_spec(
        d,
        t.fields,
    ) + relation_lines_spec(d, t.fields, t.relations) + "\n);"@ + index_lines_spec(
        t.name,
        t.indexes,
    )
}

fn append_primary_key_line<D: SqlDialect>(d: &D, out: &mut String, pk: &PrimaryKeyModel)
    ensures
        final(out)@ == old(out)@ + primary_key_line_spec(d, pk@),
{
    let ghost start = out@;
    out.append("    ");
    out.append(pk.name.as_str());
    out.append(" ");
    let t = d.cast_type(&pk.ty);
    out.append(t.as_str());
    out.append(" PRIMARY KEY");
    if pk.generation_type.is_some() {
        out.append(" AUTOINCREMENT");
    } else {
        assert(out@ + Seq::<char>::empty() =~= out@);
    }
    assert(out@ =~= start + primary_key_line_spec(d, pk@));
}

fn append_column_lines<D: SqlDialect>(d: &D, out: &mut String, cols: &Vec<ColumnSchemaModel>)
    ensures
        final(out)@ == old(out)@ + column_lines_spec(d, cols.deep_view()),
{
    let ghost start = out@;
    let mut i: usize = 0;
    while i < cols.len()
        invariant
            i <= cols.len(),
            out@ == start + column_lines_spec(d, cols.deep_view().take(i as int)),
        decreases cols.len() - i,
    {
        let ghost before = out@;
        out.append(",\n");
        let line = column_definition(d, &cols[i]);
        out.append(line.as_str());
        i = i + 1;
        proof {
            let t = cols.deep_view().take(i as int);
            assert(t.drop_last() =~= cols.deep_view().take(i - 1));
            assert(out@ =~= start + column_lines_spec(d, t));
        }
    }
    assert(cols.deep_view().take(cols.len() as int) =~= cols.deep_view());
}

/// Whether some column of `cols` is named `name`.
pub fn contains_column_named(cols: &Vec<ColumnSchemaModel>, name: &String) -> (r: bool)
    ensures
        r == has_column_named(cols.deep_view(), name@),
{
    let mut i: usize = 0;
    while i < cols.len()
        invariant
            i <= cols.len(),
            forall|k: int| 0 <= k < i ==> cols.deep_view()[k].name != name@,
        decreases cols.len() - i,
    {
        if cols[i].name == *name {
            assert(cols.deep_view()[i as int].name == name@);
            return true;
        }
        i = i + 1;
    }
    false
}

fn append_relation_lines<D: SqlDialect>(
    d: &D,
    out: &mut String,
    cols: &Vec<ColumnSchemaModel>,
    rels: &Vec<RelationModel>,
)
    ensures
        final(out)@ == old(out)@ + relation_lines_spec(d, cols.deep_view(), rels.deep_view()),
{
    let ghost start = out@;
    let mut i: usize = 0;
    while i < rels.len()
        invariant
            i <= rels.len(),
            out@ == start + relation_lines_spec(d, cols.deep_view(), rels.deep_view().take(i as int)),
        decreases rels.len() - i,
    {
        let ghost before = out@;
        let r = &rels[i];
        let holds = match r.relation_type {
            RelationType::BelongsTo => true,
            RelationType::HasOne => true,
            _ => false,
        };
        if holds {
            if !contains_column_named(cols, &r.foreign_key) {
                out.append(",\n");
                let line = column_definition(d, &r.field);
                out.append(line.as_str());
            }
            let ghost mid = out@;
            out.append(",\n");
            out.append("    FOREIGN KEY (");
            out.append(r.foreign_key.as_str());
            out.append(") REFERENCES ");
            out.append(r.table.as_str());
            out.append(" (");
            out.append(r.target_key.as_str());
            out.append(")");
            proof {
                let rv = rels.deep_view()[i as int];
                let extra = if has_column_named(cols.deep_view(), rv.foreign_key) {
                    Seq::<char>::empty()
                } else {
                    ",\n"@ + column_def_spec(d, rv.field)
                };
                assert(mid =~= before + extra);
                assert(out@ =~= before + (extra + ",\n"@ + "    FOREIGN KEY ("@ + rv.foreign_key
                    + ") REFERENCES "@ + rv.table + " ("@ + rv.target_key + ")"@));
            }
        } else {
            assert(out@ + Seq::<char>::empty() =~= out@);
        }
        i = i + 1;
        proof {
            let t = rels.deep_view().take(i as int);
            assert(t.drop_last() =~= rels.deep_view().take(i - 1));
            assert(out@ =~= start + relation_lines_spec(d, cols.deep_view(), t));
        }
    }
    assert(rels.deep_view().take(rels.len() as int) =~= rels.deep_view());
}

fn append_index_lines(out: &mut String, table: &String, idx: &Vec<IndexModel>)
    ensures
        final(out)@ == old(out)@ + index_lines_spec(table@, idx.deep_view()),
{
    let ghost start = out@;
    let mut i: usize = 0;
    while i < idx.len()
        invariant
            i <= idx.len(),
            out@ == start + index_lines_spec(table@, idx.deep_view().take(i as int)),
        decreases idx.len() - i,
    {
        out.append("\n");
        let line = create_index_ddl(table.as_str(), &idx[i]);
        out.append(line.as_str());
        out.append(";");
        i = i + 1;
        proof {
            let t = idx.deep_view().take(i as int);
            assert(t.drop_last() =~= idx.deep_view().take(i - 1));
            assert(out@ =~= start + index_lines_spec(table@, t));
        }
    }
    assert(idx.deep_view().take(idx.len() as int) =~= idx.deep_view());
}

/// Render the statement that creates `t`, optionally guarded by `IF NOT EXISTS`.
pub fn create_table_sql<D: SqlDialect>(d: &D, t: &TableSchemaModel, if_not_exists: bool) -> (r:
    String)
    ensures
        r@ == create_table_spec(d, t@, if_not_exists),
{
    let mut r = String::from_str("CREATE TABLE ");
    if if_not_exists {
        r.append("IF NOT EXISTS ");
    } else {
        assert(r@ + Seq::<char>::empty() =~= r@);
    }
    r.append(t.name.as_str());
    r.append(" (\n");
    append_primary_key_line(d, &mut r, &t.primary_key);
    append_column_lines(d, &mut r, &t.fields);
    append_relation_lines(d, &mut r, &t.fields, &t.relations);
    r.append("\n);");
    append_index_lines(&mut r, &t.name, &t.indexes);
    r
}

/// The statement that drops a table.
pub open spec fn drop_table_spec(table: Seq<char>) -> Seq<char> {
    "DROP TABLE IF EXISTS "@ + table + ";"@
}

/// Render the statement that drops `table`.
pub fn drop_table_sql(table: &str) -> (r: String)
    ensures
        r@ == drop_table_spec(table@),
{
    let mut r = String::from_str("DROP TABLE IF EXISTS ");
    r.append(table);
    r.append(";");
    r
}

/// A change to an existing table.
#[derive(Debug, Clone, PartialEq)]
pub enum AlterAction {
    AddColumn { column: ColumnSchemaModel },
    DropColumn { name: String },
    RenameColumn { from: String, to: String },
    RenameTable { to: String },
}

/// The view of an [`AlterAction`].
pub enum AlterActionView {
    AddColumn { column: ColumnSchemaView },
    DropColumn { name: Seq<char> },
    RenameColumn { from: Seq<char>, to: Seq<char> },
    RenameTable { to: Seq<char> },
}

impl View for AlterAction {
    type V = AlterActionView;

    open spec fn view(&self) -> AlterActionView {
        match self {
            AlterAction::AddColumn { column } => AlterActionView::AddColumn { column: column@ },
            AlterAction::DropColumn { name } => AlterActionView::DropColumn { name: name@ },
            AlterAction::RenameColumn { from, to } => AlterActionView::RenameColumn {
                from: from@,
                to: to@,
            },
            AlterAction::RenameTable { to } => AlterActionView::RenameTable { to: to@ },
        }
    }
}

/// The statement that applies `action` to `table` (without a closing `;`).
pub open spec fn alter_spec<D: SqlDialect>(d: &D, table: Seq<char>, action: AlterActionView) -> Seq<
    char,
> {
    "ALTER TABLE "@ + table + " "@ + match action {
        AlterActionView::AddColumn { column } => "ADD "@ + column_def_spec(d, column),
        AlterActionView::DropColumn { name } => "DROP COLUMN "@ + name,
        AlterActionView::RenameColumn { from, to } => "RENAME COLUMN "@ + from + " TO "@ + to,
        AlterActionView::RenameTable { to } => "RENAME TO "@ + to,
    }
}

/// Render the statement that applies `action` to `table`.
pub fn alter_table_sql<D: SqlDialect>(d: &D, table: &str, action: &AlterAction) -> (r: String)
    ensures
        r@ == alter_spec(d, table@, action@),
{
    let mut r = String::from_str("ALTER TABLE ");
    r.append(table);
    r.append(" ");
    let ghost start = r@;
    match action {
        AlterAction::AddColumn { column } => {
            r.append("ADD ");
            let c = column_definition(d, column);
            r.append(c.as_str());
        },
        AlterAction::DropColumn { name } => {
            r.append("DROP COLUMN ");
            r.append(name.as_str());
        },
        AlterAction::RenameColumn { from, to } => {
            r.append("RENAME COLUMN ");
            r.append(from.as_str());
            r.append(" TO ");
            r.append(to.as_str());
        },
        AlterAction::RenameTable { to } => {
            r.append("RENAME TO ");
            r.append(to.as_str());
        },
    }
    assert(r@ =~= alter_spec(d, table@, action@));
    r
}

/// A `HasMany` or `BelongsToMany` relation adds neither a column nor a
/// constraint to the statement that creates its table.
pub proof fn law_has_many_adds_no_ddl<D: SqlDialect>(
    d: &D,
    cols: Seq<ColumnSchemaView>,
    rels: Seq<RelationView>,
    r: RelationView,
)
    requires
        !holds_foreign_key(r.relation_type),
    ensures
        relation_lines_spec(d, cols, rels.push(r)) == relation_lines_spec(d, cols, rels),
{
    assert(rels.push(r).drop_last() =~= rels);
    assert(relation_lines_spec(d, cols, rels) + Seq::<char>::empty() =~= relation_lines_spec(
        d,
        cols,
        rels,
    ));
}

/// A `BelongsTo` or `HasOne` relation ends the lines it adds with a
/// `FOREIGN KEY` constraint on its foreign key that references the target
/// table's key; before it comes the key column's definition exactly when the
/// table does not list that column.
pub proof fn law_foreign_key_constraint<D: SqlDialect>(
    d: &D,
    cols: Seq<ColumnSchemaView>,
    rels: Seq<RelationView>,
    r: RelationView,
)
    requires
        holds_foreign_key(r.relation_type),
    ensures
        relation_lines_spec(d, cols, rels.push(r)) == relation_lines_spec(d, cols, rels) + (if has_column_named(
            cols,
            r.foreign_key,
        ) {
            Seq::empty()
        } else {
            ",\n"@ + column_def_spec(d, r.field)
        }) + ",\n"@ + "    FOREIGN KEY ("@ + r.foreign_key + ") REFERENCES "@ + r.table + " ("@
            + r.target_key + ")"@,
{
    assert(rels.push(r).drop_last() =~= rels);
    let extra = if has_column_named(cols, r.foreign_key) {
        Seq::<char>::empty()
    } else {
        ",\n"@ + column_def_spec(d, r.field)
    };
    assert(relation_lines_spec(d, cols, rels.push(r)) =~= relation_lines_spec(d, cols, rels) + extra
        + ",\n"@ + "    FOREIGN KEY ("@ + r.foreign_key + ") REFERENCES "@ + r.table + " ("@
        + r.target_key + ")"@);
}

} // verus!
