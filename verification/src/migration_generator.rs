//! Naming a new migration and writing its source code from two snapshots.
use vstd::prelude::*;
use crate::dialect::SqlDialect;
use crate::diff_engine::migration_op::{
    down_code_spec, render_down_code, render_up_code, up_code_spec, MigrationOp, MigrationOpView,
};
use crate::diff_engine::{diff_spec, DiffEngine};
use crate::schema::{Duplicate, TableSchemaModel, TableSchemaView};
use crate::text::{ascii_alphanumeric, chars_match_at, chars_of, is_ascii_alphanumeric, push_char};

verus! {

/// The source of a generated migration; the placeholders `{{migration_name}}`,
/// `{{up_code}}` and `{{down_code}}` are replaced.
pub const MIGRATION_TEMPLATE: &'static str = "use anyhow::Result;
use async_trait::async_trait;
use corrosion_orm::query::query_type::QueryContext;
use corrosion_orm_migration::{MigrationExecutor, MigrationTrait};

pub struct GeneratedMigration;

#[async_trait]
impl MigrationTrait for GeneratedMigration {
    fn name(&self) -> &'static str {
        \"{{migration_name}}\"
    }

    async fn up(&self, _db: &mut dyn MigrationExecutor) -> Result<()> {
        {
            {{up_code}}
        }
        Ok(())
    }

    async fn down(&self, _db: &mut dyn MigrationExecutor) -> Result<()> {
        {
            {{down_code}}
        }
        Ok(())
    }
}
";

/// A character of a migration name: ASCII letters and digits stay, anything
/// else becomes `_`.
pub open spec fn name_char(c: char) -> char {
    if is_ascii_alphanumeric(c) {
        c
    } else {
        '_'
    }
}

/// `s` without its leading underscores.
pub open spec fn strip_front(s: Seq<char>) -> Seq<char>
    decreases s.len(),
{
    if s.len() > 0 && s[0] == '_' {
        strip_front(s.drop_first())
    } else {
        s
    }
}

/// `s` without its trailing underscores.
pub open spec fn strip_back(s: Seq<char>) -> Seq<char>
    decreases s.len(),
{
    if s.len() > 0 && s.last() == '_' {
        strip_back(s.drop_last())
    } else {
        s
    }
}

/// A name made safe for a file and a Rust identifier: every character that
/// is not an ASCII letter or digit becomes `_`, then leading and trailing
/// underscores are removed.
pub open spec fn sanitize_spec(s: Seq<char>) -> Seq<char> {
    strip_back(strip_front(s.map_values(|c: char| name_char(c))))
}

proof fn lemma_strip_front(s: Seq<char>, a: int)
    requires
        0 <= a <= s.len(),
        forall|k: int| 0 <= k < a ==> s[k] == '_',
        a == s.len() || s[a] != '_',
    ensures
        strip_front(s) =~= s.subrange(a, s.len() as int),
    decreases a,
{
    if a > 0 {
        lemma_strip_front(s.drop_first(), a - 1);
        assert(s.drop_first().subrange(a - 1, s.len() - 1) =~= s.subrange(a, s.len() as int));
    } else {
        assert(s.subrange(0, s.len() as int) =~= s);
    }
}

proof fn lemma_strip_back(s: Seq<char>, b: int)
    requires
        0 <= b <= s.len(),
        forall|k: int| b <= k < s.len() ==> s[k] == '_',
        b == 0 || s[b - 1] != '_',
    ensures
        strip_back(s) =~= s.subrange(0, b),
    decreases s.len() - b,
{
    if b < s.len() {
        lemma_strip_back(s.drop_last(), b);
        assert(s.drop_last().subrange(0, b) =~= s.subrange(0, b));
    } else {
        assert(s.subrange(0, s.len() as int) =~= s);
    }
}

/// Whether a character may appear in a migration name.
pub open spec fn is_name_char(c: char) -> bool {
    is_ascii_alphanumeric(c) || c == '_'
}

proof fn lemma_strip_front_shape(x: Seq<char>)
    requires
        forall|k: int| 0 <= k < x.len() ==> is_name_char(#[trigger] x[k]),
    ensures
        forall|k: int|
            0 <= k < strip_front(x).len() ==> is_name_char(#[trigger] strip_front(x)[k]),
        strip_front(x).len() > 0 ==> strip_front(x)[0] != '_',
    decreases x.len(),
{
    if x.len() > 0 && x[0] == '_' {
        let y = x.drop_first();
        assert forall|k: int| 0 <= k < y.len() implies is_name_char(#[trigger] y[k]) by {
            assert(y[k] == x[k + 1]);
        }
        lemma_strip_front_shape(y);
    }
}

proof fn lemma_strip_back_shape(x: Seq<char>)
    requires
        forall|k: int| 0 <= k < x.len() ==> is_name_char(#[trigger] x[k]),
    ensures
        forall|k: int|
            0 <= k < strip_back(x).len() ==> is_name_char(#[trigger] strip_back(x)[k]),
        strip_back(x).len() > 0 ==> strip_back(x).last() != '_',
        strip_back(x).len() > 0 ==> strip_back(x)[0] == x[0],
    decreases x.len(),
{
    if x.len() > 0 && x.last() == '_' {
        let y = x.drop_last();
        assert forall|k: int| 0 <= k < y.len() implies is_name_char(#[trigger] y[k]) by {
            assert(y[k] == x[k]);
        }
        lemma_strip_back_shape(y);
    }
}

/// A sanitized name holds only ASCII letters, digits and underscores, and
/// neither starts nor ends with an underscore.
pub proof fn law_sanitized_name(s: Seq<char>)
    ensures
        forall|k: int|
            0 <= k < sanitize_spec(s).len() ==> is_name_char(#[trigger] sanitize_spec(s)[k]),
        sanitize_spec(s).len() > 0 ==> sanitize_spec(s)[0] != '_',
        sanitize_spec(s).len() > 0 ==> sanitize_spec(s).last() != '_',
{
    let m = s.map_values(|c: char| name_char(c));
    assert forall|k: int| 0 <= k < m.len() implies is_name_char(#[trigger] m[k]) by {}
    lemma_strip_front_shape(m);
    lemma_strip_back_shape(strip_front(m));
}

/// Make `s` safe as part of a migration name.
pub fn sanitize(s: &str) -> (r: String)
    ensures
        r@ == sanitize_spec(s@),
{
    let n = s.unicode_len();
    let ghost m = s@.map_values(|c: char| name_char(c));
    let mut mapped: Vec<char> = Vec::new();
    let mut i: usize = 0;
    while i < n
        invariant
            i <= n,
            n == s@.len(),
            m == s@.map_values(|c: char| name_char(c)),
            mapped@ == m.take(i as int),
        decreases n - i,
    {
        let c = s.get_char(i);
        let d = if ascii_alphanumeric(c) {
            c
        } else {
            '_'
        };
        mapped.push(d);
        i = i + 1;
        assert(mapped@ =~= m.take(i as int));
    }
    assert(mapped@ =~= m);
    let mut a: usize = 0;
    while a < n && mapped[a] == '_'
        invariant
            a <= n,
            n == mapped@.len(),
            forall|k: int| 0 <= k < a ==> mapped@[k] == '_',
        decreases n - a,
    {
        a = a + 1;
    }
    proof {
        lemma_strip_front(m, a as int);
    }
    let mut b: usize = n;
    while b > a && mapped[b - 1] == '_'
        invariant
            a <= b <= n,
            n == mapped@.len(),
            forall|k: int| b <= k < n ==> mapped@[k] == '_',
        decreases b,
    {
        b = b - 1;
    }
    let ghost front = m.subrange(a as int, n as int);
    proof {
        lemma_strip_back(front, b - a);
        assert(front.subrange(0, b - a) =~= m.subrange(a as int, b as int));
    }
    let mut r = String::new();
    let mut k: usize = a;
    while k < b
        invariant
            a <= k <= b,
            b <= n,
            n == mapped@.len(),
            r@ =~= mapped@.subrange(a as int, k as int),
        decreases b - k,
    {
        push_char(&mut r, mapped[k]);
        k = k + 1;
        assert(r@ =~= mapped@.subrange(a as int, k as int));
    }
    r
}

/// The name of a new migration: `m{timestamp}_{name}`, the name sanitized,
/// `auto_migration` when none is given.
pub open spec fn migration_name_spec(timestamp: Seq<char>, name: Option<Seq<char>>) -> Seq<char> {
    "m"@ + timestamp + "_"@ + sanitize_spec(
        match name {
            Some(n) => n,
            None => "auto_migration"@,
        },
    )
}

/// The name of a new migration created at `timestamp`.
pub fn migration_name(timestamp: &str, name: Option<&String>) -> (r: String)
    ensures
        r@ == migration_name_spec(timestamp@, name.deep_view()),
{
    let mut r = String::from_str("m");
    r.append(timestamp);
    r.append("_");
    let s = match name {
        Some(n) => sanitize(n.as_str()),
        None => sanitize("auto_migration"),
    };
    r.append(s.as_str());
    r
}

/// The file that holds a migration: its name with `.rs`.
pub fn migration_file_name(name: &str) -> (r: String)
    ensures
        r@ == name@ + ".rs"@,
{
    let mut r = String::from_str(name);
    r.append(".rs");
    r
}

/// `s` with every match of `pat`, from left to right and without overlap,
/// replaced by `rep`.
pub open spec fn replace_all(s: Seq<char>, pat: Seq<char>, rep: Seq<char>) -> Seq<char>
    decreases s.len(),
{
    if pat.len() == 0 || s.len() < pat.len() {
        s
    } else if s.take(pat.len() as int) == pat {
        rep + replace_all(s.skip(pat.len() as int), pat, rep)
    } else {
        seq![s[0]] + replace_all(s.drop_first(), pat, rep)
    }
}

/// Replace every match of `pat` in `s`, from left to right and without
/// overlap, by `rep` (`str::replace`).
pub fn replace_all_str(s: &str, pat: &str, rep: &str) -> (r: String)
    ensures
        r@ == replace_all(s@, pat@, rep@),
{
    let cs = chars_of(s);
    let ps = chars_of(pat);
    let n = cs.len();
    let m = ps.len();
    let mut out = String::new();
    let mut i: usize = 0;
    if m == 0 {
        return String::from_str(s);
    }
    proof {
        assert(s@.skip(0) =~= s@);
        assert(out@ + replace_all(s@, pat@, rep@) =~= replace_all(s@, pat@, rep@));
    }
    while m <= n - i
        invariant
            i <= n,
            n == cs@.len(),
            m == ps@.len(),
            m > 0,
            cs@ == s@,
            ps@ == pat@,
            out@ + replace_all(s@.skip(i as int), pat@, rep@) == replace_all(s@, pat@, rep@),
        decreases n - i,
    {
        let ghost rest = s@.skip(i as int);
        if chars_match_at(&cs, i, &ps) {
            proof {
                assert(rest.take(m as int) =~= cs@.subrange(i as int, i + m));
                assert(rest.skip(m as int) =~= s@.skip(i + m));
                assert(out@ + rep@ + replace_all(s@.skip(i + m), pat@, rep@) =~= out@ + (rep@
                    + replace_all(rest.skip(m as int), pat@, rep@)));
            }
            out.append(rep);
            i = i + m;
        } else {
            proof {
                assert(rest.take(m as int) =~= cs@.subrange(i as int, i + m));
                assert(rest.drop_first() =~= s@.skip(i + 1));
                assert(rest[0] == cs@[i as int]);
                assert(out@.push(cs@[i as int]) + replace_all(s@.skip(i + 1), pat@, rep@) =~= out@
                    + (seq![rest[0]] + replace_all(rest.drop_first(), pat@, rep@)));
            }
            push_char(&mut out, cs[i]);
            i = i + 1;
        }
    }
    assert(replace_all(s@.skip(i as int), pat@, rep@) == s@.skip(i as int));
    assert(s@.skip(i as int) =~= s@.subrange(i as int, n as int));
    let mut k: usize = i;
    while k < n
        invariant
            i <= k <= n,
            n == cs@.len(),
            cs@ == s@,
            out@ + s@.subrange(k as int, n as int) == replace_all(s@, pat@, rep@),
        decreases n - k,
    {
        proof {
            assert(out@ + s@.subrange(k as int, n as int) =~= out@.push(cs@[k as int]) + s@.subrange(
                k + 1,
                n as int,
            ));
        }
        push_char(&mut out, cs[k]);
        k = k + 1;
    }
    proof {
        assert(s@.subrange(n as int, n as int) =~= Seq::<char>::empty());
        assert(out@ + Seq::<char>::empty() =~= out@);
    }
    out
}


/// The operations of a first migration: every table of the snapshot is created.
pub open spec fn create_all_spec(new: Seq<TableSchemaView>) -> Seq<MigrationOpView> {
    new.map_values(|t: TableSchemaView| MigrationOpView::CreateTable(t))
}

/// The `up` and `down` code of a migration from the snapshot `old` (none for a
/// first migration) to `new`.
pub open spec fn migration_code_spec<D: SqlDialect>(
    d: &D,
    old: Option<Seq<TableSchemaView>>,
    new: Seq<TableSchemaView>,
) -> (Seq<char>, Seq<char>) {
    match old {
        Some(o) => {
            let ops = diff_spec(o, new);
            (up_code_spec(d, ops), down_code_spec(d, ops))
        },
        None => (up_code_spec(d, create_all_spec(new)), Seq::empty()),
    }
}

/// One `CreateTable` operation for each table of `new`, in order.
pub fn create_all_ops(new: &[TableSchemaModel]) -> (r: Vec<MigrationOp>)
    ensures
        r.deep_view() == create_all_spec(new.deep_view()),
{
    let mut ops: Vec<MigrationOp> = Vec::new();
    let mut i: usize = 0;
    while i < new.len()
        invariant
            i <= new.len(),
            ops.len() == i,
            forall|k: int|
                0 <= k < i ==> #[trigger] ops@[k].deep_view() == MigrationOpView::CreateTable(
                    new@[k].deep_view(),
                ),
        decreases new.len() - i,
    {
        let t = new[i].duplicate();
        ops.push(MigrationOp::CreateTable(t));
        i = i + 1;
    }
    assert(ops.deep_view() =~= create_all_spec(new.deep_view()));
    ops
}

/// The `up` and `down` code of a new migration: the diff of the two
/// snapshots when there is an old one, else the creation of every table with
/// an empty `down`.
pub fn migration_code<D: SqlDialect>(
    old: &Option<Vec<TableSchemaModel>>,
    new: &Vec<TableSchemaModel>,
    d: &D,
) -> (r: (String, String))
    ensures
        (r.0@, r.1@) == migration_code_spec(d, old.deep_view(), new.deep_view()),
{
    match old {
        Some(o) => {
            let ops = DiffEngine::diff(o.as_slice(), new.as_slice());
            let up = render_up_code(ops.as_slice(), d);
            let down = render_down_code(ops.as_slice(), d);
            (up, down)
        },
        None => {
            let ops = create_all_ops(new.as_slice());
            let up = render_up_code(ops.as_slice(), d);
            (up, String::new())
        },
    }
}

/// The source of a migration file: the template with its name and code put in.
pub open spec fn migration_source_spec(name: Seq<char>, up: Seq<char>, down: Seq<char>) -> Seq<
    char,
> {
    replace_all(
        replace_all(
            replace_all(MIGRATION_TEMPLATE@, "{{migration_name}}"@, name),
            "{{up_code}}"@,
            up,
        ),
        "{{down_code}}"@,
        down,
    )
}

/// Fill the migration template.
pub fn migration_source(name: &str, up: &str, down: &str) -> (r: String)
    ensures
        r@ == migration_source_spec(name@, up@, down@),
{
    let a = replace_all_str(MIGRATION_TEMPLATE, "{{migration_name}}", name);
    let b = replace_all_str(a.as_str(), "{{up_code}}", up);
    replace_all_str(b.as_str(), "{{down_code}}", down)
}

/// Whether `s` reads as `%Y%m%d%H%M%S`: a year of at least four digits
/// (with a sign before years outside 0 to 9999), then two digits each of
/// month, day, hour, minute and second.
pub open spec fn is_timestamp_text(s: Seq<char>) -> bool {
    &&& s.len() >= 14
    &&& ('0' <= s[0] <= '9' || s[0] == '+' || s[0] == '-')
    &&& forall|k: int| 1 <= k < s.len() ==> '0' <= #[trigger] s[k] <= '9'
}

/// `chrono::Local::now().format("%Y%m%d%H%M%S")`: the local date and time
/// as digits of year (zero-padded to four, signed outside 0 to 9999), month,
/// day, hour, minute and second, each of these two digits. Which date and
/// time it is depends on the clock and the time zone and is not stated.
#[verifier::external_body]
fn local_timestamp() -> (r: String)
    ensures
        is_timestamp_text(r@),
{
    chrono::Local::now().format("%Y%m%d%H%M%S").to_string()
}

/// A new migration: the time it was named at, its name, its file and the
/// file's source.
pub struct NewMigration {
    pub timestamp: String,
    pub name: String,
    pub file_name: String,
    pub source: String,
}

/// Name a migration from the snapshot `old` (none before the first one) to
/// `new` with the current local time, and write its source.
pub fn new_migration<D: SqlDialect>(
    name: Option<&String>,
    old: &Option<Vec<TableSchemaModel>>,
    new: &Vec<TableSchemaModel>,
    d: &D,
) -> (r: NewMigration)
    ensures
        is_timestamp_text(r.timestamp@),
        r.name@ == migration_name_spec(r.timestamp@, name.deep_view()),
        r.file_name@ == r.name@ + ".rs"@,
        r.source@ == migration_source_spec(
            r.name@,
            migration_code_spec(d, old.deep_view(), new.deep_view()).0,
            migration_code_spec(d, old.deep_view(), new.deep_view()).1,
        ),
{
    let timestamp = local_timestamp();
    let migration = migration_name(timestamp.as_str(), name);
    let file_name = migration_file_name(migration.as_str());
    let (up, down) = migration_code(old, new, d);
    let source = migration_source(migration.as_str(), up.as_str(), down.as_str());
    NewMigration { timestamp, name: migration, file_name, source }
}

/// A migration between two equal snapshots has no code in either direction.
pub proof fn law_unchanged_models_empty_migration<D: SqlDialect>(d: &D, s: Seq<TableSchemaView>)
    ensures
        migration_code_spec(d, Some(s), s) == (Seq::<char>::empty(), Seq::<char>::empty()),
{
    crate::diff_engine::laws::law_diff_identity(s);
    assert(up_code_spec(d, diff_spec(s, s)) =~= Seq::<char>::empty());
    assert(down_code_spec(d, diff_spec(s, s)) =~= Seq::<char>::empty());
}

/// The first migration has no `down` code, and its `up` code runs one
/// statement per table of the snapshot, in order.
pub proof fn law_first_migration<D: SqlDialect>(d: &D, s: Seq<TableSchemaView>)
    ensures
        migration_code_spec(d, None, s).1.len() == 0,
        migration_code_spec(d, None, s).0 == up_code_spec(d, create_all_spec(s)),
        create_all_spec(s).len() == s.len(),
        forall|k: int|
            0 <= k < s.len() ==> #[trigger] create_all_spec(s)[k] == MigrationOpView::CreateTable(
                s[k],
            ),
{
}

} // verus!
