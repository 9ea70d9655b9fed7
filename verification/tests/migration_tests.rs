use corrosion_orm::cli::{holds_snapshot, snapshot_path, status_line, Cli, CliAction, Command};
use corrosion_orm::dialect::SqliteDialect;
use corrosion_orm::migration_generator::{
    create_all_ops, migration_code, migration_file_name, migration_name, migration_source, new_migration,
    replace_all_str, sanitize, MIGRATION_TEMPLATE,
};
use corrosion_orm::registry::{ensure_registry_table_sql, MigrationRegistry};
use corrosion_orm::runner::{plan_down, plan_up, status, MigrationStatus};
use corrosion_orm::test_entities::{Product, User};
use corrosion_orm::text::{text_contains, to_ascii_uppercase};

fn names(v: &[&str]) -> Vec<String> {
    v.iter().map(|s| s.to_string()).collect()
}

#[test]
fn up_applies_pending_in_order() {
    let ms = names(&["m1", "m2", "m3", "m4"]);
    let applied = names(&["m2"]);
    assert_eq!(plan_up(&ms, &applied, None), vec![0, 2, 3]);
    assert_eq!(plan_up(&ms, &applied, Some(2)), vec![0, 2]);
    assert_eq!(plan_up(&ms, &applied, Some(0)), Vec::<usize>::new());
    assert_eq!(plan_up(&ms, &names(&["m1", "m2", "m3", "m4"]), None), Vec::<usize>::new());
}

#[test]
fn down_rolls_back_last_applied_first() {
    let ms = names(&["m1", "m2", "m3"]);
    let applied = names(&["m1", "m2", "m3"]);
    assert_eq!(plan_down(&ms, &applied, None), (vec![2, 1, 0], None));
    assert_eq!(plan_down(&ms, &applied, Some(1)), (vec![2], None));
    assert_eq!(plan_down(&ms, &applied, Some(0)), (vec![], None));
    assert_eq!(plan_down(&ms, &names(&[]), None), (vec![], None));
}

#[test]
fn down_stops_at_unknown_applied_migration() {
    let ms = names(&["m1", "m2"]);
    let applied = names(&["m1", "gone", "m2"]);
    assert_eq!(plan_down(&ms, &applied, None), (vec![1], Some("gone".to_string())));
    assert_eq!(plan_down(&ms, &applied, Some(1)), (vec![1], None));
}

#[test]
fn status_marks_applied_migrations() {
    let ms = names(&["m1", "m2"]);
    let st = status(&ms, &names(&["m2", "other"]));
    assert_eq!(
        st,
        vec![
            MigrationStatus { name: "m1".into(), applied: false },
            MigrationStatus { name: "m2".into(), applied: true },
        ]
    );
    assert_eq!(status_line(&st[0]), "[ ] m1");
    assert_eq!(status_line(&st[1]), "[x] m2");
}

#[test]
fn database_commands_need_a_url() {
    let cli = Cli { database_url: None, command: Command::Up { steps: Some(1) } };
    assert_eq!(cli.action().err().unwrap(), "--database-url is required for migration up");
    let cli = Cli { database_url: None, command: Command::Down { steps: None } };
    assert_eq!(cli.action().err().unwrap(), "--database-url is required for migration down");
    let cli = Cli { database_url: None, command: Command::Status };
    assert_eq!(cli.action().err().unwrap(), "--database-url is required for migration status");
    let cli = Cli { database_url: Some("sqlite::memory:".into()), command: Command::Up { steps: Some(3) } };
    assert!(matches!(cli.action(), Ok(CliAction::Up { url, steps: Some(3) }) if url == "sqlite::memory:"));
}

#[test]
fn generate_and_create_write_migrations() {
    let cli = Cli { database_url: None, command: Command::Generate };
    assert!(matches!(cli.action(), Ok(CliAction::CreateMigration { name: None })));
    let cli = Cli { database_url: None, command: Command::Create { name: "add users".into() } };
    assert!(matches!(cli.action(), Ok(CliAction::CreateMigration { name: Some(n) }) if n == "add users"));
}

#[test]
fn snapshot_files() {
    assert_eq!(snapshot_path("m1_x"), ".corrosion/m1_x_snapshot.json");
    assert!(!holds_snapshot("  \n\t"));
    assert!(holds_snapshot(" {} "));
}

#[test]
fn names_are_sanitized() {
    assert_eq!(sanitize("add users!"), "add_users");
    assert_eq!(sanitize("__x__"), "x");
    assert_eq!(sanitize("é-1"), "1");
    assert_eq!(sanitize("___"), "");
    let custom = "Add Users".to_string();
    assert_eq!(migration_name("20240101120000", Some(&custom)), "m20240101120000_Add_Users");
    assert_eq!(migration_name("20240101120000", None), "m20240101120000_auto_migration");
    assert_eq!(migration_file_name("m1_x"), "m1_x.rs");
}

#[test]
fn replace_all_replaces_left_to_right() {
    assert_eq!(replace_all_str("aaa", "aa", "b"), "ba");
    assert_eq!(replace_all_str("x{{y}}z{{y}}", "{{y}}", "Q"), "xQzQ");
    assert_eq!(replace_all_str("abc", "", "Q"), "abc");
    assert_eq!(replace_all_str("ab", "abc", "Q"), "ab");
}

#[test]
fn first_migration_creates_every_table() {
    let new = vec![User::get_schema(), Product::get_schema()];
    let ops = create_all_ops(&new);
    assert_eq!(ops.len(), 2);
    let (up, down) = migration_code(&None, &new, &SqliteDialect);
    assert_eq!(up.lines().count(), 2);
    assert!(up.contains("CREATE TABLE users"));
    assert!(up.contains("CREATE TABLE products"));
    assert_eq!(down, "");
}

#[test]
fn later_migration_diffs_snapshots() {
    let old = vec![User::get_schema()];
    let new = vec![User::get_schema(), Product::get_schema()];
    let (up, down) = migration_code(&Some(old), &new, &SqliteDialect);
    assert!(up.contains("CREATE TABLE products"));
    assert!(!up.contains("CREATE TABLE users"));
    assert_eq!(down, "_db.execute_query(&mut QueryContext::from(\"DROP TABLE IF EXISTS products;\")).await?;\n");
    let (up, down) = migration_code(&Some(new.clone()), &new, &SqliteDialect);
    assert_eq!(up, "");
    assert_eq!(down, "");
}

#[test]
fn migration_source_fills_the_template() {
    let src = migration_source("m1_init", "UP();", "DOWN();");
    assert_eq!(src, MIGRATION_TEMPLATE
        .replace("{{migration_name}}", "m1_init")
        .replace("{{up_code}}", "UP();")
        .replace("{{down_code}}", "DOWN();"));
    assert!(src.contains("\"m1_init\""));
    assert!(!src.contains("{{"));
}

#[test]
fn registry_records_and_table() {
    let at = chrono::NaiveDate::from_ymd_opt(2024, 1, 2).unwrap().and_hms_opt(3, 4, 5).unwrap();
    let r = MigrationRegistry::new("m1".to_string(), at);
    assert_eq!(r.id, 0);
    assert_eq!(r.name, "m1");
    assert_eq!(r.applied_at, at);
    assert_eq!(MigrationRegistry::get_table_name(), "__migration_registry");
    assert_eq!(
        ensure_registry_table_sql(&SqliteDialect),
        "CREATE TABLE IF NOT EXISTS __migration_registry (\n    id INTEGER PRIMARY KEY AUTOINCREMENT,\n    migration_name TEXT NOT NULL,\n    applied_at TEXT NOT NULL\n);"
    );
}

#[test]
fn text_helpers() {
    assert!(text_contains("datetime", "time"));
    assert!(!text_contains("dat", "date"));
    assert!(text_contains("x", ""));
    assert_eq!(to_ascii_uppercase("aBz_é1"), "ABZ_é1");
}

#[test]
fn user_example() {
    let u = User::example();
    assert_eq!(u.id, 1);
    assert_eq!(u.name, "Bob");
}

#[test]
fn down_undoes_up() {
    let ms = names(&["a", "b", "c", "d"]);
    let applied = names(&["b"]);
    let plan = plan_up(&ms, &applied, Some(2));
    assert_eq!(plan, vec![0, 2]);
    let mut after = applied.clone();
    for &i in &plan {
        after.push(ms[i].clone());
    }
    assert_eq!(plan_down(&ms, &after, Some(plan.len())), (vec![2, 0], None));
}

#[test]
fn second_up_has_nothing_left() {
    let ms = names(&["a", "b", "c"]);
    let applied = names(&["c"]);
    let plan = plan_up(&ms, &applied, None);
    let mut after = applied.clone();
    for &i in &plan {
        after.push(ms[i].clone());
    }
    assert!(plan_up(&ms, &after, None).is_empty());
}

#[test]
fn sanitized_names_have_no_edge_underscores() {
    for raw in ["  spaced out  ", "_a_", "ünïcödé", "x!y?z", "__", "a"] {
        let s = sanitize(raw);
        assert!(s.chars().all(|c| c.is_ascii_alphanumeric() || c == '_'));
        assert!(!s.starts_with('_') && !s.ends_with('_'));
    }
}

#[test]
fn new_migration_is_named_now() {
    let new = vec![User::get_schema()];
    let name = "init".to_string();
    let m = new_migration(Some(&name), &None, &new, &SqliteDialect);
    assert_eq!(m.name, format!("m{}_init", m.timestamp));
    assert_eq!(m.timestamp.len(), 14);
    assert!(m.timestamp.chars().all(|c| c.is_ascii_digit()));
    assert_eq!(m.file_name, format!("{}.rs", m.name));
    assert!(m.source.contains(&format!("\"{}\"", m.name)));
    assert!(m.source.contains("CREATE TABLE users"));
}
