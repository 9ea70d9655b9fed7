//! The migration command line: what each command asks for, decided before
//! anything is read or run.
use vstd::prelude::*;
use crate::diff_engine::migration_op::{is_blank, is_blank_spec};
use crate::runner::MigrationStatus;

verus! {

/// The parsed command line: an optional database URL and a command.
pub struct Cli {
    pub database_url: Option<String>,
    pub command: Command,
}

/// The commands of the migration tool.
pub enum Command {
    /// Write a migration named `auto_migration` from the model changes.
    Generate,
    /// Write a migration with the given name from the model changes.
    Create { name: String },
    /// Apply pending migrations, all or the first `steps`.
    Up { steps: Option<usize> },
    /// Roll back applied migrations, all or the last `steps`.
    Down { steps: Option<usize> },
    /// Show which migrations are applied.
    Status,
}

/// What the tool does for a command line.
pub enum CliAction {
    /// Write a migration from the model changes, with this name if given.
    CreateMigration { name: Option<String> },
    /// Apply migrations on the database at `url`.
    Up { url: String, steps: Option<usize> },
    /// Roll back migrations on the database at `url`.
    Down { url: String, steps: Option<usize> },
    /// Report the status of the migrations on the database at `url`.
    Status { url: String },
}

/// The view of a [`CliAction`].
pub enum CliActionView {
    CreateMigration { name: Option<Seq<char>> },
    Up { url: Seq<char>, steps: Option<usize> },
    Down { url: Seq<char>, steps: Option<usize> },
    Status { url: Seq<char> },
}

impl View for CliAction {
    type V = CliActionView;

    open spec fn view(&self) -> CliActionView {
        match self {
            CliAction::CreateMigration { name } => CliActionView::CreateMigration {
                name: name.deep_view(),
            },
            CliAction::Up { url, steps } => CliActionView::Up { url: url@, steps: *steps },
            CliAction::Down { url, steps } => CliActionView::Down { url: url@, steps: *steps },
            CliAction::Status { url } => CliActionView::Status { url: url@ },
        }
    }
}

/// The error of a database command given without a database URL.
pub open spec fn missing_url_message(command: Seq<char>) -> Seq<char> {
    "--database-url is required for migration "@ + command
}

/// What a command line asks for: `generate` and `create` write a migration
/// (named by `create`); `up`, `down` and `status` need the database URL and
/// fail without it.
pub open spec fn cli_action_spec(url: Option<Seq<char>>, command: Command) -> Result<
    CliActionView,
    Seq<char>,
> {
    match command {
        Command::Generate => Ok(CliActionView::CreateMigration { name: None }),
        Command::Create { name } => Ok(CliActionView::CreateMigration { name: Some(name@) }),
        Command::Up { steps } => match url {
            Some(u) => Ok(CliActionView::Up { url: u, steps }),
            None => Err(missing_url_message("up"@)),
        },
        Command::Down { steps } => match url {
            Some(u) => Ok(CliActionView::Down { url: u, steps }),
            None => Err(missing_url_message("down"@)),
        },
        Command::Status => match url {
            Some(u) => Ok(CliActionView::Status { url: u }),
            None => Err(missing_url_message("status"@)),
        },
    }
}

fn missing_url(command: &str) -> (e: String)
    ensures
        e@ == missing_url_message(command@),
{
    let mut e = String::from_str("--database-url is required for migration ");
    e.append(command);
    e
}

impl Cli {
    /// Decide what the command line asks for.
    pub fn action(&self) -> (r: Result<CliAction, String>)
        ensures
            match r {
                Ok(a) => cli_action_spec(self.database_url.deep_view(), self.command) == Ok::<
                    CliActionView,
                    Seq<char>,
                >(a@),
                Err(e) => cli_action_spec(self.database_url.deep_view(), self.command) == Err::<
                    CliActionView,
                    Seq<char>,
                >(e@),
            },
    {
        match &self.command {
            Command::Generate => Ok(CliAction::CreateMigration { name: None }),
            Command::Create { name } => Ok(CliAction::CreateMigration { name: Some(name.clone()) }),
            Command::Up { steps } => match &self.database_url {
                Some(u) => Ok(CliAction::Up { url: u.clone(), steps: *steps }),
                None => Err(missing_url("up")),
            },
            Command::Down { steps } => match &self.database_url {
                Some(u) => Ok(CliAction::Down { url: u.clone(), steps: *steps }),
                None => Err(missing_url("down")),
            },
            Command::Status => match &self.database_url {
                Some(u) => Ok(CliAction::Status { url: u.clone() }),
                None => Err(missing_url("status")),
            },
        }
    }
}

/// The line that reports a migration's status: `[x] name` when applied,
/// `[ ] name` otherwise.
pub open spec fn status_line_spec(name: Seq<char>, applied: bool) -> Seq<char> {
    (if applied {
        "[x] "@
    } else {
        "[ ] "@
    }) + name
}

/// The line that reports a migration's status.
pub fn status_line(s: &MigrationStatus) -> (r: String)
    ensures
        r@ == status_line_spec(s.name@, s.applied),
{
    let mut r = if s.applied {
        String::from_str("[x] ")
    } else {
        String::from_str("[ ] ")
    };
    r.append(s.name.as_str());
    r
}

/// The file that keeps the model snapshot taken with migration `name`.
pub open spec fn snapshot_path_spec(name: Seq<char>) -> Seq<char> {
    ".corrosion/"@ + name + "_snapshot.json"@
}

/// The file that keeps the model snapshot taken with migration `name`.
pub fn snapshot_path(name: &str) -> (r: String)
    ensures
        r@ == snapshot_path_spec(name@),
{
    let mut r = String::from_str(".corrosion/");
    r.append(name);
    r.append("_snapshot.json");
    r
}

/// Whether a snapshot file's text holds a snapshot: anything but white space.
pub fn holds_snapshot(content: &str) -> (r: bool)
    ensures
        r == !is_blank_spec(content@),
{
    !is_blank(content)
}

} // verus!
