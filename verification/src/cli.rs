//! The maintenance command line: which action each parsed command performs.
//!
//! Argument parsing and the database connection live outside the crate; the
//! mapping from a parsed command to the work it implies is verified here.

use vstd::prelude::*;
use vstd::string::StringExecFns;
use crate::queries::{create_sql, reset_sql, Table};

verus! {

/// CLI for the Starblazers client.
#[derive(Debug, Clone)]
pub struct Cli {
    pub command: Commands,
}

#[derive(Debug, Clone)]
pub enum Commands {
    /// Runs test utilities.
    Test,
    /// Database operations.
    Db { action: DatabaseCommands },
    /// Server operations: send a broadcast message.
    Server { message: String },
}

#[derive(Debug, Clone)]
pub enum TestCommands {
    /// Run a specific test utility function.
    Run,
}

#[derive(Debug, Clone)]
pub enum DatabaseCommands {
    /// Drops a table's rows.
    Drop { table: Table },
    /// Wipe the database.
    Wipe,
    /// Creates a new table.
    CreateTable { name: Table },
    /// Creates a player record.
    CreatePlayer(CreatePlayer),
}

#[derive(Debug, Clone)]
pub struct CreatePlayer {
    pub email: String,
    pub username: String,
    pub password: String,
    pub games_played: i32,
}

impl CreatePlayer {
    /// The insert statement this command runs, with its bind parameters.
    pub fn query(&self) -> (r: &'static str)
        ensures
            r@
                == "\n    INSERT INTO players (email, username, password, games_played)\n    VALUES ($1, $2, $3, $4)\n    RETURNING id;\n"@,
    {
        "\n    INSERT INTO players (email, username, password, games_played)\n    VALUES ($1, $2, $3, $4)\n    RETURNING id;\n"
    }
}

/// The work one parsed command asks for, for the runner to perform.
#[derive(Debug, Clone)]
pub enum CliAction {
    /// Run the test utility.
    Test,
    /// Execute this statement against the database.
    ExecuteSql(String),
    /// Wipe the whole database.
    Wipe,
    /// Insert a player record with these details.
    InsertPlayer(CreatePlayer),
    /// Broadcast this message to the connected players.
    Broadcast(String),
}

/// Maps a parsed command to the action it performs: `Drop` runs the table's
/// reset statement, `CreateTable` its create statement, and the rest carry
/// their payloads through.
pub fn handle_cli_input(cli: &Cli) -> (r: CliAction)
    ensures
        (cli.command matches Commands::Test) ==> r is Test,
        cli.command matches Commands::Server { message } ==> (r matches CliAction::Broadcast(m)
            && m == message),
        cli.command matches Commands::Db { action } ==> match action {
            DatabaseCommands::Drop { table } => (r matches CliAction::ExecuteSql(s) && s@
                == reset_sql(table.name)),
            DatabaseCommands::Wipe => r is Wipe,
            DatabaseCommands::CreateTable { name } => (r matches CliAction::ExecuteSql(s) && s@
                == create_sql(name.name)),
            DatabaseCommands::CreatePlayer(cp) => (r matches CliAction::InsertPlayer(p) && p
                == cp),
        },
{
    match &cli.command {
        Commands::Test => {
            test_something_new();
            CliAction::Test
        }
        Commands::Db { action } => match action {
            DatabaseCommands::Drop { table } => CliAction::ExecuteSql(
                String::from_str(table.reset()),
            ),
            DatabaseCommands::Wipe => CliAction::Wipe,
            DatabaseCommands::CreateTable { name } => CliAction::ExecuteSql(
                String::from_str(name.create()),
            ),
            DatabaseCommands::CreatePlayer(cp) => CliAction::InsertPlayer(
                CreatePlayer {
                    email: cp.email.clone(),
                    username: cp.username.clone(),
                    password: cp.password.clone(),
                    games_played: cp.games_played,
                },
            ),
        },
        Commands::Server { message } => CliAction::Broadcast(message.clone()),
    }
}

/// Scratch hook for trying things out from the command line.
pub fn test_something_new() {
}

} // verus!
