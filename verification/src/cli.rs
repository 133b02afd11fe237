//! The command line of the bot.

use vstd::prelude::*;

verus! {

/// What was asked on the command line.
#[derive(Debug, Clone, Copy, PartialEq, Eq, Structural)]
pub struct Cli {
    pub command: Commands,
}

/// The subcommands.
#[derive(Debug, Clone, Copy, PartialEq, Eq, Structural)]
pub enum Commands {
    /// Runs the bot; `auto_migrate` brings the database up to date first.
    Run { auto_migrate: bool },
    /// Works on the database schema.
    Migrate { command: MigrateCommand },
}

/// What to do with the database schema.
#[derive(Debug, Clone, Copy, PartialEq, Eq, Structural)]
pub enum MigrateCommand {
    /// Applies what has not been applied.
    Up,
    /// Lists the migrations, and which are applied.
    Status,
}

} // verus!
