//! The application's command model: what a user can ask for, as plain
//! data.
//!
//! Parsing a command line into these values happens outside the
//! library.

use vstd::prelude::*;

verus! {

/// The pool-management subcommands.
#[derive(Debug, Clone, PartialEq)]
pub enum PoolCommands {
    /// List existing pools.
    List,
    /// Show the contents of the current pool.
    Show,
    /// Create a new pool.
    New { label: String, root: Option<String> },
    /// Set the current pool.
    SetCurrent { label: String },
    /// Move the current pool root.
    Move { root: String },
    /// Change the current pool label.
    Rename { label: String },
    /// Add an exclusion rule for this pool's discovery.
    Exclude { pattern: String },
    /// Clone missing repositories of the current pool, check out the
    /// branches its manifest asks for.
    Checkout,
    /// Save the managed repositories' current state.
    Discover,
}

/// An arbitrary external command, forwarded verbatim.
#[derive(Debug, Clone, PartialEq)]
pub enum GitCommand {
    /// The raw argument vector to forward.
    Command(Vec<String>),
}

/// Everything the application can be asked to do.
#[derive(Debug, Clone, PartialEq)]
pub enum ApplicationCommands {
    /// Create or manage a pool; without a subcommand, name the current
    /// pool.
    Pool { pool_command: Option<PoolCommands> },
    /// Run an external command on every repository of the current pool.
    Command { exclude_filter: Option<String>, filter: Option<String>, command: GitCommand },
}

/// One parsed invocation of the application.
#[derive(Debug, Clone, PartialEq)]
pub struct Application {
    /// What was asked for.
    pub command: ApplicationCommands,
}

} // verus!
