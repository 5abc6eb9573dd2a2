//! The command line: one verb for each of the three operations.

use vstd::prelude::*;

verus! {

/// What the command line asks for.
#[derive(Clone, Copy, Debug, PartialEq, Eq, Structural)]
pub struct Cli {
    pub command: Commands,
}

/// The three verbs.
#[derive(Clone, Copy, Debug, PartialEq, Eq, Structural)]
pub enum Commands {
    /// Fetch the tasks and show those that are pending.
    Run,
    /// Ask for the credentials and store them.
    Setup,
    /// Remove the stored credentials.
    Clean,
}

} // verus!
