//! The `anime` subcommands.

use vstd::prelude::*;
use crate::commands::{report, reported, reports};
use crate::text::owned;

verus! {

/// The subcommands of `anime`.
#[derive(Clone, Debug)]
pub enum AnimeCommands {
    Download { url: String, incremental: bool },
}

impl AnimeCommands {
    /// The name of the subcommand.
    pub fn to_string(&self) -> (r: String)
        ensures
            r@ == "download"@,
    {
        match self {
            AnimeCommands::Download { .. } => owned("download"),
        }
    }
}

/// The result of an `anime` subcommand, from the outcome of running it: a
/// failure is reported as `subcommand <name> failed: <error>`.
pub fn execute_anime_command(command: &AnimeCommands, outcome: Result<(), String>) -> (r: Result<
    (),
    String,
>)
    ensures
        reports(r, reported("subcommand"@, "download"@, outcome)),
{
    let name = command.to_string();
    report("subcommand", name.as_str(), outcome)
}

} // verus!
