//! The `media` subcommands.

use vstd::prelude::*;
use crate::text::owned;

verus! {

/// The subcommands of `media`.
#[derive(Clone, Debug)]
pub enum MediaCommands {
    Metadata { directory: Option<String>, write: bool, scan: bool, mal_id: Option<String> },
}

impl MediaCommands {
    /// The name of the subcommand.
    pub fn to_string(&self) -> (r: String)
        ensures
            r@ == "metadata"@,
    {
        match self {
            MediaCommands::Metadata { .. } => owned("metadata"),
        }
    }
}

/// What a `media` subcommand runs.
#[derive(Clone, Debug, PartialEq, Eq)]
pub enum MediaRun {
    /// The metadata of every directory under the directory (the current one
    /// when none is given).
    Recursive { directory: Option<String>, write: bool },
    /// The metadata of the directory, or of the anime with a MyAnimeList id.
    Single { directory: Option<String>, write: bool, mal_id: Option<String> },
}

/// What a `media` subcommand runs: with `--scan` every child directory is
/// resolved by its name and a MyAnimeList id given is not used; without it
/// the one directory is resolved, by the id when one is given.
pub fn execute_media_command(command: &MediaCommands) -> (r: MediaRun)
    ensures
        match *command {
            MediaCommands::Metadata { directory, write, scan, mal_id } => if scan {
                r == (MediaRun::Recursive { directory, write })
            } else {
                r == (MediaRun::Single { directory, write, mal_id })
            },
        },
{
    match command {
        MediaCommands::Metadata { directory, write, scan, mal_id } => {
            let directory = match directory {
                Some(d) => Some(d.clone()),
                None => None,
            };
            if *scan {
                MediaRun::Recursive { directory, write: *write }
            } else {
                let mal_id = match mal_id {
                    Some(id) => Some(id.clone()),
                    None => None,
                };
                MediaRun::Single { directory, write: *write, mal_id }
            }
        },
    }
}

} // verus!
