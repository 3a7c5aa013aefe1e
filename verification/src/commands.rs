//! The command line's commands: their names, and what a failed command
//! reports. Parsing the arguments and running the commands is the app's.

pub mod tidy_wallpapers;
pub mod wallpapers;

use vstd::prelude::*;
use crate::jdownloader::JDownloaderCommands;
use crate::jellyfin::command::JellyfinCommands;
use crate::media::command::MediaCommands;
use crate::text::owned;
use wallpapers::WallpapersCommands;

verus! {

/// The report of a failed command: its kind (`command` or `subcommand`),
/// its name, and the error it failed with.
pub open spec fn failure_text(kind: Seq<char>, name: Seq<char>, error: Seq<char>) -> Seq<char> {
    kind + " "@ + name + " failed: "@ + error
}

/// The report of a failed command.
pub fn failure(kind: &str, name: &str, error: &str) -> (r: String)
    ensures
        r@ == failure_text(kind@, name@, error@),
{
    let mut r = owned(kind);
    r.append(" ");
    r.append(name);
    r.append(" failed: ");
    r.append(error);
    r
}

/// What running a command amounts to: success, or its failure reported
/// under the command's kind and name.
pub open spec fn reported(kind: Seq<char>, name: Seq<char>, outcome: Result<(), String>) -> Result<
    (),
    Seq<char>,
> {
    match outcome {
        Ok(()) => Ok(()),
        Err(e) => Err(failure_text(kind, name, e@)),
    }
}

/// Whether a result is the report of an outcome.
pub open spec fn reports(r: Result<(), String>, report: Result<(), Seq<char>>) -> bool {
    match report {
        Ok(()) => r is Ok,
        Err(e) => r matches Err(m) && m@ == e,
    }
}

/// The report of a command's outcome.
pub fn report(kind: &str, name: &str, outcome: Result<(), String>) -> (r: Result<(), String>)
    ensures
        reports(r, reported(kind@, name@, outcome)),
{
    match outcome {
        Ok(()) => Ok(()),
        Err(e) => Err(failure(kind, name, e.as_str())),
    }
}

/// The commands of the command line.
#[derive(Clone, Debug)]
pub enum Commands {
    Jellyfin { command: JellyfinCommands },
    Wallpapers { command: WallpapersCommands },
    Media { command: MediaCommands },
    JDownloader { command: JDownloaderCommands },
}

/// The name of a command.
pub open spec fn command_name(c: Commands) -> Seq<char> {
    match c {
        Commands::Jellyfin { .. } => "jellyfin"@,
        Commands::Wallpapers { .. } => "wallpapers"@,
        Commands::Media { .. } => "media"@,
        Commands::JDownloader { .. } => "jdownloader"@,
    }
}

impl Commands {
    /// The name of the command.
    pub fn to_string(&self) -> (r: String)
        ensures
            r@ == command_name(*self),
    {
        match self {
            Commands::Jellyfin { .. } => owned("jellyfin"),
            Commands::Wallpapers { .. } => owned("wallpapers"),
            Commands::Media { .. } => owned("media"),
            Commands::JDownloader { .. } => owned("jdownloader"),
        }
    }
}

/// The result of a command, from the outcome of running its subcommand: a
/// failure is reported as `command <name> failed: <error>`.
pub fn execute_command(command: &Commands, outcome: Result<(), String>) -> (r: Result<(), String>)
    ensures
        reports(r, reported("command"@, command_name(*command), outcome)),
{
    let name = command.to_string();
    report("command", name.as_str(), outcome)
}

} // verus!
