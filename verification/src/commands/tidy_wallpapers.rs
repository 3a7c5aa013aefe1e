//! Sorting wallpapers into aspect-ratio and tag directories: its settings,
//! their checks, and which sorting subcommands can run. Whether a directory
//! exists is probed by the app and handed in.

use vstd::prelude::*;
use crate::text::{concat2, owned};

verus! {

/// The subcommands of wallpaper sorting.
#[derive(Clone, Copy, Debug, PartialEq, Eq)]
pub enum WallpapersCommand {
    Tidy,
    Index,
    CleanIndex,
}

/// The wallpaper settings of sorting.
#[derive(Clone, Debug)]
pub struct WallpapersConfig {
    pub tidy: Option<TidyWallpapersConfig>,
}

impl Default for WallpapersConfig {
    fn default() -> (r: Self)
        ensures
            r.tidy is None,
    {
        WallpapersConfig { tidy: None }
    }
}

/// The directories of sorting: all wallpapers, the links by aspect ratio,
/// and the links by tag.
#[derive(Clone, Debug)]
pub struct TidyWallpapersConfig {
    pub all_directory: String,
    pub aspect_ratio_directory: String,
    pub tags_directory: String,
}

/// The first missing setting of sorting, if any.
pub open spec fn tidy_validation(c: TidyWallpapersConfig) -> Result<(), Seq<char>> {
    if c.all_directory@.len() == 0 {
        Err("all_directory is required"@)
    } else if c.aspect_ratio_directory@.len() == 0 {
        Err("aspect_ratio_directory is required"@)
    } else if c.tags_directory@.len() == 0 {
        Err("tags_directory is required"@)
    } else {
        Ok(())
    }
}

/// A directory setting, refused when it is not an existing directory.
pub open spec fn existing_directory(value: Seq<char>, is_directory: bool, r: Result<&str, String>) -> bool {
    if is_directory {
        r matches Ok(d) && d@ == value
    } else {
        r matches Err(m) && m@ == value + " is not a directory"@
    }
}

fn checked_directory<'a>(value: &'a String, is_directory: bool) -> (r: Result<&'a str, String>)
    ensures
        existing_directory(value@, is_directory, r),
{
    if !is_directory {
        return Err(concat2(value.as_str(), " is not a directory"));
    }
    Ok(value.as_str())
}

impl TidyWallpapersConfig {
    /// Checks that every directory of sorting is set, in the order all,
    /// aspect ratio, tags.
    pub fn validate(&self) -> (r: Result<(), String>)
        ensures
            match tidy_validation(*self) {
                Ok(()) => r is Ok,
                Err(e) => r matches Err(m) && m@ == e,
            },
    {
        if self.all_directory.as_str().is_empty() {
            return Err(owned("all_directory is required"));
        }
        if self.aspect_ratio_directory.as_str().is_empty() {
            return Err(owned("aspect_ratio_directory is required"));
        }
        if self.tags_directory.as_str().is_empty() {
            return Err(owned("tags_directory is required"));
        }
        Ok(())
    }

    /// The directory of all wallpapers. `is_directory` tells whether the
    /// configured path is an existing directory.
    pub fn all_directory(&self, is_directory: bool) -> (r: Result<&str, String>)
        ensures
            existing_directory(self.all_directory@, is_directory, r),
    {
        checked_directory(&self.all_directory, is_directory)
    }

    /// The directory of the links by aspect ratio.
    pub fn aspect_ratio_directory(&self, is_directory: bool) -> (r: Result<&str, String>)
        ensures
            existing_directory(self.aspect_ratio_directory@, is_directory, r),
    {
        checked_directory(&self.aspect_ratio_directory, is_directory)
    }

    /// The directory of the links by tag.
    pub fn tags_directory(&self, is_directory: bool) -> (r: Result<&str, String>)
        ensures
            existing_directory(self.tags_directory@, is_directory, r),
    {
        checked_directory(&self.tags_directory, is_directory)
    }
}

/// The sorting settings a subcommand runs with: `tidy` needs them, the
/// other subcommands are not implemented.
pub fn execute_wallpapers_command(command: WallpapersCommand, config: &WallpapersConfig) -> (r:
    Result<&TidyWallpapersConfig, String>)
    ensures
        command == WallpapersCommand::Tidy && config.tidy is Some ==> r
            == Ok::<&TidyWallpapersConfig, String>(&config.tidy->0),
        command == WallpapersCommand::Tidy && config.tidy is None ==> (r matches Err(m) && m@
            == "wallpapers.tidy configuration is required"@),
        command != WallpapersCommand::Tidy ==> (r matches Err(m) && m@ == "Not implemented"@),
{
    match command {
        WallpapersCommand::Tidy => match &config.tidy {
            Some(t) => Ok(t),
            None => Err(owned("wallpapers.tidy configuration is required")),
        },
        _ => Err(owned("Not implemented")),
    }
}

/// The directory `tidy` walks once its settings pass the checks.
/// `all_is_directory` tells whether the directory of all wallpapers exists.
pub fn tidy_wallpapers(config: &TidyWallpapersConfig, all_is_directory: bool) -> (r: Result<
    &str,
    String,
>)
    ensures
        match tidy_validation(*config) {
            Err(e) => r matches Err(m) && m@ == e,
            Ok(()) => existing_directory(config.all_directory@, all_is_directory, r),
        },
{
    config.validate()?;
    config.all_directory(all_is_directory)
}

} // verus!
