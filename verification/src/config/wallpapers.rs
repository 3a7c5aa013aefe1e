//! The wallpaper library settings: where wallpapers are, what to skip, and
//! where the sorted links go. Whether a directory exists is probed by the
//! app and handed in.

use vstd::prelude::*;
use crate::text::{concat2, owned};

verus! {

/// The wallpaper settings.
#[derive(Clone, Debug, Default)]
pub struct WallpapersConfig {
    directory: String,
    pub ignore: Vec<String>,
    tidy: Option<TidyWallpapersConfig>,
}

/// What a directory setting yields: refused when blank, refused when it is
/// not a directory, else the setting itself.
pub open spec fn directory_verdict(
    value: Seq<char>,
    required: Seq<char>,
    is_directory: bool,
    r: Result<&str, String>,
) -> bool {
    if value.len() == 0 {
        r matches Err(m) && m@ == required
    } else if !is_directory {
        r matches Err(m) && m@ == value + " is not a directory"@
    } else {
        r matches Ok(d) && d@ == value
    }
}

fn checked_directory<'a>(value: &'a String, required: &str, is_directory: bool) -> (r: Result<
    &'a str,
    String,
>)
    ensures
        directory_verdict(value@, required@, is_directory, r),
{
    if value.as_str().is_empty() {
        return Err(owned(required));
    }
    if !is_directory {
        return Err(concat2(value.as_str(), " is not a directory"));
    }
    Ok(value.as_str())
}

impl WallpapersConfig {
    /// A configuration with the given settings.
    pub fn new(directory: String, ignore: Vec<String>, tidy: Option<TidyWallpapersConfig>) -> (c:
        WallpapersConfig)
        ensures
            c.spec_directory() == directory@,
            c.spec_ignore() == ignore,
            c.spec_tidy() == tidy,
    {
        WallpapersConfig { directory, ignore, tidy }
    }

    /// The configured wallpaper directory.
    pub closed spec fn spec_directory(&self) -> Seq<char> {
        self.directory@
    }

    /// The configured ignore patterns.
    pub closed spec fn spec_ignore(&self) -> Vec<String> {
        self.ignore
    }

    /// The configured sorting settings.
    pub closed spec fn spec_tidy(&self) -> Option<TidyWallpapersConfig> {
        self.tidy
    }

    /// The wallpaper directory. `is_directory` tells whether the configured
    /// path is an existing directory.
    pub fn directory(&self, is_directory: bool) -> (r: Result<&str, String>)
        ensures
            directory_verdict(
                self.spec_directory(),
                "wallpapers.directory is required"@,
                is_directory,
                r,
            ),
    {
        checked_directory(&self.directory, "wallpapers.directory is required", is_directory)
    }

    /// The sorting settings, which `tidy` needs.
    pub fn tidy(&self) -> (r: Result<&TidyWallpapersConfig, String>)
        ensures
            self.spec_tidy() matches Some(t) ==> r == Ok::<&TidyWallpapersConfig, String>(&t),
            self.spec_tidy() is None ==> (r matches Err(m) && m@
                == "wallpapers.tidy configuration is required"@),
    {
        match &self.tidy {
            Some(t) => Ok(t),
            None => Err(owned("wallpapers.tidy configuration is required")),
        }
    }
}

/// Where sorted wallpapers are linked.
#[derive(Clone, Debug, Default)]
pub struct TidyWallpapersConfig {
    aspect_ratio_directory: String,
    tags_directory: String,
}

impl TidyWallpapersConfig {
    /// Sorting settings with the given directories.
    pub fn new(aspect_ratio_directory: String, tags_directory: String) -> (c:
        TidyWallpapersConfig)
        ensures
            c.spec_aspect_ratio_directory() == aspect_ratio_directory@,
            c.spec_tags_directory() == tags_directory@,
    {
        TidyWallpapersConfig { aspect_ratio_directory, tags_directory }
    }

    /// The configured directory of links by shape.
    pub closed spec fn spec_aspect_ratio_directory(&self) -> Seq<char> {
        self.aspect_ratio_directory@
    }

    /// The configured directory of links by tag.
    pub closed spec fn spec_tags_directory(&self) -> Seq<char> {
        self.tags_directory@
    }

    /// The directory of links by shape. `is_directory` tells whether the
    /// configured path is an existing directory.
    pub fn aspect_ratio_directory(&self, is_directory: bool) -> (r: Result<&str, String>)
        ensures
            directory_verdict(
                self.spec_aspect_ratio_directory(),
                "wallpapers.tidy.aspect_ratio_directory is required"@,
                is_directory,
                r,
            ),
    {
        checked_directory(
            &self.aspect_ratio_directory,
            "wallpapers.tidy.aspect_ratio_directory is required",
            is_directory,
        )
    }

    /// The directory of links by tag. `is_directory` tells whether the
    /// configured path is an existing directory.
    pub fn tags_directory(&self, is_directory: bool) -> (r: Result<&str, String>)
        ensures
            directory_verdict(
                self.spec_tags_directory(),
                "wallpapers.tidy.tags_directory is required"@,
                is_directory,
                r,
            ),
    {
        checked_directory(
            &self.tags_directory,
            "wallpapers.tidy.tags_directory is required",
            is_directory,
        )
    }
}

} // verus!
