//! The names the organiser gives to seasons and episodes of a series in the
//! Jellyfin layout: `Season 02/Title - S02E05.mkv`.

use vstd::prelude::*;
use crate::fs::{extension, file_name, path_extension, path_file_name};
use crate::jellyfin::pattern::{extraction, EpisodePatterns};
use crate::media::series::SeriesMetadata;
use crate::text::{
    debug_quoted, debug_text, decimal_two_digits, owned, push_decimal_two_digits,
};

verus! {

/// The name of a season's directory: `Season ` and the season number with at
/// least two digits.
pub open spec fn season_directory_text(season: u16) -> Seq<char> {
    "Season "@ + decimal_two_digits(season as nat)
}

/// The name of a season's directory.
pub fn season_directory_name(season: u16) -> (r: String)
    ensures
        r@ == season_directory_text(season),
{
    let mut r = owned("Season ");
    push_decimal_two_digits(&mut r, season as u64);
    r
}

/// The name of an episode's link: the series title, ` - S`, the season,
/// `E`, the episode (both with at least two digits), `.` and the extension.
pub open spec fn episode_file_text(title: Seq<char>, season: u16, episode: u32, ext: Seq<char>) -> Seq<
    char,
> {
    title + " - S"@ + decimal_two_digits(season as nat) + "E"@ + decimal_two_digits(episode as nat)
        + "."@ + ext
}

/// The name of an episode's link.
pub fn episode_file_name(title: &str, season: u16, episode: u32, ext: &str) -> (r: String)
    ensures
        r@ == episode_file_text(title@, season, episode, ext@),
{
    let mut r = owned(title);
    r.append(" - S");
    push_decimal_two_digits(&mut r, season as u64);
    r.append("E");
    push_decimal_two_digits(&mut r, episode as u64);
    r.append(".");
    r.append(ext);
    r
}

/// What naming the link of an episode file gives: the file must have an
/// extension and a name, and one of the patterns must read its episode
/// number.
pub open spec fn episode_link_verdict(
    patterns: Seq<Seq<char>>,
    path: Seq<char>,
    title: Seq<char>,
    season: u16,
) -> Result<Seq<char>, Seq<char>> {
    match path_extension(path) {
        None => Err("episode file "@ + debug_quoted(path) + " has no extension"@),
        Some(ext) => match path_file_name(path) {
            None => Err("episode file "@ + debug_quoted(path) + " has no filename"@),
            Some(name) => match extraction(patterns, name) {
                Err(e) => Err(e),
                Ok(None) => Err("episode file "@ + debug_quoted(path) + " has no episode_number"@),
                Ok(Some(episode)) => Ok(episode_file_text(title, season, episode, ext)),
            },
        },
    }
}

/// The name of the link of an episode file of a series.
pub fn episode_link_name(
    patterns: &EpisodePatterns,
    episode_path: &str,
    metadata: &SeriesMetadata,
) -> (r: Result<String, String>)
    ensures
        match episode_link_verdict(
            patterns.patterns(),
            episode_path@,
            metadata.title@,
            metadata.season,
        ) {
            Ok(name) => r matches Ok(n) && n@ == name,
            Err(e) => r matches Err(m) && m@ == e,
        },
{
    let ext = match extension(episode_path) {
        None => {
            let mut m = owned("episode file ");
            m.append(debug_text(episode_path).as_str());
            m.append(" has no extension");
            return Err(m);
        },
        Some(ext) => ext,
    };
    let name = match file_name(episode_path) {
        None => {
            let mut m = owned("episode file ");
            m.append(debug_text(episode_path).as_str());
            m.append(" has no filename");
            return Err(m);
        },
        Some(name) => name,
    };
    let episode = match patterns.extract(name.as_str())? {
        None => {
            let mut m = owned("episode file ");
            m.append(debug_text(episode_path).as_str());
            m.append(" has no episode_number");
            return Err(m);
        },
        Some(episode) => episode,
    };
    Ok(episode_file_name(metadata.title.as_str(), metadata.season, episode, ext.as_str()))
}

} // verus!
