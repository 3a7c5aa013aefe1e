//! What the organiser decides while it mounts a target: whether the target
//! can be mounted, which entries it takes, and where each link, NFO file and
//! poster goes. Reading directories and creating links is the app's; it asks
//! these functions at each step.

use vstd::prelude::*;
use crate::fs::{
    file_name, file_stem, is_illegal_char, sanitized_names_are_legal, join_path, joined_path, path_file_name, path_file_stem,
    path_without_prefix, sanitize_filename_component, sanitize_relative_path,
    sanitized_component, sanitized_relative, strip_path_prefix,
};
use crate::jellyfin::config::{
    agrees, source_validation, target_ignores, target_includes, target_validation, SeriesConfig,
    TargetConfig, TargetType,
};
use crate::jellyfin::pattern::EpisodePatterns;
use crate::jellyfin::series::{episode_link_name, episode_link_verdict, season_directory_name, season_directory_text};
use crate::media::series::SeriesMetadata;
use crate::text::{debug_quoted, debug_text, owned};

verus! {

/// What checking a target before mounting it gives: it must hold the kind
/// of media being mounted, then pass the settings checks, then the checks
/// of its directories.
pub open spec fn mount_check(
    t: TargetConfig,
    kind: TargetType,
    source_is_directory: bool,
    destination_exists: bool,
    destination_is_directory: bool,
) -> Result<(), Seq<char>> {
    if t.target_type != kind {
        Err("Jellyfin target "@ + debug_quoted(t.name@) + match kind {
            TargetType::Series => " is not a series target"@,
            TargetType::Movies => " is not a movies target"@,
        })
    } else {
        match target_validation(t) {
            Err(e) => Err(e),
            Ok(()) => source_validation(
                t,
                source_is_directory,
                destination_exists,
                destination_is_directory,
            ),
        }
    }
}

/// Checks a target before mounting it as `kind`. The app probes the
/// directories and hands in what it found.
pub fn prepare_target(
    target: &TargetConfig,
    kind: TargetType,
    source_is_directory: bool,
    destination_exists: bool,
    destination_is_directory: bool,
) -> (r: Result<(), String>)
    ensures
        agrees(
            r,
            mount_check(
                *target,
                kind,
                source_is_directory,
                destination_exists,
                destination_is_directory,
            ),
        ),
{
    if target.target_type != kind {
        let mut m = owned("Jellyfin target ");
        m.append(debug_text(target.name.as_str()).as_str());
        match kind {
            TargetType::Series => m.append(" is not a series target"),
            TargetType::Movies => m.append(" is not a movies target"),
        }
        return Err(m);
    }
    target.validate()?;
    target.validate_source(source_is_directory, destination_exists, destination_is_directory)
}

/// The series settings of a series target.
pub fn series_config_of(target: &TargetConfig) -> (r: Result<&SeriesConfig, String>)
    ensures
        target.series matches Some(s) ==> r == Ok::<&SeriesConfig, String>(&s),
        target.series is None ==> (r matches Err(m) && m@ == "Jellyfin target "@ + debug_quoted(
            target.name@,
        ) + " has no series configuration"@),
{
    match &target.series {
        Some(s) => Ok(s),
        None => {
            let mut m = owned("Jellyfin target ");
            m.append(debug_text(target.name.as_str()).as_str());
            m.append(" has no series configuration");
            Err(m)
        },
    }
}

/// Whether an entry of a series source is taken as a series directory: a
/// directory, not a symbolic link, that the target does not ignore.
pub fn accepts_series_directory(target: &TargetConfig, path: &str, is_dir: bool, is_symlink: bool) -> (r:
    bool)
    ensures
        r == (is_dir && !is_symlink && !target_ignores(*target, path@)),
{
    is_dir && !is_symlink && !target.ignores(path)
}

/// Whether a file found under a series directory is linked: a file the
/// target takes in. (The walk does not enter what the target ignores.)
pub fn is_media_file(target: &TargetConfig, path: &str, is_file: bool) -> (r: bool)
    ensures
        r == (is_file && target_includes(*target, path@)),
{
    is_file && target.includes(path)
}

/// Where the files of one season of a series go.
#[derive(Clone, Debug)]
pub struct SeriesLayout {
    /// The series directory: the title inside the destination.
    pub series_directory: String,
    /// The season directory inside the series directory.
    pub season_directory: String,
    /// Where the NFO file is written.
    pub nfo_directory: String,
    /// Whether the NFO file describes a season (`season.nfo`) rather than
    /// the series (`tvshow.nfo`).
    pub nfo_for_season: bool,
    /// Where the poster is written, when the series has a cover.
    pub poster_directories: Vec<String>,
}

/// The series directory of a series in a destination.
pub open spec fn series_directory_of(destination: Seq<char>, m: SeriesMetadata) -> Seq<char> {
    joined_path(destination, m.title@)
}

/// The season directory of a series in a destination.
pub open spec fn season_directory_of(destination: Seq<char>, m: SeriesMetadata) -> Seq<char> {
    joined_path(series_directory_of(destination, m), season_directory_text(m.season))
}

/// Where a season's files go: the first season describes the series, its
/// NFO and poster at the series level (and the poster in the season too);
/// a later season describes itself in its own directory. There is no poster
/// without a cover.
pub open spec fn is_layout_of(l: SeriesLayout, destination: Seq<char>, m: SeriesMetadata) -> bool {
    let series = series_directory_of(destination, m);
    let season = season_directory_of(destination, m);
    &&& l.series_directory@ == series
    &&& l.season_directory@ == season
    &&& l.nfo_directory@ == (if m.season == 1 { series } else { season })
    &&& l.nfo_for_season == (m.season != 1)
    &&& l.poster_directories@.map_values(|d: String| d@) == if m.cover is None {
        Seq::<Seq<char>>::empty()
    } else if m.season == 1 {
        seq![series, season]
    } else {
        seq![season]
    }
}

/// Where the files of one season of a series go in a destination.
pub fn series_layout(destination: &str, metadata: &SeriesMetadata) -> (l: SeriesLayout)
    ensures
        is_layout_of(l, destination@, *metadata),
{
    let series_directory = join_path(destination, metadata.title.as_str());
    let season_name = season_directory_name(metadata.season);
    let season_directory = join_path(series_directory.as_str(), season_name.as_str());
    let first = metadata.season == 1;
    let nfo_directory = if first {
        series_directory.clone()
    } else {
        season_directory.clone()
    };
    let mut poster_directories: Vec<String> = Vec::new();
    if metadata.cover.is_some() {
        if first {
            poster_directories.push(series_directory.clone());
        }
        poster_directories.push(season_directory.clone());
    }
    let l = SeriesLayout {
        series_directory,
        season_directory,
        nfo_directory,
        nfo_for_season: !first,
        poster_directories,
    };
    assert(l.poster_directories@.map_values(|d: String| d@) =~= if metadata.cover is None {
        Seq::<Seq<char>>::empty()
    } else if metadata.season == 1 {
        seq![series_directory_of(destination@, *metadata), season_directory_of(destination@, *metadata)]
    } else {
        seq![season_directory_of(destination@, *metadata)]
    });
    l
}

/// The path of the link of an episode file inside its season directory.
pub fn episode_link_path(
    season_directory: &str,
    patterns: &EpisodePatterns,
    episode_path: &str,
    metadata: &SeriesMetadata,
) -> (r: Result<String, String>)
    ensures
        match episode_link_verdict(
            patterns.patterns(),
            episode_path@,
            metadata.title@,
            metadata.season,
        ) {
            Ok(name) => r matches Ok(p) && p@ == joined_path(season_directory@, name),
            Err(e) => r matches Err(m) && m@ == e,
        },
{
    let name = episode_link_name(patterns, episode_path, metadata)?;
    Ok(join_path(season_directory, name.as_str()))
}

/// What the movie organiser does with an entry of the source.
#[derive(Clone, Copy, Debug, PartialEq, Eq)]
pub enum MovieEntry {
    /// Left alone.
    Skip,
    /// A movie file of its own, linked into a directory named after it.
    Standalone,
    /// A movie directory, whose wanted files are linked.
    Directory,
}

/// What the movie organiser does with an entry: symbolic links and ignored
/// paths are left alone; a file is a movie when the target takes it in; a
/// directory is a movie directory.
pub open spec fn movie_entry_kind(
    t: TargetConfig,
    path: Seq<char>,
    is_symlink: bool,
    is_file: bool,
    is_dir: bool,
) -> MovieEntry {
    if is_symlink || target_ignores(t, path) {
        MovieEntry::Skip
    } else if is_file {
        if target_includes(t, path) {
            MovieEntry::Standalone
        } else {
            MovieEntry::Skip
        }
    } else if is_dir {
        MovieEntry::Directory
    } else {
        MovieEntry::Skip
    }
}

/// What the movie organiser does with an entry of the source.
pub fn movie_entry(target: &TargetConfig, path: &str, is_symlink: bool, is_file: bool, is_dir: bool) -> (r:
    MovieEntry)
    ensures
        r == movie_entry_kind(*target, path@, is_symlink, is_file, is_dir),
{
    if is_symlink || target.ignores(path) {
        MovieEntry::Skip
    } else if is_file {
        if target.includes(path) {
            MovieEntry::Standalone
        } else {
            MovieEntry::Skip
        }
    } else if is_dir {
        MovieEntry::Directory
    } else {
        MovieEntry::Skip
    }
}

/// Where the link of a movie file of its own goes: a directory named after
/// the file's stem, holding the file under its name, both sanitized.
pub open spec fn standalone_link_verdict(destination: Seq<char>, path: Seq<char>) -> Result<
    Seq<char>,
    Seq<char>,
> {
    match path_file_stem(path) {
        None => Err("path "@ + path + " has no file stem"@),
        Some(stem) => match path_file_name(path) {
            None => Err("path "@ + path + " has no file name"@),
            Some(name) => Ok(
                joined_path(
                    joined_path(destination, sanitized_component(stem)),
                    sanitized_component(name),
                ),
            ),
        },
    }
}

/// The names a movie file of its own is linked under hold no character
/// that is illegal on the platforms the library is shared with, and keep
/// the length of the file's stem and name: the link is the sanitized name
/// inside a directory named after the sanitized stem.
pub proof fn standalone_link_names_are_legal(destination: Seq<char>, path: Seq<char>)
    requires
        path_file_stem(path) is Some,
        path_file_name(path) is Some,
    ensures
        ({
            let stem = path_file_stem(path)->0;
            let name = path_file_name(path)->0;
            &&& standalone_link_verdict(destination, path) == Ok::<Seq<char>, Seq<char>>(
                joined_path(
                    joined_path(destination, sanitized_component(stem)),
                    sanitized_component(name),
                ),
            )
            &&& sanitized_component(stem).len() == stem.len()
            &&& sanitized_component(name).len() == name.len()
            &&& forall|i: int|
                0 <= i < stem.len() ==> !is_illegal_char(#[trigger] sanitized_component(stem)[i])
            &&& forall|i: int|
                0 <= i < name.len() ==> !is_illegal_char(#[trigger] sanitized_component(name)[i])
        }),
{
    sanitized_names_are_legal(path_file_stem(path)->0);
    sanitized_names_are_legal(path_file_name(path)->0);
}

/// The path of the link of a movie file of its own.
pub fn standalone_movie_link(target: &TargetConfig, path: &str) -> (r: Result<String, String>)
    ensures
        match standalone_link_verdict(target.destination@, path@) {
            Ok(p) => r matches Ok(s) && s@ == p,
            Err(e) => r matches Err(m) && m@ == e,
        },
{
    let stem = match file_stem(path) {
        Some(stem) => stem,
        None => {
            let mut m = owned("path ");
            m.append(path);
            m.append(" has no file stem");
            return Err(m);
        },
    };
    let name = match file_name(path) {
        Some(name) => name,
        None => {
            let mut m = owned("path ");
            m.append(path);
            m.append(" has no file name");
            return Err(m);
        },
    };
    let title = sanitize_filename_component(stem.as_str());
    let file = sanitize_filename_component(name.as_str());
    let directory = join_path(target.destination.as_str(), title.as_str());
    Ok(join_path(directory.as_str(), file.as_str()))
}

/// The name a movie directory is linked under: its own name, sanitized.
pub fn movie_directory_name(movie_directory: &str) -> (r: Result<String, String>)
    ensures
        match path_file_name(movie_directory@) {
            Some(name) => r matches Ok(s) && s@ == sanitized_component(name),
            None => r matches Err(m) && m@ == "path "@ + movie_directory@ + " has no file name"@,
        },
{
    match file_name(movie_directory) {
        Some(name) => Ok(sanitize_filename_component(name.as_str())),
        None => {
            let mut m = owned("path ");
            m.append(movie_directory);
            m.append(" has no file name");
            Err(m)
        },
    }
}

/// Whether a file found in a movie directory is linked: a file the target
/// takes in. (The walk does not enter what the target ignores.)
pub fn accepts_movie_item(target: &TargetConfig, path: &str, is_file: bool) -> (r: bool)
    ensures
        r == (is_file && target_includes(*target, path@)),
{
    is_file && target.includes(path)
}

/// Where the link of a file of a movie directory goes: under the movie's
/// name in the destination, at the file's sanitized place inside the movie
/// directory.
pub open spec fn movie_item_link_verdict(
    destination: Seq<char>,
    movie_name: Seq<char>,
    movie_directory: Seq<char>,
    item: Seq<char>,
) -> Result<Seq<char>, Seq<char>> {
    match path_without_prefix(item, movie_directory) {
        None => Err("prefix not found"@),
        Some(relative) => Ok(
            joined_path(joined_path(destination, movie_name), sanitized_relative(relative)),
        ),
    }
}

/// The part of a movie directory's link below the movie's name keeps the
/// file's place in the directory, component by component, and holds no
/// illegal character but the `/` between components.
pub proof fn movie_item_names_are_legal(relative: Seq<char>)
    ensures
        sanitized_relative(relative).len() == relative.len(),
        forall|i: int|
            0 <= i < relative.len() ==> (#[trigger] sanitized_relative(relative)[i] == '/'
                <==> relative[i] == '/'),
        forall|i: int|
            0 <= i < relative.len() && sanitized_relative(relative)[i] != '/' ==> !is_illegal_char(
                #[trigger] sanitized_relative(relative)[i],
            ),
{
}

/// The path of the link of a file of a movie directory.
pub fn movie_item_link(
    target: &TargetConfig,
    movie_name: &str,
    movie_directory: &str,
    item: &str,
) -> (r: Result<String, String>)
    ensures
        match movie_item_link_verdict(target.destination@, movie_name@, movie_directory@, item@) {
            Ok(p) => r matches Ok(s) && s@ == p,
            Err(e) => r matches Err(m) && m@ == e,
        },
{
    match strip_path_prefix(item, movie_directory) {
        None => Err(owned("prefix not found")),
        Some(relative) => {
            let sanitized = sanitize_relative_path(relative.as_str());
            let directory = join_path(target.destination.as_str(), movie_name);
            Ok(join_path(directory.as_str(), sanitized.as_str()))
        },
    }
}

} // verus!
