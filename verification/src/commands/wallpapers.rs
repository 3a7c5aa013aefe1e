//! The `wallpapers` subcommands on the configured wallpaper directory:
//! which of them can run, which files the walk visits, which of those are
//! indexed, and the links `tidy` sorts the indexed wallpapers into, by shape
//! and by tag. Walking the directory, storing the records and making the
//! links is the app's.

use vstd::prelude::*;
use crate::config::wallpapers::WallpapersConfig;
use crate::fs::{
    join_path, joined_path, matches_any_pattern, path_match_any_pattern, sanitize_filename_component,
    sanitized_component,
};
use crate::image::{has_image_extension, is_image_file};
use crate::models::{wallpaper_aspect_ratio_text, WallpaperAspectRatio};
use crate::text::{equals, owned, texts};

verus! {

/// The subcommands of `wallpapers`.
#[derive(Clone, Copy, Debug, PartialEq, Eq)]
pub enum WallpapersCommands {
    Tidy,
    Index,
    CleanIndex,
}

/// The wallpaper directory a subcommand works on. `is_directory` tells
/// whether the configured path is an existing directory; the directory is
/// checked first, and `clean-index` is not implemented.
pub fn execute_wallpaper_command(
    command: WallpapersCommands,
    config: &WallpapersConfig,
    is_directory: bool,
) -> (r: Result<&str, String>)
    ensures
        (config.spec_directory().len() == 0) ==> (r matches Err(m) && m@
            == "wallpapers.directory is required"@),
        (config.spec_directory().len() > 0 && !is_directory) ==> (r matches Err(m) && m@
            == config.spec_directory() + " is not a directory"@),
        (config.spec_directory().len() > 0 && is_directory && command == WallpapersCommands::CleanIndex)
            ==> (r matches Err(m) && m@ == "Not implemented"@),
        (config.spec_directory().len() > 0 && is_directory && command != WallpapersCommands::CleanIndex)
            ==> (r matches Ok(d) && d@ == config.spec_directory()),
{
    let directory = config.directory(is_directory)?;
    match command {
        WallpapersCommands::CleanIndex => Err(owned("Not implemented")),
        _ => Ok(directory),
    }
}

/// Whether the walk over the wallpaper directory visits an entry: symbolic
/// links are left out, and so is every path an ignore pattern matches.
pub open spec fn walk_visits(path: Seq<char>, is_symlink: bool, ignore: Seq<String>) -> bool {
    !is_symlink && !(ignore.len() > 0 && matches_any_pattern(path, ignore))
}

/// Whether the walk visits an entry.
pub fn accepts_entry(path: &str, is_symlink: bool, ignore_patterns: &Vec<String>) -> (r: bool)
    ensures
        r == walk_visits(path@, is_symlink, ignore_patterns@),
{
    if is_symlink {
        return false;
    }
    if ignore_patterns.len() > 0 && path_match_any_pattern(path, ignore_patterns.as_slice()) {
        return false;
    }
    true
}

/// Whether a visited entry is indexed: it must be a file with an image
/// extension.
pub fn should_index(path: &str, is_file: bool) -> (r: bool)
    ensures
        r == (is_file && has_image_extension(path@)),
{
    is_file && is_image_file(path)
}

/// The directories `tidy` links into: the sorting settings must be present,
/// then the directory of links by shape and the directory of links by tag
/// must each be set and exist, checked in that order. `aspect_is_directory`
/// and `tags_is_directory` tell whether the configured paths are existing
/// directories.
pub open spec fn tidy_directories_verdict(
    config: WallpapersConfig,
    aspect_is_directory: bool,
    tags_is_directory: bool,
    r: Result<(&str, &str), String>,
) -> bool {
    match config.spec_tidy() {
        None => r matches Err(m) && m@ == "wallpapers.tidy configuration is required"@,
        Some(t) => {
            let a = t.spec_aspect_ratio_directory();
            let g = t.spec_tags_directory();
            if a.len() == 0 {
                r matches Err(m) && m@ == "wallpapers.tidy.aspect_ratio_directory is required"@
            } else if !aspect_is_directory {
                r matches Err(m) && m@ == a + " is not a directory"@
            } else if g.len() == 0 {
                r matches Err(m) && m@ == "wallpapers.tidy.tags_directory is required"@
            } else if !tags_is_directory {
                r matches Err(m) && m@ == g + " is not a directory"@
            } else {
                r matches Ok((x, y)) && x@ == a && y@ == g
            }
        },
    }
}

/// The directory of links by shape and the directory of links by tag that
/// `tidy` sorts into.
pub fn tidy_directories<'a>(
    config: &'a WallpapersConfig,
    aspect_is_directory: bool,
    tags_is_directory: bool,
) -> (r: Result<(&'a str, &'a str), String>)
    ensures
        tidy_directories_verdict(*config, aspect_is_directory, tags_is_directory, r),
{
    let tidy = match config.tidy() {
        Err(e) => return Err(e),
        Ok(t) => t,
    };
    let aspect = match tidy.aspect_ratio_directory(aspect_is_directory) {
        Err(e) => return Err(e),
        Ok(a) => a,
    };
    let tags = match tidy.tags_directory(tags_is_directory) {
        Err(e) => return Err(e),
        Ok(g) => g,
    };
    Ok((aspect, tags))
}

/// The candidates that are not indexed yet, in the order of the walk.
pub open spec fn unindexed(candidates: Seq<Seq<char>>, indexed: Seq<Seq<char>>) -> Seq<Seq<char>>
    decreases candidates.len(),
{
    if candidates.len() == 0 {
        Seq::empty()
    } else {
        let rest = unindexed(candidates.drop_last(), indexed);
        if indexed.contains(candidates.last()) {
            rest
        } else {
            rest.push(candidates.last())
        }
    }
}

/// `tidy` indexes exactly the images not indexed yet: every path it
/// indexes was found by the walk and is not in the index, and every path
/// the walk found that is not in the index is indexed.
pub proof fn tidy_indexes_exactly_the_unindexed(
    candidates: Seq<Seq<char>>,
    indexed: Seq<Seq<char>>,
    path: Seq<char>,
)
    ensures
        unindexed(candidates, indexed).contains(path) <==> (candidates.contains(path)
            && !indexed.contains(path)),
    decreases candidates.len(),
{
    if candidates.len() > 0 {
        let shorter = candidates.drop_last();
        tidy_indexes_exactly_the_unindexed(shorter, indexed, path);
        let rest = unindexed(shorter, indexed);
        if candidates.contains(path) && !shorter.contains(path) {
            let k = choose|k: int| 0 <= k < candidates.len() && candidates[k] == path;
            if k < candidates.len() - 1 {
                assert(shorter[k] == path);
            }
            assert(candidates.last() == path);
        }
        if shorter.contains(path) {
            let k = choose|k: int| 0 <= k < shorter.len() && shorter[k] == path;
            assert(candidates[k] == path);
        }
        if !indexed.contains(candidates.last()) {
            let grown = rest.push(candidates.last());
            assert(grown[grown.len() - 1] == candidates.last());
            if rest.contains(path) {
                let k = choose|k: int| 0 <= k < rest.len() && rest[k] == path;
                assert(grown[k] == path);
            }
            if grown.contains(path) && path != candidates.last() {
                let k = choose|k: int| 0 <= k < grown.len() && grown[k] == path;
                assert(rest[k] == path);
            }
        }
        assert(candidates.last() == candidates[candidates.len() - 1]);
    }
}

fn is_listed(path: &str, listed: &Vec<String>) -> (r: bool)
    ensures
        r == texts(listed@).contains(path@),
{
    let mut i: usize = 0;
    while i < listed.len()
        invariant
            i <= listed@.len(),
            forall|j: int| 0 <= j < i ==> texts(listed@)[j] != path@,
        decreases listed@.len() - i,
    {
        if equals(listed[i].as_str(), path) {
            assert(texts(listed@)[i as int] == path@);
            return true;
        }
        i = i + 1;
    }
    false
}

/// The image paths the walk found that the index does not hold yet: the
/// ones `tidy` indexes before sorting.
pub fn paths_to_index(candidates: &Vec<String>, indexed: &Vec<String>) -> (r: Vec<String>)
    ensures
        texts(r@) == unindexed(texts(candidates@), texts(indexed@)),
{
    let mut r: Vec<String> = Vec::new();
    let mut i: usize = 0;
    while i < candidates.len()
        invariant
            i <= candidates@.len(),
            texts(r@) == unindexed(texts(candidates@).take(i as int), texts(indexed@)),
        decreases candidates@.len() - i,
    {
        let ghost before = r@;
        assert(texts(candidates@).take(i + 1).drop_last() =~= texts(candidates@).take(i as int));
        if !is_listed(candidates[i].as_str(), indexed) {
            r.push(candidates[i].clone());
            assert(texts(r@) =~= texts(before).push(candidates@[i as int]@));
        }
        i = i + 1;
    }
    assert(texts(candidates@).take(i as int) =~= texts(candidates@));
    r
}

/// An indexed wallpaper as `tidy` sorts it: where it is, its file name, its
/// shape and its tags.
#[derive(Clone, Debug)]
pub struct IndexedWallpaper {
    pub path: String,
    pub file_name: String,
    pub aspect_ratio: WallpaperAspectRatio,
    pub tags: Vec<String>,
}

/// A symbolic link to make: where it goes and what it points at.
#[derive(Clone, Debug)]
pub struct WallpaperLink {
    pub link: String,
    pub target: String,
}

/// A link as its place and its target.
pub open spec fn link_view(l: WallpaperLink) -> (Seq<char>, Seq<char>) {
    (l.link@, l.target@)
}

/// Links as their places and targets.
pub open spec fn link_views(ls: Seq<WallpaperLink>) -> Seq<(Seq<char>, Seq<char>)> {
    ls.map_values(|l: WallpaperLink| link_view(l))
}

/// Whether a directory name names a directory of its own: not empty, not
/// `.` and not `..`.
pub open spec fn usable_directory_name(n: Seq<char>) -> bool {
    n.len() > 0 && n != "."@ && n != ".."@
}

/// The link to a wallpaper in the directory of a group: named after the
/// wallpaper's file, inside the group's directory.
pub open spec fn grouped_link(
    directory: Seq<char>,
    group: Seq<char>,
    file_name: Seq<char>,
    target: Seq<char>,
) -> (Seq<char>, Seq<char>) {
    (joined_path(joined_path(directory, group), file_name), target)
}

/// The links of a wallpaper by tag: one in the directory of each tag, named
/// after the tag with the characters illegal in a file name replaced; a tag
/// whose name is empty, `.` or `..` gets no link.
pub open spec fn tag_links(
    tags_directory: Seq<char>,
    tags: Seq<Seq<char>>,
    file_name: Seq<char>,
    target: Seq<char>,
) -> Seq<(Seq<char>, Seq<char>)>
    decreases tags.len(),
{
    if tags.len() == 0 {
        Seq::empty()
    } else {
        let rest = tag_links(tags_directory, tags.drop_last(), file_name, target);
        let name = sanitized_component(tags.last());
        if usable_directory_name(name) {
            rest.push(grouped_link(tags_directory, name, file_name, target))
        } else {
            rest
        }
    }
}

/// The links `tidy` sorts a wallpaper into: one in the directory of its
/// shape, then one per tag.
pub open spec fn tidy_links(
    aspect_ratio_directory: Seq<char>,
    tags_directory: Seq<char>,
    w: IndexedWallpaper,
) -> Seq<(Seq<char>, Seq<char>)> {
    seq![
        grouped_link(
            aspect_ratio_directory,
            wallpaper_aspect_ratio_text(w.aspect_ratio),
            w.file_name@,
            w.path@,
        ),
    ] + tag_links(tags_directory, texts(w.tags@), w.file_name@, w.path@)
}

proof fn lemma_tag_links_target(
    tags_directory: Seq<char>,
    tags: Seq<Seq<char>>,
    file_name: Seq<char>,
    target: Seq<char>,
)
    ensures
        forall|k: int|
            0 <= k < tag_links(tags_directory, tags, file_name, target).len() ==> (#[trigger] tag_links(
                tags_directory,
                tags,
                file_name,
                target,
            )[k]).1 == target,
    decreases tags.len(),
{
    if tags.len() > 0 {
        lemma_tag_links_target(tags_directory, tags.drop_last(), file_name, target);
        let rest = tag_links(tags_directory, tags.drop_last(), file_name, target);
        let all = tag_links(tags_directory, tags, file_name, target);
        assert forall|k: int| 0 <= k < all.len() implies (#[trigger] all[k]).1 == target by {
            if k < rest.len() {
                assert(all[k] == rest[k]);
            }
        }
    }
}

/// Every link `tidy` makes for a wallpaper points at the wallpaper, and the
/// first one is in the directory of its shape, named after its file.
pub proof fn tidy_links_point_at_the_wallpaper(
    aspect_ratio_directory: Seq<char>,
    tags_directory: Seq<char>,
    w: IndexedWallpaper,
)
    ensures
        tidy_links(aspect_ratio_directory, tags_directory, w).len() >= 1,
        tidy_links(aspect_ratio_directory, tags_directory, w)[0].0 == joined_path(
            joined_path(aspect_ratio_directory, wallpaper_aspect_ratio_text(w.aspect_ratio)),
            w.file_name@,
        ),
        forall|k: int|
            0 <= k < tidy_links(aspect_ratio_directory, tags_directory, w).len() ==> (#[trigger] tidy_links(
                aspect_ratio_directory,
                tags_directory,
                w,
            )[k]).1 == w.path@,
{
    lemma_tag_links_target(tags_directory, texts(w.tags@), w.file_name@, w.path@);
    let head = seq![
        grouped_link(
            aspect_ratio_directory,
            wallpaper_aspect_ratio_text(w.aspect_ratio),
            w.file_name@,
            w.path@,
        ),
    ];
    let tail = tag_links(tags_directory, texts(w.tags@), w.file_name@, w.path@);
    assert forall|k: int| 0 <= k < (head + tail).len() implies (#[trigger] (head + tail)[k]).1
        == w.path@ by {
        if k >= 1 {
            assert((head + tail)[k] == tail[k - 1]);
        }
    }
}

fn grouped(directory: &str, group: &str, file_name: &str, target: &str) -> (l: WallpaperLink)
    ensures
        link_view(l) == grouped_link(directory@, group@, file_name@, target@),
{
    let group_directory = join_path(directory, group);
    WallpaperLink { link: join_path(group_directory.as_str(), file_name), target: owned(target) }
}

/// The links `tidy` makes for a wallpaper: one by shape, one per tag.
pub fn wallpaper_links(
    aspect_ratio_directory: &str,
    tags_directory: &str,
    wallpaper: &IndexedWallpaper,
) -> (r: Vec<WallpaperLink>)
    ensures
        link_views(r@) == tidy_links(aspect_ratio_directory@, tags_directory@, *wallpaper),
{
    let shape = wallpaper.aspect_ratio.to_string();
    let mut r: Vec<WallpaperLink> = Vec::new();
    r.push(
        grouped(
            aspect_ratio_directory,
            shape.as_str(),
            wallpaper.file_name.as_str(),
            wallpaper.path.as_str(),
        ),
    );
    let ghost head = link_views(r@);
    let tags = &wallpaper.tags;
    let mut i: usize = 0;
    assert(tag_links(tags_directory@, texts(tags@).take(0), wallpaper.file_name@, wallpaper.path@)
        =~= Seq::<(Seq<char>, Seq<char>)>::empty());
    while i < tags.len()
        invariant
            i <= tags@.len(),
            *tags == wallpaper.tags,
            link_views(r@) == head + tag_links(
                tags_directory@,
                texts(tags@).take(i as int),
                wallpaper.file_name@,
                wallpaper.path@,
            ),
        decreases tags@.len() - i,
    {
        let ghost before = r@;
        assert(texts(tags@).take(i + 1).drop_last() =~= texts(tags@).take(i as int));
        assert(texts(tags@).take(i + 1).last() == tags@[i as int]@);
        let name = sanitize_filename_component(tags[i].as_str());
        if name.as_str().unicode_len() > 0 && !equals(name.as_str(), ".") && !equals(
            name.as_str(),
            "..",
        ) {
            let l = grouped(
                tags_directory,
                name.as_str(),
                wallpaper.file_name.as_str(),
                wallpaper.path.as_str(),
            );
            r.push(l);
            assert(link_views(r@) =~= link_views(before).push(link_view(l)));
        }
        i = i + 1;
    }
    assert(texts(tags@).take(i as int) =~= texts(tags@));
    r
}

} // verus!
