//! The names of the metadata files the organiser writes for Jellyfin.

use vstd::prelude::*;
use crate::media::metadata::Actor;
use crate::media::series::SeriesMetadata;
use crate::text::{equals, owned};

verus! {

/// The NFO record of a series or season, as Jellyfin reads it. Its rating,
/// a floating-point number, is added by the app from the metadata.
#[derive(Clone, Debug)]
pub struct SeriesNfo {
    pub title: String,
    pub original_title: String,
    pub plot: String,
    pub year: u16,
    pub premiered: String,
    pub runtime: u16,
    pub status: String,
    pub genre: Vec<String>,
    pub tag: Vec<String>,
    pub studio: String,
    pub actor: Vec<Actor>,
    pub season: u16,
    pub imdbid: Option<String>,
    pub tmdbid: Option<String>,
}

impl SeriesNfo {
    /// The NFO record of a series' metadata: the season's own titles when it
    /// has them, else the series titles; the other fields as they are.
    pub fn from(series: SeriesMetadata) -> (n: SeriesNfo)
        ensures
            n.title == (match series.season_title {
                Some(t) => t,
                None => series.title,
            }),
            n.original_title == (match series.season_original_title {
                Some(t) => t,
                None => series.original_title,
            }),
            n.plot == series.plot,
            n.year == series.year,
            n.premiered == series.premiered,
            n.runtime == series.runtime,
            n.status == series.status,
            n.genre == series.genre,
            n.tag == series.tag,
            n.studio == series.studio,
            n.actor == series.actor,
            n.season == series.season,
            n.imdbid == series.id.imdb,
            n.tmdbid == series.id.tmdb,
    {
        let title = match series.season_title {
            Some(t) => t,
            None => series.title,
        };
        let original_title = match series.season_original_title {
            Some(t) => t,
            None => series.original_title,
        };
        SeriesNfo {
            title,
            original_title,
            plot: series.plot,
            year: series.year,
            premiered: series.premiered,
            runtime: series.runtime,
            status: series.status,
            genre: series.genre,
            tag: series.tag,
            studio: series.studio,
            actor: series.actor,
            season: series.season,
            imdbid: series.id.imdb,
            tmdbid: series.id.tmdb,
        }
    }
}

/// The name of the NFO file: `season.nfo` in a season directory,
/// `tvshow.nfo` in a series directory.
pub fn nfo_file_name(season: bool) -> (r: &'static str)
    ensures
        season ==> r@ == "season.nfo"@,
        !season ==> r@ == "tvshow.nfo"@,
{
    if season {
        "season.nfo"
    } else {
        "tvshow.nfo"
    }
}

/// The extension a poster of a MIME type is written with, if the type is a
/// supported image type.
pub open spec fn poster_extension(content_type: Seq<char>) -> Option<Seq<char>> {
    if content_type == "image/jpeg"@ {
        Some("jpg"@)
    } else if content_type == "image/png"@ {
        Some("png"@)
    } else if content_type == "image/gif"@ {
        Some("gif"@)
    } else if content_type == "image/webp"@ {
        Some("webp"@)
    } else if content_type == "image/avif"@ {
        Some("avif"@)
    } else if content_type == "image/bmp"@ {
        Some("bmp"@)
    } else if content_type == "image/tiff"@ {
        Some("tiff"@)
    } else if content_type == "image/svg+xml"@ {
        Some("svg"@)
    } else {
        None
    }
}

/// The name a poster of a MIME type is written under: `poster.` and the
/// extension of the type. Other types are refused.
pub fn poster_file_name(content_type: &str) -> (r: Result<String, String>)
    ensures
        match poster_extension(content_type@) {
            Some(ext) => r matches Ok(name) && name@ == "poster."@ + ext,
            None => r matches Err(m) && m@ == "unsupported image content type: "@ + content_type@,
        },
{
    let extension = if equals(content_type, "image/jpeg") {
        "jpg"
    } else if equals(content_type, "image/png") {
        "png"
    } else if equals(content_type, "image/gif") {
        "gif"
    } else if equals(content_type, "image/webp") {
        "webp"
    } else if equals(content_type, "image/avif") {
        "avif"
    } else if equals(content_type, "image/bmp") {
        "bmp"
    } else if equals(content_type, "image/tiff") {
        "tiff"
    } else if equals(content_type, "image/svg+xml") {
        "svg"
    } else {
        let mut m = owned("unsupported image content type: ");
        m.append(content_type);
        return Err(m);
    };
    let mut name = owned("poster.");
    name.append(extension);
    Ok(name)
}

} // verus!
