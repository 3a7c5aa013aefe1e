//! The metadata recorded of a series.

use vstd::prelude::*;
use crate::media::metadata::{Actor, Image, MetadataProviderIds};
use crate::text::owned;

verus! {

/// The name of the file that holds a series' metadata in its directory.
pub const SERIES_METADATA_FILENAME: &'static str = ".metadata.yaml";

/// The metadata of a series. Its rating, a floating-point number, is kept
/// by the app next to this record.
#[derive(Clone, Debug)]
pub struct SeriesMetadata {
    pub title: String,
    pub original_title: String,
    pub plot: String,
    pub year: u16,
    pub premiered: String,
    pub runtime: u16,
    pub status: String,
    pub genre: Vec<String>,
    pub tag: Vec<String>,
    pub studio: String,
    pub id: MetadataProviderIds,
    pub actor: Vec<Actor>,
    pub season: u16,
    pub season_title: Option<String>,
    pub season_original_title: Option<String>,
    pub cover: Option<Image>,
}

/// Errors of resolving a series' metadata.
#[derive(Clone, Debug)]
pub enum SeriesMetadataResolverError {
    EmptyTitle,
    NotFound,
    Other(String),
}

/// The message shown for a resolver error.
pub open spec fn resolver_error_message(e: SeriesMetadataResolverError) -> Seq<char> {
    match e {
        SeriesMetadataResolverError::EmptyTitle => "Empty title"@,
        SeriesMetadataResolverError::NotFound => "Not found"@,
        SeriesMetadataResolverError::Other(m) => m@,
    }
}

impl SeriesMetadataResolverError {
    /// The message shown for the error.
    pub fn to_string(&self) -> (r: String)
        ensures
            r@ == resolver_error_message(*self),
    {
        match self {
            SeriesMetadataResolverError::EmptyTitle => owned("Empty title"),
            SeriesMetadataResolverError::NotFound => owned("Not found"),
            SeriesMetadataResolverError::Other(m) => m.clone(),
        }
    }
}

/// A source of series metadata, by the directory of a series or by an
/// identifier at the provider.
pub trait SeriesMetadataResolver {
    fn resolve_from_directory(&self, source_directory: &str) -> Result<
        SeriesMetadata,
        SeriesMetadataResolverError,
    >;

    fn resolve_from_identifier(&self, identifier: &str) -> Result<
        SeriesMetadata,
        SeriesMetadataResolverError,
    >;
}

} // verus!
