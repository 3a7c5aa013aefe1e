//! The parts of a series record: cast, provider ids and cover image.

use vstd::prelude::*;

verus! {

/// An actor of a series and the role played.
#[derive(Clone, Debug)]
pub struct Actor {
    pub name: String,
    pub role: String,
}

/// The ids of a series at metadata providers.
#[derive(Clone, Debug)]
pub struct MetadataProviderIds {
    pub mal: Option<String>,
    pub imdb: Option<String>,
    pub tmdb: Option<String>,
}

/// An image and its MIME type. The app downloads it.
#[derive(Clone, Debug)]
pub struct Image {
    pub content: Vec<u8>,
    pub content_type: String,
}

} // verus!
