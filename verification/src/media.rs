//! Series metadata: what is recorded of a series, how it is resolved from
//! MyAnimeList, and the errors of resolving it.

pub mod anime;
pub mod command;
pub mod metadata;
pub mod series;

pub use anime::{AnimeResolver, AnimeResolverError};
pub use metadata::{Actor, Image, MetadataProviderIds};
pub use series::{SeriesMetadata, SeriesMetadataResolver, SeriesMetadataResolverError};
