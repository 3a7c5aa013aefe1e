//! The configuration of the command-line tool. Reading the files is done by
//! the app; these are the values and the rules applied to them.

pub mod cli;
pub mod database;
pub mod jdownloader;
pub mod logging;
pub mod media;
pub mod myanimelist;
pub mod osaka;
pub mod read;
pub mod wallpapers;

pub use cli::CliConfig;
pub use database::DatabaseConfig;
pub use jdownloader::JDownloaderConfig;
pub use logging::{LoggingConfig, LoggingLevel};
pub use media::{MediaAnimeConfig, MediaConfig};
pub use myanimelist::MyAnimeListConfig;
pub use osaka::OsakaConfig;
pub use wallpapers::{TidyWallpapersConfig, WallpapersConfig};
