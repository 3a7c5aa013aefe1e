//! The whole configuration of the tool.

use vstd::prelude::*;
use crate::config::{
    DatabaseConfig, JDownloaderConfig, LoggingConfig, LoggingLevel, MediaConfig, MyAnimeListConfig,
    OsakaConfig,
};
use crate::config::database::DEFAULT_DATABASE_FILE;
use crate::config::jdownloader::DEFAULT_API_BASE_URL;
use crate::config::logging::DEFAULT_LOG_FILE;
use crate::config::osaka::DEFAULT_BASE_URL;

verus! {

/// The configuration read from `config.yaml`.
#[derive(Clone, Debug)]
pub struct CliConfig {
    pub logging: LoggingConfig,
    pub database: DatabaseConfig,
    pub myanimelist: MyAnimeListConfig,
    pub jdownloader: JDownloaderConfig,
    pub osaka: OsakaConfig,
    pub media: MediaConfig,
}

impl Default for CliConfig {
    fn default() -> (r: Self)
        ensures
            r.logging.level == LoggingLevel::Info,
            r.logging.file@ == DEFAULT_LOG_FILE@,
            r.database.file@ == DEFAULT_DATABASE_FILE@,
            r.myanimelist.api_key@.len() == 0,
            r.jdownloader.api_base_url@ == DEFAULT_API_BASE_URL@,
            r.osaka.base_url@ == DEFAULT_BASE_URL@,
            r.media.anime.directory@.len() == 0,
            r.media.anime.episodes_whitelist@.len() == 0,
    {
        CliConfig {
            logging: LoggingConfig::default(),
            database: DatabaseConfig::default(),
            myanimelist: MyAnimeListConfig { api_key: String::new() },
            jdownloader: JDownloaderConfig::default(),
            osaka: OsakaConfig::default(),
            media: MediaConfig::default(),
        }
    }
}

} // verus!
