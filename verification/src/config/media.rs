//! Where downloaded anime go and which of their files count as episodes.

use vstd::prelude::*;

verus! {

/// The anime library settings.
#[derive(Clone, Debug)]
pub struct MediaAnimeConfig {
    pub directory: String,
    pub episodes_whitelist: Vec<String>,
}

impl MediaAnimeConfig {
    /// No directory unless one is configured.
    pub fn default_directory() -> (r: String)
        ensures
            r@.len() == 0,
    {
        String::new()
    }

    /// No episode patterns unless some are configured.
    pub fn default_episode_whitelist() -> (r: Vec<String>)
        ensures
            r@.len() == 0,
    {
        Vec::new()
    }
}

impl Default for MediaAnimeConfig {
    fn default() -> (r: Self)
        ensures
            r.directory@.len() == 0,
            r.episodes_whitelist@.len() == 0,
    {
        MediaAnimeConfig {
            directory: Self::default_directory(),
            episodes_whitelist: Self::default_episode_whitelist(),
        }
    }
}

/// The media settings.
#[derive(Clone, Debug)]
pub struct MediaConfig {
    pub anime: MediaAnimeConfig,
}

impl Default for MediaConfig {
    fn default() -> (r: Self)
        ensures
            r.anime.directory@.len() == 0,
            r.anime.episodes_whitelist@.len() == 0,
    {
        MediaConfig { anime: MediaAnimeConfig::default() }
    }
}

} // verus!
