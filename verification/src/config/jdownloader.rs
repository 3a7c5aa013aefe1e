//! Where the JDownloader API is reached.

use vstd::prelude::*;
use crate::text::owned;

verus! {

/// The JDownloader API settings.
#[derive(Clone, Debug)]
pub struct JDownloaderConfig {
    pub api_base_url: String,
}

/// The address of the JDownloader API when none is configured.
pub const DEFAULT_API_BASE_URL: &'static str = "http://localhost:3128";

impl JDownloaderConfig {
    /// The address of the JDownloader API when none is configured.
    pub fn default_api_base_url() -> (r: String)
        ensures
            r@ == DEFAULT_API_BASE_URL@,
    {
        owned(DEFAULT_API_BASE_URL)
    }
}

impl Default for JDownloaderConfig {
    fn default() -> (r: Self)
        ensures
            r.api_base_url@ == DEFAULT_API_BASE_URL@,
    {
        JDownloaderConfig { api_base_url: Self::default_api_base_url() }
    }
}

} // verus!
