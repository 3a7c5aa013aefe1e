//! Where the Osaka link-extraction service is reached.

use vstd::prelude::*;
use crate::text::owned;

verus! {

/// The Osaka service settings.
#[derive(Clone, Debug)]
pub struct OsakaConfig {
    pub base_url: String,
}

/// The address of the Osaka service when none is configured.
pub const DEFAULT_BASE_URL: &'static str = "http://localhost:8080";

impl OsakaConfig {
    /// The address of the Osaka service when none is configured.
    pub fn default_base_url() -> (r: String)
        ensures
            r@ == DEFAULT_BASE_URL@,
    {
        owned(DEFAULT_BASE_URL)
    }
}

impl Default for OsakaConfig {
    fn default() -> (r: Self)
        ensures
            r.base_url@ == DEFAULT_BASE_URL@,
    {
        OsakaConfig { base_url: Self::default_base_url() }
    }
}

} // verus!
