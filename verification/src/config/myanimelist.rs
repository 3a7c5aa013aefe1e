//! The MyAnimeList client id.

use vstd::prelude::*;
use crate::text::{owned, trim, trimmed};

verus! {

/// The MyAnimeList settings.
#[derive(Clone, Debug, Default)]
pub struct MyAnimeListConfig {
    /// MyAnimeList API v2 Client ID.
    pub api_key: String,
}

/// The message given when no client id is configured.
pub const MISSING_CLIENT_ID: &'static str =
    "myanimelist.api_key must contain the MyAnimeList API v2 Client ID";

impl MyAnimeListConfig {
    /// The configured client id without surrounding white space; a blank one
    /// is refused.
    pub fn client_id(&self) -> (r: Result<&str, String>)
        ensures
            trimmed(self.api_key@).len() == 0 ==> (r matches Err(m) && m@ == MISSING_CLIENT_ID@),
            trimmed(self.api_key@).len() != 0 ==> (r matches Ok(id) && id@ == trimmed(
                self.api_key@,
            )),
    {
        let client_id = trim(self.api_key.as_str());
        if client_id.is_empty() {
            return Err(owned(MISSING_CLIENT_ID));
        }
        Ok(client_id)
    }
}

} // verus!
