//! The MyAnimeList client the commands share, made from the configuration.

use vstd::prelude::*;
use crate::config::myanimelist::MISSING_CLIENT_ID;
use crate::config::CliConfig;
use crate::myanimelist::{header_text_ok, Client};
use crate::text::{owned, trimmed};

verus! {

/// Makes the MyAnimeList client of the configuration.
pub struct MyAnimeListClient;

/// The prefix of the report of a client that could not be made.
pub const CLIENT_CREATION_FAILURE: &'static str = "fallo al crear el cliente de MyAnimeList: ";

impl MyAnimeListClient {
    /// A client for the configured client id: a blank id is refused, and so
    /// is one that cannot be sent as a header value, with the client's error.
    pub fn create(config: &CliConfig) -> (r: Result<Client, String>)
        ensures
            ({
                let id = trimmed(config.myanimelist.api_key@);
                &&& id.len() == 0 ==> (r matches Err(m) && m@ == MISSING_CLIENT_ID@)
                &&& id.len() != 0 && !header_text_ok(id) ==> (r matches Err(m) && m@
                    == CLIENT_CREATION_FAILURE@ + "API key no válida: "@ + "failed to parse header value"@)
                &&& id.len() != 0 && header_text_ok(id) ==> (r matches Ok(c) && c.spec_api_key()
                    == id)
            }),
    {
        let api_key = config.myanimelist.client_id()?;
        match Client::new(api_key) {
            Ok(client) => Ok(client),
            Err(e) => {
                let mut m = owned(CLIENT_CREATION_FAILURE);
                m.append(e.to_string().as_str());
                Err(m)
            },
        }
    }
}

} // verus!
