//! The Osaka link-extraction service: its answers and the address it is
//! asked at. The HTTP request is sent by the app.

use vstd::prelude::*;
use crate::config::CliConfig;
use crate::text::{owned, trim_end_slashes, without_trailing_slashes};

verus! {

/// The download links Osaka found for a series.
#[derive(Clone, Debug, Default)]
pub struct OsakaResponse {
    pub title: String,
    pub links: Links,
}

/// The links per download provider.
#[derive(Clone, Debug, Default)]
pub struct Links {
    pub pdrain: Option<DownloadLinks>,
    pub mega: Option<DownloadLinks>,
    pub mp4upload: Option<DownloadLinks>,
    pub n1fichier: Option<DownloadLinks>,
    pub transfer_it: Option<DownloadLinks>,
}

/// The subtitled and dubbed links of one provider.
#[derive(Clone, Debug, Default)]
pub struct DownloadLinks {
    pub sub: Option<Vec<String>>,
    pub dub: Option<Vec<String>>,
}

/// Errors of the Osaka client.
#[derive(Clone, Debug)]
pub enum OsakaError {
    Client(String),
}

/// The message shown for an Osaka error.
pub open spec fn osaka_error_message(e: OsakaError) -> Seq<char> {
    match e {
        OsakaError::Client(m) => "client error: "@ + m@,
    }
}

impl OsakaError {
    /// The message shown for the error.
    pub fn to_string(&self) -> (r: String)
        ensures
            r@ == osaka_error_message(*self),
    {
        match self {
            OsakaError::Client(e) => {
                let mut r = owned("client error: ");
                r.append(e.as_str());
                r
            },
        }
    }
}

/// A client of an Osaka service.
#[derive(Clone, Debug)]
pub struct OsakaClient {
    base_url: String,
}

impl OsakaClient {
    /// The base address the client sends to.
    pub closed spec fn spec_base_url(&self) -> Seq<char> {
        self.base_url@
    }

    /// A client of the service at `base_url`, kept without trailing slashes.
    pub fn new(base_url: &String) -> (c: OsakaClient)
        ensures
            c.spec_base_url() == without_trailing_slashes(base_url@),
    {
        OsakaClient { base_url: owned(trim_end_slashes(base_url.as_str())) }
    }

    /// A client of the configured service.
    pub fn from_config(config: &CliConfig) -> (c: OsakaClient)
        ensures
            c.spec_base_url() == without_trailing_slashes(config.osaka.base_url@),
    {
        Self::new(&config.osaka.base_url)
    }

    /// The base address the client sends to.
    pub fn base_url(&self) -> (r: &str)
        ensures
            r@ == self.spec_base_url(),
    {
        self.base_url.as_str()
    }

    /// The address of the link extraction: `{base_url}/links`.
    pub fn links_url(&self) -> (url: String)
        ensures
            url@ == self.spec_base_url() + "/links"@,
    {
        let mut url = self.base_url.clone();
        url.append("/links");
        url
    }
}

} // verus!
