//! The JDownloader API: where it is reached, what a download request holds
//! and what a download reports. Requests are sent by the app.

use vstd::prelude::*;
use crate::commands::{report, reported, reports};
use crate::config::CliConfig;
use crate::text::{join, joined, owned, texts, trim, trim_end_slashes, trimmed, without_trailing_slashes};

verus! {

/// The id JDownloader gives to a link-collecting job.
pub type JobId = i64;

/// The state of one download of a job.
#[derive(Clone, Debug)]
pub struct DownloadLink {
    pub uuid: i64,
    pub name: String,
    pub bytes_loaded: i64,
    pub bytes_total: i64,
    pub speed: i64,
    pub status: Option<String>,
    pub finished: bool,
}

/// Errors of the JDownloader client.
#[derive(Clone, Debug)]
pub enum JDownloaderError {
    HTTP(String),
    Client(String),
}

/// The message shown for a JDownloader error.
pub open spec fn jdownloader_error_message(e: JDownloaderError) -> Seq<char> {
    match e {
        JDownloaderError::HTTP(s) => "http error: "@ + s@,
        JDownloaderError::Client(s) => "client error: "@ + s@,
    }
}

impl JDownloaderError {
    /// The message shown for the error.
    pub fn to_string(&self) -> (r: String)
        ensures
            r@ == jdownloader_error_message(*self),
    {
        match self {
            JDownloaderError::HTTP(s) => {
                let mut r = owned("http error: ");
                r.append(s.as_str());
                r
            },
            JDownloaderError::Client(s) => {
                let mut r = owned("client error: ");
                r.append(s.as_str());
                r
            },
        }
    }

    /// A serialization failure, kept by its message.
    pub fn from_serialization_error(message: &str) -> (r: JDownloaderError)
        ensures
            r matches JDownloaderError::Client(m) && m@ == "serialization error: "@ + message@,
    {
        let mut m = owned("serialization error: ");
        m.append(message);
        JDownloaderError::Client(m)
    }
}

/// A client of a JDownloader API.
#[derive(Clone, Debug)]
pub struct JDownloader {
    base_url: String,
}

impl JDownloader {
    /// The base address the client sends to.
    pub closed spec fn spec_base_url(&self) -> Seq<char> {
        self.base_url@
    }

    /// A client of the API at `base_url`.
    pub fn new(base_url: &str) -> (c: JDownloader)
        ensures
            c.spec_base_url() == base_url@,
    {
        JDownloader { base_url: owned(base_url) }
    }

    /// A client of the configured API; the address is trimmed and kept
    /// without trailing slashes.
    pub fn from_config(config: &CliConfig) -> (c: JDownloader)
        ensures
            c.spec_base_url() == without_trailing_slashes(trimmed(config.jdownloader.api_base_url@)),
    {
        Self::new(trim_end_slashes(trim(config.jdownloader.api_base_url.as_str())))
    }

    /// The base address the client sends to.
    pub fn base_url(&self) -> (r: &str)
        ensures
            r@ == self.spec_base_url(),
    {
        self.base_url.as_str()
    }

    /// The address that adds links to the link grabber.
    pub fn add_links_url(&self) -> (url: String)
        ensures
            url@ == self.spec_base_url() + "/linkgrabberv2/addLinks"@,
    {
        let mut url = self.base_url.clone();
        url.append("/linkgrabberv2/addLinks");
        url
    }

    /// The address that reports the downloads of a job.
    pub fn query_links_url(&self) -> (url: String)
        ensures
            url@ == self.spec_base_url() + "/downloadsV2/queryLinks"@,
    {
        let mut url = self.base_url.clone();
        url.append("/downloadsV2/queryLinks");
        url
    }

    /// The links of a download request: one per line.
    pub fn links_text(urls: &Vec<String>) -> (r: String)
        ensures
            r@ == joined(texts(urls@), "\n"@),
    {
        join(urls, "\n")
    }
}

/// The subcommands of `jdownloader`.
#[derive(Clone, Debug)]
pub enum JDownloaderCommands {
    Download { urls: Vec<String>, package_name: Option<String>, destination: Option<String> },
    Progress { job_id: JobId },
}

impl JDownloaderCommands {
    /// The name of the subcommand.
    pub fn to_string(&self) -> (r: String)
        ensures
            self is Download ==> r@ == "download"@,
            self is Progress ==> r@ == "progress"@,
    {
        match self {
            JDownloaderCommands::Download { .. } => owned("download"),
            JDownloaderCommands::Progress { .. } => owned("progress"),
        }
    }
}

/// The name of a `jdownloader` subcommand.
pub open spec fn jdownloader_command_name(c: JDownloaderCommands) -> Seq<char> {
    match c {
        JDownloaderCommands::Download { .. } => "download"@,
        JDownloaderCommands::Progress { .. } => "progress"@,
    }
}

/// The result of a `jdownloader` subcommand, from the outcome of running
/// it: a failure is reported as `subcommand <name> failed: <error>`.
pub fn execute_jdownloader_command(command: &JDownloaderCommands, outcome: Result<(), String>) -> (r:
    Result<(), String>)
    ensures
        reports(r, reported("subcommand"@, jdownloader_command_name(*command), outcome)),
{
    let name = command.to_string();
    report("subcommand", name.as_str(), outcome)
}

} // verus!
