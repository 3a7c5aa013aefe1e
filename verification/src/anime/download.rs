//! Downloading a series with Osaka and JDownloader: which links are handed
//! to JDownloader, where the series lands, which files already count as
//! episodes, when a download is finished, and what a failure reports. The
//! requests, the waiting and the disk belong to the app.

use vstd::prelude::*;
use crate::fs::{join_path, joined_path, strip_illegal_chars, stripped};
use crate::jdownloader::{jdownloader_error_message, DownloadLink, JDownloaderError};
use crate::matching::{compile_glob, glob_compile_error, glob_match, glob_matches};
use crate::media::anime::{anime_resolver_error_message, AnimeResolverError};
use crate::osaka::{osaka_error_message, DownloadLinks, Links, OsakaError};
use crate::text::{owned, texts};

verus! {

/// Errors of downloading a series.
#[derive(Clone, Debug)]
pub enum AnimeDownloadError {
    Osaka(String),
    JDownloader(String),
    LinksNotAvailable(String),
    Metadata(String),
    IO(String),
    Other(String),
}

/// The message shown for a download error.
pub open spec fn download_error_message(e: AnimeDownloadError) -> Seq<char> {
    match e {
        AnimeDownloadError::Osaka(m) => "osaka error: "@ + m@,
        AnimeDownloadError::LinksNotAvailable(m) => m@,
        AnimeDownloadError::JDownloader(m) => "JDownloader error: "@ + m@,
        AnimeDownloadError::Metadata(m) => "metadata error: "@ + m@,
        AnimeDownloadError::IO(m) => "io error: "@ + m@,
        AnimeDownloadError::Other(m) => m@,
    }
}

/// What an Osaka failure is reported as.
pub open spec fn osaka_failure_text(e: OsakaError) -> Seq<char> {
    "error extracting links, maybe url is not supported: "@ + osaka_error_message(e)
}

impl AnimeDownloadError {
    /// The message shown for the error.
    pub fn to_string(&self) -> (r: String)
        ensures
            r@ == download_error_message(*self),
    {
        match self {
            AnimeDownloadError::Osaka(m) => {
                let mut r = owned("osaka error: ");
                r.append(m.as_str());
                r
            },
            AnimeDownloadError::LinksNotAvailable(m) => m.clone(),
            AnimeDownloadError::JDownloader(m) => {
                let mut r = owned("JDownloader error: ");
                r.append(m.as_str());
                r
            },
            AnimeDownloadError::Metadata(m) => {
                let mut r = owned("metadata error: ");
                r.append(m.as_str());
                r
            },
            AnimeDownloadError::IO(m) => {
                let mut r = owned("io error: ");
                r.append(m.as_str());
                r
            },
            AnimeDownloadError::Other(m) => m.clone(),
        }
    }

    /// An Osaka failure: the links could not be extracted.
    pub fn from_osaka_error(error: OsakaError) -> (r: AnimeDownloadError)
        ensures
            r matches AnimeDownloadError::Osaka(m) && m@ == osaka_failure_text(error),
    {
        let mut m = owned("error extracting links, maybe url is not supported: ");
        m.append(error.to_string().as_str());
        AnimeDownloadError::Osaka(m)
    }

    /// A JDownloader failure, kept by its message.
    pub fn from_jdownloader_error(error: JDownloaderError) -> (r: AnimeDownloadError)
        ensures
            r matches AnimeDownloadError::JDownloader(m) && m@ == jdownloader_error_message(error),
    {
        AnimeDownloadError::JDownloader(error.to_string())
    }

    /// A failure to resolve the series metadata, kept by its message.
    pub fn from_resolver_error(error: AnimeResolverError) -> (r: AnimeDownloadError)
        ensures
            r matches AnimeDownloadError::Metadata(m) && m@ == anime_resolver_error_message(error),
    {
        AnimeDownloadError::Metadata(error.to_string())
    }
}

/// The provider whose links are downloaded: Mega first, then PDrain,
/// MP4Upload, 1Fichier and TransferIt.
pub open spec fn preferred_provider(links: Links) -> Option<DownloadLinks> {
    if links.mega is Some {
        links.mega
    } else if links.pdrain is Some {
        links.pdrain
    } else if links.mp4upload is Some {
        links.mp4upload
    } else if links.n1fichier is Some {
        links.n1fichier
    } else {
        links.transfer_it
    }
}

/// The subtitled links of the preferred provider, or why there are none.
pub open spec fn links_verdict(links: Links) -> Result<Seq<Seq<char>>, Seq<char>> {
    match preferred_provider(links) {
        None => Err("no download provider found"@),
        Some(provider) => match provider.sub {
            None => Err("no SUB links found"@),
            Some(sub) => Ok(texts(sub@)),
        },
    }
}

/// The order of preference is Mega, PDrain, MP4Upload, 1Fichier, TransferIt:
/// the links of a provider that has subtitled links are downloaded when no
/// provider before it in that order has any links; a provider with links
/// but no subtitled ones stops the choice with an error.
pub proof fn preferred_links_come_first(links: Links)
    ensures
        links.mega matches Some(p) ==> links_verdict(links) == match p.sub {
            Some(sub) => Ok::<Seq<Seq<char>>, Seq<char>>(texts(sub@)),
            None => Err::<Seq<Seq<char>>, Seq<char>>("no SUB links found"@),
        },
        links.mega is None ==> (links.pdrain matches Some(p) ==> links_verdict(links) == match p.sub {
            Some(sub) => Ok::<Seq<Seq<char>>, Seq<char>>(texts(sub@)),
            None => Err::<Seq<Seq<char>>, Seq<char>>("no SUB links found"@),
        }),
        links.mega is None && links.pdrain is None ==> (links.mp4upload matches Some(p) ==> links_verdict(links) == match p.sub {
            Some(sub) => Ok::<Seq<Seq<char>>, Seq<char>>(texts(sub@)),
            None => Err::<Seq<Seq<char>>, Seq<char>>("no SUB links found"@),
        }),
        links.mega is None && links.pdrain is None && links.mp4upload is None ==> (
        links.n1fichier matches Some(p) ==> links_verdict(links) == match p.sub {
            Some(sub) => Ok::<Seq<Seq<char>>, Seq<char>>(texts(sub@)),
            None => Err::<Seq<Seq<char>>, Seq<char>>("no SUB links found"@),
        }),
        links.mega is None && links.pdrain is None && links.mp4upload is None
            && links.n1fichier is None ==> (links.transfer_it matches Some(p) ==> links_verdict(links) == match p.sub {
            Some(sub) => Ok::<Seq<Seq<char>>, Seq<char>>(texts(sub@)),
            None => Err::<Seq<Seq<char>>, Seq<char>>("no SUB links found"@),
        }),
        links.mega is None && links.pdrain is None && links.mp4upload is None
            && links.n1fichier is None && links.transfer_it is None ==> links_verdict(links)
            == Err::<Seq<Seq<char>>, Seq<char>>("no download provider found"@),
        links_verdict(links) is Ok ==> preferred_provider(links) is Some,
{
}

/// A copy of a list of strings, element by element.
fn copy_strings(v: &Vec<String>) -> (r: Vec<String>)
    ensures
        texts(r@) == texts(v@),
{
    let mut r: Vec<String> = Vec::new();
    let mut i: usize = 0;
    while i < v.len()
        invariant
            i <= v@.len(),
            r@.len() == i,
            forall|j: int| 0 <= j < i ==> #[trigger] r@[j]@ == v@[j]@,
        decreases v@.len() - i,
    {
        r.push(v[i].clone());
        i = i + 1;
    }
    assert(texts(r@) =~= texts(v@));
    r
}

/// The links handed to JDownloader: the subtitled links of the first
/// provider that has any, in the order of preference.
pub fn resolve_links(links: &Links) -> (r: Result<Vec<String>, AnimeDownloadError>)
    ensures
        match links_verdict(*links) {
            Ok(urls) => r matches Ok(v) && texts(v@) == urls,
            Err(e) => r matches Err(AnimeDownloadError::LinksNotAvailable(m)) && m@ == e,
        },
{
    let provider = if links.mega.is_some() {
        &links.mega
    } else if links.pdrain.is_some() {
        &links.pdrain
    } else if links.mp4upload.is_some() {
        &links.mp4upload
    } else if links.n1fichier.is_some() {
        &links.n1fichier
    } else {
        &links.transfer_it
    };
    match provider {
        None => Err(AnimeDownloadError::LinksNotAvailable(owned("no download provider found"))),
        Some(provider) => match &provider.sub {
            None => Err(AnimeDownloadError::LinksNotAvailable(owned("no SUB links found"))),
            Some(sub) => Ok(copy_strings(sub)),
        },
    }
}

/// Where a series is downloaded: its title, stripped of illegal characters,
/// inside the anime directory.
pub open spec fn destination_of(directory: Seq<char>, title: Seq<char>) -> Seq<char> {
    joined_path(directory, stripped(title))
}

/// The directory a series is downloaded to.
pub fn anime_destination(directory: &str, title: &str) -> (r: String)
    ensures
        r@ == destination_of(directory@, title@),
{
    let sanitized = strip_illegal_chars(title);
    join_path(directory, sanitized.as_str())
}

/// Whether a path is an episode: the patterns are tried in order, and the
/// first one that does not compile fails the check unless an earlier one
/// matched.
pub open spec fn episode_verdict(path: Seq<char>, patterns: Seq<Seq<char>>) -> Result<bool, Seq<char>>
    decreases patterns.len(),
{
    if patterns.len() == 0 {
        Ok(false)
    } else {
        match glob_compile_error(patterns[0]) {
            Some(e) => Err(e),
            None => if glob_matches(patterns[0], path) {
                Ok(true)
            } else {
                episode_verdict(path, patterns.drop_first())
            },
        }
    }
}

/// Whether a path is an episode by the episode glob patterns; a pattern
/// that does not compile is reported by its error text.
pub fn is_episode(path: &str, patterns: &Vec<String>) -> (r: Result<bool, String>)
    ensures
        match episode_verdict(path@, texts(patterns@)) {
            Ok(b) => r == Ok::<bool, String>(b),
            Err(e) => r matches Err(m) && m@ == e,
        },
{
    let ghost ps = texts(patterns@);
    assert(ps.skip(0) =~= ps);
    let mut i: usize = 0;
    while i < patterns.len()
        invariant
            i <= patterns@.len(),
            ps == texts(patterns@),
            episode_verdict(path@, ps) == episode_verdict(path@, ps.skip(i as int)),
        decreases patterns@.len() - i,
    {
        let pattern = patterns[i].as_str();
        assert(ps.skip(i as int)[0] == pattern@);
        assert(ps.skip(i as int).drop_first() =~= ps.skip(i + 1));
        match compile_glob(pattern) {
            Err(m) => {
                return Err(m);
            },
            Ok(()) => {
                if glob_match(pattern, path) {
                    return Ok(true);
                }
            },
        }
        i = i + 1;
    }
    assert(ps.skip(i as int) =~= Seq::<Seq<char>>::empty());
    Ok(false)
}

/// How many of the entries are episodes, or the first pattern error met.
pub open spec fn episode_count(entries: Seq<Seq<char>>, patterns: Seq<Seq<char>>) -> Result<nat, Seq<char>>
    decreases entries.len(),
{
    if entries.len() == 0 {
        Ok(0)
    } else {
        match episode_count(entries.drop_last(), patterns) {
            Err(e) => Err(e),
            Ok(n) => match episode_verdict(entries.last(), patterns) {
                Err(e) => Err(e),
                Ok(b) => Ok(if b { n + 1 } else { n }),
            },
        }
    }
}

/// Counts the episodes among the entries of a series directory (none when
/// the directory does not exist, which the caller shows by an empty list).
pub fn count_episodes(entries: &Vec<String>, patterns: &Vec<String>) -> (r: Result<
    usize,
    AnimeDownloadError,
>)
    ensures
        match episode_count(texts(entries@), texts(patterns@)) {
            Ok(n) => r == Ok::<usize, AnimeDownloadError>(n as usize) && n <= entries@.len(),
            Err(e) => r matches Err(AnimeDownloadError::Other(m)) && m@ == e,
        },
{
    let ghost es = texts(entries@);
    let mut episodes: usize = 0;
    let mut i: usize = 0;
    while i < entries.len()
        invariant
            i <= entries@.len(),
            es == texts(entries@),
            episodes <= i,
            episode_count(es.take(i as int), texts(patterns@)) == Ok::<nat, Seq<char>>(
                episodes as nat,
            ),
        decreases entries@.len() - i,
    {
        assert(es.take(i + 1).drop_last() =~= es.take(i as int));
        assert(es.take(i + 1).last() == entries@[i as int]@);
        match is_episode(entries[i].as_str(), patterns) {
            Err(m) => {
                proof {
                    lemma_count_error_persists(es, texts(patterns@), i as int + 1);
                }
                return Err(AnimeDownloadError::Other(m));
            },
            Ok(b) => {
                if b {
                    episodes = episodes + 1;
                }
            },
        }
        i = i + 1;
    }
    assert(es.take(i as int) =~= es);
    Ok(episodes)
}

/// Once counting has met an error, counting more entries reports it too.
proof fn lemma_count_error_persists(entries: Seq<Seq<char>>, patterns: Seq<Seq<char>>, k: int)
    requires
        0 < k <= entries.len(),
        episode_count(entries.take(k), patterns) is Err,
    ensures
        episode_count(entries, patterns) == episode_count(entries.take(k), patterns),
    decreases entries.len() - k,
{
    if k < entries.len() {
        assert(entries.take(k + 1).drop_last() =~= entries.take(k));
        lemma_count_error_persists(entries, patterns, k + 1);
    } else {
        assert(entries.take(k) =~= entries);
    }
}

/// How many downloads of a job are finished.
pub open spec fn finished_count(progress: Seq<DownloadLink>) -> nat
    decreases progress.len(),
{
    if progress.len() == 0 {
        0
    } else {
        finished_count(progress.drop_last()) + if progress.last().finished {
            1nat
        } else {
            0nat
        }
    }
}

/// Where a download job stands after one look at its progress.
#[derive(Clone, Copy, Debug, PartialEq, Eq)]
pub enum DownloadProgress {
    /// JDownloader lists no download for the job yet.
    NotStarted,
    /// Some of the expected downloads are not finished.
    Pending { finished: usize },
    /// As many downloads are finished as links were handed over.
    Finished,
}

/// What one look at a job's progress says: not started while JDownloader
/// lists nothing, finished once as many downloads are finished as links were
/// handed over, pending otherwise.
pub fn download_progress(progress: &Vec<DownloadLink>, expected: usize) -> (r: DownloadProgress)
    ensures
        progress@.len() == 0 ==> r == DownloadProgress::NotStarted,
        progress@.len() > 0 && finished_count(progress@) == expected ==> r
            == DownloadProgress::Finished,
        progress@.len() > 0 && finished_count(progress@) != expected ==> r
            == (DownloadProgress::Pending { finished: finished_count(progress@) as usize }),
{
    if progress.len() == 0 {
        return DownloadProgress::NotStarted;
    }
    let mut finished: usize = 0;
    let mut i: usize = 0;
    while i < progress.len()
        invariant
            i <= progress@.len(),
            finished <= i,
            finished == finished_count(progress@.take(i as int)),
        decreases progress@.len() - i,
    {
        assert(progress@.take(i + 1).drop_last() =~= progress@.take(i as int));
        if progress[i].finished {
            finished = finished + 1;
        }
        i = i + 1;
    }
    assert(progress@.take(i as int) =~= progress@);
    if finished == expected {
        DownloadProgress::Finished
    } else {
        DownloadProgress::Pending { finished }
    }
}

} // verus!
