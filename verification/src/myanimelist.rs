//! The MyAnimeList API v2 client rules: what a request is built from, which
//! keys and queries are accepted, how answers are judged and when a failed
//! request is tried again. The HTTP transport itself lives in the app.

use vstd::prelude::*;
use crate::text::{decimal, owned, push_decimal, trim, trimmed};

verus! {

/// Base URL of every API request.
pub const API_BASE_URL: &'static str = "https://api.myanimelist.net/v2";

/// Header that carries the client id.
pub const CLIENT_ID_HEADER: &'static str = "X-MAL-CLIENT-ID";

/// Fields requested for the details of an anime.
pub const ANIME_DETAILS_FIELDS: &'static str = "id,title,main_picture,alternative_titles,start_date,end_date,synopsis,mean,rank,popularity,num_list_users,num_scoring_users,nsfw,created_at,updated_at,media_type,status,genres,my_list_status,num_episodes,start_season,broadcast,source,average_episode_duration,rating,pictures,background,related_anime,related_manga,recommendations,studios,statistics";

/// Longest search query MyAnimeList accepts (longer ones get `400`).
pub const MAX_SEARCH_QUERY_LENGTH: usize = 64;

/// Characters kept from the beginning of an over-long search query.
pub const SEARCH_QUERY_PREFIX_LENGTH: usize = 40;

/// Characters kept from the end of an over-long search query: the rest of
/// the limit once the prefix and the joining space are taken.
pub const SEARCH_QUERY_SUFFIX_LENGTH: usize = 23;

/// Attempts after the first one that `try_send` makes before it gives up.
pub const MAX_RETRIES: u64 = 3;

/// Seconds waited before a retry, per attempt already made.
pub const RETRY_WAIT_STEP_SECONDS: u64 = 3;

#[derive(Clone, Debug, PartialEq, Eq)]
pub struct AnimeSearchResponse {
    pub data: Vec<AnimeSearchEntry>,
    pub paging: Paging,
}

#[derive(Clone, Debug, PartialEq, Eq)]
pub struct AnimeSearchEntry {
    pub node: Anime,
}

#[derive(Clone, Debug, PartialEq, Eq)]
pub struct Anime {
    pub id: u64,
    pub title: String,
    pub main_picture: Option<MainPicture>,
}

/// The details of an anime as the API returns them. The mean score, a
/// floating-point number, is kept by the app next to this record.
#[derive(Clone, Debug, PartialEq, Eq)]
pub struct AnimeDetails {
    pub id: u64,
    pub title: String,
    pub main_picture: Option<MainPicture>,
    pub alternative_titles: AlternativeTitles,
    pub start_date: Option<String>,
    pub end_date: Option<String>,
    pub synopsis: Option<String>,
    pub rank: Option<u64>,
    pub popularity: Option<u64>,
    pub num_list_users: u64,
    pub num_scoring_users: u64,
    pub nsfw: String,
    pub created_at: String,
    pub updated_at: String,
    pub media_type: String,
    pub status: String,
    pub genres: Vec<Genre>,
    pub my_list_status: Option<MyListStatus>,
    pub num_episodes: u64,
    pub start_season: Option<StartSeason>,
    pub broadcast: Option<Broadcast>,
    pub source: Option<String>,
    pub average_episode_duration: Option<u64>,
    pub rating: Option<String>,
    pub pictures: Vec<MainPicture>,
    pub background: Option<String>,
    pub related_anime: Vec<RelatedAnime>,
    pub related_manga: Vec<RelatedManga>,
    pub recommendations: Vec<Recommendation>,
    pub studios: Vec<Studio>,
    pub statistics: Statistics,
}

#[derive(Clone, Debug, PartialEq, Eq)]
pub struct MainPicture {
    pub medium: String,
    pub large: String,
}

#[derive(Clone, Debug, PartialEq, Eq)]
pub struct AlternativeTitles {
    pub synonyms: Vec<String>,
    pub en: Option<String>,
    pub ja: Option<String>,
}

#[derive(Clone, Debug, PartialEq, Eq)]
pub struct Genre {
    pub id: u64,
    pub name: String,
}

#[derive(Clone, Debug, PartialEq, Eq)]
pub struct MyListStatus {
    pub status: String,
    pub score: u8,
    pub num_episodes_watched: u64,
    pub is_rewatching: bool,
    pub start_date: Option<String>,
    pub finish_date: Option<String>,
    pub priority: u8,
    pub num_times_rewatched: u64,
    pub rewatch_value: u8,
    pub tags: Vec<String>,
    pub comments: String,
    pub updated_at: String,
}

#[derive(Clone, Debug, PartialEq, Eq)]
pub struct StartSeason {
    pub year: u64,
    pub season: String,
}

#[derive(Clone, Debug, PartialEq, Eq)]
pub struct Broadcast {
    pub day_of_the_week: String,
    pub start_time: Option<String>,
}

#[derive(Clone, Debug, PartialEq, Eq)]
pub struct RelatedAnime {
    pub node: Anime,
    pub relation_type: RelationType,
    pub relation_type_formatted: String,
}

#[derive(Clone, Debug, PartialEq, Eq)]
pub struct RelatedManga {
    pub node: Anime,
    pub relation_type: RelationType,
    pub relation_type_formatted: String,
}

/// How a related work relates to an anime; relations the library does not
/// know are read as `Other`.
#[derive(Clone, Copy, Debug, PartialEq, Eq, Structural)]
pub enum RelationType {
    Sequel,
    Prequel,
    AlternativeSetting,
    AlternativeVersion,
    SideStory,
    ParentStory,
    Summary,
    FullStory,
    Other,
}

#[derive(Clone, Debug, PartialEq, Eq)]
pub struct Recommendation {
    pub node: Anime,
    pub num_recommendations: u64,
}

#[derive(Clone, Debug, PartialEq, Eq)]
pub struct Studio {
    pub id: u64,
    pub name: String,
}

#[derive(Clone, Debug, PartialEq, Eq)]
pub struct Statistics {
    pub status: StatusStatistics,
    pub num_list_users: u64,
}

#[derive(Clone, Debug, PartialEq, Eq)]
pub struct StatusStatistics {
    pub watching: String,
    pub completed: String,
    pub on_hold: String,
    pub dropped: String,
    pub plan_to_watch: String,
}

#[derive(Clone, Debug, PartialEq, Eq)]
pub struct Paging {
    pub previous: Option<String>,
    pub next: Option<String>,
}

/// Errors of the MyAnimeList client.
#[derive(Clone, Debug, PartialEq, Eq)]
pub enum ClientError {
    EmptyApiKey,
    EmptySearchQuery,
    RequestNotCloneable,
    InvalidApiKey(String),
    Http(String),
    Other(String),
}

/// The message shown for a client error.
pub open spec fn client_error_message(e: ClientError) -> Seq<char> {
    match e {
        ClientError::EmptyApiKey => "la API key no puede estar vacía"@,
        ClientError::EmptySearchQuery => "el nombre del anime no puede estar vacío"@,
        ClientError::RequestNotCloneable => "request not cloneable"@,
        ClientError::InvalidApiKey(m) => "API key no válida: "@ + m@,
        ClientError::Http(m) => "la peticion HTTP ha respondido con status: "@ + m@,
        ClientError::Other(m) => "error en el cliente HTTP: "@ + m@,
    }
}

impl ClientError {
    /// The message shown for this error.
    pub fn to_string(&self) -> (r: String)
        ensures
            r@ == client_error_message(*self),
    {
        match self {
            ClientError::EmptyApiKey => owned("la API key no puede estar vacía"),
            ClientError::EmptySearchQuery => owned("el nombre del anime no puede estar vacío"),
            ClientError::RequestNotCloneable => owned("request not cloneable"),
            ClientError::InvalidApiKey(m) => {
                let mut r = owned("API key no válida: ");
                r.append(m.as_str());
                r
            },
            ClientError::Http(m) => {
                let mut r = owned("la peticion HTTP ha respondido con status: ");
                r.append(m.as_str());
                r
            },
            ClientError::Other(m) => {
                let mut r = owned("error en el cliente HTTP: ");
                r.append(m.as_str());
                r
            },
        }
    }
}

/// A byte that a header value may hold: visible ASCII, any byte from 128 up,
/// or a tab.
pub open spec fn header_byte_ok(b: u8) -> bool {
    (b >= 32 && b != 127) || b == 9
}

/// Whether a text can be sent as an HTTP header value: every byte of its
/// UTF-8 encoding may stand in a header value.
pub open spec fn header_text_ok(s: Seq<char>) -> bool {
    forall|i: int|
        0 <= i < vstd::utf8::encode_utf8(s).len() ==> header_byte_ok(
            #[trigger] vstd::utf8::encode_utf8(s)[i],
        )
}

/// Whether a string slice can be sent as an HTTP header value.
pub open spec fn header_value_ok(s: &str) -> bool {
    header_text_ok(s@)
}

/// `reqwest::header::HeaderValue::from_str`, reduced to whether it accepts
/// the text and the message of its error.
///
/// Trusted: the `http` source accepts a text exactly when every byte of it
/// passes `is_valid` (`b >= 32 && b != 127 || b == b'\t'`), and its error
/// displays as "failed to parse header value".
#[verifier::external_body]
fn check_header_value(s: &str) -> (r: Result<(), String>)
    ensures
        r is Ok <==> header_value_ok(s),
        r matches Err(m) ==> m@ == "failed to parse header value"@,
{
    match reqwest::header::HeaderValue::from_str(s) {
        Ok(_) => Ok(()),
        Err(e) => Err(e.to_string()),
    }
}

/// What `http::StatusCode` displays for a status code: the code and its
/// canonical reason phrase.
pub uninterp spec fn status_text(code: u16) -> Seq<char>;

/// The display of `reqwest::StatusCode::from_u16(code)`.
///
/// Trusted: the result is named `status_text` of the code; the table of
/// reason phrases is not written out here.
#[verifier::external_body]
fn status_display(code: u16) -> (r: String)
    requires
        100 <= code <= 999,
    ensures
        r@ == status_text(code),
{
    match reqwest::StatusCode::from_u16(code) {
        Ok(status) => status.to_string(),
        Err(e) => e.to_string(),
    }
}

/// The search query sent for a name: the name itself when it fits the
/// limit, else its first 40 and last 23 characters joined by a space.
pub open spec fn compact_query(name: Seq<char>) -> Seq<char> {
    if name.len() <= MAX_SEARCH_QUERY_LENGTH {
        name
    } else {
        name.take(SEARCH_QUERY_PREFIX_LENGTH as int) + seq![' '] + name.skip(
            name.len() - SEARCH_QUERY_SUFFIX_LENGTH,
        )
    }
}

/// Shortens a search query to the length MyAnimeList accepts, keeping both
/// ends because season identifiers tend to be at the end of otherwise
/// identical long titles.
pub fn compact_search_query(name: &str) -> (query: String)
    ensures
        query@ == compact_query(name@),
{
    let n = name.unicode_len();
    if n <= MAX_SEARCH_QUERY_LENGTH {
        return owned(name);
    }
    let prefix = name.substring_char(0, SEARCH_QUERY_PREFIX_LENGTH);
    let suffix = name.substring_char(n - SEARCH_QUERY_SUFFIX_LENGTH, n);
    let mut query = owned(prefix);
    query.append(" ");
    query.append(suffix);
    proof {
        reveal_strlit(" ");
        assert(name@.take(40) =~= name@.subrange(0, 40));
        assert(name@.skip(n - 23) =~= name@.subrange(n - 23, n as int));
    }
    query
}

/// The text with every leading `/` removed (`trim_start_matches('/')`).
pub open spec fn without_leading_slashes(s: Seq<char>) -> Seq<char>
    decreases s.len(),
{
    if s.len() > 0 && s[0] == '/' {
        without_leading_slashes(s.drop_first())
    } else {
        s
    }
}

proof fn lemma_without_leading_slashes(s: Seq<char>, k: int)
    requires
        0 <= k <= s.len(),
        forall|i: int| 0 <= i < k ==> s[i] == '/',
        k == s.len() || s[k] != '/',
    ensures
        without_leading_slashes(s) == s.skip(k),
    decreases k,
{
    if k > 0 {
        lemma_without_leading_slashes(s.drop_first(), k - 1);
        assert(s.drop_first().skip(k - 1) =~= s.skip(k));
    } else {
        assert(s.skip(0) =~= s);
    }
}

/// A MyAnimeList API client: the validated client id that every request
/// carries. Requests are sent by the app.
#[derive(Clone, Debug)]
pub struct Client {
    api_key: String,
}

impl Client {
    /// The client id this client sends.
    pub closed spec fn spec_api_key(&self) -> Seq<char> {
        self.api_key@
    }

    /// Creates a client for a client id. An empty id, or one that cannot be
    /// sent as a header value, is refused.
    pub fn new(api_key: &str) -> (r: Result<Client, ClientError>)
        ensures
            api_key@.len() == 0 ==> r == Err::<Client, ClientError>(ClientError::EmptyApiKey),
            api_key@.len() != 0 && !header_value_ok(api_key) ==> (r matches Err(
                ClientError::InvalidApiKey(m),
            ) && m@ == "failed to parse header value"@),
            api_key@.len() != 0 && header_value_ok(api_key) ==> (r matches Ok(c)
                && c.spec_api_key() == api_key@),
    {
        if api_key.is_empty() {
            return Err(ClientError::EmptyApiKey);
        }
        match check_header_value(api_key) {
            Ok(()) => Ok(Client { api_key: owned(api_key) }),
            Err(m) => Err(ClientError::InvalidApiKey(m)),
        }
    }

    /// The client id sent in the `X-MAL-CLIENT-ID` header.
    pub fn api_key(&self) -> (r: &str)
        ensures
            r@ == self.spec_api_key(),
    {
        self.api_key.as_str()
    }

    /// The URL of an API path: the base URL, a `/`, and the path without its
    /// leading slashes.
    pub fn request_url(&self, path: &str) -> (url: String)
        ensures
            url@ == API_BASE_URL@ + seq!['/'] + without_leading_slashes(path@),
    {
        let n = path.unicode_len();
        let mut k: usize = 0;
        while k < n && path.get_char(k) == '/'
            invariant
                n == path@.len(),
                k <= n,
                forall|i: int| 0 <= i < k ==> path@[i] == '/',
            decreases n - k,
        {
            k = k + 1;
        }
        proof {
            lemma_without_leading_slashes(path@, k as int);
            assert(path@.skip(k as int) =~= path@.subrange(k as int, n as int));
        }
        let rest = path.substring_char(k, n);
        let mut url = owned(API_BASE_URL);
        url.append("/");
        url.append(rest);
        proof {
            reveal_strlit("/");
        }
        url
    }

    /// The API path of the details of an anime: `anime/{id}`.
    pub fn anime_path(anime_id: u64) -> (path: String)
        ensures
            path@ == "anime/"@ + decimal(anime_id as nat),
    {
        let mut path = owned("anime/");
        push_decimal(&mut path, anime_id);
        path
    }

    /// The `q` parameter of a search for a name: the trimmed name, shortened
    /// to the length MyAnimeList accepts. A name of white space only is
    /// refused.
    pub fn search_anime_request(&self, name: &str) -> (r: Result<String, ClientError>)
        ensures
            trimmed(name@).len() == 0 ==> r == Err::<String, ClientError>(
                ClientError::EmptySearchQuery,
            ),
            trimmed(name@).len() != 0 ==> (r matches Ok(q) && q@ == compact_query(
                trimmed(name@),
            )),
    {
        let name = trim(name);
        if name.is_empty() {
            return Err(ClientError::EmptySearchQuery);
        }
        Ok(compact_search_query(name))
    }

    /// Judges the status of an answer: `403` means a bad client id, `400`
    /// bad parameters, any other `4xx` or `5xx` an HTTP error; the rest is
    /// accepted.
    pub fn check_response_error(&self, status: u16) -> (r: Result<(), ClientError>)
        requires
            100 <= status <= 999,
        ensures
            status_verdict(status, r),
    {
        if status == 403 {
            let mut m = status_display(status);
            m.append(" (expired access tokens or invalid access tokens)");
            Err(ClientError::InvalidApiKey(m))
        } else if status == 400 {
            let mut m = status_display(status);
            m.append(" (invalid parameters)");
            Err(ClientError::Http(m))
        } else if 400 <= status && status < 600 {
            Err(ClientError::Http(status_display(status)))
        } else {
            Ok(())
        }
    }
}

/// Whether a status is a client error (`4xx`).
pub open spec fn is_client_error(status: u16) -> bool {
    400 <= status < 500
}

/// Whether a status is a server error (`5xx`).
pub open spec fn is_server_error(status: u16) -> bool {
    500 <= status < 600
}

/// The verdict on the status of an answer.
pub open spec fn status_verdict(status: u16, r: Result<(), ClientError>) -> bool {
    if status == 403 {
        r matches Err(ClientError::InvalidApiKey(m)) && m@ == status_text(status)
            + " (expired access tokens or invalid access tokens)"@
    } else if status == 400 {
        r matches Err(ClientError::Http(m)) && m@ == status_text(status) + " (invalid parameters)"@
    } else if is_client_error(status) || is_server_error(status) {
        r matches Err(ClientError::Http(m)) && m@ == status_text(status)
    } else {
        r is Ok
    }
}

/// What one attempt to send a request came back with.
#[derive(Clone, Debug, PartialEq, Eq)]
pub enum SendOutcome {
    /// The request could not be sent; the message of the transport error.
    Failed(String),
    /// An answer arrived with this status code.
    Responded(u16),
}

/// What `try_send` does after an attempt.
#[derive(Clone, Debug, PartialEq, Eq)]
pub enum RetryDecision {
    /// Hand the answer to the caller.
    Accept,
    /// Give up with this error.
    Fail(ClientError),
    /// Wait this many seconds, then send the request again.
    RetryAfter(u64),
}

/// The decision after the attempt numbered `attempt` (counting from 1): a
/// transport error or an error status is retried, after waiting three
/// seconds per attempt made, until the attempt after the last retry, whose
/// outcome is final.
pub open spec fn retry_decision(attempt: u64, outcome: SendOutcome, d: RetryDecision) -> bool {
    if attempt > MAX_RETRIES {
        match outcome {
            SendOutcome::Failed(m) => d matches RetryDecision::Fail(ClientError::Http(e)) && e@
                == m@,
            SendOutcome::Responded(_) => d is Accept,
        }
    } else {
        match outcome {
            SendOutcome::Failed(_) => d == RetryDecision::RetryAfter(
                (attempt * RETRY_WAIT_STEP_SECONDS) as u64,
            ),
            SendOutcome::Responded(status) => if is_client_error(status) || is_server_error(
                status,
            ) {
                d == RetryDecision::RetryAfter((attempt * RETRY_WAIT_STEP_SECONDS) as u64)
            } else {
                d is Accept
            },
        }
    }
}

/// Decides what `try_send` does after its attempt numbered `attempt`.
pub fn after_attempt(attempt: u64, outcome: &SendOutcome) -> (d: RetryDecision)
    requires
        attempt >= 1,
    ensures
        retry_decision(attempt, *outcome, d),
{
    if attempt > MAX_RETRIES {
        match outcome {
            SendOutcome::Failed(m) => RetryDecision::Fail(ClientError::Http(m.clone())),
            SendOutcome::Responded(_) => RetryDecision::Accept,
        }
    } else {
        match outcome {
            SendOutcome::Failed(_) => RetryDecision::RetryAfter(attempt * RETRY_WAIT_STEP_SECONDS),
            SendOutcome::Responded(status) => {
                if (400 <= *status && *status < 500) || (500 <= *status && *status < 600) {
                    RetryDecision::RetryAfter(attempt * RETRY_WAIT_STEP_SECONDS)
                } else {
                    RetryDecision::Accept
                }
            },
        }
    }
}

/// A request is sent at most `MAX_RETRIES + 1` times: whatever the outcome,
/// the attempt after the last retry is never retried, and an accepted
/// answer is never retried either.
pub proof fn retries_are_bounded(attempt: u64, outcome: SendOutcome, d: RetryDecision)
    requires
        attempt >= 1,
        retry_decision(attempt, outcome, d),
    ensures
        attempt > MAX_RETRIES ==> !(d is RetryAfter),
        d matches RetryDecision::RetryAfter(w) ==> w == attempt * RETRY_WAIT_STEP_SECONDS,
{
}

/// A search query never exceeds the length MyAnimeList accepts; a name that
/// fits is sent unchanged, and a longer one keeps its first 40 and its last
/// 23 characters, exactly filling the limit.
pub proof fn compact_query_fits_the_limit(name: Seq<char>)
    ensures
        compact_query(name).len() <= MAX_SEARCH_QUERY_LENGTH,
        name.len() <= MAX_SEARCH_QUERY_LENGTH ==> compact_query(name) == name,
        name.len() > MAX_SEARCH_QUERY_LENGTH ==> {
            &&& compact_query(name).len() == MAX_SEARCH_QUERY_LENGTH
            &&& compact_query(name).take(40) == name.take(40)
            &&& compact_query(name)[40] == ' '
            &&& compact_query(name).skip(41) == name.skip(name.len() - 23)
        },
{
    if name.len() > MAX_SEARCH_QUERY_LENGTH {
        let q = compact_query(name);
        assert(q.take(40) =~= name.take(40));
        assert(q.skip(41) =~= name.skip(name.len() - 23));
    }
}

} // verus!
