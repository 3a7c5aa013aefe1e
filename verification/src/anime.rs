//! Where anime details come from: the repository the resolvers ask, and an
//! in-memory repository.

pub mod command;
mod copy;
pub mod download;

use vstd::prelude::*;
use crate::myanimelist::{client_error_message, Anime, AnimeDetails, ClientError};
use crate::text::owned;
use self::copy::{copy_anime_list, copy_details, same_details};

verus! {

/// Errors of an anime repository.
#[derive(Clone, Debug)]
pub enum AnimeRepositoryError {
    CreateInstance(String),
    CacheLock(String),
    Other(String),
}

/// The message shown for a repository error.
pub open spec fn repository_error_message(e: AnimeRepositoryError) -> Seq<char> {
    match e {
        AnimeRepositoryError::CreateInstance(m) => "create instance error: "@ + m@,
        AnimeRepositoryError::CacheLock(m) => "cache lock error: "@ + m@,
        AnimeRepositoryError::Other(m) => m@,
    }
}

impl AnimeRepositoryError {
    /// The message shown for the error.
    pub fn to_string(&self) -> (r: String)
        ensures
            r@ == repository_error_message(*self),
    {
        match self {
            AnimeRepositoryError::CreateInstance(m) => {
                let mut r = owned("create instance error: ");
                r.append(m.as_str());
                r
            },
            AnimeRepositoryError::CacheLock(m) => {
                let mut r = owned("cache lock error: ");
                r.append(m.as_str());
                r
            },
            AnimeRepositoryError::Other(m) => m.clone(),
        }
    }

    /// A client error, kept by its message.
    pub fn from_client_error(err: ClientError) -> (r: AnimeRepositoryError)
        ensures
            r matches AnimeRepositoryError::Other(m) && m@ == client_error_message(err),
    {
        AnimeRepositoryError::Other(err.to_string())
    }
}

/// A source of anime details: looked up by MyAnimeList id, or searched by
/// title. What a repository answers is up to it; each repository says which
/// answers it may give, and the resolvers are stated over those answers.
pub trait AnimeRepository {
    /// Whether `r` is an answer the repository may give when asked for the
    /// details of an anime. A repository that does not say may give any.
    open spec fn gives_details(
        &self,
        anime_id: u64,
        r: Result<Option<AnimeDetails>, AnimeRepositoryError>,
    ) -> bool {
        true
    }

    /// Whether `r` is an answer the repository may give to a search for a
    /// title. A repository that does not say may give any.
    open spec fn gives_results(&self, title: Seq<char>, r: Result<Vec<Anime>, AnimeRepositoryError>) -> bool {
        true
    }

    /// The details of an anime, `None` when the repository does not know it.
    fn find_by_id(&self, anime_id: u64) -> (r: Result<Option<AnimeDetails>, AnimeRepositoryError>)
        ensures
            self.gives_details(anime_id, r),
    ;

    /// The anime a search for a title finds, in the repository's order.
    fn search(&self, title: &str) -> (r: Result<Vec<Anime>, AnimeRepositoryError>)
        ensures
            self.gives_results(title@, r),
    ;
}

/// An in-memory repository: the details it holds, and the answer it gives
/// to every search.
#[derive(Clone, Debug)]
pub struct FakeAnimeRepository {
    search: String,
    anime: Vec<AnimeDetails>,
    search_results: Vec<Anime>,
}

/// The first details with the given id, if any.
pub open spec fn first_with_id(anime: Seq<AnimeDetails>, id: u64) -> Option<AnimeDetails>
    decreases anime.len(),
{
    if anime.len() == 0 {
        None
    } else if anime[0].id == id {
        Some(anime[0])
    } else {
        first_with_id(anime.drop_first(), id)
    }
}

impl FakeAnimeRepository {
    /// The name of the search fixture.
    pub closed spec fn spec_search(&self) -> Seq<char> {
        self.search@
    }

    /// The details the repository holds, in the order they were added.
    pub closed spec fn spec_anime(&self) -> Seq<AnimeDetails> {
        self.anime@
    }

    /// The answer to every search.
    pub closed spec fn spec_search_results(&self) -> Seq<Anime> {
        self.search_results@
    }

    /// An empty repository with the default search.
    pub fn new() -> (r: FakeAnimeRepository)
        ensures
            r.spec_search().len() == 0,
            r.spec_anime().len() == 0,
            r.spec_search_results().len() == 0,
    {
        FakeAnimeRepository { search: String::new(), anime: Vec::new(), search_results: Vec::new() }
    }

    /// An empty repository for a named search.
    pub fn with_search(search: &str) -> (r: FakeAnimeRepository)
        ensures
            r.spec_search() == search@,
            r.spec_anime().len() == 0,
            r.spec_search_results().len() == 0,
    {
        FakeAnimeRepository { search: owned(search), anime: Vec::new(), search_results: Vec::new() }
    }

    /// The repository with one more anime.
    pub fn with_anime(self, details: AnimeDetails) -> (r: FakeAnimeRepository)
        ensures
            r.spec_search() == self.spec_search(),
            r.spec_anime() == self.spec_anime().push(details),
            r.spec_search_results() == self.spec_search_results(),
    {
        let mut r = self;
        r.anime.push(details);
        r
    }

    /// The repository with one more search result.
    pub fn with_search_result(self, anime: Anime) -> (r: FakeAnimeRepository)
        ensures
            r.spec_search() == self.spec_search(),
            r.spec_anime() == self.spec_anime(),
            r.spec_search_results() == self.spec_search_results().push(anime),
    {
        let mut r = self;
        r.search_results.push(anime);
        r
    }
}

/// Whether a lookup answer hands out the held details: a copy of them,
/// equal field by field and list by list, or none when none are held.
pub open spec fn hands_out(found: Option<AnimeDetails>, held: Option<AnimeDetails>) -> bool {
    match (found, held) {
        (Some(d), Some(h)) => same_details(d, h),
        (None, None) => true,
        _ => false,
    }
}

impl AnimeRepository for FakeAnimeRepository {
    /// The repository answers every lookup with a copy of the first held
    /// details with the id, or with none.
    open spec fn gives_details(
        &self,
        anime_id: u64,
        r: Result<Option<AnimeDetails>, AnimeRepositoryError>,
    ) -> bool {
        r matches Ok(found) && hands_out(found, first_with_id(self.spec_anime(), anime_id))
    }

    /// The repository answers every search with the held results, in order.
    open spec fn gives_results(&self, title: Seq<char>, r: Result<Vec<Anime>, AnimeRepositoryError>) -> bool {
        r matches Ok(v) && v@ == self.spec_search_results()
    }

    /// A copy of the first held details with the id, if any.
    fn find_by_id(&self, anime_id: u64) -> (r: Result<Option<AnimeDetails>, AnimeRepositoryError>)
        ensures
            r matches Ok(found) && hands_out(found, first_with_id(self.spec_anime(), anime_id)),
    {
        assert(self.anime@.skip(0) =~= self.anime@);
        let mut i: usize = 0;
        while i < self.anime.len()
            invariant
                i <= self.anime@.len(),
                first_with_id(self.anime@, anime_id) == first_with_id(
                    self.anime@.skip(i as int),
                    anime_id,
                ),
            decreases self.anime@.len() - i,
        {
            proof {
                assert(self.anime@.skip(i as int).drop_first() =~= self.anime@.skip(i + 1));
            }
            if self.anime[i].id == anime_id {
                return Ok(Some(copy_details(&self.anime[i])));
            }
            i = i + 1;
        }
        Ok(None)
    }

    /// A copy of the held search results, whatever the title.
    fn search(&self, title: &str) -> (r: Result<Vec<Anime>, AnimeRepositoryError>)
        ensures
            r matches Ok(v) && v@ == self.spec_search_results(),
    {
        Ok(copy_anime_list(&self.search_results))
    }
}

} // verus!
