//! Anime records as the Jellyfin organiser sees them, and how it matches
//! titles.

use vstd::prelude::*;
use crate::anime::AnimeRepository;
use crate::fs::{file_name, path_file_name};
use crate::jellyfin::config::SeriesCategory;
use crate::media::anime::{anime_titled, known_titles, related_anime_ids, related_ids};
use crate::media::anime::{
    chain_outcome, prequels_of, season_number, title_outcome, tv_count, unmatched_title_message,
};
use crate::myanimelist::{AnimeDetails, RelationType};
use crate::text::{alphanumeric, equals, is_alphanumeric, lowercase_char, lowercase_of, owned, texts};

verus! {

/// An anime with the titles it is known by and its direct prequels and
/// sequels.
#[derive(Clone, Debug, PartialEq, Eq)]
pub struct AnimeRecord {
    pub id: u64,
    pub title: String,
    pub alternative_titles: Vec<String>,
    pub media_type: String,
    pub start_date: Option<String>,
    pub prequel_ids: Vec<u64>,
    pub sequel_ids: Vec<u64>,
}

/// A season of a series.
#[derive(Clone, Debug, PartialEq, Eq)]
pub struct AnimeSeason {
    pub anime_id: u64,
    pub title: String,
    pub season: u32,
    pub start_date: Option<String>,
}

/// Errors of resolving an anime for the organiser; their messages are those
/// of the media resolver's errors.
pub use crate::media::anime::AnimeResolverError;

/// The alternative titles of a record: the synonyms, then the English and
/// the Japanese title when present.
pub open spec fn alternative_title_texts(d: AnimeDetails) -> Seq<Seq<char>> {
    texts(d.alternative_titles.synonyms@) + crate::media::anime::optional_title(
        d.alternative_titles.en,
    ) + crate::media::anime::optional_title(d.alternative_titles.ja)
}

impl AnimeRecord {
    /// The record of an anime's details.
    pub fn from(anime: AnimeDetails) -> (r: AnimeRecord)
        ensures
            r.id == anime.id,
            r.title == anime.title,
            texts(r.alternative_titles@) == alternative_title_texts(anime),
            r.media_type@ == anime.media_type@,
            r.start_date == anime.start_date,
            r.prequel_ids@ == related_ids(anime.related_anime@, RelationType::Prequel),
            r.sequel_ids@ == related_ids(anime.related_anime@, RelationType::Sequel),
    {
        let prequel_ids = related_anime_ids(&anime.related_anime, RelationType::Prequel);
        let sequel_ids = related_anime_ids(&anime.related_anime, RelationType::Sequel);
        let ghost synonyms = anime.alternative_titles.synonyms@;
        let mut alternative_titles = anime.alternative_titles.synonyms;
        match anime.alternative_titles.en {
            Some(en) => alternative_titles.push(en),
            None => {},
        }
        let ghost with_en = alternative_titles@;
        match anime.alternative_titles.ja {
            Some(ja) => alternative_titles.push(ja),
            None => {},
        }
        proof {
            assert(texts(with_en) =~= texts(synonyms) + crate::media::anime::optional_title(
                anime.alternative_titles.en,
            ));
            assert(texts(alternative_titles@) =~= texts(with_en)
                + crate::media::anime::optional_title(anime.alternative_titles.ja));
        }
        AnimeRecord {
            id: anime.id,
            title: anime.title,
            alternative_titles,
            media_type: anime.media_type,
            start_date: anime.start_date,
            prequel_ids,
            sequel_ids,
        }
    }
}

/// What the organiser's title matching compares: the alphanumeric
/// characters of the title, each lower-cased.
pub open spec fn alphanumeric_lowercase(s: Seq<char>) -> Seq<char>
    decreases s.len(),
{
    if s.len() == 0 {
        Seq::empty()
    } else {
        let rest = alphanumeric_lowercase(s.drop_last());
        if alphanumeric(s.last()) {
            rest + lowercase_of(s.last())
        } else {
            rest
        }
    }
}

/// Normalizes a title for matching: keeps the alphanumeric characters,
/// lower-cased.
pub fn normalize_title(title: &str) -> (r: String)
    ensures
        r@ == alphanumeric_lowercase(title@),
{
    let mut r = String::new();
    let n = title.unicode_len();
    let mut i: usize = 0;
    while i < n
        invariant
            n == title@.len(),
            i <= n,
            r@ == alphanumeric_lowercase(title@.take(i as int)),
        decreases n - i,
    {
        let c = title.get_char(i);
        proof {
            assert(title@.take(i + 1).drop_last() =~= title@.take(i as int));
        }
        if is_alphanumeric(c) {
            r.append(lowercase_char(c).as_str());
        }
        i = i + 1;
    }
    assert(title@.take(n as int) =~= title@);
    r
}

/// Whether two titles name the same anime for the organiser.
pub open spec fn titles_match(left: Seq<char>, right: Seq<char>) -> bool {
    alphanumeric_lowercase(left) == alphanumeric_lowercase(right)
}

/// Whether two titles name the same anime: case, white space and
/// punctuation are ignored.
pub fn same_title(left: &str, right: &str) -> (r: bool)
    ensures
        r == titles_match(left@, right@),
{
    let left = normalize_title(left);
    let right = normalize_title(right);
    equals(left.as_str(), right.as_str())
}

/// Title matching is an equivalence, and a title matches any title that
/// differs from it only in characters that are not alphanumeric.
pub proof fn organiser_title_matching_is_an_equivalence(a: Seq<char>, b: Seq<char>, c: Seq<char>)
    ensures
        titles_match(a, a),
        titles_match(a, b) ==> titles_match(b, a),
        titles_match(a, b) && titles_match(b, c) ==> titles_match(a, c),
{
}

/// Appending characters that are not alphanumeric to a title does not
/// change which titles it matches.
pub proof fn punctuation_does_not_matter(a: Seq<char>, extra: Seq<char>)
    requires
        forall|i: int| 0 <= i < extra.len() ==> !alphanumeric(#[trigger] extra[i]),
    ensures
        titles_match(a + extra, a),
    decreases extra.len(),
{
    if extra.len() > 0 {
        let shorter = extra.drop_last();
        assert forall|i: int| 0 <= i < shorter.len() implies !alphanumeric(#[trigger] shorter[i]) by {
            assert(shorter[i] == extra[i]);
        }
        punctuation_does_not_matter(a, shorter);
        assert((a + extra).drop_last() =~= a + shorter);
        assert((a + extra).last() == extra.last());
    } else {
        assert(a + extra =~= a);
    }
}

/// Whether one of the titles an anime is known by matches a title for the
/// organiser.
pub open spec fn is_known_to_organiser(d: AnimeDetails, title: Seq<char>) -> bool {
    exists|i: int| 0 <= i < known_titles(d).len() && titles_match(#[trigger] known_titles(d)[i], title)
}

/// The organiser knows an anime by a title exactly when its title, its
/// English title, its Japanese title or one of its synonyms matches it.
pub proof fn organiser_knows_each_of_its_titles(d: AnimeDetails, t: Seq<char>)
    ensures
        is_known_to_organiser(d, t) <==> (titles_match(d.title@, t) || (
        d.alternative_titles.en matches Some(en) && titles_match(en@, t)) || (
        d.alternative_titles.ja matches Some(ja) && titles_match(ja@, t)) || exists|i: int|
            0 <= i < d.alternative_titles.synonyms@.len() && titles_match(
                #[trigger] d.alternative_titles.synonyms@[i]@,
                t,
            )),
{
    let ks = known_titles(d);
    let e = crate::media::anime::optional_title(d.alternative_titles.en);
    let j = crate::media::anime::optional_title(d.alternative_titles.ja);
    let syn = d.alternative_titles.synonyms@;
    let k: int = (1 + e.len() + j.len()) as int;
    assert(ks.len() == k + syn.len());
    assert(ks[0] == d.title@);
    if let Some(en) = d.alternative_titles.en {
        assert(ks[1] == en@);
    }
    if let Some(ja) = d.alternative_titles.ja {
        assert(ks[1 + e.len() as int] == ja@);
    }
    assert forall|i: int| 0 <= i < syn.len() implies ks[k + i] == (#[trigger] syn[i])@ by {}
    if is_known_to_organiser(d, t) {
        let i = choose|i: int| 0 <= i < ks.len() && titles_match(#[trigger] ks[i], t);
        if i >= k {
            assert(ks[k + (i - k)] == syn[i - k]@);
            assert(titles_match(syn[i - k]@, t));
        }
    }
    if exists|i: int| 0 <= i < syn.len() && titles_match(#[trigger] syn[i]@, t) {
        let i = choose|i: int| 0 <= i < syn.len() && titles_match(#[trigger] syn[i]@, t);
        assert(titles_match(ks[k + i], t));
    }
    if titles_match(d.title@, t) {
        assert(titles_match(ks[0], t));
    }
}

/// The titles an anime is known by, in order: its title, its English and
/// Japanese titles when it has them, then its synonyms.
fn known_title_list(details: &AnimeDetails) -> (r: Vec<String>)
    ensures
        texts(r@) == known_titles(*details),
{
    let mut r: Vec<String> = Vec::new();
    r.push(details.title.clone());
    match &details.alternative_titles.en {
        Some(en) => r.push(en.clone()),
        None => {},
    }
    match &details.alternative_titles.ja {
        Some(ja) => r.push(ja.clone()),
        None => {},
    }
    let ghost head = texts(r@);
    assert(head =~= seq![details.title@] + crate::media::anime::optional_title(
        details.alternative_titles.en,
    ) + crate::media::anime::optional_title(details.alternative_titles.ja));
    let synonyms = &details.alternative_titles.synonyms;
    let mut i: usize = 0;
    while i < synonyms.len()
        invariant
            i <= synonyms@.len(),
            *synonyms == details.alternative_titles.synonyms,
            texts(r@) == head + texts(synonyms@.take(i as int)),
        decreases synonyms@.len() - i,
    {
        let ghost before = r@;
        r.push(synonyms[i].clone());
        assert(texts(r@) =~= texts(before).push(synonyms@[i as int]@));
        assert(texts(synonyms@.take(i + 1)) =~= texts(synonyms@.take(i as int)).push(
            synonyms@[i as int]@,
        ));
        i = i + 1;
    }
    assert(synonyms@.take(i as int) =~= synonyms@);
    r
}

/// Whether one of the titles an anime is known by matches a title for the
/// organiser.
pub fn known_to_organiser(details: &AnimeDetails, title: &str) -> (r: bool)
    ensures
        r == is_known_to_organiser(*details, title@),
{
    let titles = known_title_list(details);
    let mut i: usize = 0;
    while i < titles.len()
        invariant
            i <= titles@.len(),
            texts(titles@) == known_titles(*details),
            forall|j: int| 0 <= j < i ==> !titles_match(#[trigger] known_titles(*details)[j], title@),
        decreases titles@.len() - i,
    {
        assert(known_titles(*details)[i as int] == titles@[i as int]@);
        if same_title(titles[i].as_str(), title) {
            return true;
        }
        i = i + 1;
    }
    false
}

/// The title and season number the organiser gives a series.
#[derive(Clone, Debug, PartialEq, Eq)]
pub struct ResolvedSeriesMetadata {
    pub title: String,
    pub season: i64,
}

/// What resolving a title gives the organiser for answers the repository
/// may give: the failure of finding the anime, `AnimeNotFound` when no
/// search result is known by the title, the failure met walking the found
/// anime's chain of prequels, or the anime's own title with one more than
/// the number of TV series along a chain of prequels the repository may
/// give for it.
pub open spec fn organiser_resolution<R: AnimeRepository>(
    repo: R,
    title: Seq<char>,
    r: Result<ResolvedSeriesMetadata, AnimeResolverError>,
) -> bool {
    ||| r matches Err(e) && title_outcome(
        repo,
        title,
        true,
        Err::<Option<AnimeDetails>, AnimeResolverError>(e),
    )
    ||| title_outcome(repo, title, true, Ok::<Option<AnimeDetails>, AnimeResolverError>(None))
        && (r matches Err(AnimeResolverError::AnimeNotFound(m)) && m@ == unmatched_title_message(
        title,
    ))
    ||| exists|anime: AnimeDetails, e: AnimeResolverError|
        title_outcome(
            repo,
            title,
            true,
            Ok::<Option<AnimeDetails>, AnimeResolverError>(Some(anime)),
        ) && #[trigger] chain_outcome(repo, anime.id, Err::<Seq<AnimeDetails>, AnimeResolverError>(e))
            && r == Err::<ResolvedSeriesMetadata, AnimeResolverError>(e)
    ||| exists|anime: AnimeDetails, chain: Seq<AnimeDetails>|
        title_outcome(
            repo,
            title,
            true,
            Ok::<Option<AnimeDetails>, AnimeResolverError>(Some(anime)),
        ) && #[trigger] chain_outcome(
            repo,
            anime.id,
            Ok::<Seq<AnimeDetails>, AnimeResolverError>(chain),
        ) && r == Ok::<ResolvedSeriesMetadata, AnimeResolverError>(
            ResolvedSeriesMetadata { title: anime.title, season: (1 + tv_count(chain)) as i64 },
        )
}

/// Resolves the title and season of an anime series for the organiser
/// through a repository.
#[derive(Clone, Debug)]
pub struct AnimeResolver<R: AnimeRepository + Clone> {
    repository: R,
}

impl<R: AnimeRepository + Clone> AnimeResolver<R> {
    /// The repository the resolver asks.
    pub closed spec fn spec_repository(&self) -> R {
        self.repository
    }

    /// A resolver that asks the repository.
    pub fn new(repository: R) -> (r: AnimeResolver<R>)
        ensures
            r.spec_repository() == repository,
    {
        AnimeResolver { repository }
    }

    /// The first search result, in the repository's order, whose details
    /// the repository has and which the organiser knows by the title.
    pub fn resolve_title(&self, title: &str) -> (r: Result<Option<AnimeDetails>, AnimeResolverError>)
        ensures
            title_outcome(self.spec_repository(), title@, true, r),
            r matches Ok(Some(d)) ==> is_known_to_organiser(d, title@),
            r is Err ==> r->Err_0 is Other,
    {
        anime_titled(&self.repository, title, true)
    }

    /// The title and season of the anime a title names: the matched anime's
    /// own title, and its season counted from its chain of prequels. A
    /// title that matches no search result is refused as not found.
    pub fn resolve_by_title(&self, title: &str) -> (r: Result<ResolvedSeriesMetadata, AnimeResolverError>)
        ensures
            organiser_resolution(self.spec_repository(), title@, r),
            r matches Err(AnimeResolverError::AnimeNotFound(m)) ==> m@ == unmatched_title_message(
                title@,
            ),
            r is Err ==> r->Err_0 is Other || r->Err_0 is AnimeNotFound,
    {
        let anime = match self.resolve_title(title) {
            Err(e) => return Err(e),
            Ok(None) => {
                let mut m = owned(title);
                m.append(" no resuelto, puede ser que no haya coincidido en la busqueda");
                return Err(AnimeResolverError::AnimeNotFound(m));
            },
            Ok(Some(anime)) => anime,
        };
        let ghost found = anime;
        let chain = match prequels_of(&self.repository, anime.id) {
            Err(e) => {
                assert(chain_outcome(
                    self.repository,
                    found.id,
                    Err::<Seq<AnimeDetails>, AnimeResolverError>(e),
                ));
                return Err(e);
            },
            Ok(chain) => chain,
        };
        let season = season_number(&chain);
        assert(chain_outcome(
            self.repository,
            found.id,
            Ok::<Seq<AnimeDetails>, AnimeResolverError>(chain@),
        ));
        Ok(ResolvedSeriesMetadata { title: anime.title, season })
    }

    /// The title and season of the series a directory holds: only anime
    /// targets are resolved, by the directory's name.
    pub fn resolve(&self, source_directory: &str, category: SeriesCategory) -> (r: Result<
        ResolvedSeriesMetadata,
        AnimeResolverError,
    >)
        ensures
            category != SeriesCategory::Anime ==> r == Err::<ResolvedSeriesMetadata, AnimeResolverError>(
                AnimeResolverError::NotAnimeCategory,
            ),
            category == SeriesCategory::Anime ==> match path_file_name(source_directory@) {
                None => r == Err::<ResolvedSeriesMetadata, AnimeResolverError>(
                    AnimeResolverError::EmptyTitle,
                ),
                Some(title) => organiser_resolution(self.spec_repository(), title, r),
            },
    {
        if category != SeriesCategory::Anime {
            return Err(AnimeResolverError::NotAnimeCategory);
        }
        let title = match file_name(source_directory) {
            None => return Err(AnimeResolverError::EmptyTitle),
            Some(title) => title,
        };
        self.resolve_by_title(title.as_str())
    }
}

} // verus!
