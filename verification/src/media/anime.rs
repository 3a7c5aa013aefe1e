//! Series metadata resolved from MyAnimeList: which anime a title is, which
//! season it is, and how its details become a series record.

use vstd::prelude::*;
use crate::anime::{repository_error_message, AnimeRepository, AnimeRepositoryError};
use crate::fs::{file_name, is_illegal_char, path_file_name, strip_illegal_chars, stripped};
use crate::media::metadata::MetadataProviderIds;
use crate::media::series::{
    SeriesMetadata, SeriesMetadataResolver, SeriesMetadataResolverError,
};
use crate::myanimelist::{Anime, AnimeDetails, Genre, RelatedAnime, RelationType, Studio};
use crate::text::{
    debug_quoted, debug_text, decimal, decimal_string, equals, lowercased, owned, parse_u64,
    texts, to_lowercase, u64_from_text,
};

verus! {

/// The longest prequel chain the season resolver walks; every season number
/// it counts along such a chain fits an `i64`.
pub const MAX_PREQUEL_STEPS: u64 = 9223372036854775806;

/// The media type MyAnimeList gives to TV series.
pub const TV_MEDIA_TYPE: &'static str = "tv";

/// Errors of resolving an anime.
#[derive(Clone, Debug, PartialEq, Eq)]
pub enum AnimeResolverError {
    EmptyTitle,
    AnimeNotFound(String),
    SeasonNotFound,
    NotAnimeCategory,
    Other(String),
}

/// The message shown for an anime resolver error.
pub open spec fn anime_resolver_error_message(e: AnimeResolverError) -> Seq<char> {
    match e {
        AnimeResolverError::EmptyTitle => "el título del anime no puede estar vacío"@,
        AnimeResolverError::AnimeNotFound(t) => "MyAnimeList no encontró resultados para "@
            + debug_quoted(t@),
        AnimeResolverError::NotAnimeCategory => "el resolver de anime solo admite la categoría anime"@,
        AnimeResolverError::Other(m) => m@,
        AnimeResolverError::SeasonNotFound => "season not found"@,
    }
}

impl AnimeResolverError {
    /// The message shown for the error.
    pub fn to_string(&self) -> (r: String)
        ensures
            r@ == anime_resolver_error_message(*self),
    {
        match self {
            AnimeResolverError::EmptyTitle => owned("el título del anime no puede estar vacío"),
            AnimeResolverError::AnimeNotFound(t) => {
                let mut r = owned("MyAnimeList no encontró resultados para ");
                r.append(debug_text(t.as_str()).as_str());
                r
            },
            AnimeResolverError::NotAnimeCategory => owned(
                "el resolver de anime solo admite la categoría anime",
            ),
            AnimeResolverError::Other(m) => m.clone(),
            AnimeResolverError::SeasonNotFound => owned("season not found"),
        }
    }

    /// A repository error, kept by its message.
    pub fn from_repository_error(error: AnimeRepositoryError) -> (r: AnimeResolverError)
        ensures
            r matches AnimeResolverError::Other(m) && m@ == repository_error_message(error),
    {
        AnimeResolverError::Other(error.to_string())
    }
}

impl SeriesMetadataResolverError {
    /// An anime resolver error as a series resolver error: an empty title
    /// stays so, an anime not found becomes `NotFound`, the rest are kept by
    /// their message.
    pub fn from_anime_error(value: AnimeResolverError) -> (r: SeriesMetadataResolverError)
        ensures
            value is EmptyTitle ==> r is EmptyTitle,
            value is AnimeNotFound ==> r is NotFound,
            !(value is EmptyTitle) && !(value is AnimeNotFound) ==> (r matches SeriesMetadataResolverError::Other(
                m,
            ) && m@ == anime_resolver_error_message(value)),
            series_error_of(value, r),
    {
        match value {
            AnimeResolverError::EmptyTitle => SeriesMetadataResolverError::EmptyTitle,
            AnimeResolverError::AnimeNotFound(_) => SeriesMetadataResolverError::NotFound,
            _ => SeriesMetadataResolverError::Other(value.to_string()),
        }
    }
}

/// The ids of the related anime of one kind, in order.
pub open spec fn related_ids(related: Seq<RelatedAnime>, kind: RelationType) -> Seq<u64>
    decreases related.len(),
{
    if related.len() == 0 {
        Seq::empty()
    } else {
        let rest = related_ids(related.drop_last(), kind);
        if related.last().relation_type == kind {
            rest.push(related.last().node.id)
        } else {
            rest
        }
    }
}

/// The ids of the related anime of one kind, in order.
pub fn related_anime_ids(related: &Vec<RelatedAnime>, kind: RelationType) -> (r: Vec<u64>)
    ensures
        r@ == related_ids(related@, kind),
{
    let mut r: Vec<u64> = Vec::new();
    let mut i: usize = 0;
    while i < related.len()
        invariant
            i <= related@.len(),
            r@ == related_ids(related@.take(i as int), kind),
        decreases related@.len() - i,
    {
        proof {
            assert(related@.take(i + 1).drop_last() =~= related@.take(i as int));
        }
        if related[i].relation_type == kind {
            r.push(related[i].node.id);
        }
        i = i + 1;
    }
    assert(related@.take(i as int) =~= related@);
    r
}

/// What the title matching compares: the title without the characters that
/// are illegal in file names, lower-cased.
pub open spec fn normalized_title(title: Seq<char>) -> Seq<char> {
    lowercased(stripped(title))
}

/// Normalizes a title for matching.
pub fn normalize_title(title: &str) -> (r: String)
    ensures
        r@ == normalized_title(title@),
{
    to_lowercase(strip_illegal_chars(title).as_str())
}

/// Whether two titles name the same anime.
pub open spec fn titles_match(left: Seq<char>, right: Seq<char>) -> bool {
    normalized_title(left) == normalized_title(right)
}

/// Whether two titles name the same anime.
pub fn same_title(left: &str, right: &str) -> (r: bool)
    ensures
        r == titles_match(left@, right@),
{
    let left = normalize_title(left);
    let right = normalize_title(right);
    equals(left.as_str(), right.as_str())
}

/// Title matching is an equivalence: every title matches itself, matching
/// is symmetric, and two titles matching a third match each other.
pub proof fn title_matching_is_an_equivalence(a: Seq<char>, b: Seq<char>, c: Seq<char>)
    ensures
        titles_match(a, a),
        titles_match(a, b) ==> titles_match(b, a),
        titles_match(a, b) && titles_match(b, c) ==> titles_match(a, c),
{
}

/// Characters that cannot stand in a file name make no difference to
/// matching: a title with such characters added matches the title without
/// them.
pub proof fn illegal_characters_do_not_matter(a: Seq<char>, extra: Seq<char>)
    requires
        forall|i: int| 0 <= i < extra.len() ==> is_illegal_char(#[trigger] extra[i]),
    ensures
        titles_match(a + extra, a),
{
    Seq::filter_distributes_over_add(a, extra, |c: char| !is_illegal_char(c));
    assert(stripped(extra) =~= Seq::<char>::empty()) by {
        lemma_all_illegal_strip_to_nothing(extra);
    }
    assert(stripped(a) + stripped(extra) =~= stripped(a));
}

proof fn lemma_all_illegal_strip_to_nothing(s: Seq<char>)
    requires
        forall|i: int| 0 <= i < s.len() ==> is_illegal_char(#[trigger] s[i]),
    ensures
        stripped(s).len() == 0,
    decreases s.len(),
{
    reveal(Seq::filter);
    if s.len() > 0 {
        assert forall|i: int| 0 <= i < s.drop_last().len() implies is_illegal_char(
            #[trigger] s.drop_last()[i],
        ) by {
            assert(s.drop_last()[i] == s[i]);
        }
        lemma_all_illegal_strip_to_nothing(s.drop_last());
    }
}

/// The titles an anime is known by: its title, its English and Japanese
/// titles when it has them, then its synonyms.
pub open spec fn known_titles(d: AnimeDetails) -> Seq<Seq<char>> {
    seq![d.title@] + optional_title(d.alternative_titles.en) + optional_title(
        d.alternative_titles.ja,
    ) + texts(d.alternative_titles.synonyms@)
}

/// An optional title as a list of at most one title.
pub open spec fn optional_title(o: Option<String>) -> Seq<Seq<char>> {
    match o {
        Some(t) => seq![t@],
        None => Seq::empty(),
    }
}

/// Whether one of the titles an anime is known by matches a title.
pub open spec fn is_known_as(d: AnimeDetails, title: Seq<char>) -> bool {
    exists|i: int| 0 <= i < known_titles(d).len() && titles_match(#[trigger] known_titles(d)[i], title)
}

/// An anime is known by a title exactly when its title, its English title,
/// its Japanese title or one of its synonyms matches it.
pub proof fn known_by_each_of_its_titles(d: AnimeDetails, t: Seq<char>)
    ensures
        is_known_as(d, t) <==> (titles_match(d.title@, t) || (d.alternative_titles.en matches Some(
            en,
        ) && titles_match(en@, t)) || (d.alternative_titles.ja matches Some(ja) && titles_match(
            ja@,
            t,
        )) || exists|i: int|
            0 <= i < d.alternative_titles.synonyms@.len() && titles_match(
                #[trigger] d.alternative_titles.synonyms@[i]@,
                t,
            )),
{
    let ks = known_titles(d);
    let e = optional_title(d.alternative_titles.en);
    let j = optional_title(d.alternative_titles.ja);
    let syn = d.alternative_titles.synonyms@;
    let k: int = (1 + e.len() + j.len()) as int;
    assert(ks.len() == k + syn.len());
    assert(ks[0] == d.title@);
    if let Some(en) = d.alternative_titles.en {
        assert(ks[1] == en@);
    }
    if let Some(ja) = d.alternative_titles.ja {
        assert(ks[1 + e.len() as int] == ja@);
    }
    assert forall|i: int| 0 <= i < syn.len() implies ks[k + i] == (#[trigger] syn[i])@ by {}
    if is_known_as(d, t) {
        let i = choose|i: int| 0 <= i < ks.len() && titles_match(#[trigger] ks[i], t);
        if i >= k {
            assert(ks[k + (i - k)] == syn[i - k]@);
            assert(titles_match(syn[i - k]@, t));
        }
    }
    if exists|i: int| 0 <= i < syn.len() && titles_match(#[trigger] syn[i]@, t) {
        let i = choose|i: int| 0 <= i < syn.len() && titles_match(#[trigger] syn[i]@, t);
        assert(titles_match(ks[k + i], t));
    }
    if titles_match(d.title@, t) {
        assert(titles_match(ks[0], t));
    }
}

/// Whether one of the titles an anime is known by matches a title.
pub fn known_as(details: &AnimeDetails, title: &str) -> (r: bool)
    ensures
        r == is_known_as(*details, title@),
{
    let ghost titles = known_titles(*details);
    let ghost en_part = optional_title(details.alternative_titles.en);
    let ghost ja_part = optional_title(details.alternative_titles.ja);
    let ghost synonyms = texts(details.alternative_titles.synonyms@);
    assert(titles == seq![details.title@] + en_part + ja_part + synonyms);
    if same_title(details.title.as_str(), title) {
        assert(titles[0] == details.title@);
        return true;
    }
    let mut k: usize = 1;
    match &details.alternative_titles.en {
        Some(en) => {
            if same_title(en.as_str(), title) {
                assert(titles[1] == en@);
                return true;
            }
            k = 2;
        },
        None => {},
    }
    assert(k == 1 + en_part.len());
    match &details.alternative_titles.ja {
        Some(ja) => {
            if same_title(ja.as_str(), title) {
                assert(titles[k as int] == ja@);
                return true;
            }
            k = k + 1;
        },
        None => {},
    }
    assert(k == 1 + en_part.len() + ja_part.len());
    assert forall|j: int| 0 <= j < k implies !titles_match(#[trigger] titles[j], title@) by {
        if j == 0 {
            assert(titles[0] == details.title@);
        } else if j == 1 && en_part.len() == 1 {
            assert(titles[1] == en_part[0]);
        } else {
            assert(titles[j] == ja_part[0]);
        }
    }
    let synonyms_vec = &details.alternative_titles.synonyms;
    let mut i: usize = 0;
    while i < synonyms_vec.len()
        invariant
            i <= synonyms_vec@.len(),
            k == 1 + en_part.len() + ja_part.len(),
            *synonyms_vec == details.alternative_titles.synonyms,
            titles == seq![details.title@] + en_part + ja_part + synonyms,
            titles == known_titles(*details),
            synonyms == texts(details.alternative_titles.synonyms@),
            forall|j: int| 0 <= j < k + i ==> !titles_match(#[trigger] titles[j], title@),
        decreases synonyms_vec@.len() - i,
    {
        if same_title(synonyms_vec[i].as_str(), title) {
            assert(titles[k + i] == synonyms[i as int]);
            assert(titles_match(titles[k + i], title@));
            return true;
        }
        assert(titles[k + i] == synonyms[i as int]);
        i = i + 1;
    }
    assert(titles.len() == k + i);
    false
}

/// The text of an optional string, empty when absent.
pub open spec fn text_or_empty(o: Option<String>) -> Seq<char> {
    match o {
        Some(s) => s@,
        None => Seq::empty(),
    }
}

/// The year an anime started, `0` when unknown or too large for a `u16`.
pub open spec fn start_year(d: AnimeDetails) -> u16 {
    match d.start_season {
        Some(s) => if s.year <= 65535 {
            s.year as u16
        } else {
            0
        },
        None => 0,
    }
}

/// The minutes of an episode, `0` when unknown or too large for a `u16`.
pub open spec fn episode_minutes(d: AnimeDetails) -> u16 {
    match d.average_episode_duration {
        Some(seconds) => if seconds / 60 <= 65535 {
            (seconds / 60) as u16
        } else {
            0
        },
        None => 0,
    }
}

/// The names of the genres, in order.
pub open spec fn genre_names(genres: Seq<Genre>) -> Seq<Seq<char>> {
    genres.map_values(|g: Genre| g.name@)
}

/// The name of the first studio, empty when there is none.
pub open spec fn first_studio(studios: Seq<Studio>) -> Seq<char> {
    if studios.len() > 0 {
        studios[0].name@
    } else {
        Seq::empty()
    }
}

/// Whether a series record carries the details of an anime as its first
/// season: every field taken from the details, and the lists the details
/// do not have left empty.
pub open spec fn describes(m: SeriesMetadata, d: AnimeDetails) -> bool {
    &&& m.title@ == d.title@
    &&& m.original_title@ == text_or_empty(d.alternative_titles.ja)
    &&& m.plot@ == text_or_empty(d.synopsis)
    &&& m.year == start_year(d)
    &&& m.premiered@ == text_or_empty(d.start_date)
    &&& m.runtime == episode_minutes(d)
    &&& m.status@ == d.status@
    &&& texts(m.genre@) == genre_names(d.genres@)
    &&& m.tag@.len() == 0
    &&& m.studio@ == first_studio(d.studios@)
    &&& m.id.mal matches Some(mal) && mal@ == decimal(d.id as nat)
    &&& m.id.imdb is None
    &&& m.id.tmdb is None
    &&& m.actor@.len() == 0
    &&& m.season == 1
    &&& m.season_title matches Some(t) && t@ == d.title@
    &&& match d.alternative_titles.ja {
        Some(ja) => m.season_original_title matches Some(o) && o@ == ja@,
        None => m.season_original_title is None,
    }
    &&& m.cover is None
}

fn text_or_empty_of(o: &Option<String>) -> (r: String)
    ensures
        r@ == text_or_empty(*o),
{
    match o {
        Some(s) => s.clone(),
        None => String::new(),
    }
}

impl SeriesMetadata {
    /// The series record of an anime as its first season.
    pub fn from(details: AnimeDetails) -> (m: SeriesMetadata)
        ensures
            describes(m, details),
    {
        let year: u16 = match &details.start_season {
            Some(season) => if season.year <= 65535 {
                season.year as u16
            } else {
                0
            },
            None => 0,
        };
        let runtime: u16 = match details.average_episode_duration {
            Some(seconds) => if seconds / 60 <= 65535 {
                (seconds / 60) as u16
            } else {
                0
            },
            None => 0,
        };
        let mut genre: Vec<String> = Vec::new();
        let mut i: usize = 0;
        while i < details.genres.len()
            invariant
                i <= details.genres@.len(),
                texts(genre@) == genre_names(details.genres@.take(i as int)),
            decreases details.genres@.len() - i,
        {
            let ghost before = genre@;
            let name = details.genres[i].name.clone();
            let ghost name_text = name@;
            genre.push(name);
            proof {
                let g = details.genres@;
                assert(name_text == g[i as int].name@);
                assert(genre_names(g.take(i + 1)) =~= genre_names(g.take(i as int)).push(
                    name_text,
                ));
                assert(texts(genre@) =~= texts(before).push(name_text));
            }
            i = i + 1;
        }
        assert(details.genres@.take(i as int) =~= details.genres@);
        let studio = if details.studios.len() > 0 {
            details.studios[0].name.clone()
        } else {
            String::new()
        };
        let original_title = text_or_empty_of(&details.alternative_titles.ja);
        let plot = text_or_empty_of(&details.synopsis);
        let premiered = text_or_empty_of(&details.start_date);
        let title = details.title.clone();
        let mal = decimal_string(details.id);
        SeriesMetadata {
            title,
            original_title,
            plot,
            year,
            premiered,
            runtime,
            status: details.status,
            genre,
            tag: Vec::new(),
            studio,
            id: MetadataProviderIds { mal: Some(mal), imdb: None, tmdb: None },
            actor: Vec::new(),
            season: 1,
            season_title: Some(details.title),
            season_original_title: details.alternative_titles.ja,
            cover: None,
        }
    }
}

/// Whether a series record carries an anime as the given season of the
/// series whose first season is `first`: the record of the anime, titled
/// after the first season, numbered `season` (the low 16 bits, as `as u16`
/// keeps them).
pub open spec fn describes_season(
    m: SeriesMetadata,
    anime: AnimeDetails,
    first: AnimeDetails,
    season: i64,
) -> bool {
    exists|base: SeriesMetadata|
        describes(base, anime) && m == (SeriesMetadata {
            title: m.title,
            original_title: m.original_title,
            season: season as u16,
            ..base
        }) && m.title@ == first.title@ && m.original_title@ == text_or_empty(
            first.alternative_titles.ja,
        )
}

/// The series record of an anime as a later season: the record of the
/// anime, titled after the series' first season and numbered `season`.
pub fn metadata_for_season(anime: AnimeDetails, first: AnimeDetails, season: i64) -> (m:
    SeriesMetadata)
    ensures
        describes_season(m, anime, first, season),
{
    let mut metadata = SeriesMetadata::from(anime);
    let ghost base = metadata;
    metadata.title = first.title;
    metadata.original_title = text_or_empty_of(&first.alternative_titles.ja);
    metadata.season = season as u16;
    assert(describes(base, anime));
    metadata
}

/// Whether a resolver result is the failure a repository error is reported
/// as.
pub open spec fn reports_repository_error<T>(
    r: Result<T, AnimeResolverError>,
    e: AnimeRepositoryError,
) -> bool {
    r matches Err(AnimeResolverError::Other(m)) && m@ == repository_error_message(e)
}

/// Whether the repository may answer that it does not know an anime.
pub open spec fn may_lack<R: AnimeRepository>(repo: R, anime_id: u64) -> bool {
    repo.gives_details(anime_id, Ok::<Option<AnimeDetails>, AnimeRepositoryError>(None))
}

/// Whether a result is what looking through prequels, in order, gives for
/// answers the repository may give: the first one it has details of, none
/// when it knows none of them, or the failure of the first lookup that
/// failed.
pub open spec fn prequel_scan<R: AnimeRepository>(
    repo: R,
    ids: Seq<u64>,
    r: Result<Option<AnimeDetails>, AnimeResolverError>,
) -> bool {
    ||| (forall|i: int| 0 <= i < ids.len() ==> #[trigger] may_lack(repo, ids[i])) && r == Ok::<
        Option<AnimeDetails>,
        AnimeResolverError,
    >(None)
    ||| exists|i: int, p: AnimeDetails|
        0 <= i < ids.len() && (forall|j: int| 0 <= j < i ==> #[trigger] may_lack(repo, ids[j]))
            && #[trigger] repo.gives_details(
            ids[i],
            Ok::<Option<AnimeDetails>, AnimeRepositoryError>(Some(p)),
        ) && r == Ok::<Option<AnimeDetails>, AnimeResolverError>(Some(p))
    ||| exists|i: int, e: AnimeRepositoryError|
        0 <= i < ids.len() && (forall|j: int| 0 <= j < i ==> #[trigger] may_lack(repo, ids[j]))
            && #[trigger] repo.gives_details(
            ids[i],
            Err::<Option<AnimeDetails>, AnimeRepositoryError>(e),
        ) && reports_repository_error(r, e)
}

/// Whether a result is what looking for the first prequel of an anime gives
/// for answers the repository may give: none when the anime is unknown,
/// the failure of its lookup, or the scan of its prequels in the order the
/// anime lists them.
pub open spec fn prequel_outcome<R: AnimeRepository>(
    repo: R,
    anime_id: u64,
    r: Result<Option<AnimeDetails>, AnimeResolverError>,
) -> bool {
    ||| may_lack(repo, anime_id) && r == Ok::<Option<AnimeDetails>, AnimeResolverError>(None)
    ||| exists|e: AnimeRepositoryError|
        #[trigger] repo.gives_details(anime_id, Err::<Option<AnimeDetails>, AnimeRepositoryError>(e))
            && reports_repository_error(r, e)
    ||| exists|anime: AnimeDetails|
        #[trigger] repo.gives_details(
            anime_id,
            Ok::<Option<AnimeDetails>, AnimeRepositoryError>(Some(anime)),
        ) && prequel_scan(repo, related_ids(anime.related_anime@, RelationType::Prequel), r)
}

/// The anime whose prequel the link at `k` of a chain is: the anime itself
/// for the first link, else the link before.
pub open spec fn link_id(anime_id: u64, chain: Seq<AnimeDetails>, k: int) -> u64 {
    if k == 0 {
        anime_id
    } else {
        chain[k - 1].id
    }
}

/// Whether each link of a chain is the prequel the repository may give for
/// the link before it (for the anime itself, for the first link).
pub open spec fn is_prequel_chain<R: AnimeRepository>(
    repo: R,
    anime_id: u64,
    chain: Seq<AnimeDetails>,
) -> bool {
    forall|k: int|
        0 <= k < chain.len() ==> #[trigger] prequel_outcome(
            repo,
            link_id(anime_id, chain, k),
            Ok::<Option<AnimeDetails>, AnimeResolverError>(Some(chain[k])),
        )
}

/// Whether a result is what walking the chain of prequels of an anime gives
/// for answers the repository may give: a chain that ends where no prequel
/// is found or at the step bound, or the failure met after a shorter chain.
pub open spec fn chain_outcome<R: AnimeRepository>(
    repo: R,
    anime_id: u64,
    r: Result<Seq<AnimeDetails>, AnimeResolverError>,
) -> bool {
    match r {
        Ok(chain) => is_prequel_chain(repo, anime_id, chain) && chain.len() <= MAX_PREQUEL_STEPS && (
        chain.len() == MAX_PREQUEL_STEPS || prequel_outcome(
            repo,
            link_id(anime_id, chain, chain.len() as int),
            Ok::<Option<AnimeDetails>, AnimeResolverError>(None),
        )),
        Err(e) => exists|chain: Seq<AnimeDetails>|
            #[trigger] is_prequel_chain(repo, anime_id, chain) && chain.len() < MAX_PREQUEL_STEPS
                && prequel_outcome(
                repo,
                link_id(anime_id, chain, chain.len() as int),
                Err::<Option<AnimeDetails>, AnimeResolverError>(e),
            ),
    }
}

/// The first season a chain of prequels names: its last TV series, if any.
pub open spec fn first_season_in(chain: Seq<AnimeDetails>) -> Option<AnimeDetails> {
    match last_tv_index(chain) {
        Some(i) => Some(chain[i]),
        None => None,
    }
}

/// A chain grown by the prequel found for its last link is still a chain.
proof fn lemma_chain_grows<R: AnimeRepository>(
    repo: R,
    anime_id: u64,
    chain: Seq<AnimeDetails>,
    p: AnimeDetails,
)
    requires
        is_prequel_chain(repo, anime_id, chain),
        prequel_outcome(
            repo,
            link_id(anime_id, chain, chain.len() as int),
            Ok::<Option<AnimeDetails>, AnimeResolverError>(Some(p)),
        ),
    ensures
        is_prequel_chain(repo, anime_id, chain.push(p)),
{
    let grown = chain.push(p);
    assert forall|k: int| 0 <= k < grown.len() implies #[trigger] prequel_outcome(
        repo,
        link_id(anime_id, grown, k),
        Ok::<Option<AnimeDetails>, AnimeResolverError>(Some(grown[k])),
    ) by {
        assert(link_id(anime_id, grown, k) == link_id(anime_id, chain, k));
        if k < chain.len() {
            assert(grown[k] == chain[k]);
            assert(prequel_outcome(
                repo,
                link_id(anime_id, chain, k),
                Ok::<Option<AnimeDetails>, AnimeResolverError>(Some(chain[k])),
            ));
        }
    }
}

/// The first prequel of an anime that a repository has details of: the
/// prequels are tried in the order the anime lists them.
fn prequel_of<R: AnimeRepository>(repository: &R, anime_id: u64) -> (r: Result<
    Option<AnimeDetails>,
    AnimeResolverError,
>)
    ensures
        prequel_outcome(*repository, anime_id, r),
        r is Err ==> r->Err_0 is Other,
{
    let anime = match repository.find_by_id(anime_id) {
        Err(e) => return Err(AnimeResolverError::from_repository_error(e)),
        Ok(None) => return Ok(None),
        Ok(Some(anime)) => anime,
    };
    let ghost found = anime;
    let prequels = related_anime_ids(&anime.related_anime, RelationType::Prequel);
    let ghost ids = prequels@;
    let mut i: usize = 0;
    while i < prequels.len()
        invariant
            i <= prequels@.len(),
            prequels@ == ids,
            ids == related_ids(found.related_anime@, RelationType::Prequel),
            (*repository).gives_details(
                anime_id,
                Ok::<Option<AnimeDetails>, AnimeRepositoryError>(Some(found)),
            ),
            forall|j: int| 0 <= j < i ==> #[trigger] may_lack(*repository, ids[j]),
        decreases prequels@.len() - i,
    {
        match repository.find_by_id(prequels[i]) {
            Err(e) => {
                let r = Err(AnimeResolverError::from_repository_error(e));
                assert(prequel_scan(*repository, ids, r));
                return r;
            },
            Ok(Some(details)) => {
                let r = Ok(Some(details));
                assert(prequel_scan(*repository, ids, r));
                return r;
            },
            Ok(None) => {
                assert(may_lack(*repository, ids[i as int]));
            },
        }
        i = i + 1;
    }
    let r = Ok(None);
    assert(prequel_scan(*repository, ids, r));
    r
}

/// The chain of prequels of an anime, nearest first, walked for at most
/// `MAX_PREQUEL_STEPS` prequels.
pub(crate) fn prequels_of<R: AnimeRepository>(repository: &R, anime_id: u64) -> (r: Result<
    Vec<AnimeDetails>,
    AnimeResolverError,
>)
    ensures
        chain_outcome(
            *repository,
            anime_id,
            match r {
                Ok(chain) => Ok::<Seq<AnimeDetails>, AnimeResolverError>(chain@),
                Err(e) => Err::<Seq<AnimeDetails>, AnimeResolverError>(e),
            },
        ),
        r matches Ok(chain) ==> chain@.len() <= MAX_PREQUEL_STEPS,
        r is Err ==> r->Err_0 is Other,
{
    let mut chain: Vec<AnimeDetails> = Vec::new();
    let mut current_anime_id = anime_id;
    let mut steps: u64 = 0;
    while steps < MAX_PREQUEL_STEPS
        invariant
            steps <= MAX_PREQUEL_STEPS,
            chain@.len() == steps,
            is_prequel_chain(*repository, anime_id, chain@),
            current_anime_id == link_id(anime_id, chain@, chain@.len() as int),
        decreases MAX_PREQUEL_STEPS - steps,
    {
        match prequel_of(repository, current_anime_id) {
            Err(e) => {
                assert(is_prequel_chain(*repository, anime_id, chain@));
                return Err(e);
            },
            Ok(None) => {
                return Ok(chain);
            },
            Ok(Some(prequel)) => {
                proof {
                    lemma_chain_grows(*repository, anime_id, chain@, prequel);
                }
                current_anime_id = prequel.id;
                chain.push(prequel);
            },
        }
        steps = steps + 1;
    }
    Ok(chain)
}

/// What numbering the season of an anime gives for answers the repository
/// may give: one more than the number of TV series along a chain of
/// prequels the repository may give for it, or the failure met walking it.
pub open spec fn season_outcome<R: AnimeRepository>(
    repo: R,
    anime_id: u64,
    r: Result<Option<i64>, AnimeResolverError>,
) -> bool {
    match r {
        Ok(found) => found matches Some(season) && exists|chain: Seq<AnimeDetails>|
            #[trigger] chain_outcome(
                repo,
                anime_id,
                Ok::<Seq<AnimeDetails>, AnimeResolverError>(chain),
            ) && season == 1 + tv_count(chain),
        Err(e) => chain_outcome(repo, anime_id, Err::<Seq<AnimeDetails>, AnimeResolverError>(e)),
    }
}

/// The season number of an anime in a repository.
fn season_of<R: AnimeRepository>(repository: &R, anime_id: u64) -> (r: Result<
    Option<i64>,
    AnimeResolverError,
>)
    ensures
        season_outcome(*repository, anime_id, r),
        r is Err ==> r->Err_0 is Other,
{
    let chain = match prequels_of(repository, anime_id) {
        Err(e) => return Err(e),
        Ok(chain) => chain,
    };
    let season = season_number(&chain);
    assert(chain_outcome(
        *repository,
        anime_id,
        Ok::<Seq<AnimeDetails>, AnimeResolverError>(chain@),
    ));
    Ok(Some(season))
}

/// What the first season named by a walked chain of prequels is, for
/// answers the repository may give: when the chain is empty, the
/// repository's answer for the anime itself (or the failure of that
/// lookup); otherwise the chain's last TV series, if any.
pub open spec fn first_from_chain<R: AnimeRepository>(
    repo: R,
    anime_id: u64,
    chain: Seq<AnimeDetails>,
    r: Result<Option<AnimeDetails>, AnimeResolverError>,
) -> bool {
    if chain.len() == 0 {
        ||| exists|found: Option<AnimeDetails>|
            #[trigger] repo.gives_details(
                anime_id,
                Ok::<Option<AnimeDetails>, AnimeRepositoryError>(found),
            ) && r == Ok::<Option<AnimeDetails>, AnimeResolverError>(found)
        ||| exists|re: AnimeRepositoryError|
            #[trigger] repo.gives_details(
                anime_id,
                Err::<Option<AnimeDetails>, AnimeRepositoryError>(re),
            ) && reports_repository_error(r, re)
    } else {
        r == Ok::<Option<AnimeDetails>, AnimeResolverError>(first_season_in(chain))
    }
}

/// What looking for the first season of an anime gives for answers the
/// repository may give: the first season named by a chain of prequels the
/// repository may give for it, or the failure met walking it.
pub open spec fn first_season_outcome<R: AnimeRepository>(
    repo: R,
    anime_id: u64,
    r: Result<Option<AnimeDetails>, AnimeResolverError>,
) -> bool {
    ||| r matches Err(e) && chain_outcome(
        repo,
        anime_id,
        Err::<Seq<AnimeDetails>, AnimeResolverError>(e),
    )
    ||| exists|chain: Seq<AnimeDetails>|
        #[trigger] chain_outcome(repo, anime_id, Ok::<Seq<AnimeDetails>, AnimeResolverError>(chain))
            && first_from_chain(repo, anime_id, chain, r)
}

/// The first season named by a walked chain of prequels of an anime.
fn first_in_chain<R: AnimeRepository>(
    repository: &R,
    anime_id: u64,
    chain: Vec<AnimeDetails>,
) -> (r: Result<Option<AnimeDetails>, AnimeResolverError>)
    ensures
        first_from_chain(*repository, anime_id, chain@, r),
        r is Err ==> r->Err_0 is Other,
{
    let mut chain = chain;
    if chain.len() == 0 {
        return match repository.find_by_id(anime_id) {
            Ok(found) => Ok(found),
            Err(e) => Err(AnimeResolverError::from_repository_error(e)),
        };
    }
    let ghost walked = chain@;
    match first_season_index(&chain) {
        None => Ok(None),
        Some(i) => {
            let first = chain.remove(i);
            assert(first == walked[i as int]);
            Ok(Some(first))
        },
    }
}

/// The first season of the series an anime belongs to, in a repository.
fn first_season_of<R: AnimeRepository>(repository: &R, anime_id: u64) -> (r: Result<
    Option<AnimeDetails>,
    AnimeResolverError,
>)
    ensures
        first_season_outcome(*repository, anime_id, r),
        r is Err ==> r->Err_0 is Other,
{
    let chain = match prequels_of(repository, anime_id) {
        Err(e) => return Err(e),
        Ok(chain) => chain,
    };
    let ghost walked = chain@;
    let r = first_in_chain(repository, anime_id, chain);
    assert(chain_outcome(
        *repository,
        anime_id,
        Ok::<Seq<AnimeDetails>, AnimeResolverError>(walked),
    ));
    r
}

/// Walks the prequels of an anime to number its season.
#[derive(Clone, Debug)]
pub struct AnimeSeasonResolver<R: AnimeRepository + Clone> {
    repository: R,
}

impl<R: AnimeRepository + Clone> AnimeSeasonResolver<R> {
    /// The repository the resolver asks.
    pub closed spec fn spec_repository(&self) -> R {
        self.repository
    }

    /// A resolver that asks the repository.
    pub fn new(repository: R) -> (r: AnimeSeasonResolver<R>)
        ensures
            r.spec_repository() == repository,
    {
        AnimeSeasonResolver { repository }
    }

    /// The first prequel of an anime that the repository has details of:
    /// the prequels are tried in the order the anime lists them.
    fn resolve_prequel(&self, anime_id: u64) -> (r: Result<Option<AnimeDetails>, AnimeResolverError>)
        ensures
            prequel_outcome(self.repository, anime_id, r),
            r is Err ==> r->Err_0 is Other,
    {
        prequel_of(&self.repository, anime_id)
    }

    /// The chain of prequels of an anime, nearest first: each link is the
    /// first prequel of the one before it that the repository has details
    /// of. The chain is walked for at most `MAX_PREQUEL_STEPS` prequels.
    pub fn prequel_chain(&self, anime_id: u64) -> (r: Result<Vec<AnimeDetails>, AnimeResolverError>)
        ensures
            chain_outcome(
                self.spec_repository(),
                anime_id,
                match r {
                    Ok(chain) => Ok::<Seq<AnimeDetails>, AnimeResolverError>(chain@),
                    Err(e) => Err::<Seq<AnimeDetails>, AnimeResolverError>(e),
                },
            ),
            r matches Ok(chain) ==> chain@.len() <= MAX_PREQUEL_STEPS,
            r is Err ==> r->Err_0 is Other,
    {
        prequels_of(&self.repository, anime_id)
    }

    /// The season number of an anime: one more than the number of TV series
    /// along its chain of prequels.
    pub fn resolve(&self, anime_id: u64) -> (r: Result<Option<i64>, AnimeResolverError>)
        ensures
            season_outcome(self.spec_repository(), anime_id, r),
            r is Err ==> r->Err_0 is Other,
    {
        season_of(&self.repository, anime_id)
    }

    /// The first season of the series an anime belongs to: the anime itself
    /// when it has no prequel, else the earliest TV series along its chain
    /// of prequels, if there is one.
    pub fn resolve_first_season(&self, anime_id: u64) -> (r: Result<
        Option<AnimeDetails>,
        AnimeResolverError,
    >)
        ensures
            first_season_outcome(self.spec_repository(), anime_id, r),
            r is Err ==> r->Err_0 is Other,
    {
        first_season_of(&self.repository, anime_id)
    }
}

/// How many of the anime of a chain are TV series.
pub open spec fn tv_count(chain: Seq<AnimeDetails>) -> nat
    decreases chain.len(),
{
    if chain.len() == 0 {
        0
    } else {
        tv_count(chain.drop_last()) + if chain.last().media_type@ == TV_MEDIA_TYPE@ {
            1nat
        } else {
            0nat
        }
    }
}

/// Counting TV series along a chain: an empty chain has none, an entry
/// whose media type is exactly `tv` adds one wherever it stands, and an
/// entry of any other media type (movie, OVA, special, ONA, ...) adds none.
pub proof fn only_tv_entries_count_as_seasons(
    before: Seq<AnimeDetails>,
    x: AnimeDetails,
    after: Seq<AnimeDetails>,
)
    ensures
        tv_count(Seq::<AnimeDetails>::empty()) == 0,
        x.media_type@ == "tv"@ ==> tv_count(before + seq![x] + after) == tv_count(before + after)
            + 1,
        x.media_type@ != "tv"@ ==> tv_count(before + seq![x] + after) == tv_count(before + after),
{
    reveal_strlit("tv");
    assert(TV_MEDIA_TYPE@ == "tv"@);
    lemma_tv_count_adds_up(before + seq![x], after);
    lemma_tv_count_adds_up(before, seq![x]);
    lemma_tv_count_adds_up(before, after);
    assert(seq![x].drop_last() =~= Seq::<AnimeDetails>::empty());
}

/// The TV series of two chains put together are those of each.
pub proof fn lemma_tv_count_adds_up(a: Seq<AnimeDetails>, b: Seq<AnimeDetails>)
    ensures
        tv_count(a + b) == tv_count(a) + tv_count(b),
    decreases b.len(),
{
    if b.len() == 0 {
        assert(a + b =~= a);
    } else {
        lemma_tv_count_adds_up(a, b.drop_last());
        assert((a + b).drop_last() =~= a + b.drop_last());
        assert((a + b).last() == b.last());
    }
}

proof fn lemma_tv_count_bound(chain: Seq<AnimeDetails>)
    ensures
        tv_count(chain) <= chain.len(),
    decreases chain.len(),
{
    if chain.len() > 0 {
        lemma_tv_count_bound(chain.drop_last());
    }
}

/// The season number a chain of prequels gives: one more than the number
/// of TV series in it.
pub fn season_number(chain: &Vec<AnimeDetails>) -> (season: i64)
    requires
        chain@.len() <= MAX_PREQUEL_STEPS,
    ensures
        season == 1 + tv_count(chain@),
{
    let mut season: i64 = 1;
    let mut i: usize = 0;
    while i < chain.len()
        invariant
            i <= chain@.len(),
            chain@.len() <= MAX_PREQUEL_STEPS,
            season == 1 + tv_count(chain@.take(i as int)),
        decreases chain@.len() - i,
    {
        assert(chain@.take(i + 1).drop_last() =~= chain@.take(i as int));
        proof {
            lemma_tv_count_bound(chain@.take(i as int));
        }
        if equals(chain[i].media_type.as_str(), TV_MEDIA_TYPE) {
            season = season + 1;
        }
        i = i + 1;
    }
    assert(chain@.take(i as int) =~= chain@);
    season
}

/// Where the first season stands in a chain of prequels: the last TV
/// series of the chain, the earliest to air.
pub open spec fn last_tv_index(chain: Seq<AnimeDetails>) -> Option<int>
    decreases chain.len(),
{
    if chain.len() == 0 {
        None
    } else if chain.last().media_type@ == TV_MEDIA_TYPE@ {
        Some(chain.len() - 1)
    } else {
        last_tv_index(chain.drop_last())
    }
}

/// Where the first season stands in a chain of prequels, if the chain holds
/// a TV series.
pub fn first_season_index(chain: &Vec<AnimeDetails>) -> (r: Option<usize>)
    ensures
        match last_tv_index(chain@) {
            Some(i) => r == Some(i as usize) && 0 <= i < chain@.len() && chain@[i].media_type@
                == TV_MEDIA_TYPE@,
            None => r is None,
        },
{
    let mut k: usize = chain.len();
    assert(chain@.take(k as int) =~= chain@);
    while k > 0
        invariant
            k <= chain@.len(),
            last_tv_index(chain@) == last_tv_index(chain@.take(k as int)),
        decreases k,
    {
        assert(chain@.take(k as int).drop_last() =~= chain@.take(k - 1));
        assert(chain@.take(k as int).last() == chain@[k - 1]);
        if equals(chain[k - 1].media_type.as_str(), TV_MEDIA_TYPE) {
            return Some(k - 1);
        }
        k = k - 1;
    }
    None
}

/// Whether an anime is known by a title: by the media resolver's matching,
/// or by the organiser's when `organiser` is set.
pub open spec fn knows_title(organiser: bool, d: AnimeDetails, title: Seq<char>) -> bool {
    if organiser {
        crate::jellyfin::anime::is_known_to_organiser(d, title)
    } else {
        is_known_as(d, title)
    }
}

/// Whether the repository may answer a lookup of a search result so that
/// the result is passed over: it does not know the anime, or knows it by
/// other titles only.
pub open spec fn passed_over<R: AnimeRepository>(
    repo: R,
    anime_id: u64,
    title: Seq<char>,
    organiser: bool,
) -> bool {
    ||| may_lack(repo, anime_id)
    ||| exists|d: AnimeDetails|
        #[trigger] repo.gives_details(
            anime_id,
            Ok::<Option<AnimeDetails>, AnimeRepositoryError>(Some(d)),
        ) && !knows_title(organiser, d, title)
}

/// Whether a result is what looking through search results, in order,
/// gives for answers the repository may give: the details of the first one
/// known by the title, none when every one is passed over, or the failure
/// of the first lookup that failed.
pub open spec fn title_scan<R: AnimeRepository>(
    repo: R,
    results: Seq<Anime>,
    title: Seq<char>,
    organiser: bool,
    r: Result<Option<AnimeDetails>, AnimeResolverError>,
) -> bool {
    ||| (forall|i: int|
        0 <= i < results.len() ==> #[trigger] passed_over(repo, results[i].id, title, organiser))
        && r == Ok::<Option<AnimeDetails>, AnimeResolverError>(None)
    ||| exists|i: int, d: AnimeDetails|
        0 <= i < results.len() && (forall|j: int|
            0 <= j < i ==> #[trigger] passed_over(repo, results[j].id, title, organiser))
            && #[trigger] repo.gives_details(
            results[i].id,
            Ok::<Option<AnimeDetails>, AnimeRepositoryError>(Some(d)),
        ) && knows_title(organiser, d, title) && r == Ok::<Option<AnimeDetails>, AnimeResolverError>(
            Some(d),
        )
    ||| exists|i: int, e: AnimeRepositoryError|
        0 <= i < results.len() && (forall|j: int|
            0 <= j < i ==> #[trigger] passed_over(repo, results[j].id, title, organiser))
            && #[trigger] repo.gives_details(
            results[i].id,
            Err::<Option<AnimeDetails>, AnimeRepositoryError>(e),
        ) && reports_repository_error(r, e)
}

/// Whether a result is what resolving a title gives for answers the
/// repository may give: the failure of the search, or the scan of its
/// results.
pub open spec fn title_outcome<R: AnimeRepository>(
    repo: R,
    title: Seq<char>,
    organiser: bool,
    r: Result<Option<AnimeDetails>, AnimeResolverError>,
) -> bool {
    ||| exists|e: AnimeRepositoryError|
        #[trigger] repo.gives_results(title, Err::<Vec<Anime>, AnimeRepositoryError>(e))
            && reports_repository_error(r, e)
    ||| exists|results: Vec<Anime>|
        #[trigger] repo.gives_results(title, Ok::<Vec<Anime>, AnimeRepositoryError>(results))
            && title_scan(repo, results@, title, organiser, r)
}

/// The first search result, in the repository's order, whose details the
/// repository has and which is known by the title: by the media resolver's
/// matching, or by the organiser's when `organiser` is set.
pub(crate) fn anime_titled<R: AnimeRepository>(repository: &R, title: &str, organiser: bool) -> (r:
    Result<Option<AnimeDetails>, AnimeResolverError>)
    ensures
        title_outcome(*repository, title@, organiser, r),
        r matches Ok(Some(d)) ==> knows_title(organiser, d, title@),
        r is Err ==> r->Err_0 is Other,
{
    let search_results = match repository.search(title) {
        Ok(results) => results,
        Err(e) => return Err(AnimeResolverError::from_repository_error(e)),
    };
    let ghost results = search_results;
    let mut i: usize = 0;
    while i < search_results.len()
        invariant
            i <= search_results@.len(),
            search_results == results,
            (*repository).gives_results(title@, Ok::<Vec<Anime>, AnimeRepositoryError>(results)),
            forall|j: int|
                0 <= j < i ==> #[trigger] passed_over(*repository, results@[j].id, title@, organiser),
        decreases search_results@.len() - i,
    {
        match repository.find_by_id(search_results[i].id) {
            Err(e) => {
                let r = Err(AnimeResolverError::from_repository_error(e));
                assert(title_scan(*repository, results@, title@, organiser, r));
                return r;
            },
            Ok(None) => {
                assert(passed_over(*repository, results@[i as int].id, title@, organiser));
            },
            Ok(Some(details)) => {
                let known = if organiser {
                    crate::jellyfin::anime::known_to_organiser(&details, title)
                } else {
                    known_as(&details, title)
                };
                if known {
                    let r = Ok(Some(details));
                    assert(title_scan(*repository, results@, title@, organiser, r));
                    return r;
                }
                assert(passed_over(*repository, results@[i as int].id, title@, organiser));
            },
        }
        i = i + 1;
    }
    let r = Ok(None);
    assert(title_scan(*repository, results@, title@, organiser, r));
    r
}

/// Finds the anime a title names among the repository's search results.
#[derive(Clone, Debug)]
pub struct AnimeTitleResolver<R: AnimeRepository> {
    repository: R,
}

impl<R: AnimeRepository> AnimeTitleResolver<R> {
    /// The repository the resolver asks.
    pub closed spec fn spec_repository(&self) -> R {
        self.repository
    }

    /// A resolver that asks the repository.
    pub fn new(repository: R) -> (r: AnimeTitleResolver<R>)
        ensures
            r.spec_repository() == repository,
    {
        AnimeTitleResolver { repository }
    }

    /// The first search result, in the repository's order, whose details
    /// the repository has and which is known by the title.
    pub fn resolve(&self, title: &str) -> (r: Result<Option<AnimeDetails>, AnimeResolverError>)
        ensures
            title_outcome(self.spec_repository(), title@, false, r),
            r matches Ok(Some(d)) ==> is_known_as(d, title@),
            r is Err ==> r->Err_0 is Other,
    {
        anime_titled(&self.repository, title, false)
    }
}

/// The text of the error for a title no search result matches.
pub open spec fn unmatched_title_message(title: Seq<char>) -> Seq<char> {
    title + " no resuelto, puede ser que no haya coincidido en la busqueda"@
}

/// What the series record of an anime is, once a chain of prequels was
/// walked and the first season it names was looked for: the failure of
/// that lookup, `SeasonNotFound` when there is no first season, or the
/// record of the anime titled after the first season and numbered one more
/// than the TV series along the chain.
pub open spec fn metadata_of(
    anime: AnimeDetails,
    chain: Seq<AnimeDetails>,
    first: Result<Option<AnimeDetails>, AnimeResolverError>,
    r: Result<SeriesMetadata, AnimeResolverError>,
) -> bool {
    match first {
        Err(e) => r == Err::<SeriesMetadata, AnimeResolverError>(e),
        Ok(None) => r == Err::<SeriesMetadata, AnimeResolverError>(
            AnimeResolverError::SeasonNotFound,
        ),
        Ok(Some(f)) => r matches Ok(m) && describes_season(m, anime, f, (1 + tv_count(chain)) as i64),
    }
}

/// What building the series record of an anime gives for answers the
/// repository may give: the failure met walking its chain of prequels, or
/// the record built from a chain the repository may give and the first
/// season that chain names.
pub open spec fn metadata_outcome<R: AnimeRepository>(
    repo: R,
    anime: AnimeDetails,
    r: Result<SeriesMetadata, AnimeResolverError>,
) -> bool {
    ||| r matches Err(e) && chain_outcome(
        repo,
        anime.id,
        Err::<Seq<AnimeDetails>, AnimeResolverError>(e),
    )
    ||| exists|chain: Seq<AnimeDetails>, first: Result<Option<AnimeDetails>, AnimeResolverError>|
        chain_outcome(repo, anime.id, Ok::<Seq<AnimeDetails>, AnimeResolverError>(chain))
            && #[trigger] first_from_chain(repo, anime.id, chain, first) && metadata_of(
            anime,
            chain,
            first,
            r,
        )
}

/// What resolving a title to a series record gives for answers the
/// repository may give: the failure of finding the anime, `AnimeNotFound`
/// when no search result is known by the title, or the record built for
/// the anime found.
pub open spec fn title_resolution<R: AnimeRepository>(
    repo: R,
    title: Seq<char>,
    r: Result<SeriesMetadata, AnimeResolverError>,
) -> bool {
    ||| r matches Err(e) && title_outcome(
        repo,
        title,
        false,
        Err::<Option<AnimeDetails>, AnimeResolverError>(e),
    )
    ||| title_outcome(repo, title, false, Ok::<Option<AnimeDetails>, AnimeResolverError>(None))
        && (r matches Err(AnimeResolverError::AnimeNotFound(m)) && m@ == unmatched_title_message(
        title,
    ))
    ||| exists|anime: AnimeDetails|
        #[trigger] title_outcome(
            repo,
            title,
            false,
            Ok::<Option<AnimeDetails>, AnimeResolverError>(Some(anime)),
        ) && metadata_outcome(repo, anime, r)
}

/// Whether a series resolver error is how an anime resolver error is
/// reported: an empty title stays so, an anime not found becomes
/// `NotFound`, the rest are kept by their message.
pub open spec fn series_error_of(e: AnimeResolverError, se: SeriesMetadataResolverError) -> bool {
    match e {
        AnimeResolverError::EmptyTitle => se is EmptyTitle,
        AnimeResolverError::AnimeNotFound(_) => se is NotFound,
        _ => se matches SeriesMetadataResolverError::Other(m) && m@ == anime_resolver_error_message(
            e,
        ),
    }
}

/// Whether a series resolver result is how an anime resolver result is
/// reported.
pub open spec fn series_result_of(
    ar: Result<SeriesMetadata, AnimeResolverError>,
    r: Result<SeriesMetadata, SeriesMetadataResolverError>,
) -> bool {
    match ar {
        Ok(m) => r == Ok::<SeriesMetadata, SeriesMetadataResolverError>(m),
        Err(e) => r matches Err(se) && series_error_of(e, se),
    }
}

/// What resolving a directory to a series record gives for answers the
/// repository may give: `EmptyTitle` when the path has no last component,
/// else the resolution of the title it names, as a series resolver reports
/// it.
pub open spec fn directory_resolution<R: AnimeRepository>(
    repo: R,
    source_directory: Seq<char>,
    r: Result<SeriesMetadata, SeriesMetadataResolverError>,
) -> bool {
    match path_file_name(source_directory) {
        None => r == Err::<SeriesMetadata, SeriesMetadataResolverError>(
            SeriesMetadataResolverError::EmptyTitle,
        ),
        Some(title) => exists|ar: Result<SeriesMetadata, AnimeResolverError>|
            #[trigger] title_resolution(repo, title, ar) && series_result_of(ar, r),
    }
}

/// What resolving a MyAnimeList id to a series record gives for answers the
/// repository may give: `NotFound` when it does not know the anime, the
/// failure of the lookup by its message, or the record built for the anime.
pub open spec fn identifier_resolution<R: AnimeRepository>(
    repo: R,
    anime_id: u64,
    r: Result<SeriesMetadata, SeriesMetadataResolverError>,
) -> bool {
    ||| may_lack(repo, anime_id) && r == Err::<SeriesMetadata, SeriesMetadataResolverError>(
        SeriesMetadataResolverError::NotFound,
    )
    ||| exists|re: AnimeRepositoryError|
        #[trigger] repo.gives_details(anime_id, Err::<Option<AnimeDetails>, AnimeRepositoryError>(re))
            && (r matches Err(SeriesMetadataResolverError::Other(m)) && m@
            == repository_error_message(re))
    ||| exists|anime: AnimeDetails, ar: Result<SeriesMetadata, AnimeResolverError>|
        repo.gives_details(anime_id, Ok::<Option<AnimeDetails>, AnimeRepositoryError>(Some(anime)))
            && #[trigger] metadata_outcome(repo, anime, ar) && series_result_of(ar, r)
}

/// Resolves series metadata from MyAnimeList through a repository.
#[derive(Clone, Debug)]
pub struct AnimeResolver<R: AnimeRepository + Clone> {
    repository: R,
}

impl<R: AnimeRepository + Clone> AnimeResolver<R> {
    /// The repository the resolver asks.
    pub closed spec fn spec_repository(&self) -> R {
        self.repository
    }

    /// A resolver that asks the repository.
    pub fn new(repository: R) -> (r: AnimeResolver<R>)
        ensures
            r.spec_repository() == repository,
    {
        AnimeResolver { repository }
    }

    /// The series record of the anime a title names. A title that matches
    /// no search result is refused as not found.
    pub fn resolve_by_title(&self, title: &str) -> (r: Result<SeriesMetadata, AnimeResolverError>)
        ensures
            title_resolution(self.spec_repository(), title@, r),
            r matches Err(AnimeResolverError::AnimeNotFound(m)) ==> m@ == unmatched_title_message(
                title@,
            ),
            r is Err ==> r->Err_0 is Other || r->Err_0 is AnimeNotFound || r->Err_0 is SeasonNotFound,
    {
        let found = anime_titled(&self.repository, title, false);
        match found {
            Err(e) => Err(e),
            Ok(None) => {
                let mut m = owned(title);
                m.append(" no resuelto, puede ser que no haya coincidido en la busqueda");
                Err(AnimeResolverError::AnimeNotFound(m))
            },
            Ok(Some(anime)) => {
                let ghost a = anime;
                let r = self.build_metadata(anime);
                assert(title_outcome(
                    self.repository,
                    title@,
                    false,
                    Ok::<Option<AnimeDetails>, AnimeResolverError>(Some(a)),
                ));
                r
            },
        }
    }

    /// The series record of an anime: its chain of prequels is walked once,
    /// to number its season and to find the first season of its series; a
    /// missing first season is reported as `SeasonNotFound`. The cover is
    /// fetched by the app.
    fn build_metadata(&self, anime: AnimeDetails) -> (r: Result<SeriesMetadata, AnimeResolverError>)
        ensures
            metadata_outcome(self.repository, anime, r),
            r is Err ==> r->Err_0 is Other || r->Err_0 is SeasonNotFound,
    {
        let chain = match prequels_of(&self.repository, anime.id) {
            Err(e) => return Err(e),
            Ok(chain) => chain,
        };
        let ghost walked = chain@;
        let season = season_number(&chain);
        let first = first_in_chain(&self.repository, anime.id, chain);
        let ghost found = first;
        let r = match first {
            Err(e) => Err(e),
            Ok(None) => Err(AnimeResolverError::SeasonNotFound),
            Ok(Some(first_season)) => Ok(metadata_for_season(anime, first_season, season)),
        };
        assert(metadata_of(anime, walked, found, r));
        assert(chain_outcome(
            self.repository,
            anime.id,
            Ok::<Seq<AnimeDetails>, AnimeResolverError>(walked),
        ));
        r
    }
}

impl<R: AnimeRepository + Clone> SeriesMetadataResolver for AnimeResolver<R> {
    /// The series record of the anime a directory is named after.
    fn resolve_from_directory(&self, source_directory: &str) -> (r: Result<
        SeriesMetadata,
        SeriesMetadataResolverError,
    >)
        ensures
            directory_resolution(self.spec_repository(), source_directory@, r),
    {
        let title = match file_name(source_directory) {
            None => return Err(SeriesMetadataResolverError::EmptyTitle),
            Some(title) => title,
        };
        let ar = self.resolve_by_title(title.as_str());
        let r = match ar {
            Ok(m) => Ok(m),
            Err(e) => Err(SeriesMetadataResolverError::from_anime_error(e)),
        };
        assert(path_file_name(source_directory@)->0 == title@);
        assert(title_resolution(self.spec_repository(), title@, ar) && series_result_of(ar, r));
        r
    }

    /// The series record of the anime with a MyAnimeList id.
    fn resolve_from_identifier(&self, identifier: &str) -> (r: Result<
        SeriesMetadata,
        SeriesMetadataResolverError,
    >)
        ensures
            u64_from_text(identifier@) matches Err(e) ==> (r matches Err(
                SeriesMetadataResolverError::Other(m),
            ) && m@ == "failed parse id: "@ + identifier@ + ": "@ + e),
            u64_from_text(identifier@) matches Ok(id) ==> identifier_resolution(
                self.spec_repository(),
                id,
                r,
            ),
    {
        let id = match parse_u64(identifier) {
            Ok(id) => id,
            Err(err) => {
                let mut m = owned("failed parse id: ");
                m.append(identifier);
                m.append(": ");
                m.append(err.as_str());
                return Err(SeriesMetadataResolverError::Other(m));
            },
        };
        let anime = match self.repository.find_by_id(id) {
            Err(err) => return Err(SeriesMetadataResolverError::Other(err.to_string())),
            Ok(None) => return Err(SeriesMetadataResolverError::NotFound),
            Ok(Some(anime)) => anime,
        };
        let ghost a = anime;
        let ar = self.build_metadata(anime);
        let r = match ar {
            Ok(m) => Ok(m),
            Err(e) => Err(SeriesMetadataResolverError::from_anime_error(e)),
        };
        assert(series_result_of(ar, r));
        assert(metadata_outcome(self.repository, a, ar));
        r
    }
}

} // verus!
