//! Verified copies of MyAnimeList records, for a repository that hands out
//! what it holds. A copy is equal to what it copies field by field; a list
//! is copied item by item, so its contents are equal.

use vstd::prelude::*;
use crate::myanimelist::{
    AlternativeTitles, Anime, AnimeDetails, Broadcast, Genre, MainPicture, MyListStatus,
    Recommendation, RelatedAnime, RelatedManga, StartSeason, Statistics, StatusStatistics, Studio,
};

verus! {

fn copy_text(s: &String) -> (r: String)
    ensures
        r == *s,
{
    s.clone()
}

fn copy_optional_text(o: &Option<String>) -> (r: Option<String>)
    ensures
        r == *o,
{
    match o {
        Some(s) => Some(copy_text(s)),
        None => None,
    }
}

fn copy_picture(p: &MainPicture) -> (r: MainPicture)
    ensures
        r == *p,
{
    MainPicture { medium: copy_text(&p.medium), large: copy_text(&p.large) }
}

fn copy_optional_picture(o: &Option<MainPicture>) -> (r: Option<MainPicture>)
    ensures
        r == *o,
{
    match o {
        Some(p) => Some(copy_picture(p)),
        None => None,
    }
}

/// A copy of an anime entry, equal to it.
pub(crate) fn copy_anime(a: &Anime) -> (r: Anime)
    ensures
        r == *a,
{
    Anime { id: a.id, title: copy_text(&a.title), main_picture: copy_optional_picture(&a.main_picture) }
}

/// A copy of a list of anime entries, with the same entries in order.
pub(crate) fn copy_anime_list(v: &Vec<Anime>) -> (r: Vec<Anime>)
    ensures
        r@ == v@,
{
    let mut r: Vec<Anime> = Vec::new();
    let mut i: usize = 0;
    while i < v.len()
        invariant
            i <= v@.len(),
            r@ == v@.take(i as int),
        decreases v@.len() - i,
    {
        r.push(copy_anime(&v[i]));
        assert(v@.take(i + 1) =~= v@.take(i as int).push(v@[i as int]));
        i = i + 1;
    }
    assert(v@.take(i as int) =~= v@);
    r
}

fn copy_strings(v: &Vec<String>) -> (r: Vec<String>)
    ensures
        r@ == v@,
{
    let mut r: Vec<String> = Vec::new();
    let mut i: usize = 0;
    while i < v.len()
        invariant
            i <= v@.len(),
            r@ == v@.take(i as int),
        decreases v@.len() - i,
    {
        r.push(copy_text(&v[i]));
        assert(v@.take(i + 1) =~= v@.take(i as int).push(v@[i as int]));
        i = i + 1;
    }
    assert(v@.take(i as int) =~= v@);
    r
}

fn copy_genres(v: &Vec<Genre>) -> (r: Vec<Genre>)
    ensures
        r@ == v@,
{
    let mut r: Vec<Genre> = Vec::new();
    let mut i: usize = 0;
    while i < v.len()
        invariant
            i <= v@.len(),
            r@ == v@.take(i as int),
        decreases v@.len() - i,
    {
        r.push(Genre { id: v[i].id, name: copy_text(&v[i].name) });
        assert(v@.take(i + 1) =~= v@.take(i as int).push(v@[i as int]));
        i = i + 1;
    }
    assert(v@.take(i as int) =~= v@);
    r
}

fn copy_pictures(v: &Vec<MainPicture>) -> (r: Vec<MainPicture>)
    ensures
        r@ == v@,
{
    let mut r: Vec<MainPicture> = Vec::new();
    let mut i: usize = 0;
    while i < v.len()
        invariant
            i <= v@.len(),
            r@ == v@.take(i as int),
        decreases v@.len() - i,
    {
        r.push(copy_picture(&v[i]));
        assert(v@.take(i + 1) =~= v@.take(i as int).push(v@[i as int]));
        i = i + 1;
    }
    assert(v@.take(i as int) =~= v@);
    r
}

fn copy_related_anime(v: &Vec<RelatedAnime>) -> (r: Vec<RelatedAnime>)
    ensures
        r@ == v@,
{
    let mut r: Vec<RelatedAnime> = Vec::new();
    let mut i: usize = 0;
    while i < v.len()
        invariant
            i <= v@.len(),
            r@ == v@.take(i as int),
        decreases v@.len() - i,
    {
        r.push(
            RelatedAnime {
                node: copy_anime(&v[i].node),
                relation_type: v[i].relation_type,
                relation_type_formatted: copy_text(&v[i].relation_type_formatted),
            },
        );
        assert(v@.take(i + 1) =~= v@.take(i as int).push(v@[i as int]));
        i = i + 1;
    }
    assert(v@.take(i as int) =~= v@);
    r
}

fn copy_related_manga(v: &Vec<RelatedManga>) -> (r: Vec<RelatedManga>)
    ensures
        r@ == v@,
{
    let mut r: Vec<RelatedManga> = Vec::new();
    let mut i: usize = 0;
    while i < v.len()
        invariant
            i <= v@.len(),
            r@ == v@.take(i as int),
        decreases v@.len() - i,
    {
        r.push(
            RelatedManga {
                node: copy_anime(&v[i].node),
                relation_type: v[i].relation_type,
                relation_type_formatted: copy_text(&v[i].relation_type_formatted),
            },
        );
        assert(v@.take(i + 1) =~= v@.take(i as int).push(v@[i as int]));
        i = i + 1;
    }
    assert(v@.take(i as int) =~= v@);
    r
}

fn copy_recommendations(v: &Vec<Recommendation>) -> (r: Vec<Recommendation>)
    ensures
        r@ == v@,
{
    let mut r: Vec<Recommendation> = Vec::new();
    let mut i: usize = 0;
    while i < v.len()
        invariant
            i <= v@.len(),
            r@ == v@.take(i as int),
        decreases v@.len() - i,
    {
        r.push(
            Recommendation {
                node: copy_anime(&v[i].node),
                num_recommendations: v[i].num_recommendations,
            },
        );
        assert(v@.take(i + 1) =~= v@.take(i as int).push(v@[i as int]));
        i = i + 1;
    }
    assert(v@.take(i as int) =~= v@);
    r
}

fn copy_studios(v: &Vec<Studio>) -> (r: Vec<Studio>)
    ensures
        r@ == v@,
{
    let mut r: Vec<Studio> = Vec::new();
    let mut i: usize = 0;
    while i < v.len()
        invariant
            i <= v@.len(),
            r@ == v@.take(i as int),
        decreases v@.len() - i,
    {
        r.push(Studio { id: v[i].id, name: copy_text(&v[i].name) });
        assert(v@.take(i + 1) =~= v@.take(i as int).push(v@[i as int]));
        i = i + 1;
    }
    assert(v@.take(i as int) =~= v@);
    r
}

/// Whether two list statuses are equal field by field, their tags by
/// content.
pub open spec fn same_list_status(a: MyListStatus, b: MyListStatus) -> bool {
    &&& a.status == b.status
    &&& a.score == b.score
    &&& a.num_episodes_watched == b.num_episodes_watched
    &&& a.is_rewatching == b.is_rewatching
    &&& a.start_date == b.start_date
    &&& a.finish_date == b.finish_date
    &&& a.priority == b.priority
    &&& a.num_times_rewatched == b.num_times_rewatched
    &&& a.rewatch_value == b.rewatch_value
    &&& a.tags@ == b.tags@
    &&& a.comments == b.comments
    &&& a.updated_at == b.updated_at
}

fn copy_list_status(o: &Option<MyListStatus>) -> (r: Option<MyListStatus>)
    ensures
        match (r, *o) {
            (Some(a), Some(b)) => same_list_status(a, b),
            (None, None) => true,
            _ => false,
        },
{
    match o {
        None => None,
        Some(s) => Some(
            MyListStatus {
                status: copy_text(&s.status),
                score: s.score,
                num_episodes_watched: s.num_episodes_watched,
                is_rewatching: s.is_rewatching,
                start_date: copy_optional_text(&s.start_date),
                finish_date: copy_optional_text(&s.finish_date),
                priority: s.priority,
                num_times_rewatched: s.num_times_rewatched,
                rewatch_value: s.rewatch_value,
                tags: copy_strings(&s.tags),
                comments: copy_text(&s.comments),
                updated_at: copy_text(&s.updated_at),
            },
        ),
    }
}

/// Whether two anime records are equal field by field, their lists by
/// content.
pub open spec fn same_details(a: AnimeDetails, b: AnimeDetails) -> bool {
    &&& a.id == b.id
    &&& a.title == b.title
    &&& a.main_picture == b.main_picture
    &&& a.alternative_titles.synonyms@ == b.alternative_titles.synonyms@
    &&& a.alternative_titles.en == b.alternative_titles.en
    &&& a.alternative_titles.ja == b.alternative_titles.ja
    &&& a.start_date == b.start_date
    &&& a.end_date == b.end_date
    &&& a.synopsis == b.synopsis
    &&& a.rank == b.rank
    &&& a.popularity == b.popularity
    &&& a.num_list_users == b.num_list_users
    &&& a.num_scoring_users == b.num_scoring_users
    &&& a.nsfw == b.nsfw
    &&& a.created_at == b.created_at
    &&& a.updated_at == b.updated_at
    &&& a.media_type == b.media_type
    &&& a.status == b.status
    &&& a.genres@ == b.genres@
    &&& match (a.my_list_status, b.my_list_status) {
        (Some(x), Some(y)) => same_list_status(x, y),
        (None, None) => true,
        _ => false,
    }
    &&& a.num_episodes == b.num_episodes
    &&& a.start_season == b.start_season
    &&& a.broadcast == b.broadcast
    &&& a.source == b.source
    &&& a.average_episode_duration == b.average_episode_duration
    &&& a.rating == b.rating
    &&& a.pictures@ == b.pictures@
    &&& a.background == b.background
    &&& a.related_anime@ == b.related_anime@
    &&& a.related_manga@ == b.related_manga@
    &&& a.recommendations@ == b.recommendations@
    &&& a.studios@ == b.studios@
    &&& a.statistics == b.statistics
}

/// A copy of an anime record, equal to it field by field and list by list.
pub(crate) fn copy_details(d: &AnimeDetails) -> (r: AnimeDetails)
    ensures
        same_details(r, *d),
{
    AnimeDetails {
        id: d.id,
        title: copy_text(&d.title),
        main_picture: copy_optional_picture(&d.main_picture),
        alternative_titles: AlternativeTitles {
            synonyms: copy_strings(&d.alternative_titles.synonyms),
            en: copy_optional_text(&d.alternative_titles.en),
            ja: copy_optional_text(&d.alternative_titles.ja),
        },
        start_date: copy_optional_text(&d.start_date),
        end_date: copy_optional_text(&d.end_date),
        synopsis: copy_optional_text(&d.synopsis),
        rank: d.rank,
        popularity: d.popularity,
        num_list_users: d.num_list_users,
        num_scoring_users: d.num_scoring_users,
        nsfw: copy_text(&d.nsfw),
        created_at: copy_text(&d.created_at),
        updated_at: copy_text(&d.updated_at),
        media_type: copy_text(&d.media_type),
        status: copy_text(&d.status),
        genres: copy_genres(&d.genres),
        my_list_status: copy_list_status(&d.my_list_status),
        num_episodes: d.num_episodes,
        start_season: match &d.start_season {
            Some(s) => Some(StartSeason { year: s.year, season: copy_text(&s.season) }),
            None => None,
        },
        broadcast: match &d.broadcast {
            Some(b) => Some(
                Broadcast {
                    day_of_the_week: copy_text(&b.day_of_the_week),
                    start_time: copy_optional_text(&b.start_time),
                },
            ),
            None => None,
        },
        source: copy_optional_text(&d.source),
        average_episode_duration: d.average_episode_duration,
        rating: copy_optional_text(&d.rating),
        pictures: copy_pictures(&d.pictures),
        background: copy_optional_text(&d.background),
        related_anime: copy_related_anime(&d.related_anime),
        related_manga: copy_related_manga(&d.related_manga),
        recommendations: copy_recommendations(&d.recommendations),
        studios: copy_studios(&d.studios),
        statistics: Statistics {
            status: StatusStatistics {
                watching: copy_text(&d.statistics.status.watching),
                completed: copy_text(&d.statistics.status.completed),
                on_hold: copy_text(&d.statistics.status.on_hold),
                dropped: copy_text(&d.statistics.status.dropped),
                plan_to_watch: copy_text(&d.statistics.status.plan_to_watch),
            },
            num_list_users: d.statistics.num_list_users,
        },
    }
}

} // verus!
