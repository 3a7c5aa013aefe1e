use nenechi::anime::AnimeRepository;
use nenechi::anime::FakeAnimeRepository;
use nenechi::jellyfin::anime::{AnimeResolver as OrganiserResolver, ResolvedSeriesMetadata};
use nenechi::jellyfin::config::SeriesCategory;
use nenechi::media::anime::{AnimeSeasonResolver, AnimeTitleResolver};
use nenechi::media::{AnimeResolver, AnimeResolverError, SeriesMetadataResolver};
use nenechi::myanimelist::{
    AlternativeTitles, Anime, AnimeDetails, Genre, RelatedAnime, RelationType, StartSeason,
    Statistics, StatusStatistics, Studio,
};

fn details(id: u64, title: &str, en: &str, ja: &str, media_type: &str, prequel: Option<u64>) -> AnimeDetails {
    AnimeDetails {
        id,
        title: title.to_string(),
        main_picture: None,
        alternative_titles: AlternativeTitles {
            synonyms: vec![],
            en: Some(en.to_string()),
            ja: Some(ja.to_string()),
        },
        start_date: Some("2016-01-14".to_string()),
        end_date: None,
        synopsis: None,
        rank: None,
        popularity: None,
        num_list_users: 0,
        num_scoring_users: 0,
        nsfw: "white".to_string(),
        created_at: String::new(),
        updated_at: String::new(),
        media_type: media_type.to_string(),
        status: "finished_airing".to_string(),
        genres: vec![Genre { id: 2, name: "Adventure".to_string() }],
        my_list_status: None,
        num_episodes: 10,
        start_season: Some(StartSeason { year: 2016, season: "winter".to_string() }),
        broadcast: None,
        source: None,
        average_episode_duration: Some(1380),
        rating: None,
        pictures: vec![],
        background: None,
        related_anime: prequel
            .map(|id| RelatedAnime {
                node: Anime { id, title: String::new(), main_picture: None },
                relation_type: RelationType::Prequel,
                relation_type_formatted: "Prequel".to_string(),
            })
            .into_iter()
            .collect(),
        related_manga: vec![],
        recommendations: vec![],
        studios: vec![Studio { id: 37, name: "Studio Deen".to_string() }],
        statistics: Statistics {
            status: StatusStatistics {
                watching: "0".to_string(),
                completed: "0".to_string(),
                on_hold: "0".to_string(),
                dropped: "0".to_string(),
                plan_to_watch: "0".to_string(),
            },
            num_list_users: 0,
        },
    }
}

fn result(id: u64, title: &str) -> Anime {
    Anime { id, title: title.to_string(), main_picture: None }
}

/// The KonoSuba series as MyAnimeList describes it: four TV seasons with a
/// movie between the second and the third.
fn konosuba() -> FakeAnimeRepository {
    FakeAnimeRepository::new()
        .with_anime(details(
            30831,
            "Kono Subarashii Sekai ni Shukufuku wo!",
            "KonoSuba: God's Blessing on This Wonderful World!",
            "この素晴らしい世界に祝福を！",
            "tv",
            None,
        ))
        .with_anime(details(
            32937,
            "Kono Subarashii Sekai ni Shukufuku wo! 2",
            "KonoSuba: God's Blessing on This Wonderful World! 2",
            "この素晴らしい世界に祝福を！2",
            "tv",
            Some(30831),
        ))
        .with_anime(details(
            38040,
            "Kono Subarashii Sekai ni Shukufuku wo! Kurenai Densetsu",
            "KonoSuba: God's Blessing on This Wonderful World! Legend of Crimson",
            "この素晴らしい世界に祝福を！紅伝説",
            "movie",
            Some(32937),
        ))
        .with_anime(details(
            49458,
            "Kono Subarashii Sekai ni Shukufuku wo! 3",
            "KonoSuba: God's Blessing on This Wonderful World! 3",
            "この素晴らしい世界に祝福を！3",
            "tv",
            Some(38040),
        ))
        .with_anime(details(
            61203,
            "Kono Subarashii Sekai ni Shukufuku wo! 4",
            "KonoSuba: God's Blessing on This Wonderful World! 4",
            "この素晴らしい世界に祝福を！4",
            "tv",
            Some(49458),
        ))
        .with_search_result(result(38040, "Kono Subarashii Sekai ni Shukufuku wo! Kurenai Densetsu"))
        .with_search_result(result(49458, "Kono Subarashii Sekai ni Shukufuku wo! 3"))
        .with_search_result(result(61203, "Kono Subarashii Sekai ni Shukufuku wo! 4"))
        .with_search_result(result(30831, "Kono Subarashii Sekai ni Shukufuku wo!"))
}

/// K-On! and its second season, found by a search that lists the second
/// season first.
fn k_on() -> FakeAnimeRepository {
    FakeAnimeRepository::with_search("k_on")
        .with_anime(details(5680, "K-On!", "K-On!", "けいおん！", "tv", None))
        .with_anime(details(7791, "K-On!!", "K-On! Season 2", "けいおん！！", "tv", Some(5680)))
        .with_search_result(result(7791, "K-On!!"))
        .with_search_result(result(5680, "K-On!"))
}

#[test]
fn anime_season_resolver_counts_tv_prequels() {
    let resolver = AnimeSeasonResolver::new(konosuba());

    let season = resolver.resolve(61203).unwrap();

    assert_eq!(season, Some(4));
}

#[test]
fn anime_anime_season_resolver_counts_tv_prequels() {
    let resolver = AnimeSeasonResolver::new(konosuba());

    let season = resolver.resolve(61203).unwrap();

    assert_eq!(season, Some(4));
}

#[test]
fn anime_season_resolver_resolve_first_season() {
    let resolver = AnimeSeasonResolver::new(konosuba());

    let season = resolver.resolve_first_season(61203).unwrap();

    assert_eq!(season.is_some(), true);
    let season = season.unwrap();

    assert_eq!(season.id, 30831);
}

#[test]
fn anime_title_resolver_matches_an_alternative_title() {
    let resolver = AnimeTitleResolver::new(konosuba());

    let anime = resolver
        .resolve("KonoSuba God's Blessing on This Wonderful World! 4")
        .unwrap()
        .unwrap();

    assert_eq!(anime.id, 61203);
    assert_eq!(anime.title, "Kono Subarashii Sekai ni Shukufuku wo! 4");
}

#[test]
fn anime_anime_title_resolver_matches_an_alternative_title() {
    let resolver = OrganiserResolver::new(konosuba());

    let anime = resolver
        .resolve_title("KonoSuba God's Blessing on This Wonderful World 4")
        .unwrap()
        .unwrap();

    assert_eq!(anime.id, 61203);
    assert_eq!(anime.title, "Kono Subarashii Sekai ni Shukufuku wo! 4");
}

#[test]
fn anime_resolver_resolves_the_canonical_title_and_season() {
    let resolver = OrganiserResolver::new(konosuba());

    let metadata = resolver
        .resolve_by_title("KonoSuba God's Blessing on This Wonderful World 4")
        .unwrap();

    assert_eq!(
        metadata,
        ResolvedSeriesMetadata {
            title: "Kono Subarashii Sekai ni Shukufuku wo! 4".into(),
            season: 4,
        }
    );
}

#[test]
fn a_movie_between_seasons_does_not_count_as_a_season() {
    let resolver = AnimeSeasonResolver::new(konosuba());

    assert_eq!(resolver.resolve(49458).unwrap(), Some(3));
    assert_eq!(resolver.resolve(38040).unwrap(), Some(3));
    assert_eq!(resolver.resolve(30831).unwrap(), Some(1));
}

#[test]
fn the_organiser_resolves_only_anime_targets_by_directory_name() {
    let resolver = OrganiserResolver::new(konosuba());

    assert_eq!(
        Err(AnimeResolverError::NotAnimeCategory),
        resolver.resolve("/downloads/series/Some Show", SeriesCategory::LiveAction)
    );
    let metadata = resolver
        .resolve("/downloads/anime/KonoSuba God's Blessing on This Wonderful World 3", SeriesCategory::Anime)
        .unwrap();
    assert_eq!(3, metadata.season);
    assert_eq!("Kono Subarashii Sekai ni Shukufuku wo! 3", metadata.title);
    match resolver.resolve("/downloads/anime/Unknown", SeriesCategory::Anime) {
        Err(AnimeResolverError::AnimeNotFound(_)) => {},
        other => panic!("unexpected result: {:?}", other),
    }
}

#[test]
fn anime_resolver_maps_the_matched_anime() {
    let resolver = AnimeResolver::new(konosuba());

    let metadata = resolver
        .resolve_by_title("KonoSuba God's Blessing on This Wonderful World! 4")
        .unwrap();

    assert_eq!(metadata.title, "Kono Subarashii Sekai ni Shukufuku wo!");
    assert_eq!(metadata.season, 4);
}

#[test]
fn anime_resolver_maps_the_matched_anime_k_on_first_season() {
    let resolver = AnimeResolver::new(k_on());

    let metadata = resolver.resolve_by_title("K-On!").unwrap();

    assert_eq!(metadata.title, "K-On!");
    assert_eq!(metadata.season, 1);
}

#[test]
fn anime_resolver_maps_the_matched_anime_k_on_second_season() {
    let resolver = AnimeResolver::new(k_on());

    let metadata = resolver.resolve_by_title("K-On!!").unwrap();

    assert_eq!(metadata.title, "K-On!");
    assert_eq!(metadata.season, 2);
}

#[test]
fn anime_resolver_maps_the_matched_anime_k_on_first_season_by_id() {
    let resolver = AnimeResolver::new(k_on());

    let metadata = resolver.resolve_from_identifier("5680").unwrap();

    assert_eq!(metadata.title, "K-On!");
    assert_eq!(metadata.season, 1);
}

#[test]
fn the_in_memory_repository_hands_out_the_held_details_and_results() {
    let first = details(1, "First", "First EN", "First JA", "tv", None);
    let second = details(2, "Second", "Second EN", "Second JA", "movie", Some(1));
    let repository = FakeAnimeRepository::new()
        .with_anime(first.clone())
        .with_anime(second.clone())
        .with_search_result(result(2, "Second"))
        .with_search_result(result(1, "First"));

    assert_eq!(Some(second), repository.find_by_id(2).unwrap());
    assert_eq!(Some(first), repository.find_by_id(1).unwrap());
    assert_eq!(None, repository.find_by_id(3).unwrap());
    assert_eq!(
        vec![result(2, "Second"), result(1, "First")],
        repository.search("anything").unwrap()
    );
}
