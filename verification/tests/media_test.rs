use nenechi::anime::FakeAnimeRepository;
use nenechi::media::anime::{
    first_season_index, normalize_title, related_anime_ids, same_title, season_number,
    AnimeSeasonResolver, AnimeTitleResolver,
};
use nenechi::media::{AnimeResolver, AnimeResolverError, SeriesMetadata, SeriesMetadataResolver};
use nenechi::myanimelist::{
    AlternativeTitles, Anime, AnimeDetails, Genre, RelatedAnime, RelationType, StartSeason,
    Statistics, StatusStatistics, Studio,
};

fn anime(id: u64, title: &str) -> Anime {
    Anime { id, title: title.to_string(), main_picture: None }
}

fn details(id: u64, title: &str, media_type: &str, prequels: &[u64]) -> AnimeDetails {
    AnimeDetails {
        id,
        title: title.to_string(),
        main_picture: None,
        alternative_titles: AlternativeTitles {
            synonyms: vec![format!("{} synonym", title)],
            en: Some(format!("{} (English)", title)),
            ja: Some(format!("{} (日本語)", title)),
        },
        start_date: Some("2016-01-14".to_string()),
        end_date: None,
        synopsis: Some("A story.".to_string()),
        rank: None,
        popularity: None,
        num_list_users: 0,
        num_scoring_users: 0,
        nsfw: "white".to_string(),
        created_at: String::new(),
        updated_at: String::new(),
        media_type: media_type.to_string(),
        status: "finished_airing".to_string(),
        genres: vec![
            Genre { id: 4, name: "Comedy".to_string() },
            Genre { id: 10, name: "Fantasy".to_string() },
        ],
        my_list_status: None,
        num_episodes: 10,
        start_season: Some(StartSeason { year: 2016, season: "winter".to_string() }),
        broadcast: None,
        source: None,
        average_episode_duration: Some(1440),
        rating: None,
        pictures: vec![],
        background: None,
        related_anime: prequels
            .iter()
            .map(|prequel| RelatedAnime {
                node: anime(*prequel, "prequel"),
                relation_type: RelationType::Prequel,
                relation_type_formatted: "Prequel".to_string(),
            })
            .collect(),
        related_manga: vec![],
        recommendations: vec![],
        studios: vec![Studio { id: 1, name: "Studio Deen".to_string() }],
        statistics: Statistics {
            status: StatusStatistics {
                watching: "0".to_string(),
                completed: "0".to_string(),
                on_hold: "0".to_string(),
                dropped: "0".to_string(),
                plan_to_watch: "0".to_string(),
            },
            num_list_users: 0,
        },
    }
}

fn konosuba() -> FakeAnimeRepository {
    FakeAnimeRepository::new()
        .with_anime(details(30831, "Kono Subarashii Sekai ni Shukufuku wo!", "tv", &[]))
        .with_anime(details(32937, "Kono Subarashii Sekai ni Shukufuku wo! 2", "tv", &[30831]))
        .with_anime(details(38040, "Kono Subarashii Sekai ni Shukufuku wo! Movie", "movie", &[32937]))
        .with_anime(details(49458, "Kono Subarashii Sekai ni Shukufuku wo! 3", "tv", &[38040]))
        .with_search_result(anime(38040, "Kono Subarashii Sekai ni Shukufuku wo! Movie"))
        .with_search_result(anime(49458, "Kono Subarashii Sekai ni Shukufuku wo! 3"))
        .with_search_result(anime(32937, "Kono Subarashii Sekai ni Shukufuku wo! 2"))
}

#[test]
fn anime_title_matching_ignores_case_whitespace_and_punctuation() {
    assert!(same_title(
        "Honzuki no Gekokujou: Shisho ni Naru Tame",
        "honzuki no gekokujou shisho ni naru tame",
    ));
}

#[test]
fn anime_title_matching_keeps_seasons_distinct() {
    assert!(!same_title(
        "Honzuki no Gekokujou 2nd Season",
        "Honzuki no Gekokujou 3rd Season",
    ));
}

#[test]
fn normalizes_titles_by_dropping_illegal_chars_and_case() {
    assert_eq!("konosuba 2!", normalize_title("KonoSuba: 2!"));
}

#[test]
fn season_resolver_counts_tv_prequels() {
    let resolver = AnimeSeasonResolver::new(konosuba());
    assert_eq!(Some(1), resolver.resolve(30831).unwrap());
    assert_eq!(Some(2), resolver.resolve(32937).unwrap());
    assert_eq!(Some(3), resolver.resolve(49458).unwrap());
}

#[test]
fn season_resolver_finds_the_first_season() {
    let resolver = AnimeSeasonResolver::new(konosuba());
    assert_eq!(30831, resolver.resolve_first_season(49458).unwrap().unwrap().id);
    assert_eq!(30831, resolver.resolve_first_season(30831).unwrap().unwrap().id);
    assert_eq!(None, resolver.resolve_first_season(1).unwrap());
}

#[test]
fn title_resolver_matches_an_alternative_title() {
    let resolver = AnimeTitleResolver::new(konosuba());
    let found = resolver.resolve("KONO SUBARASHII SEKAI NI SHUKUFUKU WO! 2 (ENGLISH)").unwrap();
    assert_eq!(32937, found.unwrap().id);
    assert_eq!(None, resolver.resolve("Another Show").unwrap());
}

#[test]
fn resolver_maps_the_matched_anime_as_a_later_season() {
    let resolver = AnimeResolver::new(konosuba());
    let metadata = resolver.resolve_by_title("Kono Subarashii Sekai ni Shukufuku wo! 3").unwrap();

    assert_eq!("Kono Subarashii Sekai ni Shukufuku wo!", metadata.title);
    assert_eq!("Kono Subarashii Sekai ni Shukufuku wo! (日本語)", metadata.original_title);
    assert_eq!(3, metadata.season);
    assert_eq!(Some("Kono Subarashii Sekai ni Shukufuku wo! 3".to_string()), metadata.season_title);
    assert_eq!(Some("49458".to_string()), metadata.id.mal);
    assert_eq!(2016, metadata.year);
    assert_eq!(24, metadata.runtime);
    assert_eq!(vec!["Comedy".to_string(), "Fantasy".to_string()], metadata.genre);
    assert_eq!("Studio Deen", metadata.studio);
}

#[test]
fn resolver_reports_a_title_it_cannot_match() {
    let resolver = AnimeResolver::new(konosuba());
    match resolver.resolve_by_title("Another Show") {
        Err(AnimeResolverError::AnimeNotFound(m)) => assert_eq!(
            "Another Show no resuelto, puede ser que no haya coincidido en la busqueda",
            m
        ),
        other => panic!("unexpected result: {:?}", other),
    }
}

#[test]
fn resolver_reads_an_identifier_and_a_directory_name() {
    let resolver = AnimeResolver::new(konosuba());
    let metadata = resolver.resolve_from_identifier("32937").unwrap();
    assert_eq!(2, metadata.season);
    assert!(resolver.resolve_from_identifier("not a number").is_err());
    assert!(resolver.resolve_from_identifier("1").is_err());

    let from_directory = resolver
        .resolve_from_directory("/downloads/anime/Kono Subarashii Sekai ni Shukufuku wo! 2")
        .unwrap();
    assert_eq!(2, from_directory.season);
}

#[test]
fn converts_details_as_a_first_season() {
    let metadata = SeriesMetadata::from(details(30831, "KonoSuba", "tv", &[]));
    assert_eq!("KonoSuba", metadata.title);
    assert_eq!("KonoSuba (日本語)", metadata.original_title);
    assert_eq!("A story.", metadata.plot);
    assert_eq!("2016-01-14", metadata.premiered);
    assert_eq!(1, metadata.season);
    assert!(metadata.cover.is_none());
}

#[test]
fn lists_the_related_anime_of_a_kind() {
    let anime = details(49458, "KonoSuba 3", "tv", &[38040, 32937]);
    assert_eq!(vec![38040, 32937], related_anime_ids(&anime.related_anime, RelationType::Prequel));
    assert!(related_anime_ids(&anime.related_anime, RelationType::Sequel).is_empty());
}

#[test]
fn walks_the_chain_of_prequels_nearest_first() {
    let resolver = AnimeSeasonResolver::new(konosuba());
    let chain = resolver.prequel_chain(49458).unwrap();
    assert_eq!(vec![38040, 32937, 30831], chain.iter().map(|anime| anime.id).collect::<Vec<_>>());
    assert!(resolver.prequel_chain(30831).unwrap().is_empty());
}

#[test]
fn numbers_seasons_and_finds_the_first_one_in_a_chain() {
    let chain = vec![
        details(38040, "Movie", "movie", &[]),
        details(32937, "Second", "tv", &[]),
        details(30831, "First", "tv", &[]),
        details(1, "Special", "special", &[]),
    ];
    assert_eq!(3, season_number(&chain));
    assert_eq!(Some(2), first_season_index(&chain));
    assert_eq!(1, season_number(&vec![]));
    assert_eq!(None, first_season_index(&vec![details(38040, "Movie", "movie", &[])]));
}
