use nenechi::jellyfin::anime::same_title;
use nenechi::jellyfin::command::{execute_jellyfin_command, mount_links, JellyfinCommands};
use nenechi::jellyfin::config::{
    jellyfin_config_path, EpisodeConfig, EpisodeFallback, JellyfinConfig, SeriesCategory,
    SeriesConfig, TargetConfig, TargetType,
};
use nenechi::jellyfin::metadata::{nfo_file_name, poster_file_name, SeriesNfo};
use nenechi::jellyfin::organize::{
    accepts_series_directory, is_media_file, movie_directory_name, movie_entry, movie_item_link,
    prepare_target, series_layout, standalone_movie_link, MovieEntry,
};
use nenechi::jellyfin::pattern::EpisodePatterns;
use nenechi::jellyfin::series::{episode_file_name, episode_link_name, season_directory_name};
use nenechi::media::{Image, MetadataProviderIds, SeriesMetadata};

fn episode_config(patterns: &[&str]) -> EpisodeConfig {
    EpisodeConfig {
        patterns: patterns.iter().map(|value| value.to_string()).collect(),
        fallback: EpisodeFallback::FilesystemOrder,
        start_at: 1,
    }
}

fn series_target() -> TargetConfig {
    TargetConfig {
        name: "anime".to_string(),
        target_type: TargetType::Series,
        source: "/downloads/anime".to_string(),
        destination: "/media/anime".to_string(),
        series: Some(SeriesConfig {
            category: SeriesCategory::Anime,
            episode: episode_config(&[r"(?i)EP(?<episode>\d+)"]),
        }),
        included: vec!["*.mkv".to_string()],
        ignore: vec!["Ignored*".to_string()],
    }
}

fn movies_target() -> TargetConfig {
    TargetConfig {
        name: "movies".to_string(),
        target_type: TargetType::Movies,
        source: "/downloads/movies".to_string(),
        destination: "/media/movies".to_string(),
        series: None,
        included: vec!["*.mkv".to_string()],
        ignore: Vec::new(),
    }
}

fn metadata(title: &str, season: u16, cover: bool) -> SeriesMetadata {
    SeriesMetadata {
        title: title.to_string(),
        original_title: String::new(),
        plot: String::new(),
        year: 2016,
        premiered: String::new(),
        runtime: 24,
        status: "finished_airing".to_string(),
        genre: vec![],
        tag: vec![],
        studio: String::new(),
        id: MetadataProviderIds { mal: Some("30831".to_string()), imdb: None, tmdb: None },
        actor: vec![],
        season,
        season_title: None,
        season_original_title: None,
        cover: if cover {
            Some(Image { content: vec![1, 2, 3], content_type: "image/png".to_string() })
        } else {
            None
        },
    }
}

#[test]
fn title_matching_ignores_case_whitespace_and_punctuation() {
    assert!(same_title(
        "Honzuki no Gekokujou: Shisho ni Naru Tame",
        "honzuki no gekokujou shisho ni naru tame",
    ));
}

#[test]
fn title_matching_keeps_seasons_distinct() {
    assert!(!same_title(
        "Honzuki no Gekokujou 2nd Season",
        "Honzuki no Gekokujou 3rd Season",
    ));
}

#[test]
fn rejects_an_episode_pattern_without_the_named_capture() {
    let episode = episode_config(&[r"EP(\d+)"]);

    assert!(episode.validate("anime").is_err());
}

#[test]
fn extracts_the_named_episode_capture() {
    let patterns = EpisodePatterns::compile(&episode_config(&[r"(?i)EP(?<episode>\d+)"])).unwrap();
    assert_eq!(patterns.extract("Example EP12.mkv").unwrap(), Some(12));
    assert_eq!(patterns.extract("Example.mkv").unwrap(), None);
}

#[test]
fn reports_the_first_pattern_that_does_not_compile() {
    let error = EpisodePatterns::compile(&episode_config(&["(?<episode>\\d+", "EP(\\d+)"]))
        .unwrap_err();
    assert!(error.starts_with("invalid episode pattern \"(?<episode>\\\\d+\": "), "{}", error);
}

#[test]
fn a_valid_configuration_passes_and_an_invalid_ignore_glob_does_not() {
    let config = JellyfinConfig { targets: vec![series_target(), movies_target()] };
    assert_eq!(Ok(()), config.validate());

    let mut broken = series_target();
    broken.ignore = vec!["[".to_string()];
    assert!(JellyfinConfig { targets: vec![broken] }.validate().is_err());

    assert_eq!(
        Err("jellyfin.targets must contain at least one target".to_string()),
        JellyfinConfig { targets: vec![] }.validate()
    );
}

#[test]
fn target_names_must_be_distinct() {
    let config = JellyfinConfig { targets: vec![series_target(), series_target()] };
    assert!(config.validate().is_err());
}

#[test]
fn checks_the_target_directories() {
    let target = series_target();
    assert_eq!(Ok(()), target.validate_source(true, false, false));
    assert_eq!(
        Err("Jellyfin target \"anime\" source /downloads/anime is not a directory".to_string()),
        target.validate_source(false, true, true)
    );
    assert_eq!(
        Err("Jellyfin target \"anime\" destination /media/anime is not a directory".to_string()),
        target.validate_source(true, true, false)
    );
}

#[test]
fn includes_and_ignores_by_relative_path_or_file_name() {
    let target = series_target();
    assert!(target.includes("/downloads/anime/Show/E01.mkv"));
    assert!(!target.includes("/downloads/anime/Show/E01.mp4"));
    assert!(target.ignores("/downloads/anime/Ignored Example"));
    assert!(!target.ignores("/downloads/anime/Show"));
}

#[test]
fn names_seasons_and_episodes() {
    assert_eq!("Season 02", season_directory_name(2));
    assert_eq!("Season 12", season_directory_name(12));
    assert_eq!("KonoSuba - S01E05.mkv", episode_file_name("KonoSuba", 1, 5, "mkv"));
    assert_eq!("KonoSuba - S03E123.mp4", episode_file_name("KonoSuba", 3, 123, "mp4"));
}

#[test]
fn names_the_link_of_an_episode_file() {
    let patterns = EpisodePatterns::compile(&episode_config(&[r"(?i)EP(?<episode>\d+)"])).unwrap();
    let series = metadata("KonoSuba", 2, false);
    assert_eq!(
        Ok("KonoSuba - S02E07.mkv".to_string()),
        episode_link_name(&patterns, "/downloads/anime/KonoSuba 2/KonoSuba ep07.mkv", &series)
    );
    assert_eq!(
        Err("episode file \"/downloads/anime/KonoSuba 2/Extra.mkv\" has no episode_number".to_string()),
        episode_link_name(&patterns, "/downloads/anime/KonoSuba 2/Extra.mkv", &series)
    );
    assert_eq!(
        Err("episode file \"/downloads/anime/KonoSuba 2/EP01\" has no extension".to_string()),
        episode_link_name(&patterns, "/downloads/anime/KonoSuba 2/EP01", &series)
    );
}

#[test]
fn only_mounts_targets_of_the_right_kind() {
    assert_eq!(
        Err("Jellyfin target \"movies\" is not a series target".to_string()),
        prepare_target(&movies_target(), TargetType::Series, true, true, true)
    );
    assert_eq!(
        Err("Jellyfin target \"anime\" is not a movies target".to_string()),
        prepare_target(&series_target(), TargetType::Movies, true, true, true)
    );
    assert_eq!(Ok(()), prepare_target(&series_target(), TargetType::Series, true, true, true));
}

#[test]
fn takes_series_directories_and_media_files() {
    let target = series_target();
    assert!(accepts_series_directory(&target, "/downloads/anime/Show", true, false));
    assert!(!accepts_series_directory(&target, "/downloads/anime/Show", true, true));
    assert!(!accepts_series_directory(&target, "/downloads/anime/Ignored Show", true, false));
    assert!(!accepts_series_directory(&target, "/downloads/anime/file.mkv", false, false));
    assert!(is_media_file(&target, "/downloads/anime/Show/E01.mkv", true));
    assert!(!is_media_file(&target, "/downloads/anime/Show/E01.mkv", false));
}

#[test]
fn the_first_season_describes_the_series() {
    let layout = series_layout("/media/anime", &metadata("KonoSuba", 1, true));
    assert_eq!("/media/anime/KonoSuba", layout.series_directory);
    assert_eq!("/media/anime/KonoSuba/Season 01", layout.season_directory);
    assert_eq!("/media/anime/KonoSuba", layout.nfo_directory);
    assert!(!layout.nfo_for_season);
    assert_eq!(
        vec!["/media/anime/KonoSuba".to_string(), "/media/anime/KonoSuba/Season 01".to_string()],
        layout.poster_directories
    );
}

#[test]
fn a_later_season_describes_itself() {
    let layout = series_layout("/media/anime", &metadata("KonoSuba", 3, true));
    assert_eq!("/media/anime/KonoSuba/Season 03", layout.nfo_directory);
    assert!(layout.nfo_for_season);
    assert_eq!(vec!["/media/anime/KonoSuba/Season 03".to_string()], layout.poster_directories);

    let without_cover = series_layout("/media/anime", &metadata("KonoSuba", 3, false));
    assert!(without_cover.poster_directories.is_empty());
}

#[test]
fn names_the_metadata_files() {
    assert_eq!("season.nfo", nfo_file_name(true));
    assert_eq!("tvshow.nfo", nfo_file_name(false));
    assert_eq!(Ok("poster.png".to_string()), poster_file_name("image/png"));
    assert_eq!(Ok("poster.svg".to_string()), poster_file_name("image/svg+xml"));
    assert_eq!(
        Err("unsupported image content type: text/html".to_string()),
        poster_file_name("text/html")
    );
}

#[test]
fn the_nfo_prefers_the_season_titles() {
    let mut series = metadata("KonoSuba", 2, false);
    series.season_title = Some("KonoSuba 2".to_string());
    let nfo = SeriesNfo::from(series.clone());
    assert_eq!("KonoSuba 2", nfo.title);
    assert_eq!("", nfo.original_title);
    assert_eq!(2, nfo.season);
    assert_eq!(2016, nfo.year);
}

#[test]
fn links_a_standalone_movie_in_its_own_directory() {
    let target = movies_target();
    assert_eq!(
        MovieEntry::Standalone,
        movie_entry(&target, "/downloads/movies/Example: Movie?.mkv", false, true, false)
    );
    assert_eq!(
        Ok("/media/movies/Example_ Movie_/Example_ Movie_.mkv".to_string()),
        standalone_movie_link(&target, "/downloads/movies/Example: Movie?.mkv")
    );
    assert_eq!(
        MovieEntry::Skip,
        movie_entry(&target, "/downloads/movies/notes.txt", false, true, false)
    );
    assert_eq!(
        MovieEntry::Skip,
        movie_entry(&target, "/downloads/movies/link.mkv", true, true, false)
    );
}

#[test]
fn links_the_files_of_a_movie_directory_in_place() {
    let target = movies_target();
    assert_eq!(
        MovieEntry::Directory,
        movie_entry(&target, "/downloads/movies/Working", false, false, true)
    );
    let name = movie_directory_name("/downloads/movies/Working: Cut").unwrap();
    assert_eq!("Working_ Cut", name);
    assert_eq!(
        Ok("/media/movies/Working_ Cut/Extras/Making of_.mkv".to_string()),
        movie_item_link(
            &target,
            &name,
            "/downloads/movies/Working: Cut",
            "/downloads/movies/Working: Cut/Extras/Making of?.mkv"
        )
    );
}

#[test]
fn adds_up_the_links_of_the_targets_that_were_mounted() {
    let results = vec![Ok(3), Err("broken".to_string()), Ok(4)];
    assert_eq!(7, mount_links(&results));
    assert_eq!(0, mount_links(&vec![]));
}

#[test]
fn reports_a_failed_mount() {
    assert_eq!(Ok(()), execute_jellyfin_command(&JellyfinCommands::Mount, Ok(())));
    assert_eq!(
        Err("subcommand mount failed: no targets".to_string()),
        execute_jellyfin_command(&JellyfinCommands::Mount, Err("no targets".to_string()))
    );
}

#[test]
fn finds_the_jellyfin_configuration() {
    assert_eq!(
        Ok("/etc/nenechi/conf.d/jellyfin.yaml".to_string()),
        jellyfin_config_path(Some("/etc/nenechi/conf.d"))
    );
    assert!(jellyfin_config_path(None).is_err());
}

#[test]
fn episode_numbers_are_read_as_std_parses_them() {
    let patterns =
        EpisodePatterns::compile(&episode_config(&[r"EP(?<episode>[+]?[0-9]+)"])).unwrap();
    assert_eq!(patterns.extract("Example EP+7.mkv").unwrap(), Some(7));
    assert_eq!(patterns.extract("Example EP007.mkv").unwrap(), Some(7));
    assert_eq!(patterns.extract("Example EP4294967295.mkv").unwrap(), Some(u32::MAX));
    let error = patterns.extract("Example EP4294967296.mkv").unwrap_err();
    assert_eq!(
        error,
        "invalid episode number \"4294967296\" in file \"Example EP4294967296.mkv\": number too large to fit in target type"
    );
}
