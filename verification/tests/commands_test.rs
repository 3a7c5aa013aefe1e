use nenechi::client::MyAnimeListClient;
use nenechi::commands::tidy_wallpapers::{
    execute_wallpapers_command, tidy_wallpapers, TidyWallpapersConfig, WallpapersCommand,
    WallpapersConfig as TidyingConfig,
};
use nenechi::commands::wallpapers::{
    accepts_entry, execute_wallpaper_command, should_index, WallpapersCommands,
};
use nenechi::commands::{execute_command, Commands};
use nenechi::config::wallpapers::WallpapersConfig;
use nenechi::config::CliConfig;
use nenechi::jellyfin::command::JellyfinCommands;
use nenechi::media::command::{execute_media_command, MediaCommands, MediaRun};

fn tidy(all: &str, ratio: &str, tags: &str) -> TidyWallpapersConfig {
    TidyWallpapersConfig {
        all_directory: all.to_string(),
        aspect_ratio_directory: ratio.to_string(),
        tags_directory: tags.to_string(),
    }
}

#[test]
fn names_commands_and_reports_their_failures() {
    let command = Commands::Jellyfin { command: JellyfinCommands::Mount };
    assert_eq!("jellyfin", command.to_string());
    assert_eq!(Ok(()), execute_command(&command, Ok(())));
    assert_eq!(
        Err("command jellyfin failed: subcommand mount failed: x".to_string()),
        execute_command(&command, Err("subcommand mount failed: x".to_string()))
    );
    let media = Commands::Media {
        command: MediaCommands::Metadata { directory: None, write: false, scan: true, mal_id: None },
    };
    assert_eq!("media", media.to_string());
    assert_eq!("wallpapers", Commands::Wallpapers { command: WallpapersCommands::Index }.to_string());
}

#[test]
fn checks_the_sorting_settings_in_order() {
    assert_eq!(Ok(()), tidy("/all", "/ratio", "/tags").validate());
    assert_eq!(Err("all_directory is required".to_string()), tidy("", "", "").validate());
    assert_eq!(
        Err("aspect_ratio_directory is required".to_string()),
        tidy("/all", "", "/tags").validate()
    );
    assert_eq!(Err("tags_directory is required".to_string()), tidy("/all", "/ratio", "").validate());
    assert_eq!(Err("/all is not a directory".to_string()), tidy("/all", "/r", "/t").all_directory(false));
    assert_eq!(Ok("/r"), tidy("/all", "/r", "/t").aspect_ratio_directory(true));
    assert_eq!(Ok("/t"), tidy("/all", "/r", "/t").tags_directory(true));
}

#[test]
fn only_tidy_is_implemented() {
    let config = TidyingConfig { tidy: Some(tidy("/all", "/ratio", "/tags")) };
    assert_eq!("/all", execute_wallpapers_command(WallpapersCommand::Tidy, &config).unwrap().all_directory);
    assert_eq!(
        Err("Not implemented".to_string()),
        execute_wallpapers_command(WallpapersCommand::Index, &config).map(|_| ())
    );
    assert_eq!(
        Err("wallpapers.tidy configuration is required".to_string()),
        execute_wallpapers_command(WallpapersCommand::Tidy, &TidyingConfig::default()).map(|_| ())
    );
    assert_eq!(Ok("/all"), tidy_wallpapers(&tidy("/all", "/ratio", "/tags"), true));
    assert_eq!(
        Err("tags_directory is required".to_string()),
        tidy_wallpapers(&tidy("/all", "/ratio", ""), true)
    );
}

#[test]
fn wallpaper_commands_need_the_wallpaper_directory() {
    let config = WallpapersConfig::new("/wallpapers".to_string(), vec!["**/private/**".to_string()], None);
    assert_eq!(Ok("/wallpapers"), execute_wallpaper_command(WallpapersCommands::Index, &config, true));
    assert_eq!(
        Err("/wallpapers is not a directory".to_string()),
        execute_wallpaper_command(WallpapersCommands::Tidy, &config, false)
    );
    assert_eq!(
        Err("Not implemented".to_string()),
        execute_wallpaper_command(WallpapersCommands::CleanIndex, &config, true)
    );
}

#[test]
fn the_walk_skips_links_and_ignored_paths_and_indexes_images() {
    let ignore = vec!["**/private/**".to_string()];
    assert!(accepts_entry("/wallpapers/cats/cat.png", false, &ignore));
    assert!(!accepts_entry("/wallpapers/cats/cat.png", true, &ignore));
    assert!(!accepts_entry("/wallpapers/private/cat.png", false, &ignore));
    assert!(accepts_entry("/wallpapers/private/cat.png", false, &vec![]));
    assert!(should_index("/wallpapers/cats/cat.png", true));
    assert!(!should_index("/wallpapers/cats/cat.png", false));
    assert!(!should_index("/wallpapers/cats/notes.txt", true));
}

#[test]
fn creates_the_myanimelist_client_from_the_configuration() {
    let mut config = CliConfig::default();
    assert_eq!(
        Err("myanimelist.api_key must contain the MyAnimeList API v2 Client ID".to_string()),
        MyAnimeListClient::create(&config).map(|_| ())
    );
    config.myanimelist.api_key = " abc123 ".to_string();
    assert_eq!("abc123", MyAnimeListClient::create(&config).unwrap().api_key());
    config.myanimelist.api_key = "abc\u{7f}123".to_string();
    assert_eq!(
        Err("fallo al crear el cliente de MyAnimeList: API key no válida: failed to parse header value".to_string()),
        MyAnimeListClient::create(&config).map(|_| ())
    );
}

#[test]
fn scanning_resolves_every_directory_and_leaves_the_id_unused() {
    let scan = MediaCommands::Metadata {
        directory: Some("/anime".to_string()),
        write: true,
        scan: true,
        mal_id: Some("30831".to_string()),
    };
    assert_eq!(
        MediaRun::Recursive { directory: Some("/anime".to_string()), write: true },
        execute_media_command(&scan)
    );

    let single = MediaCommands::Metadata { directory: None, write: false, scan: false, mal_id: Some("30831".to_string()) };
    assert_eq!(
        MediaRun::Single { directory: None, write: false, mal_id: Some("30831".to_string()) },
        execute_media_command(&single)
    );
}
