use nenechi::config::jdownloader::JDownloaderConfig;
use nenechi::config::myanimelist::MyAnimeListConfig;
use nenechi::config::read::{
    config_directory_candidates, config_file_path, find_config_dir, resolve_configs_dir,
};
use nenechi::config::wallpapers::{TidyWallpapersConfig, WallpapersConfig};
use nenechi::config::{CliConfig, DatabaseConfig};

#[test]
fn uses_example_api_base_url_by_default() {
    assert_eq!(JDownloaderConfig::default().api_base_url, "http://localhost:3128");
}

#[test]
fn rejects_an_empty_client_id() {
    assert!(MyAnimeListConfig::default().client_id().is_err());
}

#[test]
fn trims_the_configured_client_id() {
    let config = MyAnimeListConfig { api_key: "  abc123 \n".to_string() };
    assert_eq!(Ok("abc123"), config.client_id());
}

#[test]
fn the_default_configuration_uses_the_documented_services() {
    let config = CliConfig::default();
    assert_eq!("http://localhost:3128", config.jdownloader.api_base_url);
    assert_eq!("http://localhost:8080", config.osaka.base_url);
}

#[test]
fn searches_the_home_directories_before_the_system_one() {
    assert_eq!(
        vec![
            "/home/megumin/.nenechi".to_string(),
            "/home/megumin/.config/nenechi".to_string(),
            "/etc/nenechi".to_string(),
        ],
        config_directory_candidates(Some("/home/megumin"))
    );
    assert_eq!(vec!["/etc/nenechi".to_string()], config_directory_candidates(None));
    assert_eq!("/etc/nenechi/config.yaml", config_file_path("/etc/nenechi"));
}

#[test]
fn takes_the_first_directory_that_holds_a_configuration() {
    let directories = config_directory_candidates(Some("/home/megumin"));
    assert_eq!(
        Some("/home/megumin/.config/nenechi".to_string()),
        find_config_dir(&directories, &vec![false, true, true])
    );
    assert_eq!(None, find_config_dir(&directories, &vec![false, false, false]));
    assert_eq!(
        Some("/etc/nenechi/conf.d".to_string()),
        resolve_configs_dir(Some("/etc/nenechi"))
    );
    assert_eq!(None, resolve_configs_dir(None));
}

#[test]
fn checks_the_wallpaper_directories() {
    let config = WallpapersConfig::new("/wallpapers".to_string(), vec![], None);
    assert_eq!(Ok("/wallpapers"), config.directory(true));
    assert_eq!(Err("/wallpapers is not a directory".to_string()), config.directory(false));
    assert_eq!(
        Err("wallpapers.tidy configuration is required".to_string()),
        config.tidy().map(|_| ())
    );

    let empty = WallpapersConfig::new(String::new(), vec![], None);
    assert_eq!(Err("wallpapers.directory is required".to_string()), empty.directory(true));

    let tidy = TidyWallpapersConfig::new("/sorted/ratio".to_string(), "/sorted/tags".to_string());
    assert_eq!(Ok("/sorted/ratio"), tidy.aspect_ratio_directory(true));
    assert_eq!(Err("/sorted/tags is not a directory".to_string()), tidy.tags_directory(false));
}

#[test]
fn places_the_database_file_under_the_home_directory() {
    let config = DatabaseConfig { file: "~/.nenechi/nenechi.db".to_string() };
    assert_eq!("sqlite:///home/megumin/.nenechi/nenechi.db", config.sqlite_uri(Some("/home/megumin")));
    assert_eq!(Some("/home/megumin/.nenechi".to_string()), config.directory(Some("/home/megumin")));
    assert_eq!(Some("nenechi.db".to_string()), config.filename());
    assert_eq!(
        Some("/home/megumin/.nenechi/nenechi.db".to_string()),
        config.path(Some("/home/megumin"))
    );

    let relative = DatabaseConfig::default();
    assert_eq!("sqlite://nenechi-cli.db", relative.sqlite_uri(None));
    assert_eq!(Some("".to_string()), relative.directory(None));
    assert_eq!(Some("nenechi-cli.db".to_string()), relative.path(None));
}

#[test]
fn client_ids_lose_only_unicode_white_space() {
    let config = MyAnimeListConfig { api_key: "\u{3000}\u{a0}\t abc\u{2009}\n".to_string() };
    assert_eq!(Ok("abc"), config.client_id());
    let config = MyAnimeListConfig { api_key: "\u{200b}abc".to_string() };
    assert_eq!(Ok("\u{200b}abc"), config.client_id());
    let config = MyAnimeListConfig { api_key: "\u{85}\u{2028}\u{2029}\u{202f}\u{205f}\u{1680}".to_string() };
    assert!(config.client_id().is_err());
}
