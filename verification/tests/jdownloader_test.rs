use nenechi::config::CliConfig;
use nenechi::jdownloader::{
    execute_jdownloader_command, JDownloader, JDownloaderCommands, JDownloaderError,
};
use nenechi::osaka::{OsakaClient, OsakaError};

#[test]
fn creates_client_from_jdownloader_config() {
    let mut config = CliConfig::default();
    config.jdownloader.api_base_url = "http://jdownloader.test:3128".to_string();

    let client = JDownloader::from_config(&config);

    assert_eq!(client.base_url(), "http://jdownloader.test:3128");
}

#[test]
fn trims_the_configured_address_and_its_trailing_slashes() {
    let mut config = CliConfig::default();
    config.jdownloader.api_base_url = "  http://jdownloader.test:3128// ".to_string();

    let client = JDownloader::from_config(&config);

    assert_eq!("http://jdownloader.test:3128", client.base_url());
    assert_eq!("http://jdownloader.test:3128/linkgrabberv2/addLinks", client.add_links_url());
    assert_eq!("http://jdownloader.test:3128/downloadsV2/queryLinks", client.query_links_url());
}

#[test]
fn sends_the_links_one_per_line() {
    let urls = vec!["https://a.test/1".to_string(), "https://a.test/2".to_string()];
    assert_eq!("https://a.test/1\nhttps://a.test/2", JDownloader::links_text(&urls));
}

#[test]
fn reports_jdownloader_errors_and_failed_subcommands() {
    assert_eq!("http error: refused", JDownloaderError::HTTP("refused".to_string()).to_string());
    assert_eq!(
        "client error: serialization error: bad",
        JDownloaderError::from_serialization_error("bad").to_string()
    );

    let command = JDownloaderCommands::Progress { job_id: 7 };
    assert_eq!("progress", command.to_string());
    assert_eq!(
        Err("subcommand progress failed: check progress failed: x".to_string()),
        execute_jdownloader_command(&command, Err("check progress failed: x".to_string()))
    );
}

#[test]
fn asks_osaka_for_links_at_its_configured_address() {
    let mut config = CliConfig::default();
    config.osaka.base_url = "http://osaka.test/".to_string();
    let client = OsakaClient::from_config(&config);
    assert_eq!("http://osaka.test", client.base_url());
    assert_eq!("http://osaka.test/links", client.links_url());
    assert_eq!("client error: down", OsakaError::Client("down".to_string()).to_string());
}
