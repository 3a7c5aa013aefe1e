use nenechi::anime::command::{execute_anime_command, AnimeCommands};
use nenechi::anime::download::{
    anime_destination, count_episodes, download_progress, is_episode, resolve_links,
    AnimeDownloadError, DownloadProgress,
};
use nenechi::anime::{AnimeRepositoryError, FakeAnimeRepository};
use nenechi::jdownloader::{DownloadLink, JDownloaderError};
use nenechi::media::AnimeResolverError;
use nenechi::osaka::{DownloadLinks, Links, OsakaError};

fn provider(sub: Option<&[&str]>) -> Option<DownloadLinks> {
    Some(DownloadLinks {
        sub: sub.map(|links| links.iter().map(|link| link.to_string()).collect()),
        dub: None,
    })
}

fn link(uuid: i64, finished: bool) -> DownloadLink {
    DownloadLink {
        uuid,
        name: format!("episode {}", uuid),
        bytes_loaded: 0,
        bytes_total: 0,
        speed: 0,
        status: None,
        finished,
    }
}

#[test]
fn test_is_episode() {
    let path = "/path/to/anime/episode_01.mp4";
    let patterns = vec!["*.mp4".to_string()];

    let result = is_episode(path, &patterns);

    assert!(result.is_ok());
    assert_eq!(true, result.unwrap());
}

#[test]
fn an_invalid_pattern_fails_the_check_unless_an_earlier_one_matched() {
    let path = "/path/to/anime/episode_01.mp4";
    assert_eq!(Ok(true), is_episode(path, &vec!["*.mp4".to_string(), "[".to_string()]));
    assert!(is_episode(path, &vec!["[".to_string(), "*.mp4".to_string()]).is_err());
    assert_eq!(Ok(false), is_episode(path, &vec!["*.mkv".to_string()]));
    assert_eq!(Ok(false), is_episode(path, &vec![]));
}

#[test]
fn counts_the_episodes_already_downloaded() {
    let entries = vec![
        "/anime/Show/episode_01.mp4".to_string(),
        "/anime/Show/notes.txt".to_string(),
        "/anime/Show/episode_02.mkv".to_string(),
    ];
    let patterns = vec!["*.mp4".to_string(), "*.mkv".to_string()];
    assert_eq!(2, count_episodes(&entries, &patterns).unwrap());
    assert_eq!(0, count_episodes(&vec![], &vec!["[".to_string()]).unwrap());
    assert!(matches!(
        count_episodes(&entries, &vec!["[".to_string()]),
        Err(AnimeDownloadError::Other(_))
    ));
}

#[test]
fn prefers_mega_then_the_other_providers_in_order() {
    let links = Links {
        pdrain: provider(Some(&["https://pdrain/1"])),
        mega: provider(Some(&["https://mega/1", "https://mega/2"])),
        mp4upload: None,
        n1fichier: None,
        transfer_it: None,
    };
    assert_eq!(
        vec!["https://mega/1".to_string(), "https://mega/2".to_string()],
        resolve_links(&links).unwrap()
    );

    let links = Links {
        pdrain: None,
        mega: None,
        mp4upload: None,
        n1fichier: provider(Some(&["https://1fichier/1"])),
        transfer_it: provider(Some(&["https://transfer/1"])),
    };
    assert_eq!(vec!["https://1fichier/1".to_string()], resolve_links(&links).unwrap());
}

#[test]
fn reports_missing_providers_and_missing_subtitled_links() {
    match resolve_links(&Links::default()) {
        Err(AnimeDownloadError::LinksNotAvailable(m)) => assert_eq!("no download provider found", m),
        other => panic!("unexpected result: {:?}", other),
    }

    let links = Links { mega: provider(None), pdrain: provider(Some(&["https://pdrain/1"])), ..Links::default() };
    match resolve_links(&links) {
        Err(AnimeDownloadError::LinksNotAvailable(m)) => assert_eq!("no SUB links found", m),
        other => panic!("unexpected result: {:?}", other),
    }
}

#[test]
fn downloads_a_series_into_its_sanitized_title() {
    assert_eq!(
        "/media/anime/Honzuki no Gekokujou Shisho",
        anime_destination("/media/anime", "Honzuki no Gekokujou: Shisho")
    );
}

#[test]
fn follows_the_progress_of_a_download_job() {
    assert_eq!(DownloadProgress::NotStarted, download_progress(&vec![], 2));
    assert_eq!(
        DownloadProgress::Pending { finished: 1 },
        download_progress(&vec![link(1, true), link(2, false)], 2)
    );
    assert_eq!(
        DownloadProgress::Finished,
        download_progress(&vec![link(1, true), link(2, true)], 2)
    );
}

#[test]
fn reports_download_failures() {
    let osaka = AnimeDownloadError::from_osaka_error(OsakaError::Client("timeout".to_string()));
    assert_eq!(
        "osaka error: error extracting links, maybe url is not supported: client error: timeout",
        osaka.to_string()
    );
    let jdownloader =
        AnimeDownloadError::from_jdownloader_error(JDownloaderError::HTTP("refused".to_string()));
    assert_eq!("JDownloader error: http error: refused", jdownloader.to_string());
    let metadata = AnimeDownloadError::from_resolver_error(AnimeResolverError::SeasonNotFound);
    assert_eq!("metadata error: season not found", metadata.to_string());
    assert_eq!("io error: denied", AnimeDownloadError::IO("denied".to_string()).to_string());
    assert_eq!("bad", AnimeDownloadError::Other("bad".to_string()).to_string());
}

#[test]
fn reports_a_failed_anime_subcommand() {
    let command = AnimeCommands::Download { url: "https://example.test".to_string(), incremental: false };
    assert_eq!("download", command.to_string());
    assert_eq!(Ok(()), execute_anime_command(&command, Ok(())));
    assert_eq!(
        Err("subcommand download failed: downloader failed: x".to_string()),
        execute_anime_command(&command, Err("downloader failed: x".to_string()))
    );
}

#[test]
fn repository_errors_keep_their_messages() {
    assert_eq!(
        "cache lock error: poisoned",
        AnimeRepositoryError::CacheLock("poisoned".to_string()).to_string()
    );
    assert_eq!(
        "create instance error: no key",
        AnimeRepositoryError::CreateInstance("no key".to_string()).to_string()
    );
    let _ = FakeAnimeRepository::with_search("k_on");
}
