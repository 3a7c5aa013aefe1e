use nenechi::pixiv::{
    english_tags, verify_response_is_not_error, IllustrationId, PixivUrl, StatusResponse, Tag,
    TagTranslation,
};

#[test]
fn it_should_create_valid_illustration_id() {
    let expected = "110177583";
    let id = IllustrationId::new(expected).unwrap();

    assert_eq!(expected, id.value);
}

#[test]
#[should_panic(expected = "the illustration id should be numeric")]
fn it_should_not_create_invalid_illustration_id() {
    let expected = "www.google.com";
    IllustrationId::new(expected).unwrap();
}

#[test]
fn it_should_create_valid_url() {
    let expected = "https://www.pixiv.net/en/artworks/110177583";
    let url = PixivUrl::new(expected).unwrap();

    assert_eq!(expected, url.value);
}

#[test]
#[should_panic(expected = "the url is not a valid pixiv url")]
fn it_should_not_create_invalid_url() {
    let expected = "https://www.google.com";
    PixivUrl::new(expected).unwrap();
}

#[test]
fn reads_the_illustration_id_at_the_start_of_a_file_name() {
    let id = IllustrationId::from_file_name("resources/89839830_p0.jpg", "89839830_p0.jpg").unwrap();
    assert_eq!("89839830", id.value);

    let sized = IllustrationId::from_file_name(
        "resources/96912590_p0_master1200.jpg",
        "96912590_p0_master1200.jpg",
    )
    .unwrap();
    assert_eq!("96912590", sized.value);
}

#[test]
fn refuses_a_file_name_without_an_illustration_id() {
    let error = IllustrationId::from_file_name("wallpapers/cat.png", "cat.png").unwrap_err();
    assert_eq!("file name cat.png is invalid", error);
}

#[test]
fn builds_the_api_address_of_an_illustration() {
    let id = IllustrationId::new("110177583").unwrap();
    assert_eq!("https://www.pixiv.net/ajax/illust/110177583?lang=en", id.api_url());
}

#[test]
fn accepts_answers_without_errors_and_reports_the_others() {
    let ok = StatusResponse { error: false, message: String::new() };
    assert!(verify_response_is_not_error(&ok).is_ok());

    let failed = StatusResponse { error: true, message: "not found".to_string() };
    assert_eq!(Err("not found".to_string()), verify_response_is_not_error(&failed));

    let unknown = StatusResponse { error: true, message: String::new() };
    assert_eq!(
        Err("pixiv responded with unknown error or the illustration is not found".to_string()),
        verify_response_is_not_error(&unknown)
    );
}

#[test]
fn keeps_the_english_translation_of_each_tag_in_order() {
    let tags = vec![
        Tag {
            tag: "猫".to_string(),
            romaji: "neko".to_string(),
            translation: TagTranslation { en: "cat".to_string() },
        },
        Tag {
            tag: "空".to_string(),
            romaji: "sora".to_string(),
            translation: TagTranslation { en: "sky".to_string() },
        },
    ];

    assert_eq!(vec!["cat".to_string(), "sky".to_string()], english_tags(&tags));
}

#[test]
fn it_should_create_valid_illustration_id_from_path_with_size() {
    let square_id = IllustrationId::from_file_name(
        "resources/96912590_p0_square1200.jpg",
        "96912590_p0_square1200.jpg",
    )
    .unwrap();
    let master_id = IllustrationId::from_file_name(
        "resources/96912590_p0_master1200.jpg",
        "96912590_p0_master1200.jpg",
    )
    .unwrap();

    assert_eq!("96912590", square_id.value);
    assert_eq!("96912590", master_id.value);
}
