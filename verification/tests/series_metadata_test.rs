use nenechi::jellyfin::series_metadata::{
    SeriesMetadata, SeriesMetadataRepositoryError, SeriesMetadataTable,
};
use uuid::Uuid;

#[test]
fn defaults_season_to_one() {
    let metadata = SeriesMetadata::new("Example".into(), "/series/Example".into(), None).unwrap();

    assert_eq!(metadata.season, 1);
    assert!(Uuid::parse_str(&metadata.id).is_ok());
}

#[test]
fn rejects_season_zero() {
    assert!(SeriesMetadata::new("Example".into(), "/series/Example".into(), Some(0)).is_err());
}

#[test]
fn maps_diesel_query_errors_to_repository_errors() {
    let error = SeriesMetadataRepositoryError::from(diesel::result::Error::NotFound);

    assert!(matches!(
        error,
        SeriesMetadataRepositoryError::Query(diesel::result::Error::NotFound)
    ));
}

#[test]
fn rejects_seasons_that_do_not_fit_in_the_database_column() {
    let metadata = SeriesMetadata::new(
        "Example".into(),
        "/series/Example".into(),
        Some(i64::from(i32::MAX) + 1),
    )
    .unwrap();

    assert!(matches!(
        SeriesMetadataTable::try_from(metadata),
        Err(SeriesMetadataRepositoryError::SeasonOutOfRange(_))
    ));
}

#[test]
fn trims_the_title_and_refuses_blank_fields() {
    let metadata = SeriesMetadata::new("  Example  ".into(), "/series/Example".into(), Some(2)).unwrap();
    assert_eq!("Example", metadata.title);
    assert_eq!(2, metadata.season);
    assert_eq!(
        Err("series title cannot be empty".to_string()),
        SeriesMetadata::new("   ".into(), "/series".into(), None)
    );
    assert_eq!(
        Err("series path cannot be empty".to_string()),
        SeriesMetadata::new("Example".into(), " ".into(), None)
    );
}

#[test]
fn records_read_back_from_their_rows() {
    let metadata = SeriesMetadata::from_directory("/series/Example Show", Some(3)).unwrap();
    assert_eq!("Example Show", metadata.title);
    let row = SeriesMetadataTable::try_from(metadata.clone()).unwrap();
    assert_eq!(3, row.season);
    assert_eq!(metadata, SeriesMetadata::try_from(row).unwrap());
}

#[test]
fn reports_repository_errors() {
    let error = SeriesMetadataRepositoryError::from(diesel::result::Error::NotFound);
    assert!(error.to_string().starts_with("database query failed: "));
}

#[test]
fn new_records_get_hyphenated_version_seven_ids() {
    let metadata = SeriesMetadata::new("Example".into(), "/series/Example".into(), None).unwrap();
    let id: Vec<char> = metadata.id.chars().collect();
    assert_eq!(36, id.len());
    for (i, c) in id.iter().enumerate() {
        if i == 8 || i == 13 || i == 18 || i == 23 {
            assert_eq!('-', *c);
        } else {
            assert!(c.is_ascii_digit() || ('a'..='f').contains(c));
        }
    }
    assert_eq!('7', id[14]);
    assert!(['8', '9', 'a', 'b'].contains(&id[19]));
    assert_eq!(7, Uuid::parse_str(&metadata.id).unwrap().get_version_num());
}
