use nenechi::models::{Wallpaper, WallpaperAspectRatio, WallpaperMetadata, WallpaperTable};

#[test]
fn stored_shapes_read_back() {
    for ratio in [
        WallpaperAspectRatio::Landscape,
        WallpaperAspectRatio::Portrait,
        WallpaperAspectRatio::Square,
    ] {
        assert_eq!(Ok(ratio), WallpaperAspectRatio::from_string(&ratio.to_string()));
    }
    assert_eq!(
        Err("Invalid aspect ratio value: landscape".to_string()),
        WallpaperAspectRatio::from_string(&"landscape".to_string())
    );
}

#[test]
fn a_stored_shape_is_read_from_the_metadata_row() {
    let mut metadata =
        WallpaperMetadata::new("id".to_string(), None, "[]".to_string(), "wide".to_string());
    assert_eq!(None, metadata.aspect_ratio());
    metadata.set_aspect_ratio(WallpaperAspectRatio::Portrait);
    assert_eq!(Some(WallpaperAspectRatio::Portrait), metadata.aspect_ratio());
}

#[test]
fn wallpapers_survive_their_rows() {
    let wallpaper = Wallpaper {
        id: "01890a5d".to_string(),
        pixiv_illustration_id: Some("89839830".to_string()),
        tags: vec!["cat".to_string(), "sky".to_string()],
        aspect_ratio: WallpaperAspectRatio::Landscape,
    };
    let row = WallpaperTable::try_from(wallpaper.clone()).unwrap();
    assert_eq!("[\"cat\",\"sky\"]", row.tags());
    assert_eq!("Landscape", row.aspect_ratio());
    assert_eq!(wallpaper, Wallpaper::try_from(row).unwrap());
}

#[test]
fn refuses_rows_with_unreadable_columns() {
    let bad_tags =
        WallpaperTable::new("id".to_string(), None, "not json".to_string(), "Square".to_string());
    assert!(Wallpaper::try_from(bad_tags).is_err());
    let bad_shape = WallpaperTable::new("id".to_string(), None, "[]".to_string(), "wide".to_string());
    assert_eq!(
        Err("Invalid aspect ratio value: wide".to_string()),
        Wallpaper::try_from(bad_shape)
    );
}
