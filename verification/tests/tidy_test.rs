use nenechi::commands::wallpapers::{
    paths_to_index, tidy_directories, wallpaper_links, IndexedWallpaper,
};
use nenechi::config::wallpapers::{TidyWallpapersConfig, WallpapersConfig};
use nenechi::image::AspectRatio;
use nenechi::models::{Wallpaper, WallpaperAspectRatio};

fn strings(values: &[&str]) -> Vec<String> {
    values.iter().map(|v| v.to_string()).collect()
}

fn config(tidy: Option<(&str, &str)>) -> WallpapersConfig {
    WallpapersConfig::new(
        "/wallpapers".to_string(),
        vec![],
        tidy.map(|(a, t)| TidyWallpapersConfig::new(a.to_string(), t.to_string())),
    )
}

#[test]
fn tidy_needs_its_settings_and_existing_link_directories() {
    assert_eq!(
        Err("wallpapers.tidy configuration is required".to_string()),
        tidy_directories(&config(None), true, true)
    );
    assert_eq!(
        Err("wallpapers.tidy.aspect_ratio_directory is required".to_string()),
        tidy_directories(&config(Some(("", "/tags"))), true, true)
    );
    assert_eq!(
        Err("/shapes is not a directory".to_string()),
        tidy_directories(&config(Some(("/shapes", "/tags"))), false, true)
    );
    assert_eq!(
        Err("wallpapers.tidy.tags_directory is required".to_string()),
        tidy_directories(&config(Some(("/shapes", ""))), true, true)
    );
    assert_eq!(
        Err("/tags is not a directory".to_string()),
        tidy_directories(&config(Some(("/shapes", "/tags"))), true, false)
    );
    assert_eq!(
        Ok(("/shapes", "/tags")),
        tidy_directories(&config(Some(("/shapes", "/tags"))), true, true)
    );
}

#[test]
fn tidy_indexes_only_the_images_not_indexed_yet() {
    let candidates = strings(&["/w/a.png", "/w/b.jpg", "/w/c.png", "/w/b.jpg"]);
    let indexed = strings(&["/w/b.jpg", "/w/old.png"]);
    assert_eq!(strings(&["/w/a.png", "/w/c.png"]), paths_to_index(&candidates, &indexed));
    assert_eq!(candidates, paths_to_index(&candidates, &vec![]));
    assert!(paths_to_index(&vec![], &indexed).is_empty());
}

#[test]
fn tidy_links_a_wallpaper_by_shape_and_by_tag() {
    let wallpaper = IndexedWallpaper {
        path: "/w/pixiv/89839830_p0.jpg".to_string(),
        file_name: "89839830_p0.jpg".to_string(),
        aspect_ratio: WallpaperAspectRatio::Landscape,
        tags: strings(&["Re:Zero", "", "..", "Rem/Ram", "sky"]),
    };
    let links: Vec<(String, String)> = wallpaper_links("/shapes", "/tags/", &wallpaper)
        .into_iter()
        .map(|l| (l.link, l.target))
        .collect();
    let target = "/w/pixiv/89839830_p0.jpg".to_string();
    assert_eq!(
        vec![
            ("/shapes/Landscape/89839830_p0.jpg".to_string(), target.clone()),
            ("/tags/Re_Zero/89839830_p0.jpg".to_string(), target.clone()),
            ("/tags/Rem_Ram/89839830_p0.jpg".to_string(), target.clone()),
            ("/tags/sky/89839830_p0.jpg".to_string(), target.clone()),
        ],
        links
    );
}

#[test]
fn a_wallpaper_without_tags_is_linked_by_shape_only() {
    let wallpaper = IndexedWallpaper {
        path: "/w/cat.png".to_string(),
        file_name: "cat.png".to_string(),
        aspect_ratio: WallpaperAspectRatio::Square,
        tags: vec![],
    };
    let links = wallpaper_links("/shapes", "/tags", &wallpaper);
    assert_eq!(1, links.len());
    assert_eq!("/shapes/Square/cat.png", links[0].link);
    assert_eq!("/w/cat.png", links[0].target);
}

#[test]
fn new_wallpaper_records_get_a_fresh_id_and_the_image_shape() {
    let first = Wallpaper::indexed(Some("89839830".to_string()), strings(&["sky"]), AspectRatio::Portrait);
    let second = Wallpaper::indexed(None, vec![], AspectRatio::Square);
    assert_eq!(Some("89839830".to_string()), first.pixiv_illustration_id);
    assert_eq!(strings(&["sky"]), first.tags);
    assert_eq!(WallpaperAspectRatio::Portrait, first.aspect_ratio);
    assert_eq!(WallpaperAspectRatio::Square, second.aspect_ratio);
    assert_eq!(36, first.id.len());
    assert_eq!(Some('7'), first.id.chars().nth(14));
    assert_ne!(first.id, second.id);
}
