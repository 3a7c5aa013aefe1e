use nenechi::fs::{
    expand_user_dir, join_path, path_match_any_pattern, relative_path, sanitize_filename_component,
    sanitize_relative_path, strip_illegal_chars,
};
use std::path::Path;

const HOME: &str = "/home/megumin";

#[test]
fn expands_a_leading_user_directory() {
    assert_eq!(
        Path::new(&expand_user_dir("~/wallpapers/image.png", Some(HOME))),
        Path::new(HOME).join("wallpapers/image.png")
    );
}

#[test]
fn expands_user_directory_on_its_own() {
    assert_eq!(Path::new(&expand_user_dir("~", Some(HOME))), Path::new(HOME));
}

#[test]
fn leaves_paths_without_a_leading_user_directory_unchanged() {
    assert_eq!(
        Path::new(&expand_user_dir("/var/lib/nenechi", Some(HOME))),
        Path::new("/var/lib/nenechi")
    );
}

#[test]
fn keeps_the_user_directory_without_a_home() {
    assert_eq!("~/wallpapers", expand_user_dir("~/wallpapers", None));
    assert_eq!("~other/wallpapers", expand_user_dir("~other/wallpapers", Some(HOME)));
}

#[test]
fn path_match_any_pattern_returns_true_for_matching_path() {
    let patterns = [
        "**/wallpapers/*.mp4".to_string(),
        "wallpapers/*.avi".to_string(),
        "wallpapers/**/*.png".to_string(),
        "wallpapers/cats".to_string(),
        "wallpapers/**/my_favorites".to_string(),
        "wallpapers/cities/**/*".to_string(),
    ];

    assert_eq!(true, path_match_any_pattern("/Users/megumin/Images/wallpapers/dogs.mp4", &patterns));
    assert_eq!(true, path_match_any_pattern("wallpapers/dogs.avi", &patterns));
    assert_eq!(true, path_match_any_pattern("wallpapers/landscapes/mountain.png", &patterns));
    assert_eq!(true, path_match_any_pattern("wallpapers/cats", &patterns));
    assert_eq!(true, path_match_any_pattern("wallpapers/cats/my_favorites", &patterns));
    assert_eq!(
        true,
        path_match_any_pattern("wallpapers/cats/my_favorites/white-cat.png", &patterns)
    );
    assert_eq!(true, path_match_any_pattern("wallpapers/cities/london/museum", &patterns));
    assert_eq!(true, path_match_any_pattern("wallpapers/cities/london/big-ben.jpeg", &patterns));
    assert_eq!(
        true,
        path_match_any_pattern("wallpapers/cities/london/river/boat.jpeg", &patterns)
    );
}

#[test]
fn invalid_patterns_are_left_out_of_matching() {
    let patterns = ["[".to_string(), "*.png".to_string()];
    assert!(path_match_any_pattern("cat.png", &patterns));
    assert!(!path_match_any_pattern("cat.jpg", &patterns));
    assert!(!path_match_any_pattern("cat.png", &["[".to_string()]));
    assert!(!path_match_any_pattern("cat.png", &[]));
}

#[test]
fn strip_illegal_chars_remove_illegal_chars() {
    let result = strip_illegal_chars("Honzuki no Gekokujou: Shisho ni Naru Tame ni wa Shudan wo Erandeiraremasen - Ryoushu no Youjo");
    assert_eq!(result, "Honzuki no Gekokujou Shisho ni Naru Tame ni wa Shudan wo Erandeiraremasen - Ryoushu no Youjo");

    let result = strip_illegal_chars("K-ON!!");
    assert_eq!(result, "K-ON!!");
}

#[test]
fn stripping_twice_changes_nothing_more() {
    let once = strip_illegal_chars("a<b>c:d\"e/f\\g|h?i*j");
    assert_eq!("abcdefghij", once);
    assert_eq!(once, strip_illegal_chars(&once));
}

#[test]
fn sanitizing_replaces_illegal_chars_with_underscores() {
    assert_eq!("Example_ Movie_", sanitize_filename_component("Example: Movie?"));
    assert_eq!("a_b", sanitize_filename_component("a/b"));
    assert_eq!("Extras/Making of_ Part 1.mkv", sanitize_relative_path("Extras/Making of: Part 1.mkv"));
}

#[test]
fn joins_paths_as_std_does() {
    for (base, child) in [
        ("/media", "anime"),
        ("/media/", "anime"),
        ("", "anime"),
        ("/media", "/absolute"),
        ("media", ""),
    ] {
        assert_eq!(
            Path::new(base).join(child).to_str().unwrap(),
            join_path(base, child),
            "joining {:?} and {:?}",
            base,
            child
        );
    }
}

#[test]
fn takes_paths_relative_to_a_base() {
    assert_eq!("Show/E01.mkv", relative_path("/downloads/Show/E01.mkv", "/downloads"));
    assert_eq!("/elsewhere/E01.mkv", relative_path("/elsewhere/E01.mkv", "/downloads"));
}
