use nenechi::image::{is_image_file, AspectRatio, ImageDetails};

#[test]
fn aspect_ratio_names_read_back() {
    for ratio in [AspectRatio::Landscape, AspectRatio::Portrait, AspectRatio::Square] {
        assert_eq!(Ok(ratio), AspectRatio::from_string(&ratio.to_string()));
    }
    assert_eq!("landscape", AspectRatio::Landscape.to_string());
    assert_eq!("portrait", AspectRatio::Portrait.to_string());
    assert_eq!("square", AspectRatio::Square.to_string());
}

#[test]
fn refuses_an_unknown_aspect_ratio_name() {
    assert_eq!(
        Err("Invalid aspect ratio value: Landscape".to_string()),
        AspectRatio::from_string(&"Landscape".to_string())
    );
}

#[test]
fn resolves_the_aspect_ratio_from_the_dimensions() {
    let square = ImageDetails::from_dimensions(640, 640);
    assert_eq!(640, square.width);
    assert_eq!(640, square.height);
    assert_eq!(AspectRatio::Square, square.aspect_ratio);

    assert_eq!(AspectRatio::Landscape, ImageDetails::resolve_aspect_ratio(1920, 1080));
    assert_eq!(AspectRatio::Portrait, ImageDetails::resolve_aspect_ratio(1080, 1920));
}

#[test]
fn a_turned_image_turns_its_aspect_ratio() {
    assert_eq!(AspectRatio::Landscape, ImageDetails::resolve_aspect_ratio(300, 200));
    assert_eq!(AspectRatio::Portrait, ImageDetails::resolve_aspect_ratio(200, 300));
}

#[test]
fn recognises_image_files_by_their_extension() {
    assert!(is_image_file("wallpapers/megumin.jpg"));
    assert!(is_image_file("wallpapers/aqua.PNG"));
    assert!(!is_image_file("wallpapers/notes.txt"));
    assert!(!is_image_file("wallpapers/no_extension"));
}

#[test]
fn recognises_the_image_crate_extensions_in_any_ascii_case() {
    for ext in [
        "avif", "jpg", "jpeg", "jfif", "png", "apng", "gif", "webp", "tif", "tiff", "tga", "dds",
        "bmp", "ico", "hdr", "exr", "pbm", "pam", "ppm", "pgm", "pnm", "ff", "qoi",
    ] {
        assert!(is_image_file(&format!("wallpapers/a.{}", ext)));
        assert!(is_image_file(&format!("wallpapers/a.{}", ext.to_ascii_uppercase())));
    }
    assert!(!is_image_file("wallpapers/a.pcx"));
    assert!(!is_image_file("wallpapers/a.jpg.txt"));
    assert!(!is_image_file("wallpapers/.png"));
}
