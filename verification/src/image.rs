//! Image shapes: how an image is classified by its dimensions, and which
//! files are images.

use vstd::prelude::*;
use crate::fs::path_extension;
use crate::text::{equals, owned};

verus! {

/// The shape of an image.
#[derive(Clone, Copy, Debug, PartialEq, Eq, Structural)]
pub enum AspectRatio {
    Landscape,
    Portrait,
    Square,
}

/// The text that names a shape.
pub open spec fn aspect_ratio_text(a: AspectRatio) -> Seq<char> {
    match a {
        AspectRatio::Landscape => "landscape"@,
        AspectRatio::Portrait => "portrait"@,
        AspectRatio::Square => "square"@,
    }
}

/// The shape a text names, if any.
pub open spec fn aspect_ratio_of_text(s: Seq<char>) -> Option<AspectRatio> {
    if s == "landscape"@ {
        Some(AspectRatio::Landscape)
    } else if s == "portrait"@ {
        Some(AspectRatio::Portrait)
    } else if s == "square"@ {
        Some(AspectRatio::Square)
    } else {
        None
    }
}

impl AspectRatio {
    /// Reads a shape from its name; any other text is refused.
    pub fn from_string(value: &String) -> (r: Result<AspectRatio, String>)
        ensures
            aspect_ratio_of_text(value@) matches Some(a) ==> r == Ok::<AspectRatio, String>(a),
            aspect_ratio_of_text(value@) is None ==> (r matches Err(m) && m@
                == "Invalid aspect ratio value: "@ + value@),
    {
        if equals(value.as_str(), "landscape") {
            Ok(AspectRatio::Landscape)
        } else if equals(value.as_str(), "portrait") {
            Ok(AspectRatio::Portrait)
        } else if equals(value.as_str(), "square") {
            Ok(AspectRatio::Square)
        } else {
            let mut m = owned("Invalid aspect ratio value: ");
            m.append(value.as_str());
            Err(m)
        }
    }

    /// The name of the shape.
    pub fn to_string(&self) -> (r: String)
        ensures
            r@ == aspect_ratio_text(*self),
    {
        match self {
            AspectRatio::Landscape => owned("landscape"),
            AspectRatio::Portrait => owned("portrait"),
            AspectRatio::Square => owned("square"),
        }
    }
}

/// Reading back the name of a shape gives the shape, and a text that reads
/// as a shape is that shape's name.
pub proof fn aspect_ratio_names_round_trip(a: AspectRatio, s: Seq<char>)
    ensures
        aspect_ratio_of_text(aspect_ratio_text(a)) == Some(a),
        aspect_ratio_of_text(s) matches Some(b) ==> aspect_ratio_text(b) == s,
{
    reveal_strlit("landscape");
    reveal_strlit("portrait");
    reveal_strlit("square");
    assert("landscape"@.len() == 9 && "portrait"@.len() == 8 && "square"@.len() == 6);
}

/// The shape of an image of the given dimensions.
pub open spec fn shape_of(width: u32, height: u32) -> AspectRatio {
    if width > height {
        AspectRatio::Landscape
    } else if width < height {
        AspectRatio::Portrait
    } else {
        AspectRatio::Square
    }
}

/// Turning an image a quarter turn swaps landscape and portrait and keeps
/// squares square.
pub proof fn shape_of_turned_image(width: u32, height: u32)
    ensures
        shape_of(width, height) == AspectRatio::Landscape <==> shape_of(height, width)
            == AspectRatio::Portrait,
        shape_of(width, height) == AspectRatio::Square <==> shape_of(height, width)
            == AspectRatio::Square,
{
}

/// The dimensions and shape of an image.
#[derive(Clone, Debug)]
pub struct ImageDetails {
    pub width: u32,
    pub height: u32,
    pub aspect_ratio: AspectRatio,
}

impl ImageDetails {
    /// The details of an image with the given dimensions (what
    /// `read_from_path` computes once the app has decoded the file).
    pub fn from_dimensions(width: u32, height: u32) -> (d: ImageDetails)
        ensures
            d.width == width,
            d.height == height,
            d.aspect_ratio == shape_of(width, height),
    {
        ImageDetails { width, height, aspect_ratio: Self::resolve_aspect_ratio(width, height) }
    }

    /// Wider than tall is landscape, taller than wide is portrait, and equal
    /// sides are square.
    pub fn resolve_aspect_ratio(width: u32, height: u32) -> (a: AspectRatio)
        ensures
            a == shape_of(width, height),
    {
        if width > height {
            return AspectRatio::Landscape;
        }
        if width < height {
            return AspectRatio::Portrait;
        }
        AspectRatio::Square
    }
}

/// A character with ASCII upper-case letters lower-cased.
pub open spec fn ascii_lowercase_char(c: char) -> char {
    if 'A' as int <= c as int <= 'Z' as int {
        (c as int + 32) as char
    } else {
        c
    }
}

/// A text with ASCII upper-case letters lower-cased.
pub open spec fn ascii_lowercase(s: Seq<char>) -> Seq<char> {
    s.map_values(|c: char| ascii_lowercase_char(c))
}

/// Whether an extension, lower-cased, names a format of the `image` crate.
pub open spec fn is_image_extension(ext: Seq<char>) -> bool {
    ||| ext == "avif"@
    ||| ext == "jpg"@ || ext == "jpeg"@ || ext == "jfif"@
    ||| ext == "png"@ || ext == "apng"@
    ||| ext == "gif"@
    ||| ext == "webp"@
    ||| ext == "tif"@ || ext == "tiff"@
    ||| ext == "tga"@
    ||| ext == "dds"@
    ||| ext == "bmp"@
    ||| ext == "ico"@
    ||| ext == "hdr"@
    ||| ext == "exr"@
    ||| ext == "pbm"@ || ext == "pam"@ || ext == "ppm"@ || ext == "pgm"@ || ext == "pnm"@
    ||| ext == "ff"@
    ||| ext == "qoi"@
}

/// Whether `image::ImageFormat::from_path` recognises the extension of a
/// path as an image format.
pub open spec fn has_image_extension(path: Seq<char>) -> bool {
    match path_extension(path) {
        Some(ext) => is_image_extension(ascii_lowercase(ext)),
        None => false,
    }
}

/// `image::ImageFormat::from_path`, reduced to whether it finds a format.
///
/// Trusted: the crate takes the path's extension (`Path::extension`),
/// lower-cases its ASCII letters and looks it up in its table of
/// extensions, written out in `is_image_extension`. No file is read.
#[verifier::external_body]
fn image_format_from_path(path: &str) -> (r: bool)
    ensures
        r == has_image_extension(path@),
{
    image::ImageFormat::from_path(std::path::Path::new(path)).is_ok()
}

/// Whether a path names an image file, judged by its extension.
pub fn is_image_file(path: &str) -> (r: bool)
    ensures
        r == has_image_extension(path@),
{
    image_format_from_path(path)
}

} // verus!
