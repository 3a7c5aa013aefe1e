//! The wallpaper records stored in the index database, and their table rows.

use vstd::prelude::*;
use crate::image::AspectRatio;
use crate::jellyfin::series_metadata::{is_hyphenated_v7_uuid, new_record_id};
use crate::text::{equals, owned, texts};

verus! {

/// The shape of a stored wallpaper.
#[derive(Clone, Copy, Debug, PartialEq, Eq, Structural)]
pub enum WallpaperAspectRatio {
    Landscape,
    Portrait,
    Square,
}

/// The text a shape is stored as.
pub open spec fn wallpaper_aspect_ratio_text(a: WallpaperAspectRatio) -> Seq<char> {
    match a {
        WallpaperAspectRatio::Landscape => "Landscape"@,
        WallpaperAspectRatio::Portrait => "Portrait"@,
        WallpaperAspectRatio::Square => "Square"@,
    }
}

/// The shape a stored text names, if any.
pub open spec fn wallpaper_aspect_ratio_of_text(s: Seq<char>) -> Option<WallpaperAspectRatio> {
    if s == "Landscape"@ {
        Some(WallpaperAspectRatio::Landscape)
    } else if s == "Portrait"@ {
        Some(WallpaperAspectRatio::Portrait)
    } else if s == "Square"@ {
        Some(WallpaperAspectRatio::Square)
    } else {
        None
    }
}

impl WallpaperAspectRatio {
    /// Reads a stored shape; any other text is refused.
    pub fn from_string(value: &String) -> (r: Result<WallpaperAspectRatio, String>)
        ensures
            wallpaper_aspect_ratio_of_text(value@) matches Some(a) ==> r == Ok::<
                WallpaperAspectRatio,
                String,
            >(a),
            wallpaper_aspect_ratio_of_text(value@) is None ==> (r matches Err(m) && m@
                == "Invalid aspect ratio value: "@ + value@),
    {
        if equals(value.as_str(), "Landscape") {
            Ok(WallpaperAspectRatio::Landscape)
        } else if equals(value.as_str(), "Portrait") {
            Ok(WallpaperAspectRatio::Portrait)
        } else if equals(value.as_str(), "Square") {
            Ok(WallpaperAspectRatio::Square)
        } else {
            let mut m = owned("Invalid aspect ratio value: ");
            m.append(value.as_str());
            Err(m)
        }
    }

    /// The text the shape is stored as.
    pub fn to_string(&self) -> (r: String)
        ensures
            r@ == wallpaper_aspect_ratio_text(*self),
    {
        match self {
            WallpaperAspectRatio::Landscape => owned("Landscape"),
            WallpaperAspectRatio::Portrait => owned("Portrait"),
            WallpaperAspectRatio::Square => owned("Square"),
        }
    }
}

/// A stored shape reads back as itself, and a text that reads as a shape is
/// that shape's stored text.
pub proof fn wallpaper_aspect_ratio_round_trip(a: WallpaperAspectRatio, s: Seq<char>)
    ensures
        wallpaper_aspect_ratio_of_text(wallpaper_aspect_ratio_text(a)) == Some(a),
        wallpaper_aspect_ratio_of_text(s) matches Some(b) ==> wallpaper_aspect_ratio_text(b) == s,
{
    reveal_strlit("Landscape");
    reveal_strlit("Portrait");
    reveal_strlit("Square");
    assert("Landscape"@.len() == 9 && "Portrait"@.len() == 8 && "Square"@.len() == 6);
}

/// The metadata row of a wallpaper.
#[derive(Clone, Debug)]
pub struct WallpaperMetadata {
    pub id: String,
    pub pixiv_illustration_id: Option<String>,
    tags: String,
    aspect_ratio: String,
}

impl WallpaperMetadata {
    /// A row with the given columns.
    pub fn new(
        id: String,
        pixiv_illustration_id: Option<String>,
        tags: String,
        aspect_ratio: String,
    ) -> (m: WallpaperMetadata)
        ensures
            m.spec_id() == id,
            m.spec_pixiv_illustration_id() == pixiv_illustration_id,
            m.tags() == tags@,
            m.stored_aspect_ratio() == aspect_ratio@,
    {
        WallpaperMetadata { id, pixiv_illustration_id, tags, aspect_ratio }
    }

    /// The id column.
    pub closed spec fn spec_id(&self) -> String {
        self.id
    }

    /// The illustration id column.
    pub closed spec fn spec_pixiv_illustration_id(&self) -> Option<String> {
        self.pixiv_illustration_id
    }

    /// The stored tags column.
    pub closed spec fn tags(&self) -> Seq<char> {
        self.tags@
    }

    /// The stored aspect-ratio column.
    pub closed spec fn stored_aspect_ratio(&self) -> Seq<char> {
        self.aspect_ratio@
    }

    /// The shape of the wallpaper, when the column holds a valid one.
    pub fn aspect_ratio(&self) -> (r: Option<WallpaperAspectRatio>)
        ensures
            r == wallpaper_aspect_ratio_of_text(self.stored_aspect_ratio()),
    {
        match WallpaperAspectRatio::from_string(&self.aspect_ratio) {
            Ok(r) => Some(r),
            Err(_) => None,
        }
    }

    /// Stores a shape.
    pub fn set_aspect_ratio(&mut self, aspect_ratio: WallpaperAspectRatio)
        ensures
            final(self).stored_aspect_ratio() == wallpaper_aspect_ratio_text(aspect_ratio),
            final(self).spec_id() == old(self).spec_id(),
            final(self).spec_pixiv_illustration_id() == old(self).spec_pixiv_illustration_id(),
            final(self).tags() == old(self).tags(),
    {
        self.aspect_ratio = aspect_ratio.to_string();
    }
}

/// A shape that was stored reads back as the same shape.
pub proof fn stored_aspect_ratio_reads_back(m: WallpaperMetadata, a: WallpaperAspectRatio)
    requires
        m.stored_aspect_ratio() == wallpaper_aspect_ratio_text(a),
    ensures
        wallpaper_aspect_ratio_of_text(m.stored_aspect_ratio()) == Some(a),
{
    wallpaper_aspect_ratio_round_trip(a, m.stored_aspect_ratio());
}

/// The JSON text `serde_json::to_string` writes for a list of strings.
pub uninterp spec fn json_of_strings(tags: Seq<Seq<char>>) -> Seq<char>;

/// What `serde_json::from_str::<Vec<String>>` reads from a text: the list,
/// or the text of its error.
pub uninterp spec fn strings_of_json(text: Seq<char>) -> Result<Seq<Seq<char>>, Seq<char>>;

/// `serde_json::to_string` of a list of strings.
///
/// Trusted: the text is named `json_of_strings` of the strings. serde_json
/// documents that serialising fails only for a failing `Serialize` impl or a
/// map with non-string keys, neither of which a list of strings has.
#[verifier::external_body]
fn strings_to_json(tags: &Vec<String>) -> (r: Result<String, String>)
    ensures
        r is Ok,
        r matches Ok(t) ==> t@ == json_of_strings(texts(tags@)),
{
    match serde_json::to_string(tags) {
        Ok(t) => Ok(t),
        Err(e) => Err(e.to_string()),
    }
}

/// `serde_json::from_str::<Vec<String>>`.
///
/// Trusted: the outcome is named `strings_of_json` of the text.
#[verifier::external_body]
fn strings_from_json(text: &str) -> (r: Result<Vec<String>, String>)
    ensures
        match r {
            Ok(v) => strings_of_json(text@) == Ok::<Seq<Seq<char>>, Seq<char>>(texts(v@)),
            Err(m) => strings_of_json(text@) == Err::<Seq<Seq<char>>, Seq<char>>(m@),
        },
{
    match serde_json::from_str::<Vec<String>>(text) {
        Ok(v) => Ok(v),
        Err(e) => Err(e.to_string()),
    }
}

/// An indexed wallpaper.
#[derive(Clone, Debug, PartialEq, Eq)]
pub struct Wallpaper {
    pub id: String,
    pub pixiv_illustration_id: Option<String>,
    pub tags: Vec<String>,
    pub aspect_ratio: WallpaperAspectRatio,
}

/// The row a wallpaper is stored as: its tags as a JSON list and its shape
/// as text.
#[derive(Clone, Debug)]
pub struct WallpaperTable {
    id: String,
    pixiv_illustration_id: Option<String>,
    tags: String,
    aspect_ratio: String,
}

impl WallpaperTable {
    /// A row with the given columns.
    pub fn new(
        id: String,
        pixiv_illustration_id: Option<String>,
        tags: String,
        aspect_ratio: String,
    ) -> (t: WallpaperTable)
        ensures
            t.spec_id() == id,
            t.spec_pixiv_illustration_id() == pixiv_illustration_id,
            t.spec_tags() == tags@,
            t.spec_aspect_ratio() == aspect_ratio@,
    {
        WallpaperTable { id, pixiv_illustration_id, tags, aspect_ratio }
    }

    pub closed spec fn spec_id(&self) -> String {
        self.id
    }

    pub closed spec fn spec_pixiv_illustration_id(&self) -> Option<String> {
        self.pixiv_illustration_id
    }

    pub closed spec fn spec_tags(&self) -> Seq<char> {
        self.tags@
    }

    pub closed spec fn spec_aspect_ratio(&self) -> Seq<char> {
        self.aspect_ratio@
    }

    /// The tags column.
    pub fn tags(&self) -> (r: &str)
        ensures
            r@ == self.spec_tags(),
    {
        self.tags.as_str()
    }

    /// The aspect-ratio column.
    pub fn aspect_ratio(&self) -> (r: &str)
        ensures
            r@ == self.spec_aspect_ratio(),
    {
        self.aspect_ratio.as_str()
    }

    /// The row of a wallpaper: same id and illustration id, the tags written
    /// as JSON and the shape as its stored text.
    pub fn try_from(value: Wallpaper) -> (r: Result<WallpaperTable, String>)
        ensures
            r matches Ok(t) && t.spec_id() == value.id && t.spec_pixiv_illustration_id()
                == value.pixiv_illustration_id && t.spec_tags() == json_of_strings(
                texts(value.tags@),
            ) && t.spec_aspect_ratio() == wallpaper_aspect_ratio_text(value.aspect_ratio),
    {
        let tags = strings_to_json(&value.tags)?;
        Ok(WallpaperTable {
            id: value.id,
            pixiv_illustration_id: value.pixiv_illustration_id,
            tags,
            aspect_ratio: value.aspect_ratio.to_string(),
        })
    }
}

impl Wallpaper {
    /// The wallpaper of a row: the JSON tags are read back and the shape
    /// parsed; a row with unreadable tags or an unknown shape is refused
    /// with the error of the first failing column.
    pub fn try_from(value: WallpaperTable) -> (r: Result<Wallpaper, String>)
        ensures
            match strings_of_json(value.spec_tags()) {
                Err(e) => r matches Err(m) && m@ == e,
                Ok(tags) => match wallpaper_aspect_ratio_of_text(value.spec_aspect_ratio()) {
                    None => r matches Err(m) && m@ == "Invalid aspect ratio value: "@
                        + value.spec_aspect_ratio(),
                    Some(a) => r matches Ok(w) && w.id == value.spec_id()
                        && w.pixiv_illustration_id == value.spec_pixiv_illustration_id()
                        && texts(w.tags@) == tags && w.aspect_ratio == a,
                },
            },
    {
        let tags = strings_from_json(value.tags.as_str())?;
        let aspect_ratio = WallpaperAspectRatio::from_string(&value.aspect_ratio)?;
        Ok(Wallpaper {
            id: value.id,
            pixiv_illustration_id: value.pixiv_illustration_id,
            tags,
            aspect_ratio,
        })
    }
}

/// The stored shape of an image's shape.
pub open spec fn stored_shape(a: AspectRatio) -> WallpaperAspectRatio {
    match a {
        AspectRatio::Landscape => WallpaperAspectRatio::Landscape,
        AspectRatio::Portrait => WallpaperAspectRatio::Portrait,
        AspectRatio::Square => WallpaperAspectRatio::Square,
    }
}

impl Wallpaper {
    /// A new index record with a fresh id: a version 7 UUID.
    pub fn indexed(pixiv_illustration_id: Option<String>, tags: Vec<String>, shape: AspectRatio) -> (w:
        Wallpaper)
        ensures
            is_hyphenated_v7_uuid(w.id@),
            w.pixiv_illustration_id == pixiv_illustration_id,
            w.tags == tags,
            w.aspect_ratio == stored_shape(shape),
    {
        let aspect_ratio = match shape {
            AspectRatio::Landscape => WallpaperAspectRatio::Landscape,
            AspectRatio::Portrait => WallpaperAspectRatio::Portrait,
            AspectRatio::Square => WallpaperAspectRatio::Square,
        };
        Wallpaper { id: new_record_id(), pixiv_illustration_id, tags, aspect_ratio }
    }
}

} // verus!
