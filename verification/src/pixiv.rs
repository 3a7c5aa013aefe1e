//! Pixiv illustrations: ids, page URLs, the API endpoint of an illustration
//! and the verdict on its answers.

use vstd::prelude::*;
use crate::matching::{
    compile_regex, regex_capture_group, regex_compile_error, regex_indexed_capture,
    regex_is_match, regex_match, regex_valid,
};
use crate::text::owned;

verus! {

/// The expression an illustration id must match.
pub const ID_PATTERN: &'static str = "[0-9]+";

/// The expression of a file name that starts with an illustration id.
pub const FILE_NAME_PATTERN: &'static str = "([0-9]+)_.*";

/// The expression a Pixiv URL must match.
pub const URL_PATTERN: &'static str = ".*\\.?pixiv\\.net";

/// The start of the API address of an illustration.
pub const ILLUSTRATION_API_PREFIX: &'static str = "https://www.pixiv.net/ajax/illust/";

/// The end of the API address of an illustration.
pub const ILLUSTRATION_API_SUFFIX: &'static str = "?lang=en";

/// The id of a Pixiv illustration.
#[derive(Clone, Debug)]
pub struct IllustrationId {
    pub value: String,
}

/// What reading an illustration id from a text gives.
pub open spec fn illustration_id_verdict(id: Seq<char>, r: Result<IllustrationId, String>) -> bool {
    match regex_compile_error(ID_PATTERN@) {
        Some(e) => r matches Err(m) && m@ == e,
        None => if regex_is_match(ID_PATTERN@, id) {
            r matches Ok(v) && v.value@ == id
        } else {
            r matches Err(m) && m@ == "the illustration id should be numeric"@
        },
    }
}

impl IllustrationId {
    /// An illustration id: a text in which `[0-9]+` matches. Any other text
    /// is refused.
    pub fn new(id: &str) -> (r: Result<IllustrationId, String>)
        ensures
            illustration_id_verdict(id@, r),
    {
        match compile_regex(ID_PATTERN) {
            Err(e) => Err(e),
            Ok(()) => {
                if !regex_match(ID_PATTERN, id) {
                    return Err(owned("the illustration id should be numeric"));
                }
                Ok(IllustrationId { value: owned(id) })
            },
        }
    }

    /// The illustration id at the start of a file name such as
    /// `89839830_p0.jpg`: the digits before the first `_` of the match of
    /// `([0-9]+)_.*`. `path` is the file's path, used in the messages; the
    /// app checks that it is a file and takes its name.
    pub fn from_file_name(path: &str, file_name: &str) -> (r: Result<IllustrationId, String>)
        ensures
            regex_compile_error(FILE_NAME_PATTERN@) matches Some(e) ==> (r matches Err(m) && m@
                == e),
            regex_valid(FILE_NAME_PATTERN@) && !regex_is_match(FILE_NAME_PATTERN@, file_name@) ==> (
            r matches Err(m) && m@ == "file name "@ + file_name@ + " is invalid"@),
            regex_valid(FILE_NAME_PATTERN@) && regex_is_match(FILE_NAME_PATTERN@, file_name@) ==> (
            match regex_indexed_capture(FILE_NAME_PATTERN@, file_name@, 1) {
                Some(Some(digits)) => illustration_id_verdict(digits, r),
                _ => r matches Err(m) && m@ == "the illustration id is not present on the file: "@
                    + path@,
            }),
    {
        match compile_regex(FILE_NAME_PATTERN) {
            Err(e) => Err(e),
            Ok(()) => {
                if !regex_match(FILE_NAME_PATTERN, file_name) {
                    let mut m = owned("file name ");
                    m.append(file_name);
                    m.append(" is invalid");
                    return Err(m);
                }
                match regex_capture_group(FILE_NAME_PATTERN, file_name, 1) {
                    Some(Some(digits)) => Self::new(digits.as_str()),
                    _ => {
                        let mut m = owned("the illustration id is not present on the file: ");
                        m.append(path);
                        Err(m)
                    },
                }
            },
        }
    }

    /// The API address of the illustration:
    /// `https://www.pixiv.net/ajax/illust/{id}?lang=en`.
    pub fn api_url(&self) -> (url: String)
        ensures
            url@ == ILLUSTRATION_API_PREFIX@ + self.value@ + ILLUSTRATION_API_SUFFIX@,
    {
        let mut url = owned(ILLUSTRATION_API_PREFIX);
        url.append(self.value.as_str());
        url.append(ILLUSTRATION_API_SUFFIX);
        url
    }
}

/// The address of a Pixiv page.
#[derive(Clone, Debug, PartialEq)]
pub struct PixivUrl {
    pub value: String,
}

impl PixivUrl {
    /// A Pixiv address: a text in which `.*\.?pixiv\.net` matches. Any other
    /// text is refused.
    pub fn new(url: &str) -> (r: Result<PixivUrl, &'static str>)
        ensures
            regex_valid(URL_PATTERN@) && regex_is_match(URL_PATTERN@, url@) ==> (r matches Ok(u)
                && u.value@ == url@),
            !(regex_valid(URL_PATTERN@) && regex_is_match(URL_PATTERN@, url@)) ==> (r matches Err(
                m,
            ) && m@ == "the url is not a valid pixiv url"@),
    {
        let valid = match compile_regex(URL_PATTERN) {
            Ok(()) => regex_match(URL_PATTERN, url),
            Err(_) => false,
        };
        if !valid {
            return Err("the url is not a valid pixiv url");
        }
        Ok(PixivUrl { value: owned(url) })
    }
}

/// The translation of a tag.
#[derive(Clone, Debug, Default)]
pub struct TagTranslation {
    pub en: String,
}

/// A tag of an illustration.
#[derive(Clone, Debug, Default)]
pub struct Tag {
    pub tag: String,
    pub romaji: String,
    pub translation: TagTranslation,
}

/// The image addresses of an illustration.
#[derive(Clone, Debug)]
pub struct Urls {
    pub mini: String,
    pub thumb: String,
    pub small: String,
    pub regular: String,
    pub original: String,
}

/// The status part of a Pixiv API answer.
#[derive(Clone, Debug)]
pub struct StatusResponse {
    pub error: bool,
    pub message: String,
}

/// The message used when Pixiv reports an error without one.
pub const UNKNOWN_ERROR_MESSAGE: &'static str =
    "pixiv responded with unknown error or the illustration is not found";

/// Accepts an answer that reports no error; otherwise fails with Pixiv's
/// message, or a generic one when Pixiv gave none.
pub fn verify_response_is_not_error(status: &StatusResponse) -> (r: Result<(), String>)
    ensures
        !status.error ==> r is Ok,
        status.error && status.message@.len() == 0 ==> (r matches Err(m) && m@
            == UNKNOWN_ERROR_MESSAGE@),
        status.error && status.message@.len() != 0 ==> (r matches Err(m) && m@
            == status.message@),
{
    if !status.error {
        return Ok(());
    }
    if status.message.as_str().is_empty() {
        Err(owned(UNKNOWN_ERROR_MESSAGE))
    } else {
        Err(status.message.clone())
    }
}

/// The English translations of a list of tags, in order.
pub fn english_tags(tags: &Vec<Tag>) -> (r: Vec<String>)
    ensures
        r@.len() == tags@.len(),
        forall|i: int| 0 <= i < tags@.len() ==> #[trigger] r@[i] == tags@[i].translation.en,
{
    let mut r: Vec<String> = Vec::new();
    let mut i: usize = 0;
    while i < tags.len()
        invariant
            i <= tags@.len(),
            r@.len() == i,
            forall|j: int| 0 <= j < i ==> #[trigger] r@[j] == tags@[j].translation.en,
        decreases tags@.len() - i,
    {
        r.push(tags[i].translation.en.clone());
        i = i + 1;
    }
    r
}

} // verus!
