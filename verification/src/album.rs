//! Album data: where it stands in a page, and when it makes an album worth keeping.

use vstd::prelude::*;

use crate::text::{contains_text, text_of};

verus! {

/// The pattern of a page with album data; its first group is the data itself.
pub const ALBUM_PATTERN: &'static str =
    "(?msi)<script.*image\\s*:\\s?(\\{.*?\\}),\r?\n.*?</script>";

/// The group of [`ALBUM_PATTERN`] that holds the data.
pub const ALBUM_GROUP: usize = 1;

/// The images of an album, as far as they matter here.
pub struct AlbumImages {
    pub count: usize,
}

/// The data of an album, as far as it matters here.
pub struct Album {
    pub title: Option<String>,
    pub description: Option<String>,
    pub album_images: Option<AlbumImages>,
}

/// Whether a text is there and not empty.
pub open spec fn filled(t: Option<String>) -> bool {
    t is Some && t->0@.len() > 0
}

impl Album {
    /// An album counts when it has images, a title or a description.
    pub open spec fn counts(self) -> bool {
        ||| self.album_images is Some && self.album_images->0.count > 0
        ||| filled(self.title)
        ||| filled(self.description)
    }

    /// Whether the album is worth keeping.
    pub fn has_content(&self) -> (r: bool)
        ensures
            r == self.counts(),
            self.album_images is Some && self.album_images->0.count >= 1 ==> r,
    {
        let pictured = match &self.album_images {
            Some(images) => images.count > 0,
            None => false,
        };
        pictured || is_filled(&self.title) || is_filled(&self.description)
    }
}

/// Whether a text is there and not empty.
fn is_filled(t: &Option<String>) -> (r: bool)
    ensures
        r == filled(*t),
{
    match t {
        Some(t) => !t.as_str().is_empty(),
        None => false,
    }
}

/// A compiled pattern of the `regex` crate, opaque here.
#[verifier::external_type_specification]
#[verifier::external_body]
pub struct ExRegex(regex::Regex);

/// Why a pattern does not compile, opaque here.
#[verifier::external_type_specification]
#[verifier::external_body]
pub struct ExRegexError(regex::Error);

/// What `regex::Regex::new` returns for a pattern.
pub uninterp spec fn regex_new(pattern: Seq<char>) -> Result<regex::Regex, regex::Error>;

/// The text of a capture group in the leftmost match of a pattern, as `regex::Regex::captures`
/// finds it. There is none where nothing matches or the group took no part in the match.
pub uninterp spec fn regex_group(
    regex: regex::Regex,
    text: Seq<char>,
    group: nat,
) -> Option<Seq<char>>;

/// The album data in the text of a page.
pub open spec fn album_data(body: Seq<char>) -> Option<Seq<char>> {
    regex_group(regex_new(ALBUM_PATTERN@)->Ok_0, body, ALBUM_GROUP as nat)
}

/// Calls `regex::Regex::new` on the pattern of album data. What comes out depends on the pattern
/// alone, and this pattern is a valid one, far below the size limit.
#[verifier::external_body]
fn compile(pattern: &str) -> (r: Result<regex::Regex, regex::Error>)
    requires
        pattern@ == ALBUM_PATTERN@,
    ensures
        r == regex_new(pattern@),
        r is Ok,
{
    regex::Regex::new(pattern)
}

/// Calls `regex::Regex::captures`, and `get` and `as_str` on what it found: the text of a capture
/// group in the leftmost match. It depends on the pattern, the text and the group alone, and it is
/// a piece of the text.
#[verifier::external_body]
fn capture(regex: &regex::Regex, text: &str, group: usize) -> (r: Option<String>)
    ensures
        text_of(r) == regex_group(*regex, text@, group as nat),
        r matches Some(piece) ==> contains_text(text@, piece@),
{
    Some(regex.captures(text)?.get(group)?.as_str().to_string())
}

/// [`ALBUM_PATTERN`], compiled once and used for every page.
pub struct AlbumPattern {
    regex: regex::Regex,
}

impl AlbumPattern {
    #[verifier::type_invariant]
    spec fn compiled(self) -> bool {
        regex_new(ALBUM_PATTERN@) == Ok::<regex::Regex, regex::Error>(self.regex)
    }

    /// Compiles the pattern.
    pub fn new() -> (r: Option<AlbumPattern>)
        ensures
            r is Some,
    {
        match compile(ALBUM_PATTERN) {
            Ok(regex) => Some(AlbumPattern { regex }),
            Err(_) => None,
        }
    }

    /// The album data in a page.
    pub fn find(&self, body: &str) -> (r: Option<String>)
        ensures
            text_of(r) == album_data(body@),
            text_of(r) == regex_group(regex_new(ALBUM_PATTERN@)->Ok_0, body@, ALBUM_GROUP as nat),
            r matches Some(data) ==> contains_text(body@, data@),
    {
        proof {
            use_type_invariant(self);
        }
        capture(&self.regex, body, ALBUM_GROUP)
    }
}

} // verus!
