//! What holds of album data, for every album and every page.

use vstd::prelude::*;

use crate::album::{album_data, regex_group, regex_new, Album, AlbumImages, ALBUM_PATTERN};

verus! {

/// Whether a text is missing or empty.
pub open spec fn blank(t: Option<String>) -> bool {
    match t {
        Some(t) => t@ == Seq::<char>::empty(),
        None => true,
    }
}

/// An album with at least one image counts, whatever its title and description are.
pub proof fn law_images_make_an_album_count(album: Album)
    requires
        album.album_images is Some,
        1 <= album.album_images->0.count,
    ensures
        album.counts(),
{
}

/// An album with a title that is not empty counts, and so does one with such a description.
pub proof fn law_words_make_an_album_count(album: Album)
    requires
        !blank(album.title) || !blank(album.description),
    ensures
        album.counts(),
{
    if !blank(album.title) && album.title->0@.len() == 0 {
        assert(album.title->0@ == Seq::<char>::empty());
    }
    if !blank(album.description) && album.description->0@.len() == 0 {
        assert(album.description->0@ == Seq::<char>::empty());
    }
}

/// An album without images, title and description does not count.
pub proof fn law_empty_album_does_not_count(album: Album)
    requires
        album.album_images is None || album.album_images->0.count == 0,
        blank(album.title),
        blank(album.description),
    ensures
        !album.counts(),
{
}

/// More images never turn an album that counts into one that does not.
pub proof fn law_more_images_keep_an_album(
    title: Option<String>,
    description: Option<String>,
    fewer: usize,
    more: usize,
)
    requires
        fewer <= more,
        (Album { title, description, album_images: Some(AlbumImages { count: fewer }) }).counts(),
    ensures
        (Album { title, description, album_images: Some(AlbumImages { count: more }) }).counts(),
{
}

/// The album data of a page is the first group of the pattern's leftmost match in the whole page,
/// whatever the page holds and however long it is.
pub proof fn law_the_whole_page_is_searched(body: Seq<char>)
    ensures
        album_data(body) == regex_group(
            regex_new("(?msi)<script.*image\\s*:\\s?(\\{.*?\\}),\r?\n.*?</script>"@)->Ok_0,
            body,
            1,
        ),
        ALBUM_PATTERN@ == "(?msi)<script.*image\\s*:\\s?(\\{.*?\\}),\r?\n.*?</script>"@,
{
}

} // verus!
