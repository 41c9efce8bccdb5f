//! An album, as a tag writer reads it.

use vstd::prelude::*;
use crate::picture::Picture;

verus! {

/// An album: a title, and optionally an artist and a cover picture.
#[derive(Debug)]
pub struct Album<'a> {
    pub title: &'a str,
    pub artist: Option<&'a str>,
    pub cover: Option<Picture<'a>>,
}

impl<'a> Album<'a> {
    /// The album with this title and nothing else.
    pub open spec fn titled(title: &'a str) -> Self {
        Album { title, artist: None, cover: None }
    }

    /// This album with the artist set.
    pub open spec fn credited(self, artist: &'a str) -> Self {
        Album { title: self.title, artist: Some(artist), cover: self.cover }
    }

    /// This album with the cover set.
    pub open spec fn covered(self, cover: Picture<'a>) -> Self {
        Album { title: self.title, artist: self.artist, cover: Some(cover) }
    }

    /// The album with this title, artist and cover.
    pub open spec fn complete(title: &'a str, artist: &'a str, cover: Picture<'a>) -> Self {
        Album { title, artist: Some(artist), cover: Some(cover) }
    }

    /// Starts an album: the title is set, artist and cover are absent.
    pub fn with_title(title: &'a str) -> (r: Self)
        ensures
            r == Self::titled(title),
    {
        Self { title, artist: None, cover: None }
    }

    /// Sets the artist and leaves title and cover as they are.
    pub fn and_artist(self, artist: &'a str) -> (r: Self)
        ensures
            r == self.credited(artist),
    {
        let mut album = self;
        album.artist = Some(artist);
        album
    }

    /// Sets the cover and leaves title and artist as they are.
    pub fn and_cover(self, cover: Picture<'a>) -> (r: Self)
        ensures
            r == self.covered(cover),
    {
        let mut album = self;
        album.cover = Some(cover);
        album
    }

    /// An album with all three fields set.
    pub fn with_all(title: &'a str, artist: &'a str, cover: Picture<'a>) -> (r: Self)
        ensures
            r == Self::complete(title, artist, cover),
    {
        Self { title, artist: Some(artist), cover: Some(cover) }
    }
}

/// An album built from a title and an artist has no cover.
pub proof fn lemma_no_cover_until_set<'a>(title: &'a str, artist: &'a str)
    ensures
        Album::titled(title).credited(artist).cover is None,
        Album::titled(title).credited(artist).title == title,
        Album::titled(title).credited(artist).artist == Some(artist),
{
}

/// Building an album in one step gives what the builder chain gives, and the
/// order in which artist and cover are set does not matter.
pub proof fn lemma_with_all_is_chain<'a>(title: &'a str, artist: &'a str, cover: Picture<'a>)
    ensures
        Album::complete(title, artist, cover) == Album::titled(title).credited(artist).covered(
            cover,
        ),
        Album::complete(title, artist, cover) == Album::titled(title).covered(cover).credited(
            artist,
        ),
{
}

} // verus!
