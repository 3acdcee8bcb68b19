//! Caller-supplied item metadata and its default resolution.
//!
//! The metadata is finalized by the caller and taken as authoritative: the
//! core never re-reads tags. Only three fields have defaults: the title
//! falls back to the file stem, the artist to `Unknown Artist`, and the
//! album to `Unknown Album`.

use vstd::prelude::*;
use crate::paths::{basename_of, stem_of};
use crate::paths::file_stem_string;

verus! {

/// Finalized metadata of one upload item. The duration is in whole seconds.
#[derive(Debug, Clone, PartialEq)]
pub struct UploadItemMetadata {
    pub title: Option<String>,
    pub artist: Option<String>,
    pub album: Option<String>,
    pub track_number: Option<u32>,
    pub duration_sec: Option<u64>,
    pub genre: Option<String>,
    pub composer: Option<String>,
    pub year: Option<i32>,
    pub comments: Option<String>,
}

/// One item of a submitted batch: the caller's stable id, the absolute path
/// of the audio file, and its finalized metadata.
#[derive(Debug, Clone, PartialEq)]
pub struct UploadItemInput {
    pub id: String,
    pub path: String,
    pub metadata: UploadItemMetadata,
}

/// The effective title: the given title, or the file stem of the input path.
pub open spec fn resolved_title(m: UploadItemMetadata, path: Seq<char>) -> Seq<char> {
    match m.title {
        Some(t) => t@,
        None => stem_of(basename_of(path)),
    }
}

/// The effective artist: the given artist, or `Unknown Artist`.
pub open spec fn resolved_artist(m: UploadItemMetadata) -> Seq<char> {
    match m.artist {
        Some(a) => a@,
        None => "Unknown Artist"@,
    }
}

/// The effective album name: the given album, or `Unknown Album`.
pub open spec fn resolved_album(m: UploadItemMetadata) -> Seq<char> {
    match m.album {
        Some(a) => a@,
        None => "Unknown Album"@,
    }
}

/// The effective genre list: the given genre as a one-element list, or none.
pub open spec fn resolved_genres(m: UploadItemMetadata) -> Seq<Seq<char>> {
    match m.genre {
        Some(g) => seq![g@],
        None => Seq::empty(),
    }
}

impl UploadItemMetadata {
    /// The effective title for an item stored at `path`.
    pub fn title_for(&self, path: &str) -> (r: String)
        ensures
            r@ == resolved_title(*self, path@),
    {
        match &self.title {
            Some(t) => t.clone(),
            None => file_stem_string(path),
        }
    }

    /// The effective artist.
    pub fn artist_name(&self) -> (r: String)
        ensures
            r@ == resolved_artist(*self),
    {
        match &self.artist {
            Some(a) => a.clone(),
            None => "Unknown Artist".to_owned(),
        }
    }

    /// The effective album name.
    pub fn album_name(&self) -> (r: String)
        ensures
            r@ == resolved_album(*self),
    {
        match &self.album {
            Some(a) => a.clone(),
            None => "Unknown Album".to_owned(),
        }
    }

    /// The effective genre list.
    pub fn genre_list(&self) -> (r: Vec<String>)
        ensures
            r@.map_values(|s: String| s@) == resolved_genres(*self),
    {
        let mut r: Vec<String> = Vec::new();
        match &self.genre {
            Some(g) => {
                r.push(g.clone());
            },
            None => {},
        }
        proof {
            assert(r@.map_values(|s: String| s@) =~= resolved_genres(*self));
        }
        r
    }
}

} // verus!
