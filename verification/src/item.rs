//! Queue items and the documents written to the document store.

use vstd::prelude::*;
use crate::metadata::UploadItemMetadata;
use crate::metadata::{resolved_title, resolved_artist, resolved_album, resolved_genres};
use crate::paths::{basename_of, ext_of};
use crate::paths::{basename_string, extension_string};
use crate::strings::{opt_view, clone_opt_string};

verus! {

/// One admitted item, owned by the drain pass. The four optional fields
/// record committed side effects: a field is `Some` exactly when the
/// corresponding effect has been committed and must be undone if the item
/// fails or is cancelled.
#[derive(Debug, Clone, PartialEq)]
pub struct UploadQueueItem {
    pub id: u64,
    pub input_path: String,
    pub metadata: UploadItemMetadata,
    pub temp_aac_path: Option<String>,
    pub r2_original_key: Option<String>,
    pub r2_aac_key: Option<String>,
    pub db_track_id: Option<String>,
}

/// No side effect of this item has been committed yet.
pub open spec fn item_untouched(it: UploadQueueItem) -> bool {
    &&& it.temp_aac_path is None
    &&& it.r2_original_key is None
    &&& it.r2_aac_key is None
    &&& it.db_track_id is None
}

/// An album document as the core submits it for insertion. The server
/// assigns the id and the insertion time; the artwork path starts empty.
#[derive(Debug, Clone, PartialEq)]
pub struct AlbumDocument {
    pub name: String,
    pub artist: String,
    pub year: Option<i32>,
    pub genres: Vec<String>,
    pub art_path: Option<String>,
}

/// A track document as the core submits it for insertion. The server
/// assigns the id, the insertion time and the file size.
#[derive(Debug, Clone, PartialEq)]
pub struct TrackDocument {
    pub title: String,
    pub filename: String,
    pub duration_sec: Option<u64>,
    pub track_number: Option<u32>,
    pub album_id: String,
    pub artists: Vec<String>,
    pub original_path: String,
    pub mime_type: String,
    pub genres: Vec<String>,
    pub composer: Option<String>,
    pub comments: Option<String>,
    pub extension: String,
    pub r2_original_key: String,
    pub r2_aac_key: Option<String>,
}

/// What the album document of an item must hold: the resolved album name
/// and artist, the given year and genre, and no artwork path.
pub open spec fn album_document_matches(a: AlbumDocument, m: UploadItemMetadata) -> bool {
    &&& a.name@ == resolved_album(m)
    &&& a.artist@ == resolved_artist(m)
    &&& a.year == m.year
    &&& a.genres@.map_values(|s: String| s@) == resolved_genres(m)
    &&& a.art_path is None
}

/// What the track document of an item must hold, given the album id it
/// references, the object-store keys, and the detected MIME type.
pub open spec fn track_document_matches(
    t: TrackDocument,
    it: UploadQueueItem,
    album_id: Seq<char>,
    mime: Seq<char>,
) -> bool {
    &&& t.title@ == resolved_title(it.metadata, it.input_path@)
    &&& t.filename@ == basename_of(it.input_path@)
    &&& t.duration_sec == it.metadata.duration_sec
    &&& t.track_number == it.metadata.track_number
    &&& t.album_id@ == album_id
    &&& t.artists@.map_values(|s: String| s@) == seq![resolved_artist(it.metadata)]
    &&& t.original_path@ == it.input_path@
    &&& t.mime_type@ == mime
    &&& t.genres@.map_values(|s: String| s@) == resolved_genres(it.metadata)
    &&& opt_view(t.composer) == opt_view(it.metadata.composer)
    &&& opt_view(t.comments) == opt_view(it.metadata.comments)
    &&& t.extension@ == ext_of(basename_of(it.input_path@))
    &&& opt_view(Some(t.r2_original_key)) == opt_view(it.r2_original_key)
    &&& opt_view(t.r2_aac_key) == opt_view(it.r2_aac_key)
}

/// Build the album document for an item's metadata.
pub fn build_album_document(m: &UploadItemMetadata) -> (a: AlbumDocument)
    ensures
        album_document_matches(a, *m),
{
    AlbumDocument {
        name: m.album_name(),
        artist: m.artist_name(),
        year: m.year,
        genres: m.genre_list(),
        art_path: None,
    }
}

/// Build the track document for an item, referencing `album_id` and carrying
/// the committed object-store keys and the detected MIME type.
pub fn build_track_document(it: &UploadQueueItem, album_id: String, mime: String) -> (t:
    TrackDocument)
    requires
        it.r2_original_key is Some,
    ensures
        track_document_matches(t, *it, album_id@, mime@),
{
    let mut artists: Vec<String> = Vec::new();
    artists.push(it.metadata.artist_name());
    proof {
        assert(artists@.map_values(|s: String| s@) =~= seq![resolved_artist(it.metadata)]);
    }
    let orig_key = match &it.r2_original_key {
        Some(k) => k.clone(),
        None => String::new(),
    };
    TrackDocument {
        title: it.metadata.title_for(it.input_path.as_str()),
        filename: basename_string(it.input_path.as_str()),
        duration_sec: it.metadata.duration_sec,
        track_number: it.metadata.track_number,
        album_id,
        artists,
        original_path: it.input_path.clone(),
        mime_type: mime,
        genres: it.metadata.genre_list(),
        composer: clone_opt_string(&it.metadata.composer),
        comments: clone_opt_string(&it.metadata.comments),
        extension: extension_string(it.input_path.as_str()),
        r2_original_key: orig_key,
        r2_aac_key: clone_opt_string(&it.r2_aac_key),
    }
}

} // verus!
