//! Domain models and core data structures.
//!
//! This module defines the central entities of the application — artists,
//! albums and tracks — together with the playback policy enums, the search
//! query value object, a track's durable identity, and the track-list
//! helpers the rest of the library shares.

use vstd::prelude::*;

verus! {

use vstd::string::{StrSliceExecFns, StringExecFns};

/// An artist as stored in the catalog.
#[derive(Debug)]
pub struct Artist {
    pub id: i32,
    pub name: String,
}

impl Clone for Artist {
    /// A copy equal to the original.
    fn clone(&self) -> (res: Artist)
        ensures
            res == *self,
    {
        Artist { id: self.id, name: self.name.clone() }
    }
}

/// An album as stored in the catalog, linked to its artist.
#[derive(Debug)]
pub struct Album {
    pub id: i32,
    pub title: String,
    pub artist_id: i32,
}

impl Clone for Album {
    /// A copy equal to the original.
    fn clone(&self) -> (res: Album)
        ensures
            res == *self,
    {
        Album { id: self.id, title: self.title.clone(), artist_id: self.artist_id }
    }
}

/// A track row as stored in the catalog.
#[derive(Debug)]
pub struct Track {
    pub id: i32,
    pub title: String,
    pub track_number: i32,
    pub album_id: i32,
    pub filename: String,
}

impl Clone for Track {
    /// A copy equal to the original.
    fn clone(&self) -> (res: Track)
        ensures
            res == *self,
    {
        Track {
            id: self.id,
            title: self.title.clone(),
            track_number: self.track_number,
            album_id: self.album_id,
            filename: self.filename.clone(),
        }
    }
}

/// A user rating attached to a track's durable identity.
#[derive(Debug, Clone, Copy, PartialEq, Eq, Structural)]
pub enum Rating {
    Like,
    Neutral,
    Dislike,
}

/// Full track metadata as used throughout playback and browsing.
///
/// A `TrackInfo` is an immutable value; whichever collection holds one owns
/// its own copy. `durable_id` is a stable hash of the identifying tags,
/// correlating the file with persisted statistics independent of database
/// row identity.
#[derive(Debug)]
pub struct TrackInfo {
    pub track_id: i32,
    pub durable_id: i64,
    pub track_title: String,
    pub track_number: i32,
    /// Duration of the track in whole seconds.
    pub duration: i64,
    pub genre: Option<String>,
    pub year: Option<i64>,
    pub album_title: String,
    pub artist_name: String,
    pub filename: String,
    pub play_count: i64,
    pub rating: Rating,
}

impl Clone for TrackInfo {
    /// A copy equal to the original, so that verified code can rely on the
    /// duplicate carrying the same metadata.
    fn clone(&self) -> (res: TrackInfo)
        ensures
            res == *self,
    {
        TrackInfo {
            track_id: self.track_id,
            durable_id: self.durable_id,
            track_title: self.track_title.clone(),
            track_number: self.track_number,
            duration: self.duration,
            genre: match &self.genre {
                Some(g) => Some(g.clone()),
                None => None,
            },
            year: self.year,
            album_title: self.album_title.clone(),
            artist_name: self.artist_name.clone(),
            filename: self.filename.clone(),
            play_count: self.play_count,
            rating: self.rating,
        }
    }
}

/// Whether playback is bound to one ad-hoc track or to playlist-driven
/// sequencing.
#[derive(Debug, Clone, Copy, PartialEq, Eq, Structural)]
pub enum PlayMode {
    PlayOne,
    Playlist,
}

/// Policy applied at queue exhaustion during playlist playback.
#[derive(Debug, Clone, Copy, PartialEq, Eq, Structural)]
pub enum RepeatMode {
    NoRepeat,
    RepeatOne,
    RepeatAll,
}

/// The main panel currently shown by the presentation layer.
#[derive(Debug, Clone, Copy, PartialEq, Eq, Structural)]
pub enum MainView {
    Playlist,
    Search,
    Favourites,
    Browse,
    Catalog,
}

/// A free-text search request, with one field per searchable column.
#[derive(Debug)]
pub struct SearchQuery {
    pub search: String,
    pub artist: String,
    pub album: String,
    pub track: String,
}

impl Clone for SearchQuery {
    /// A copy equal to the original.
    fn clone(&self) -> (res: SearchQuery)
        ensures
            res == *self,
    {
        SearchQuery {
            search: self.search.clone(),
            artist: self.artist.clone(),
            album: self.album.clone(),
            track: self.track.clone(),
        }
    }
}

/// Minimum length of a query field before a search is run against storage.
pub const MIN_SEARCH_LEN: usize = 3;

impl SearchQuery {
    /// At least one field is long enough for the search to be run.
    pub open spec fn spec_can_search(self) -> bool {
        ||| self.search@.len() >= MIN_SEARCH_LEN
        ||| self.artist@.len() >= MIN_SEARCH_LEN
        ||| self.album@.len() >= MIN_SEARCH_LEN
        ||| self.track@.len() >= MIN_SEARCH_LEN
    }

    /// Whether this query is substantial enough to run: a query is only
    /// forwarded to storage when some field reaches the minimum length.
    pub fn can_search(&self) -> (r: bool)
        ensures
            r == self.spec_can_search(),
    {
        self.search.as_str().unicode_len() >= MIN_SEARCH_LEN
            || self.artist.as_str().unicode_len() >= MIN_SEARCH_LEN
            || self.album.as_str().unicode_len() >= MIN_SEARCH_LEN
            || self.track.as_str().unicode_len() >= MIN_SEARCH_LEN
    }

    /// A query matching on the artist name only.
    pub fn for_artist(artist: String) -> (q: SearchQuery)
        ensures
            q.search@.len() == 0,
            q.artist == artist,
            q.album@.len() == 0,
            q.track@.len() == 0,
    {
        SearchQuery {
            search: String::new(),
            artist: artist,
            album: String::new(),
            track: String::new(),
        }
    }

    /// A query matching on the album title only.
    pub fn for_album(album: String) -> (q: SearchQuery)
        ensures
            q.search@.len() == 0,
            q.artist@.len() == 0,
            q.album == album,
            q.track@.len() == 0,
    {
        SearchQuery {
            search: String::new(),
            artist: String::new(),
            album: album,
            track: String::new(),
        }
    }

    /// A query matching on the track title only.
    pub fn for_track(track: String) -> (q: SearchQuery)
        ensures
            q.search@.len() == 0,
            q.artist@.len() == 0,
            q.album@.len() == 0,
            q.track == track,
    {
        SearchQuery {
            search: String::new(),
            artist: String::new(),
            album: String::new(),
            track: track,
        }
    }
}

/// What the 64-bit xxh3 hash of a text comes to. The same characters give
/// the same hash, on every machine; nothing shorter can say which.
pub uninterp spec fn xxh3_of(s: Seq<char>) -> u64;

/// Relies on `xxhash_rust::xxh3::xxh3_64`: a pure digest of the text's
/// bytes, depending on its characters alone.
#[verifier::external_body]
fn xxh3_hash(s: &str) -> (r: u64)
    ensures
        r == xxh3_of(s@),
{
    xxhash_rust::xxh3::xxh3_64(s.as_bytes())
}

/// The text whose hash identifies a track durably: its identifying tags,
/// separated by bars.
pub open spec fn durable_key(
    artist: Seq<char>,
    album: Seq<char>,
    track_number: u32,
    title: Seq<char>,
) -> Seq<char> {
    artist + seq!['|'] + album + seq!['|'] + crate::format::dec_digits(track_number as nat)
        + seq!['|'] + title
}

/// The durable identity of a track: a stable hash of artist, album, track
/// number and title, correlating a file with persisted statistics
/// independent of database row identity.
pub fn durable_track_id(
    artist: &str,
    album: &str,
    track_number: u32,
    title: &str,
) -> (r: u64)
    ensures
        r == xxh3_of(durable_key(artist@, album@, track_number, title@)),
{
    let mut key = String::from_str(artist);
    key.append("|");
    key.append(album);
    key.append("|");
    let number = crate::format::u64_dec(track_number as u64);
    key.append(number.as_str());
    key.append("|");
    key.append(title);
    proof {
        reveal_strlit("|");
        assert(key@ =~= durable_key(artist@, album@, track_number, title@));
    }
    xxh3_hash(key.as_str())
}

/// Whether an id occurs in a list of track ids.
pub fn contains_id(ids: &Vec<i32>, id: i32) -> (r: bool)
    ensures
        r == ids@.contains(id),
{
    let mut i: usize = 0;
    while i < ids.len()
        invariant
            0 <= i <= ids@.len(),
            forall|k: int| 0 <= k < i ==> ids@[k] != id,
        decreases ids@.len() - i,
    {
        if ids[i] == id {
            assert(ids@.contains(id));
            return true;
        }
        i = i + 1;
    }
    false
}

/// Copies a track list element by element.
pub fn clone_track_list(v: &Vec<TrackInfo>) -> (out: Vec<TrackInfo>)
    ensures
        out@ == v@,
{
    let mut out: Vec<TrackInfo> = Vec::new();
    let mut i: usize = 0;
    while i < v.len()
        invariant
            0 <= i <= v@.len(),
            out@ == v@.subrange(0, i as int),
        decreases v@.len() - i,
    {
        out.push(v[i].clone());
        proof {
            assert(v@.subrange(0, i + 1) =~= v@.subrange(0, i as int).push(v@[i as int]));
        }
        i = i + 1;
    }
    proof {
        assert(v@.subrange(0, v@.len() as int) =~= v@);
    }
    out
}

/// Keeps exactly the tracks whose id is absent from the given list.
pub fn retain_absent(v: &Vec<TrackInfo>, ids: &Vec<i32>) -> (out: Vec<TrackInfo>)
    ensures
        out@ == v@.filter(|t: TrackInfo| !ids@.contains(t.track_id)),
{
    let mut out: Vec<TrackInfo> = Vec::new();
    let mut i: usize = 0;
    while i < v.len()
        invariant
            0 <= i <= v@.len(),
            out@ == v@.subrange(0, i as int).filter(|t: TrackInfo| !ids@.contains(t.track_id)),
        decreases v@.len() - i,
    {
        let keep = !contains_id(ids, v[i].track_id);
        if keep {
            out.push(v[i].clone());
        }
        proof {
            reveal(Seq::filter);
            assert(v@.subrange(0, i + 1) =~= v@.subrange(0, i as int).push(v@[i as int]));
            assert(v@.subrange(0, i + 1).drop_last() =~= v@.subrange(0, i as int));
        }
        i = i + 1;
    }
    proof {
        assert(v@.subrange(0, v@.len() as int) =~= v@);
    }
    out
}

/// Keeps exactly the tracks whose id is present in the given list.
pub fn select_present(v: &Vec<TrackInfo>, ids: &Vec<i32>) -> (out: Vec<TrackInfo>)
    ensures
        out@ == v@.filter(|t: TrackInfo| ids@.contains(t.track_id)),
{
    let mut out: Vec<TrackInfo> = Vec::new();
    let mut i: usize = 0;
    while i < v.len()
        invariant
            0 <= i <= v@.len(),
            out@ == v@.subrange(0, i as int).filter(|t: TrackInfo| ids@.contains(t.track_id)),
        decreases v@.len() - i,
    {
        let keep = contains_id(ids, v[i].track_id);
        if keep {
            out.push(v[i].clone());
        }
        proof {
            reveal(Seq::filter);
            assert(v@.subrange(0, i + 1) =~= v@.subrange(0, i as int).push(v@[i as int]));
            assert(v@.subrange(0, i + 1).drop_last() =~= v@.subrange(0, i as int));
        }
        i = i + 1;
    }
    proof {
        assert(v@.subrange(0, v@.len() as int) =~= v@);
    }
    out
}

} // verus!
