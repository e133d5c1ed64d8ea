//! View-backing state for the playlist, search and search-result panels.
//!
//! These hold the plain data behind each panel: the listed tracks, which
//! rows are selected, and whether the panel is the active one. Drawing is
//! left to the surrounding application.

use vstd::prelude::*;

use crate::model::{select_present, TrackInfo};

verus! {

/// The most recent search results, as handed to the presentation layer.
pub struct Search {
    tracks: Vec<TrackInfo>,
}

impl Search {
    pub closed spec fn tracks_seq(self) -> Seq<TrackInfo> {
        self.tracks@
    }

    /// A search-result store with no results yet.
    pub fn new() -> (s: Search)
        ensures
            s.tracks_seq().len() == 0,
    {
        Search { tracks: Vec::new() }
    }

    /// Replaces the stored results.
    pub fn set_tracks(&mut self, tracks: Vec<TrackInfo>)
        ensures
            final(self).tracks_seq() == tracks@,
    {
        self.tracks = tracks;
    }

    /// The stored results.
    pub fn tracks(&self) -> (r: &Vec<TrackInfo>)
        ensures
            r@ == self.tracks_seq(),
    {
        &self.tracks
    }
}

/// State behind the playlist panel.
pub struct PlaylistView {
    pub tracks: Vec<TrackInfo>,
    pub is_active: bool,
}

impl PlaylistView {
    /// An empty, inactive playlist panel.
    pub fn new() -> (v: PlaylistView)
        ensures
            v.tracks@.len() == 0,
            !v.is_active,
    {
        PlaylistView { tracks: Vec::new(), is_active: false }
    }

    /// Replaces the listed tracks.
    pub fn set_tracks(&mut self, tracks: Vec<TrackInfo>)
        ensures
            final(self).tracks@ == tracks@,
            final(self).is_active == old(self).is_active,
    {
        self.tracks = tracks;
    }

    /// Appends tracks at the end of the listing.
    pub fn add_tracks(&mut self, tracks: Vec<TrackInfo>)
        ensures
            final(self).tracks@ == old(self).tracks@ + tracks@,
            final(self).is_active == old(self).is_active,
    {
        let mut tracks = tracks;
        self.tracks.append(&mut tracks);
    }
}

/// State behind the search-results panel: the listed tracks, the committed
/// row selection (by track id) and the cursor row.
pub struct SearchView {
    pub tracks: Vec<TrackInfo>,
    pub selection: Vec<i32>,
    pub cursor: Option<usize>,
    pub is_active: bool,
}

impl SearchView {
    /// An empty, inactive search panel.
    pub fn new() -> (v: SearchView)
        ensures
            v.tracks@.len() == 0,
            v.selection@.len() == 0,
            v.cursor is None,
            !v.is_active,
    {
        SearchView { tracks: Vec::new(), selection: Vec::new(), cursor: None, is_active: false }
    }

    /// Replaces the listed tracks, drops any selection, and puts the cursor
    /// on the first row when there is one.
    pub fn set_tracks(&mut self, tracks: Vec<TrackInfo>)
        ensures
            final(self).tracks@ == tracks@,
            final(self).selection@.len() == 0,
            final(self).cursor == if tracks@.len() == 0 {
                Option::<usize>::None
            } else {
                Option::<usize>::Some(0usize)
            },
            final(self).is_active == old(self).is_active,
    {
        self.tracks = tracks;
        self.selection = Vec::new();
        if self.tracks.len() == 0 {
            self.cursor = None;
        } else {
            self.cursor = Some(0);
        }
    }

    /// Copies of the tracks whose id is in the committed selection, in
    /// listing order.
    pub fn clone_selected_tracks(&self) -> (r: Vec<TrackInfo>)
        ensures
            r@ == self.tracks@.filter(|t: TrackInfo| self.selection@.contains(t.track_id)),
    {
        select_present(&self.tracks, &self.selection)
    }

    /// Drops the committed selection.
    pub fn clear_selection(&mut self)
        ensures
            final(self).selection@.len() == 0,
            final(self).tracks@ == old(self).tracks@,
            final(self).cursor == old(self).cursor,
            final(self).is_active == old(self).is_active,
    {
        self.selection = Vec::new();
    }
}

} // verus!
