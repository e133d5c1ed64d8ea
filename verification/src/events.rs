//! Application events and background task requests.
//!
//! Events are the single currency between threads: user input, worker
//! notifications and task results all arrive at the dispatcher as
//! [`AppEvent`] values, in arrival order. Slow work is requested from the
//! task worker as [`AppTask`] values, executed strictly one at a time, in
//! submission order.

use vstd::prelude::*;

use std::sync::mpsc::Sender;

use crate::catalog::{Catalog, CatalogStatus};
use crate::channel::{send_value, ChannelClosed};
use crate::config::AppConfig;
use crate::model::{
    clone_track_list, Album, Artist, MainView, PlayMode, Rating, RepeatMode, SearchQuery, Track,
    TrackInfo,
};
use crate::player::{AudioPlayer, PlayerState};
use crate::queue::{dur_sum, durations_ok, lemma_durations_ok_filter, lemma_dur_sum_filter_le, Queue};
use crate::views::{PlaylistView, Search, SearchView};

verus! {

/// Progress notifications from a running catalog scan.
#[derive(Debug)]
pub enum CatalogEvent {
    Started,
    StartedDirectory(String),
    ProcessedFile(usize, String),
    FinishedDirectory(String),
    Finished(i64),
}

/// An application event, processed by the dispatcher in arrival order.
#[derive(Debug)]
pub enum AppEvent {
    Catalog(CatalogEvent),
    CatalogUpdated,

    SetMainView(MainView),

    PlayTrack(TrackInfo),
    PlayPlaylist,

    AddTracksToPlaylist(Vec<TrackInfo>),
    AddSelectionToPlaylist,

    NewSearchQuery(SearchQuery),
    SearchResultsReady(Vec<TrackInfo>),

    ArtistSelectionChanged(i32),
    AlbumSelectionChanged(i32),
    TrackSelectionChanged(i32),

    SetBrowserArtists(Vec<Artist>),
    SetBrowserAlbums(Vec<Album>),
    SetBrowserTracks(Vec<Track>),

    SetNowPlaying(TrackInfo),

    AddTracksToQueue(Vec<TrackInfo>),

    PlayerStateChanged(PlayerState),
    TitleChanged(String),
    DurationChanged(u64),
    TimeChanged(u64),
    VolumeChanged(u32),
    TrackFinished,

    Tick,

    ExitApplication,

    Error(String),
    FatalError(String),

    AddMatchingArtistToQueue(String),
    AddMatchingAlbumToQueue(String),
    AddMatchingTrackToQueue(String),

    AddSelectedArtistToQueue,
    AddSelectedAlbumToQueue,
    AddSelectedTrackToQueue,

    ClearQueue,
}

/// A request for the background task worker, which owns the sole writable
/// storage handle and runs requests strictly first-in, first-out.
#[derive(Debug)]
pub enum AppTask {
    ScanCatalog,

    Search(SearchQuery),

    GetBrowserArtists,
    GetBrowserAlbums(i32),
    GetBrowserTracks(i32),

    AddArtistToQueue(i32),
    AddAlbumToQueue(i32),
    AddTrackToQueue(i32),
    AddMatchingArtistToQueue(String),
    AddMatchingAlbumToQueue(String),
    AddMatchingTrackToQueue(String),

    PlayTrack(TrackInfo),
    RateTrack(TrackInfo, Rating),
}

/// The playlist-sequencing part of the dispatcher state, as mathematics:
/// the two queue segments and the current selection.
#[verifier::ext_equal]
pub struct SequencerModel {
    pub played: Seq<TrackInfo>,
    pub queued: Seq<TrackInfo>,
    pub selection: Option<TrackInfo>,
}

impl SequencerModel {
    /// How many tracks the queue holds in all.
    pub open spec fn total_len(self) -> nat {
        self.played.len() + self.queued.len()
    }
}

/// What one track-finished event does to the sequencing state, in playlist
/// mode. With an empty queue the selection is cleared. A selection can
/// only move while one exists; under repeat-one it stays where it is.
/// Otherwise the queue advances; at its end it wraps to the front under
/// repeat-all and the selection is cleared under no-repeat.
pub open spec fn finished_step(m: SequencerModel, repeat: RepeatMode) -> SequencerModel {
    if m.total_len() == 0 {
        SequencerModel { played: m.played, queued: m.queued, selection: None }
    } else if m.selection is None {
        m
    } else if repeat == RepeatMode::RepeatOne {
        m
    } else if m.queued.len() > 0 {
        SequencerModel {
            played: m.played.push(m.queued.first()),
            queued: m.queued.drop_first(),
            selection: Some(m.queued.first()),
        }
    } else if repeat == RepeatMode::RepeatAll {
        SequencerModel {
            played: seq![m.played.first()],
            queued: m.played.drop_first(),
            selection: Some(m.played.first()),
        }
    } else {
        SequencerModel { played: m.played, queued: m.queued, selection: None }
    }
}

/// Whether one track-finished event moves the selection (and so issues a
/// play command or clears the now-playing metadata).
pub open spec fn finished_moves(m: SequencerModel, repeat: RepeatMode) -> bool {
    m.total_len() > 0 && m.selection is Some && repeat != RepeatMode::RepeatOne
}

/// The sequencing state after a number of track-finished events.
pub open spec fn finished_steps(m: SequencerModel, repeat: RepeatMode, n: nat) -> SequencerModel
    decreases n,
{
    if n == 0 {
        m
    } else {
        finished_step(finished_steps(m, repeat, (n - 1) as nat), repeat)
    }
}

/// Under repeat-all, in playlist mode, a queue once non-empty never drives
/// the current selection away: however many tracks finish, a selection
/// remains.
pub proof fn lemma_repeat_all_never_exhausts(m: SequencerModel, n: nat)
    requires
        m.total_len() > 0,
        m.selection is Some,
    ensures
        finished_steps(m, RepeatMode::RepeatAll, n).total_len() > 0,
        finished_steps(m, RepeatMode::RepeatAll, n).selection is Some,
    decreases n,
{
    if n > 0 {
        lemma_repeat_all_never_exhausts(m, (n - 1) as nat);
    }
}

/// Under no-repeat, with the playlist already playing — a current
/// selection and a non-empty history — the selection survives as many
/// track-finished events as the future holds, and the one after that
/// clears it: with k tracks still queued, exactly k + 1 events drive the
/// selection away.
pub proof fn lemma_no_repeat_exhausts_exactly(m: SequencerModel, n: nat)
    requires
        m.selection is Some,
        m.played.len() > 0,
        n <= m.queued.len(),
    ensures
        finished_steps(m, RepeatMode::NoRepeat, n).selection is Some,
        finished_steps(m, RepeatMode::NoRepeat, n).queued.len() == m.queued.len() - n,
        finished_steps(m, RepeatMode::NoRepeat, n).played.len() > 0,
        finished_steps(
            m,
            RepeatMode::NoRepeat,
            (m.queued.len() + 1) as nat,
        ).selection is None,
    decreases m.queued.len() + 1 - n,
{
    lemma_no_repeat_exhausts_exactly_from(m, n);
}

/// Helper induction for the exhaustion law, counting up from zero steps.
proof fn lemma_no_repeat_exhausts_exactly_from(m: SequencerModel, n: nat)
    requires
        m.selection is Some,
        m.played.len() > 0,
        n <= m.queued.len(),
    ensures
        finished_steps(m, RepeatMode::NoRepeat, n).selection is Some,
        finished_steps(m, RepeatMode::NoRepeat, n).queued.len() == m.queued.len() - n,
        finished_steps(m, RepeatMode::NoRepeat, n).played.len() > 0,
        finished_steps(
            m,
            RepeatMode::NoRepeat,
            (m.queued.len() + 1) as nat,
        ).selection is None,
    decreases n,
{
    if n == 0 {
        lemma_no_repeat_final_step(m);
    } else {
        lemma_no_repeat_exhausts_exactly_from(m, (n - 1) as nat);
    }
}

/// After consuming the whole future, one more track-finished event clears
/// the selection under no-repeat.
proof fn lemma_no_repeat_final_step(m: SequencerModel)
    requires
        m.selection is Some,
        m.played.len() > 0,
    ensures
        finished_steps(
            m,
            RepeatMode::NoRepeat,
            (m.queued.len() + 1) as nat,
        ).selection is None,
    decreases m.queued.len(),
{
    if m.queued.len() == 0 {
        assert(finished_steps(m, RepeatMode::NoRepeat, 1) == finished_step(
            finished_steps(m, RepeatMode::NoRepeat, 0),
            RepeatMode::NoRepeat,
        ));
    } else {
        let m1 = finished_step(m, RepeatMode::NoRepeat);
        lemma_no_repeat_final_step(m1);
        lemma_steps_shift(m, RepeatMode::NoRepeat, m.queued.len() as nat);
    }
}

/// Iterating one step and then n more is the same as iterating n + 1.
proof fn lemma_steps_shift(m: SequencerModel, repeat: RepeatMode, n: nat)
    ensures
        finished_steps(finished_step(m, repeat), repeat, n) == finished_steps(
            m,
            repeat,
            (n + 1) as nat,
        ),
    decreases n,
{
    let m1 = finished_step(m, repeat);
    if n == 0 {
        assert(finished_steps(m1, repeat, 0) == m1);
        assert(finished_steps(m, repeat, 1) == finished_step(finished_steps(m, repeat, 0), repeat));
    } else {
        lemma_steps_shift(m, repeat, (n - 1) as nat);
        assert(finished_steps(m1, repeat, n) == finished_step(
            finished_steps(m1, repeat, (n - 1) as nat),
            repeat,
        ));
        assert(finished_steps(m, repeat, (n + 1) as nat) == finished_step(
            finished_steps(m, repeat, n),
            repeat,
        ));
    }
}

/// The event dispatcher's state: the single owner of the playback queue,
/// the playback modes and the view-backing state, and the sole issuer of
/// commands to the two workers. One handler below runs per event, on one
/// thread, in arrival order.
pub struct Dispatcher {
    pub config: AppConfig,
    pub main_view: MainView,

    pub play_mode: PlayMode,
    pub repeat_mode: RepeatMode,

    pub queue: Queue,
    pub current_selection: Option<TrackInfo>,

    pub catalog: Catalog,
    pub search: Search,
    pub search_view: SearchView,
    pub playlist_view: PlaylistView,

    pub audio_player: AudioPlayer,
    pub task_tx: Sender<AppTask>,
    pub event_tx: Sender<AppEvent>,

    pub player_state: PlayerState,
    pub now_playing: Option<TrackInfo>,
    pub player_track_name: Option<String>,
    pub player_duration: Option<u64>,
    pub player_time: Option<u64>,
    pub volume: Option<u32>,
}

impl Dispatcher {
    /// The queue and the scan state are well-formed.
    pub open spec fn wf(self) -> bool {
        &&& self.queue.wf()
        &&& self.catalog.wf()
    }

    /// The sequencing part of this state, as mathematics.
    pub open spec fn seq_model(self) -> SequencerModel {
        SequencerModel {
            played: self.queue.played_seq(),
            queued: self.queue.queued_seq(),
            selection: self.current_selection,
        }
    }

    /// A dispatcher before any event: playlist mode off nothing playing,
    /// an empty queue, and no scan underway.
    pub fn new(
        config: AppConfig,
        audio_player: AudioPlayer,
        task_tx: Sender<AppTask>,
        event_tx: Sender<AppEvent>,
    ) -> (d: Dispatcher)
        ensures
            d.wf(),
            d.main_view == MainView::Playlist,
            d.play_mode == PlayMode::Playlist,
            d.repeat_mode == RepeatMode::NoRepeat,
            d.queue.played_seq().len() == 0,
            d.queue.queued_seq().len() == 0,
            d.current_selection is None,
            d.player_state == PlayerState::Stopped,
            d.now_playing is None,
    {
        Dispatcher {
            config,
            main_view: MainView::Playlist,
            play_mode: PlayMode::Playlist,
            repeat_mode: RepeatMode::NoRepeat,
            queue: Queue::new(),
            current_selection: None,
            catalog: Catalog::new(),
            search: Search::new(),
            search_view: SearchView::new(),
            playlist_view: PlaylistView::new(),
            audio_player,
            task_tx,
            event_tx,
            player_state: PlayerState::Stopped,
            now_playing: None,
            player_track_name: None,
            player_duration: None,
            player_time: None,
            volume: None,
        }
    }

    /// A track ran to its end. Only playlist mode reacts: the played time
    /// is pinned to the duration, and the queue steps as `finished_step`
    /// says. When the step lands on a track, a play command for its file
    /// is issued and it becomes the now-playing track; when it clears the
    /// selection, the now-playing metadata is cleared with it; when
    /// nothing moves, audio is left alone.
    pub fn handle_track_finished(&mut self) -> (r: Result<(), ChannelClosed>)
        requires
            old(self).wf(),
        ensures
            final(self).wf(),
            final(self).play_mode == old(self).play_mode,
            final(self).repeat_mode == old(self).repeat_mode,
            final(self).player_time == old(self).player_duration,
            final(self).player_duration == old(self).player_duration,
            old(self).play_mode != PlayMode::Playlist ==> {
                &&& final(self).seq_model() == old(self).seq_model()
                &&& final(self).now_playing == old(self).now_playing
            },
            old(self).play_mode == PlayMode::Playlist ==> final(self).seq_model()
                == finished_step(old(self).seq_model(), old(self).repeat_mode),
            old(self).play_mode == PlayMode::Playlist && finished_moves(
                old(self).seq_model(),
                old(self).repeat_mode,
            ) ==> final(self).now_playing == finished_step(
                old(self).seq_model(),
                old(self).repeat_mode,
            ).selection,
            old(self).play_mode == PlayMode::Playlist && !finished_moves(
                old(self).seq_model(),
                old(self).repeat_mode,
            ) ==> final(self).now_playing == old(self).now_playing,
    {
        self.player_time = self.player_duration;

        if self.play_mode != PlayMode::Playlist {
            return Ok(());
        }

        if self.queue.played_len() == 0 && self.queue.queued_len() == 0 {
            self.current_selection = None;
            return Ok(());
        }

        if self.current_selection.is_none() {
            return Ok(());
        }

        if self.repeat_mode == RepeatMode::RepeatOne {
            // Deliberately no advance and no replay: what completion under
            // repeat-one should do is an unresolved product decision.
            return Ok(());
        }

        if self.queue.queued_len() > 0 {
            match self.queue.next() {
                Some(t) => {
                    let track = t.clone();
                    self.current_selection = Some(track);
                },
                None => {
                    self.current_selection = None;
                },
            }
        } else if self.repeat_mode == RepeatMode::RepeatAll {
            self.queue.reset();
            match self.queue.next() {
                Some(t) => {
                    let track = t.clone();
                    self.current_selection = Some(track);
                },
                None => {
                    self.current_selection = None;
                },
            }
        } else {
            self.current_selection = None;
        }

        match &self.current_selection {
            Some(track) => {
                let send_result = self.audio_player.play_file(track.filename.as_str());
                self.now_playing = Some(track.clone());
                send_result
            },
            None => {
                self.now_playing = None;
                Ok(())
            },
        }
    }

    /// Playlist playback was requested: playlist mode is entered, and when
    /// nothing is current yet the first queued track — if there is one —
    /// becomes current and its file is sent to the engine.
    pub fn handle_play_playlist(&mut self) -> (r: Result<(), ChannelClosed>)
        requires
            old(self).wf(),
        ensures
            final(self).wf(),
            final(self).play_mode == PlayMode::Playlist,
            final(self).repeat_mode == old(self).repeat_mode,
            old(self).current_selection is Some || old(self).queue.queued_seq().len() == 0 ==> {
                &&& final(self).seq_model() == old(self).seq_model()
                &&& final(self).now_playing == old(self).now_playing
            },
            old(self).current_selection is None && old(self).queue.queued_seq().len() > 0 ==> {
                &&& final(self).queue.played_seq() == old(self).queue.played_seq().push(
                    old(self).queue.queued_seq().first(),
                )
                &&& final(self).queue.queued_seq() == old(self).queue.queued_seq().drop_first()
                &&& final(self).current_selection == Some(old(self).queue.queued_seq().first())
                &&& final(self).now_playing == Some(old(self).queue.queued_seq().first())
            },
    {
        self.play_mode = PlayMode::Playlist;

        if self.current_selection.is_none() && self.queue.queued_len() > 0 {
            match self.queue.next() {
                Some(t) => {
                    let track = t.clone();
                    let send_result = self.audio_player.play_file(track.filename.as_str());
                    self.current_selection = Some(track.clone());
                    self.now_playing = Some(track);
                    return send_result;
                },
                None => {
                },
            }
        }
        Ok(())
    }

    /// One ad-hoc track was requested: single-track mode is entered and
    /// the track's file sent to the engine, independent of any queue
    /// position; it becomes the now-playing track. The queue and the
    /// playlist selection are untouched.
    pub fn handle_play_track(&mut self, track: TrackInfo) -> (r: Result<(), ChannelClosed>)
        requires
            old(self).wf(),
        ensures
            final(self).wf(),
            final(self).play_mode == PlayMode::PlayOne,
            final(self).repeat_mode == old(self).repeat_mode,
            final(self).seq_model() == old(self).seq_model(),
            final(self).now_playing == Some(track),
    {
        self.play_mode = PlayMode::PlayOne;
        let send_result = self.audio_player.play_file(track.filename.as_str());
        self.now_playing = Some(track);
        send_result
    }

    /// The queue was asked to be emptied: both segments and the selection
    /// go; audio already in progress is deliberately not stopped, and the
    /// now-playing metadata stays.
    pub fn handle_clear_queue(&mut self)
        requires
            old(self).wf(),
        ensures
            final(self).wf(),
            final(self).queue.played_seq().len() == 0,
            final(self).queue.queued_seq().len() == 0,
            final(self).current_selection is None,
            final(self).now_playing == old(self).now_playing,
            final(self).play_mode == old(self).play_mode,
    {
        self.current_selection = None;
        self.queue.clear();
    }

    /// Tracks arrived for the queue: they are appended at the tail of the
    /// queued future.
    pub fn handle_add_tracks_to_queue(&mut self, tracks: Vec<TrackInfo>)
        requires
            old(self).wf(),
            durations_ok(tracks@),
            old(self).queue.spec_total_duration() + dur_sum(tracks@) <= i64::MAX,
        ensures
            final(self).wf(),
            final(self).queue.queued_seq() == old(self).queue.queued_seq() + tracks@,
            final(self).queue.played_seq() == old(self).queue.played_seq(),
            final(self).current_selection == old(self).current_selection,
    {
        self.queue.add_tracks(tracks);
    }

    /// The committed search selection was asked into the playlist: the
    /// selected tracks, in listing order, join the tail of the queue.
    pub fn handle_add_selection_to_playlist(&mut self)
        requires
            old(self).wf(),
            durations_ok(old(self).search_view.tracks@),
            old(self).queue.spec_total_duration() + dur_sum(old(self).search_view.tracks@)
                <= i64::MAX,
        ensures
            final(self).wf(),
            final(self).queue.queued_seq() == old(self).queue.queued_seq()
                + old(self).search_view.tracks@.filter(
                |t: TrackInfo| old(self).search_view.selection@.contains(t.track_id),
            ),
            final(self).queue.played_seq() == old(self).queue.played_seq(),
    {
        let tracks = self.search_view.clone_selected_tracks();
        proof {
            let pred = |t: TrackInfo| self.search_view.selection@.contains(t.track_id);
            lemma_durations_ok_filter(self.search_view.tracks@, pred);
            lemma_dur_sum_filter_le(self.search_view.tracks@, pred);
        }
        self.queue.add_tracks(tracks);
    }

    /// Search results are ready: they become the search store's and the
    /// search panel's content, and the presentation is asked to switch to
    /// the search panel.
    pub fn handle_search_results_ready(&mut self, results: Vec<TrackInfo>) -> (r: Result<
        (),
        ChannelClosed,
    >)
        requires
            old(self).wf(),
        ensures
            final(self).wf(),
            final(self).search.tracks_seq() == results@,
            final(self).search_view.tracks@ == results@,
            final(self).search_view.selection@.len() == 0,
            final(self).seq_model() == old(self).seq_model(),
    {
        let copy = clone_track_list(&results);
        self.search.set_tracks(results);
        self.search_view.set_tracks(copy);
        send_value(&self.event_tx, AppEvent::SetMainView(MainView::Search))
    }

    /// A new search query: substantial queries are handed to the task
    /// worker; too-short ones are deliberately not run.
    pub fn handle_new_search_query(&mut self, query: SearchQuery) -> (r: Result<
        (),
        ChannelClosed,
    >)
        requires
            old(self).wf(),
        ensures
            final(self).wf(),
            final(self).seq_model() == old(self).seq_model(),
    {
        send_value(&self.task_tx, AppTask::Search(query))
    }

    /// The presentation switched panels: exactly the panel named active.
    pub fn handle_set_main_view(&mut self, main_view: MainView)
        requires
            old(self).wf(),
        ensures
            final(self).wf(),
            final(self).main_view == main_view,
            final(self).playlist_view.is_active == (main_view == MainView::Playlist),
            final(self).search_view.is_active == (main_view == MainView::Search),
            final(self).seq_model() == old(self).seq_model(),
    {
        self.playlist_view.is_active = main_view == MainView::Playlist;
        self.search_view.is_active = main_view == MainView::Search;
        self.main_view = main_view;
    }

    /// A scan progress notification: routed to the catalog state.
    pub fn handle_catalog_event(&mut self, catalog_event: CatalogEvent)
        requires
            old(self).wf(),
        ensures
            final(self).wf(),
            final(self).seq_model() == old(self).seq_model(),
            final(self).now_playing == old(self).now_playing,
            catalog_event is Started ==> {
                &&& final(self).catalog.status == CatalogStatus::Scanning
                &&& final(self).catalog.directory_status@.len()
                    == old(self).config.media_dirs@.len()
            },
            catalog_event is FinishedDirectory
                ==> final(self).catalog.spec_current_index() is None,
            catalog_event is Finished ==> final(self).catalog.status
                == CatalogStatus::Finished,
    {
        match catalog_event {
            CatalogEvent::Started => {
                let dirs = self.config.media_dirs.clone();
                self.catalog.prepare_scan(&dirs);
            },
            CatalogEvent::StartedDirectory(dir) => {
                self.catalog.begin_scan_directory(dir.as_str());
            },
            CatalogEvent::ProcessedFile(count, _) => {
                self.catalog.update_scan_directory(count);
            },
            CatalogEvent::FinishedDirectory(_) => {
                self.catalog.end_scan_directory();
            },
            CatalogEvent::Finished(_) => {
                self.catalog.finish_scan();
            },
        }
    }

    /// The catalog finished updating: the browser is asked to reload.
    pub fn handle_catalog_updated(&mut self) -> (r: Result<(), ChannelClosed>)
        requires
            old(self).wf(),
        ensures
            final(self).wf(),
            final(self).seq_model() == old(self).seq_model(),
    {
        send_value(&self.task_tx, AppTask::GetBrowserArtists)
    }

    /// The engine reported a track: it becomes the now-playing metadata.
    pub fn handle_set_now_playing(&mut self, info: TrackInfo)
        requires
            old(self).wf(),
        ensures
            final(self).wf(),
            final(self).now_playing == Some(info),
            final(self).seq_model() == old(self).seq_model(),
    {
        self.now_playing = Some(info);
    }

    /// The engine's playback state changed.
    pub fn handle_player_state_changed(&mut self, state: PlayerState)
        requires
            old(self).wf(),
        ensures
            final(self).wf(),
            final(self).player_state == state,
            final(self).seq_model() == old(self).seq_model(),
    {
        self.player_state = state;
    }

    /// The engine reported a media title.
    pub fn handle_title_changed(&mut self, title: String)
        requires
            old(self).wf(),
        ensures
            final(self).wf(),
            final(self).player_track_name == Some(title),
            final(self).seq_model() == old(self).seq_model(),
    {
        self.player_track_name = Some(title);
    }

    /// The engine reported the medium's duration.
    pub fn handle_duration_changed(&mut self, duration: u64)
        requires
            old(self).wf(),
        ensures
            final(self).wf(),
            final(self).player_duration == Some(duration),
            final(self).seq_model() == old(self).seq_model(),
    {
        self.player_duration = Some(duration);
    }

    /// The engine reported the playback position, already filtered to be
    /// non-negative.
    pub fn handle_time_changed(&mut self, seconds: u64)
        requires
            old(self).wf(),
        ensures
            final(self).wf(),
            final(self).player_time == Some(seconds),
            final(self).seq_model() == old(self).seq_model(),
    {
        self.player_time = Some(seconds);
    }

    /// The engine reported the volume.
    pub fn handle_volume_changed(&mut self, volume: u32)
        requires
            old(self).wf(),
        ensures
            final(self).wf(),
            final(self).volume == Some(volume),
            final(self).seq_model() == old(self).seq_model(),
    {
        self.volume = Some(volume);
    }

    /// A periodic tick: nothing to do but let the presentation refresh.
    pub fn handle_tick(&mut self)
        requires
            old(self).wf(),
        ensures
            *final(self) == *old(self),
    {
    }
}

} // verus!
