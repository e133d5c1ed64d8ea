use std::sync::mpsc;

use chooui::config::AppConfig;
use chooui::events::{AppEvent, AppTask, Dispatcher};
use chooui::model::{PlayMode, Rating, RepeatMode, TrackInfo};
use chooui::player::{AudioPlayer, AudioPlayerCommand};

fn dtrack(id: i32, duration: i64) -> TrackInfo {
    TrackInfo {
        track_id: id,
        durable_id: id as i64,
        track_title: format!("title {}", id),
        track_number: id,
        duration,
        genre: Some(String::from("rock")),
        year: None,
        album_title: String::from("an album"),
        artist_name: String::from("an artist"),
        filename: format!("/library/{}.mp3", id),
        play_count: 0,
        rating: Rating::Neutral,
    }
}

struct Rig {
    dispatcher: Dispatcher,
    commands: mpsc::Receiver<AudioPlayerCommand>,
    #[allow(dead_code)]
    tasks: mpsc::Receiver<AppTask>,
    #[allow(dead_code)]
    events: mpsc::Receiver<AppEvent>,
}

fn rig() -> Rig {
    let (command_tx, commands) = mpsc::channel();
    let (task_tx, tasks) = mpsc::channel();
    let (event_tx, events) = mpsc::channel();
    let dispatcher = Dispatcher::new(
        AppConfig::default(),
        AudioPlayer::new(command_tx),
        task_tx,
        event_tx,
    );
    Rig { dispatcher, commands, tasks, events }
}

fn selection_id(d: &Dispatcher) -> Option<i32> {
    d.current_selection.as_ref().map(|t| t.track_id)
}

fn played_ids(d: &Dispatcher) -> Vec<i32> {
    d.queue.played().iter().map(|t| t.track_id).collect()
}

fn queued_ids(d: &Dispatcher) -> Vec<i32> {
    d.queue.queued().iter().map(|t| t.track_id).collect()
}

#[test]
fn play_playlist_starts_first_queued_track() {
    let mut r = rig();
    r.dispatcher.handle_add_tracks_to_queue(vec![dtrack(1, 180), dtrack(2, 200)]);
    r.dispatcher.handle_play_playlist().unwrap();
    assert_eq!(r.dispatcher.play_mode, PlayMode::Playlist);
    assert_eq!(selection_id(&r.dispatcher), Some(1));
    assert_eq!(played_ids(&r.dispatcher), vec![1]);
    assert_eq!(queued_ids(&r.dispatcher), vec![2]);
    let cmd = r.commands.try_recv().unwrap();
    assert!(matches!(cmd, AudioPlayerCommand::PlayFile(ref p) if p == "/library/1.mp3"));
}

#[test]
fn play_playlist_with_current_track_only_switches_mode() {
    let mut r = rig();
    r.dispatcher.handle_add_tracks_to_queue(vec![dtrack(1, 10), dtrack(2, 20)]);
    r.dispatcher.handle_play_playlist().unwrap();
    r.commands.try_recv().unwrap();
    r.dispatcher.handle_play_playlist().unwrap();
    assert_eq!(selection_id(&r.dispatcher), Some(1));
    assert!(r.commands.try_recv().is_err());
}

#[test]
fn repeat_all_walkthrough_wraps_to_front() {
    let mut r = rig();
    r.dispatcher.repeat_mode = RepeatMode::RepeatAll;
    r.dispatcher.handle_add_tracks_to_queue(vec![dtrack(1, 180), dtrack(2, 200)]);
    r.dispatcher.handle_play_playlist().unwrap();
    assert_eq!(selection_id(&r.dispatcher), Some(1));
    assert_eq!(played_ids(&r.dispatcher), vec![1]);
    assert_eq!(queued_ids(&r.dispatcher), vec![2]);

    r.dispatcher.handle_track_finished().unwrap();
    assert_eq!(selection_id(&r.dispatcher), Some(2));
    assert_eq!(played_ids(&r.dispatcher), vec![1, 2]);
    assert!(queued_ids(&r.dispatcher).is_empty());

    r.dispatcher.handle_track_finished().unwrap();
    assert_eq!(selection_id(&r.dispatcher), Some(1));
    assert_eq!(played_ids(&r.dispatcher), vec![1]);
    assert_eq!(queued_ids(&r.dispatcher), vec![2]);
}

#[test]
fn repeat_all_selection_never_clears() {
    let mut r = rig();
    r.dispatcher.repeat_mode = RepeatMode::RepeatAll;
    r.dispatcher.handle_add_tracks_to_queue(vec![dtrack(1, 1), dtrack(2, 2), dtrack(3, 3)]);
    r.dispatcher.handle_play_playlist().unwrap();
    for _ in 0..10 {
        r.dispatcher.handle_track_finished().unwrap();
        assert!(selection_id(&r.dispatcher).is_some());
    }
}

#[test]
fn no_repeat_exhausts_after_queue_length_events() {
    let mut r = rig();
    r.dispatcher.repeat_mode = RepeatMode::NoRepeat;
    r.dispatcher.handle_add_tracks_to_queue(vec![dtrack(1, 1), dtrack(2, 2), dtrack(3, 3)]);
    r.dispatcher.handle_play_playlist().unwrap();
    r.dispatcher.handle_track_finished().unwrap();
    assert_eq!(selection_id(&r.dispatcher), Some(2));
    r.dispatcher.handle_track_finished().unwrap();
    assert_eq!(selection_id(&r.dispatcher), Some(3));
    r.dispatcher.handle_track_finished().unwrap();
    assert_eq!(selection_id(&r.dispatcher), None);
    assert!(r.dispatcher.now_playing.is_none());
}

#[test]
fn track_finished_ignored_outside_playlist_mode() {
    let mut r = rig();
    r.dispatcher.handle_add_tracks_to_queue(vec![dtrack(1, 1), dtrack(2, 2)]);
    r.dispatcher.handle_play_playlist().unwrap();
    r.commands.try_recv().unwrap();
    r.dispatcher.handle_play_track(dtrack(9, 9)).unwrap();
    r.commands.try_recv().unwrap();
    r.dispatcher.handle_track_finished().unwrap();
    assert_eq!(selection_id(&r.dispatcher), Some(1));
    assert_eq!(queued_ids(&r.dispatcher), vec![2]);
    assert!(r.commands.try_recv().is_err());
}

#[test]
fn track_finished_with_empty_queue_clears_selection_keeps_metadata() {
    let mut r = rig();
    r.dispatcher.handle_play_track(dtrack(7, 70)).unwrap();
    r.commands.try_recv().unwrap();
    r.dispatcher.play_mode = PlayMode::Playlist;
    r.dispatcher.handle_track_finished().unwrap();
    assert_eq!(selection_id(&r.dispatcher), None);
    // The now-playing metadata is deliberately left stale here.
    assert_eq!(r.dispatcher.now_playing.as_ref().map(|t| t.track_id), Some(7));
    assert!(r.commands.try_recv().is_err());
}

#[test]
fn repeat_one_neither_advances_nor_replays() {
    let mut r = rig();
    r.dispatcher.repeat_mode = RepeatMode::RepeatOne;
    r.dispatcher.handle_add_tracks_to_queue(vec![dtrack(1, 1), dtrack(2, 2)]);
    r.dispatcher.handle_play_playlist().unwrap();
    r.commands.try_recv().unwrap();
    r.dispatcher.handle_track_finished().unwrap();
    assert_eq!(selection_id(&r.dispatcher), Some(1));
    assert_eq!(queued_ids(&r.dispatcher), vec![2]);
    assert!(r.commands.try_recv().is_err());
}

#[test]
fn play_track_is_independent_of_queue() {
    let mut r = rig();
    r.dispatcher.handle_add_tracks_to_queue(vec![dtrack(1, 1)]);
    r.dispatcher.handle_play_track(dtrack(42, 300)).unwrap();
    assert_eq!(r.dispatcher.play_mode, PlayMode::PlayOne);
    assert_eq!(r.dispatcher.now_playing.as_ref().map(|t| t.track_id), Some(42));
    assert_eq!(queued_ids(&r.dispatcher), vec![1]);
    assert_eq!(selection_id(&r.dispatcher), None);
    let cmd = r.commands.try_recv().unwrap();
    assert!(matches!(cmd, AudioPlayerCommand::PlayFile(ref p) if p == "/library/42.mp3"));
}

#[test]
fn play_file_commands_are_forwarded_in_order() {
    let mut r = rig();
    r.dispatcher.handle_play_track(dtrack(1, 10)).unwrap();
    r.dispatcher.handle_play_track(dtrack(2, 20)).unwrap();
    let first = r.commands.try_recv().unwrap();
    let second = r.commands.try_recv().unwrap();
    assert!(matches!(first, AudioPlayerCommand::PlayFile(ref p) if p == "/library/1.mp3"));
    assert!(matches!(second, AudioPlayerCommand::PlayFile(ref p) if p == "/library/2.mp3"));
    assert!(r.commands.try_recv().is_err());
}

#[test]
fn clear_queue_clears_selection_but_not_audio_state() {
    let mut r = rig();
    r.dispatcher.handle_add_tracks_to_queue(vec![dtrack(1, 1), dtrack(2, 2)]);
    r.dispatcher.handle_play_playlist().unwrap();
    r.commands.try_recv().unwrap();
    r.dispatcher.handle_clear_queue();
    assert_eq!(selection_id(&r.dispatcher), None);
    assert!(queued_ids(&r.dispatcher).is_empty());
    assert!(played_ids(&r.dispatcher).is_empty());
    assert_eq!(r.dispatcher.now_playing.as_ref().map(|t| t.track_id), Some(1));
    assert!(r.commands.try_recv().is_err());
}

#[test]
fn engine_report_handlers_record_state() {
    let mut r = rig();
    r.dispatcher.handle_title_changed(String::from("a song"));
    r.dispatcher.handle_duration_changed(240);
    r.dispatcher.handle_time_changed(12);
    r.dispatcher.handle_volume_changed(80);
    assert_eq!(r.dispatcher.player_track_name.as_deref(), Some("a song"));
    assert_eq!(r.dispatcher.player_duration, Some(240));
    assert_eq!(r.dispatcher.player_time, Some(12));
    assert_eq!(r.dispatcher.volume, Some(80));
}

#[test]
fn track_finished_pins_time_to_duration() {
    let mut r = rig();
    r.dispatcher.handle_duration_changed(240);
    r.dispatcher.handle_time_changed(121);
    r.dispatcher.handle_track_finished().unwrap();
    assert_eq!(r.dispatcher.player_time, Some(240));
}

#[test]
fn search_results_fill_both_stores_and_request_panel_switch() {
    let mut r = rig();
    r.dispatcher
        .handle_search_results_ready(vec![dtrack(5, 50), dtrack(6, 60)])
        .unwrap();
    assert_eq!(r.dispatcher.search.tracks().len(), 2);
    assert_eq!(r.dispatcher.search_view.tracks.len(), 2);
    assert!(r.dispatcher.search_view.selection.is_empty());
    assert_eq!(r.dispatcher.search_view.cursor, Some(0));
    let evt = r.events.try_recv().unwrap();
    assert!(matches!(evt, AppEvent::SetMainView(chooui::model::MainView::Search)));
}

#[test]
fn new_search_query_goes_to_the_task_worker() {
    let mut r = rig();
    let q = chooui::model::SearchQuery::for_artist(String::from("someone"));
    r.dispatcher.handle_new_search_query(q).unwrap();
    let task = r.tasks.try_recv().unwrap();
    assert!(matches!(task, AppTask::Search(ref s) if s.artist == "someone"));
}

#[test]
fn add_selection_to_playlist_appends_selected_tracks() {
    let mut r = rig();
    r.dispatcher
        .handle_search_results_ready(vec![dtrack(1, 10), dtrack(2, 20), dtrack(3, 30)])
        .unwrap();
    r.dispatcher.search_view.selection = vec![1, 3];
    r.dispatcher.handle_add_selection_to_playlist();
    assert_eq!(queued_ids(&r.dispatcher), vec![1, 3]);
    assert_eq!(r.dispatcher.queue.total_duration(), 40);
}

#[test]
fn set_main_view_activates_exactly_one_panel() {
    let mut r = rig();
    r.dispatcher.handle_set_main_view(chooui::model::MainView::Search);
    assert!(r.dispatcher.search_view.is_active);
    assert!(!r.dispatcher.playlist_view.is_active);
    r.dispatcher.handle_set_main_view(chooui::model::MainView::Playlist);
    assert!(r.dispatcher.playlist_view.is_active);
    assert!(!r.dispatcher.search_view.is_active);
}

#[test]
fn catalog_events_drive_the_scan_state() {
    let mut r = rig();
    r.dispatcher.config.media_dirs = vec![String::from("/a"), String::from("/b")];
    r.dispatcher.handle_catalog_event(chooui::events::CatalogEvent::Started);
    assert_eq!(
        r.dispatcher.catalog.status,
        chooui::catalog::CatalogStatus::Scanning
    );
    assert_eq!(r.dispatcher.catalog.directory_status.len(), 2);

    r.dispatcher
        .handle_catalog_event(chooui::events::CatalogEvent::StartedDirectory(String::from("/b")));
    r.dispatcher
        .handle_catalog_event(chooui::events::CatalogEvent::ProcessedFile(17, String::from("x.mp3")));
    assert_eq!(r.dispatcher.catalog.directory_status[1].count, 17);

    r.dispatcher
        .handle_catalog_event(chooui::events::CatalogEvent::FinishedDirectory(String::from("/b")));
    assert_eq!(
        r.dispatcher.catalog.directory_status[1].status,
        chooui::catalog::CatalogStatus::Finished
    );

    r.dispatcher.handle_catalog_event(chooui::events::CatalogEvent::Finished(17));
    assert_eq!(
        r.dispatcher.catalog.status,
        chooui::catalog::CatalogStatus::Finished
    );
}

#[test]
fn catalog_updated_requests_browser_reload() {
    let mut r = rig();
    r.dispatcher.handle_catalog_updated().unwrap();
    let task = r.tasks.try_recv().unwrap();
    assert!(matches!(task, AppTask::GetBrowserArtists));
}

#[test]
fn send_after_receiver_dropped_reports_closed_channel() {
    let mut r = rig();
    drop(r.commands);
    let err = r.dispatcher.handle_play_track(dtrack(1, 1));
    assert!(err.is_err());
}
