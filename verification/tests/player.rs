use chooui::events::AppEvent;
use chooui::player::{AudioEngineWorker, AudioPlayer, EngineNotification, PlayerState};

#[test]
fn state_is_a_pure_function_of_the_flags() {
    assert_eq!(AudioPlayer::player_state(false, true), PlayerState::Stopped);
    assert_eq!(AudioPlayer::player_state(true, true), PlayerState::Stopped);
    assert_eq!(AudioPlayer::player_state(true, false), PlayerState::Paused);
    assert_eq!(AudioPlayer::player_state(false, false), PlayerState::Playing);
}

#[test]
fn idle_then_busy_yields_exactly_one_state_change() {
    let mut w = AudioEngineWorker::new();
    let (state1, content1) = w.observe(EngineNotification::Idle(true));
    assert!(state1.is_none());
    assert!(content1.is_none());
    let (state2, content2) = w.observe(EngineNotification::Idle(false));
    assert_eq!(state2, Some(PlayerState::Playing));
    assert!(content2.is_none());
    assert_eq!(w.state, PlayerState::Playing);
}

#[test]
fn pause_flag_drives_paused_state() {
    let mut w = AudioEngineWorker::new();
    w.observe(EngineNotification::Idle(false));
    let (state, content) = w.observe(EngineNotification::Pause(true));
    assert_eq!(state, Some(PlayerState::Paused));
    assert!(content.is_none());
    let (state, _) = w.observe(EngineNotification::Pause(false));
    assert_eq!(state, Some(PlayerState::Playing));
}

#[test]
fn repeated_flag_reports_emit_no_state_event() {
    let mut w = AudioEngineWorker::new();
    w.observe(EngineNotification::Idle(false));
    let (state, _) = w.observe(EngineNotification::Idle(false));
    assert!(state.is_none());
    let (state, _) = w.observe(EngineNotification::Pause(false));
    assert!(state.is_none());
}

#[test]
fn negative_positions_are_filtered() {
    let mut w = AudioEngineWorker::new();
    let (_, content) = w.observe(EngineNotification::TimePos(-3));
    assert!(content.is_none());
    let (_, content) = w.observe(EngineNotification::TimePos(0));
    assert!(matches!(content, Some(AppEvent::TimeChanged(0))));
    let (_, content) = w.observe(EngineNotification::TimePos(95));
    assert!(matches!(content, Some(AppEvent::TimeChanged(95))));
}

#[test]
fn only_eof_endings_report_a_finished_track() {
    let mut w = AudioEngineWorker::new();
    let (_, content) = w.observe(EngineNotification::EndFile { eof: true });
    assert!(matches!(content, Some(AppEvent::TrackFinished)));
    let (_, content) = w.observe(EngineNotification::EndFile { eof: false });
    assert!(content.is_none());
}

#[test]
fn content_properties_are_forwarded() {
    let mut w = AudioEngineWorker::new();
    let (_, content) = w.observe(EngineNotification::Title(String::from("song")));
    assert!(matches!(content, Some(AppEvent::TitleChanged(ref t)) if t == "song"));
    let (_, content) = w.observe(EngineNotification::Duration(245));
    assert!(matches!(content, Some(AppEvent::DurationChanged(245))));
    let (_, content) = w.observe(EngineNotification::Volume(55));
    assert!(matches!(content, Some(AppEvent::VolumeChanged(55))));
    let (_, content) = w.observe(EngineNotification::Other);
    assert!(content.is_none());
}
