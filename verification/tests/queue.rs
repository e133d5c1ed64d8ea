use chooui::model::{Rating, TrackInfo};
use chooui::queue::Queue;

fn qtrack(id: i32, duration: i64) -> TrackInfo {
    TrackInfo {
        track_id: id,
        durable_id: id as i64 * 1000,
        track_title: format!("track {}", id),
        track_number: id,
        duration,
        genre: None,
        year: Some(2001),
        album_title: String::from("album"),
        artist_name: String::from("artist"),
        filename: format!("/music/{}.mp3", id),
        play_count: 0,
        rating: Rating::Neutral,
    }
}

fn ids(tracks: &[TrackInfo]) -> Vec<i32> {
    tracks.iter().map(|t| t.track_id).collect()
}

#[test]
fn new_queue_is_empty() {
    let q = Queue::new();
    assert_eq!(q.total_duration(), 0);
    assert_eq!(q.queued_duration(), 0);
    assert_eq!(q.played_duration(), 0);
    assert!(q.current().is_none());
    assert!(q.tracks().is_empty());
}

#[test]
fn add_tracks_appends_and_accounts_duration() {
    let mut q = Queue::new();
    q.add_tracks(vec![qtrack(1, 180), qtrack(2, 200)]);
    assert_eq!(q.total_duration(), 380);
    assert_eq!(q.queued_duration(), 380);
    assert_eq!(q.played_duration(), 0);
    q.add_tracks(vec![qtrack(3, 20)]);
    assert_eq!(q.total_duration(), 400);
    assert_eq!(ids(&q.queued()), vec![1, 2, 3]);
    assert!(q.played().is_empty());
}

#[test]
fn duration_invariant_across_operations() {
    let mut q = Queue::new();
    let check = |q: &Queue| {
        assert_eq!(q.queued_duration() + q.played_duration(), q.total_duration());
    };
    check(&q);
    q.add_tracks(vec![qtrack(1, 10), qtrack(2, 20), qtrack(3, 30)]);
    check(&q);
    q.shuffle();
    check(&q);
    q.next();
    check(&q);
    q.add_tracks(vec![qtrack(4, 40)]);
    check(&q);
    q.shuffle();
    check(&q);
    q.previous();
    check(&q);
    q.clear();
    check(&q);
    assert_eq!(q.total_duration(), 0);
}

#[test]
fn next_moves_head_to_history() {
    let mut q = Queue::new();
    q.add_tracks(vec![qtrack(1, 180), qtrack(2, 200)]);
    let current = q.next().cloned();
    assert_eq!(current.unwrap().track_id, 1);
    assert_eq!(ids(&q.played()), vec![1]);
    assert_eq!(ids(&q.queued()), vec![2]);
    assert_eq!(q.played_duration(), 180);
    assert_eq!(q.queued_duration(), 200);
}

#[test]
fn next_on_exhausted_queue_keeps_current() {
    let mut q = Queue::new();
    q.add_tracks(vec![qtrack(1, 60)]);
    q.next();
    let again = q.next().cloned();
    assert_eq!(again.unwrap().track_id, 1);
    assert_eq!(ids(&q.played()), vec![1]);
    assert!(q.queued().is_empty());
}

#[test]
fn advance_then_rewind_restores_queue() {
    let mut q = Queue::new();
    q.add_tracks(vec![qtrack(1, 10), qtrack(2, 20), qtrack(3, 30)]);
    q.next();
    q.next();
    let played_before = ids(&q.played());
    let queued_before = ids(&q.queued());
    q.next();
    q.previous();
    assert_eq!(ids(&q.played()), played_before);
    assert_eq!(ids(&q.queued()), queued_before);
}

#[test]
fn previous_on_fresh_queue_is_a_no_op() {
    let mut q = Queue::new();
    q.add_tracks(vec![qtrack(1, 10)]);
    assert!(q.previous().is_none());
    assert_eq!(ids(&q.queued()), vec![1]);
    assert!(q.played().is_empty());
}

#[test]
fn shuffle_preserves_tracks_and_history() {
    let mut q = Queue::new();
    q.add_tracks(vec![
        qtrack(1, 10),
        qtrack(2, 20),
        qtrack(3, 30),
        qtrack(4, 40),
        qtrack(5, 50),
    ]);
    q.next();
    let played_before = ids(&q.played());
    let mut queued_before = ids(&q.queued());
    let total_before = q.total_duration();
    q.shuffle();
    assert_eq!(ids(&q.played()), played_before);
    let mut queued_after = ids(&q.queued());
    queued_before.sort();
    queued_after.sort();
    assert_eq!(queued_after, queued_before);
    assert_eq!(q.total_duration(), total_before);
    assert_eq!(q.queued_duration(), 140);
    assert_eq!(q.played_duration(), 10);
}

#[test]
fn remove_tracks_drops_from_both_segments_keeping_order() {
    let mut q = Queue::new();
    q.add_tracks(vec![qtrack(1, 10), qtrack(2, 20), qtrack(3, 30), qtrack(4, 40)]);
    q.next();
    q.next();
    q.remove_tracks(vec![1, 4]);
    assert_eq!(ids(&q.played()), vec![2]);
    assert_eq!(ids(&q.queued()), vec![3]);
    assert_eq!(q.total_duration(), 50);
}

#[test]
fn remove_tracks_with_unknown_ids_changes_nothing() {
    let mut q = Queue::new();
    q.add_tracks(vec![qtrack(1, 10), qtrack(2, 20)]);
    q.remove_tracks(vec![99]);
    assert_eq!(ids(&q.queued()), vec![1, 2]);
    assert_eq!(q.total_duration(), 30);
}

#[test]
fn reset_restores_original_order() {
    let mut q = Queue::new();
    q.add_tracks(vec![qtrack(1, 10), qtrack(2, 20), qtrack(3, 30)]);
    q.next();
    q.next();
    q.reset();
    assert!(q.played().is_empty());
    assert_eq!(ids(&q.queued()), vec![1, 2, 3]);
    assert_eq!(q.queued_duration(), 60);
    assert_eq!(q.total_duration(), 60);
}

#[test]
fn clear_empties_both_segments() {
    let mut q = Queue::new();
    q.add_tracks(vec![qtrack(1, 10), qtrack(2, 20)]);
    q.next();
    q.clear();
    assert!(q.played().is_empty());
    assert!(q.queued().is_empty());
    assert!(q.current().is_none());
    assert_eq!(q.total_duration(), 0);
}

#[test]
fn snapshot_lists_history_then_future() {
    let mut q = Queue::new();
    q.add_tracks(vec![qtrack(1, 10), qtrack(2, 20), qtrack(3, 30)]);
    q.next();
    let snapshot: Vec<i32> = q.tracks().iter().map(|t| t.track_id).collect();
    assert_eq!(snapshot, vec![1, 2, 3]);
    assert_eq!(ids(&q.played()), vec![1]);
}
