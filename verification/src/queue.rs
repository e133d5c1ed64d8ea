//! Playback queue management.
//!
//! The queue keeps two ordered track sequences: `played` (oldest first, the
//! history) and `queued` (the FIFO future). The current track is the most
//! recently played one. Duration aggregates over both segments are
//! recomputed on every mutation, and the invariant
//! `total == played + queued` holds at all times.

use vstd::prelude::*;

use rand::seq::SliceRandom;

use crate::model::{clone_track_list, retain_absent, TrackInfo};

verus! {

broadcast use vstd::seq_lib::group_to_multiset_ensures;

/// The sum of the durations of the tracks in a sequence.
pub open spec fn dur_sum(s: Seq<TrackInfo>) -> int
    decreases s.len(),
{
    if s.len() == 0 {
        0
    } else {
        dur_sum(s.drop_last()) + s.last().duration
    }
}

/// Every track in the sequence has a non-negative duration.
pub open spec fn durations_ok(s: Seq<TrackInfo>) -> bool {
    forall|i: int| 0 <= i < s.len() ==> s[i].duration >= 0
}

/// Appending one track adds its duration to the sum.
pub proof fn lemma_dur_sum_push(s: Seq<TrackInfo>, t: TrackInfo)
    ensures
        dur_sum(s.push(t)) == dur_sum(s) + t.duration,
{
    assert(s.push(t).drop_last() =~= s);
}

/// The sum distributes over concatenation.
pub proof fn lemma_dur_sum_concat(a: Seq<TrackInfo>, b: Seq<TrackInfo>)
    ensures
        dur_sum(a + b) == dur_sum(a) + dur_sum(b),
    decreases b.len(),
{
    if b.len() == 0 {
        assert(a + b =~= a);
    } else {
        assert((a + b).drop_last() =~= a + b.drop_last());
        assert((a + b).last() == b.last());
        lemma_dur_sum_concat(a, b.drop_last());
    }
}

/// With non-negative durations the sum is non-negative.
pub proof fn lemma_dur_sum_nonneg(s: Seq<TrackInfo>)
    requires
        durations_ok(s),
    ensures
        dur_sum(s) >= 0,
    decreases s.len(),
{
    if s.len() > 0 {
        assert(durations_ok(s.drop_last()));
        lemma_dur_sum_nonneg(s.drop_last());
    }
}

/// With non-negative durations, a prefix never sums to more than the whole.
pub proof fn lemma_dur_sum_prefix_le(s: Seq<TrackInfo>, i: int)
    requires
        durations_ok(s),
        0 <= i <= s.len(),
    ensures
        0 <= dur_sum(s.subrange(0, i)) <= dur_sum(s),
{
    let pre = s.subrange(0, i);
    let post = s.subrange(i, s.len() as int);
    assert(s =~= pre + post);
    lemma_dur_sum_concat(pre, post);
    assert(durations_ok(pre));
    assert(durations_ok(post));
    lemma_dur_sum_nonneg(pre);
    lemma_dur_sum_nonneg(post);
}

/// Removing the track at one index subtracts exactly its duration.
pub proof fn lemma_dur_sum_remove(s: Seq<TrackInfo>, i: int)
    requires
        0 <= i < s.len(),
    ensures
        dur_sum(s.remove(i)) == dur_sum(s) - s[i].duration,
{
    let pre = s.subrange(0, i);
    let at = s.subrange(i, i + 1);
    let post = s.subrange(i + 1, s.len() as int);
    assert(s =~= (pre + at) + post);
    lemma_dur_sum_concat(pre + at, post);
    lemma_dur_sum_concat(pre, at);
    assert(at.drop_last() =~= Seq::<TrackInfo>::empty());
    assert(dur_sum(Seq::<TrackInfo>::empty()) == 0);
    assert(dur_sum(at) == s[i].duration);
    lemma_dur_sum_concat(pre, post);
}

/// Two sequences holding the same tracks, in any order, have the same sum.
pub proof fn lemma_dur_sum_permutation(a: Seq<TrackInfo>, b: Seq<TrackInfo>)
    requires
        a.to_multiset() == b.to_multiset(),
    ensures
        dur_sum(a) == dur_sum(b),
    decreases a.len(),
{
    a.to_multiset_ensures();
    b.to_multiset_ensures();
    if a.len() == 0 {
        assert(b.len() == 0);
    } else {
        let i = a.len() - 1;
        let x = a[i as int];
        assert(a.contains(x));
        assert(b.to_multiset().count(x) > 0);
        assert(b.contains(x));
        let j = choose|j: int| 0 <= j < b.len() && b[j] == x;
        lemma_dur_sum_remove(a, i as int);
        lemma_dur_sum_remove(b, j);
        assert(a.remove(i as int).to_multiset() == b.remove(j).to_multiset());
        lemma_dur_sum_permutation(a.remove(i as int), b.remove(j));
    }
}

/// Reordering a sequence preserves non-negativity of its durations.
pub proof fn lemma_durations_ok_permutation(a: Seq<TrackInfo>, b: Seq<TrackInfo>)
    requires
        a.to_multiset() == b.to_multiset(),
        durations_ok(a),
    ensures
        durations_ok(b),
{
    a.to_multiset_ensures();
    b.to_multiset_ensures();
    assert forall|i: int| 0 <= i < b.len() implies b[i].duration >= 0 by {
        assert(b.contains(b[i]));
        assert(b.to_multiset().count(b[i]) > 0);
        assert(a.contains(b[i]));
        let k = choose|k: int| 0 <= k < a.len() && a[k] == b[i];
        assert(a[k].duration >= 0);
    }
}

/// With non-negative durations, filtering never increases the sum.
pub proof fn lemma_dur_sum_filter_le(s: Seq<TrackInfo>, pred: spec_fn(TrackInfo) -> bool)
    requires
        durations_ok(s),
    ensures
        0 <= dur_sum(s.filter(pred)) <= dur_sum(s),
    decreases s.len(),
{
    reveal(Seq::filter);
    if s.len() > 0 {
        assert(durations_ok(s.drop_last()));
        lemma_dur_sum_filter_le(s.drop_last(), pred);
        if pred(s.last()) {
            lemma_dur_sum_push(s.drop_last().filter(pred), s.last());
        }
    }
}

/// Filtering keeps non-negativity of durations.
pub proof fn lemma_durations_ok_filter(s: Seq<TrackInfo>, pred: spec_fn(TrackInfo) -> bool)
    requires
        durations_ok(s),
    ensures
        durations_ok(s.filter(pred)),
    decreases s.len(),
{
    reveal(Seq::filter);
    if s.len() > 0 {
        assert(durations_ok(s.drop_last()));
        lemma_durations_ok_filter(s.drop_last(), pred);
        if pred(s.last()) {
            let f = s.drop_last().filter(pred);
            assert forall|i: int| 0 <= i < f.push(s.last()).len()
                implies f.push(s.last())[i].duration >= 0 by {
                if i < f.len() {
                    assert(f[i].duration >= 0);
                }
            }
        }
    }
}

/// Sums the durations of a track list.
fn sum_durations(v: &Vec<TrackInfo>) -> (s: i64)
    requires
        durations_ok(v@),
        dur_sum(v@) <= i64::MAX,
    ensures
        s == dur_sum(v@),
{
    let mut acc: i64 = 0;
    let mut i: usize = 0;
    while i < v.len()
        invariant
            0 <= i <= v@.len(),
            durations_ok(v@),
            dur_sum(v@) <= i64::MAX,
            acc == dur_sum(v@.subrange(0, i as int)),
            0 <= acc,
        decreases v@.len() - i,
    {
        proof {
            assert(v@.subrange(0, i + 1) =~= v@.subrange(0, i as int).push(v@[i as int]));
            lemma_dur_sum_push(v@.subrange(0, i as int), v@[i as int]);
            lemma_dur_sum_prefix_le(v@, i + 1);
        }
        acc = acc + v[i].duration;
        i = i + 1;
    }
    proof {
        assert(v@.subrange(0, v@.len() as int) =~= v@);
    }
    acc
}

/// Relies on rand's `SliceRandom::shuffle`: an in-place Fisher-Yates
/// permutation, so the same tracks remain, in some order.
#[verifier::external_body]
fn shuffle_in_place(v: &mut Vec<TrackInfo>)
    ensures
        final(v)@.to_multiset() == old(v)@.to_multiset(),
{
    let mut rng = rand::rng();
    v.as_mut_slice().shuffle(&mut rng);
}

/// The playback queue: a played history, a queued future, duration
/// aggregates over both, and a flat snapshot for the presentation layer.
pub struct Queue {
    tracks: Vec<TrackInfo>,
    queued: Vec<TrackInfo>,
    played: Vec<TrackInfo>,
    total_duration: i64,
    queued_duration: i64,
    played_duration: i64,
}

impl Queue {
    /// The played history, oldest first.
    pub closed spec fn played_seq(self) -> Seq<TrackInfo> {
        self.played@
    }

    /// The queued future, next track first.
    pub closed spec fn queued_seq(self) -> Seq<TrackInfo> {
        self.queued@
    }

    /// The snapshot handed to the presentation layer.
    pub closed spec fn snapshot_seq(self) -> Seq<TrackInfo> {
        self.tracks@
    }

    pub closed spec fn spec_total_duration(self) -> int {
        self.total_duration as int
    }

    pub closed spec fn spec_queued_duration(self) -> int {
        self.queued_duration as int
    }

    pub closed spec fn spec_played_duration(self) -> int {
        self.played_duration as int
    }

    /// Well-formedness: duration aggregates are the sums of their segments,
    /// the total is their sum, and the snapshot is history followed by
    /// future.
    pub open spec fn wf(self) -> bool {
        &&& durations_ok(self.played_seq())
        &&& durations_ok(self.queued_seq())
        &&& self.spec_played_duration() == dur_sum(self.played_seq())
        &&& self.spec_queued_duration() == dur_sum(self.queued_seq())
        &&& self.spec_total_duration() == self.spec_played_duration()
            + self.spec_queued_duration()
        &&& self.spec_total_duration() <= i64::MAX
        &&& self.snapshot_seq() == self.played_seq() + self.queued_seq()
    }

    /// The track presently current: the most recently played one.
    pub open spec fn current_track(self) -> Option<TrackInfo> {
        if self.played_seq().len() == 0 {
            None
        } else {
            Some(self.played_seq().last())
        }
    }

    /// An empty queue.
    pub fn new() -> (q: Queue)
        ensures
            q.wf(),
            q.played_seq().len() == 0,
            q.queued_seq().len() == 0,
            q.spec_total_duration() == 0,
    {
        Queue {
            tracks: Vec::new(),
            queued: Vec::new(),
            played: Vec::new(),
            total_duration: 0,
            queued_duration: 0,
            played_duration: 0,
        }
    }

    /// Recomputes the duration aggregates and rebuilds the snapshot from the
    /// two segments. Called by every mutating method.
    pub fn sync_tracks(&mut self)
        requires
            durations_ok(old(self).played_seq()),
            durations_ok(old(self).queued_seq()),
            dur_sum(old(self).played_seq()) + dur_sum(old(self).queued_seq()) <= i64::MAX,
        ensures
            final(self).wf(),
            final(self).played_seq() == old(self).played_seq(),
            final(self).queued_seq() == old(self).queued_seq(),
    {
        proof {
            lemma_dur_sum_nonneg(self.played@);
            lemma_dur_sum_nonneg(self.queued@);
        }
        self.played_duration = sum_durations(&self.played);
        self.queued_duration = sum_durations(&self.queued);
        self.total_duration = self.played_duration + self.queued_duration;

        let mut snapshot = clone_track_list(&self.played);
        let mut rest = clone_track_list(&self.queued);
        snapshot.append(&mut rest);
        self.tracks = snapshot;
    }

    /// Appends tracks at the tail of the queued future.
    pub fn add_tracks(&mut self, tracks: Vec<TrackInfo>)
        requires
            old(self).wf(),
            durations_ok(tracks@),
            old(self).spec_total_duration() + dur_sum(tracks@) <= i64::MAX,
        ensures
            final(self).wf(),
            final(self).played_seq() == old(self).played_seq(),
            final(self).queued_seq() == old(self).queued_seq() + tracks@,
            final(self).spec_total_duration() == old(self).spec_total_duration()
                + dur_sum(tracks@),
    {
        let ghost old_queued = self.queued@;
        let ghost added = tracks@;
        let mut tracks = tracks;
        self.queued.append(&mut tracks);
        proof {
            lemma_dur_sum_concat(old_queued, added);
            assert(durations_ok(self.queued@));
        }
        self.sync_tracks();
    }

    /// Removes every track whose id occurs in the list, from both segments.
    /// Removal does not itself stop an in-progress track; the caller issues
    /// any stop or skip separately.
    pub fn remove_tracks(&mut self, track_ids: Vec<i32>)
        requires
            old(self).wf(),
        ensures
            final(self).wf(),
            final(self).played_seq() == old(self).played_seq().filter(
                |t: TrackInfo| !track_ids@.contains(t.track_id),
            ),
            final(self).queued_seq() == old(self).queued_seq().filter(
                |t: TrackInfo| !track_ids@.contains(t.track_id),
            ),
    {
        proof {
            let pred = |t: TrackInfo| !track_ids@.contains(t.track_id);
            lemma_dur_sum_filter_le(self.played@, pred);
            lemma_dur_sum_filter_le(self.queued@, pred);
            lemma_durations_ok_filter(self.played@, pred);
            lemma_durations_ok_filter(self.queued@, pred);
        }
        self.played = retain_absent(&self.played, &track_ids);
        self.queued = retain_absent(&self.queued, &track_ids);
        self.sync_tracks();
    }

    /// Randomly permutes the queued future, leaving history and durations
    /// untouched.
    pub fn shuffle(&mut self)
        requires
            old(self).wf(),
        ensures
            final(self).wf(),
            final(self).played_seq() == old(self).played_seq(),
            final(self).queued_seq().to_multiset() == old(self).queued_seq().to_multiset(),
            final(self).spec_total_duration() == old(self).spec_total_duration(),
            final(self).spec_queued_duration() == old(self).spec_queued_duration(),
            final(self).spec_played_duration() == old(self).spec_played_duration(),
    {
        let ghost old_queued = self.queued@;
        shuffle_in_place(&mut self.queued);
        proof {
            lemma_durations_ok_permutation(old_queued, self.queued@);
            lemma_dur_sum_permutation(old_queued, self.queued@);
        }
        self.sync_tracks();
    }

    /// Empties both segments.
    pub fn clear(&mut self)
        ensures
            final(self).wf(),
            final(self).played_seq().len() == 0,
            final(self).queued_seq().len() == 0,
            final(self).spec_total_duration() == 0,
    {
        self.queued.clear();
        self.played.clear();
        self.sync_tracks();
    }

    /// Moves all of the played history back to the front of the queued
    /// future, restoring the original un-played order.
    pub fn reset(&mut self)
        requires
            old(self).wf(),
        ensures
            final(self).wf(),
            final(self).played_seq().len() == 0,
            final(self).queued_seq() == old(self).played_seq() + old(self).queued_seq(),
            final(self).spec_total_duration() == old(self).spec_total_duration(),
    {
        let ghost old_played = self.played@;
        let ghost old_queued = self.queued@;
        let mut rebuilt = clone_track_list(&self.played);
        let mut rest = clone_track_list(&self.queued);
        rebuilt.append(&mut rest);
        self.queued = rebuilt;
        self.played = Vec::new();
        proof {
            assert(durations_ok(self.queued@));
            lemma_dur_sum_concat(old_played, old_queued);
        }
        self.sync_tracks();
    }

    /// The current track, if any: the most recently played one.
    pub fn current(&self) -> (r: Option<&TrackInfo>)
        ensures
            match r {
                Some(t) => self.current_track() == Some(*t),
                None => self.current_track() is None,
            },
    {
        if self.played.len() == 0 {
            None
        } else {
            Some(&self.played[self.played.len() - 1])
        }
    }

    /// Moves the head of the queued future to the tail of the played
    /// history and returns the new current track. With an empty future the
    /// queue is unchanged and the unchanged current track is returned.
    pub fn next(&mut self) -> (r: Option<&TrackInfo>)
        requires
            old(self).wf(),
        ensures
            final(self).wf(),
            old(self).queued_seq().len() == 0 ==> *final(self) == *old(self),
            old(self).queued_seq().len() > 0 ==> {
                &&& final(self).queued_seq() == old(self).queued_seq().drop_first()
                &&& final(self).played_seq() == old(self).played_seq().push(
                    old(self).queued_seq().first(),
                )
            },
            final(self).spec_total_duration() == old(self).spec_total_duration(),
            match r {
                Some(t) => final(self).current_track() == Some(*t),
                None => final(self).current_track() is None,
            },
    {
        if self.queued.len() > 0 {
            let ghost old_queued = self.queued@;
            let ghost old_played = self.played@;
            let track = self.queued.remove(0);
            self.played.push(track);
            proof {
                assert(self.queued@ =~= old_queued.drop_first());
                assert(old_queued =~= seq![old_queued.first()] + old_queued.drop_first());
                lemma_dur_sum_concat(seq![old_queued.first()], old_queued.drop_first());
                assert(seq![old_queued.first()].drop_last()
                    =~= Seq::<TrackInfo>::empty());
                assert(dur_sum(Seq::<TrackInfo>::empty()) == 0);
                assert(dur_sum(seq![old_queued.first()]) == old_queued.first().duration);
                lemma_dur_sum_push(old_played, old_queued.first());
                assert(durations_ok(self.played@));
                assert(durations_ok(self.queued@));
            }
            self.sync_tracks();
        }
        self.current()
    }

    /// Moves the tail of the played history back to the head of the queued
    /// future — the inverse of advancing — and returns the new current
    /// track.
    pub fn previous(&mut self) -> (r: Option<&TrackInfo>)
        requires
            old(self).wf(),
        ensures
            final(self).wf(),
            old(self).played_seq().len() == 0 ==> *final(self) == *old(self),
            old(self).played_seq().len() > 0 ==> {
                &&& final(self).played_seq() == old(self).played_seq().drop_last()
                &&& final(self).queued_seq() == seq![old(self).played_seq().last()]
                    + old(self).queued_seq()
            },
            final(self).spec_total_duration() == old(self).spec_total_duration(),
            match r {
                Some(t) => final(self).current_track() == Some(*t),
                None => final(self).current_track() is None,
            },
    {
        if self.played.len() > 0 {
            let ghost old_queued = self.queued@;
            let ghost old_played = self.played@;
            let track = self.played.pop().unwrap();
            self.queued.insert(0, track);
            proof {
                assert(self.queued@ =~= seq![old_played.last()] + old_queued);
                lemma_dur_sum_concat(seq![old_played.last()], old_queued);
                assert(seq![old_played.last()].drop_last() =~= Seq::<TrackInfo>::empty());
                assert(dur_sum(Seq::<TrackInfo>::empty()) == 0);
                assert(dur_sum(seq![old_played.last()]) == old_played.last().duration);
                assert(self.played@ =~= old_played.drop_last());
                assert(durations_ok(self.played@));
                assert(durations_ok(self.queued@));
                assert(dur_sum(old_played) == dur_sum(old_played.drop_last())
                    + old_played.last().duration);
            }
            self.sync_tracks();
        }
        self.current()
    }

    /// The flat snapshot (history then future) for the presentation layer.
    pub fn tracks(&self) -> (r: &Vec<TrackInfo>)
        ensures
            r@ == self.snapshot_seq(),
    {
        &self.tracks
    }

    /// A copy of the played history.
    pub fn played(&self) -> (r: Vec<TrackInfo>)
        ensures
            r@ == self.played_seq(),
    {
        clone_track_list(&self.played)
    }

    /// A copy of the queued future.
    pub fn queued(&self) -> (r: Vec<TrackInfo>)
        ensures
            r@ == self.queued_seq(),
    {
        clone_track_list(&self.queued)
    }

    /// Duration accounting: in any well-formed queue — and every method
    /// keeps the queue well-formed — the played and queued duration
    /// aggregates sum to the total.
    pub proof fn lemma_duration_accounting(self)
        requires
            self.wf(),
        ensures
            self.spec_queued_duration() + self.spec_played_duration()
                == self.spec_total_duration(),
    {
    }

    /// Advancing and then immediately rewinding restores the prior queue
    /// content and order, for any queue with a non-empty future. The two
    /// hypotheses relating `pre` to `mid` and `mid` to `post` are exactly
    /// what `next` and `previous` ensure on such a queue.
    pub proof fn lemma_advance_then_rewind(pre: Queue, mid: Queue, post: Queue)
        requires
            pre.queued_seq().len() > 0,
            mid.queued_seq() == pre.queued_seq().drop_first(),
            mid.played_seq() == pre.played_seq().push(pre.queued_seq().first()),
            post.played_seq() == mid.played_seq().drop_last(),
            post.queued_seq() == seq![mid.played_seq().last()] + mid.queued_seq(),
        ensures
            post.played_seq() == pre.played_seq(),
            post.queued_seq() == pre.queued_seq(),
    {
        assert(mid.played_seq().drop_last() =~= pre.played_seq());
        assert(seq![mid.played_seq().last()] + mid.queued_seq() =~= pre.queued_seq());
    }

    /// How many tracks the queued future holds.
    pub fn queued_len(&self) -> (r: usize)
        ensures
            r == self.queued_seq().len(),
    {
        self.queued.len()
    }

    /// How many tracks the played history holds.
    pub fn played_len(&self) -> (r: usize)
        ensures
            r == self.played_seq().len(),
    {
        self.played.len()
    }

    pub fn total_duration(&self) -> (r: i64)
        ensures
            r == self.spec_total_duration(),
    {
        self.total_duration
    }

    pub fn queued_duration(&self) -> (r: i64)
        ensures
            r == self.spec_queued_duration(),
    {
        self.queued_duration
    }

    pub fn played_duration(&self) -> (r: i64)
        ensures
            r == self.spec_played_duration(),
    {
        self.played_duration
    }
}

} // verus!
