//! Audio playback control and the engine worker's state machine.
//!
//! [`AudioPlayer`] is the command proxy handed to the rest of the
//! application: it performs no audio work itself but queues commands for a
//! worker owning the native engine. [`AudioEngineWorker`] is that worker's
//! decision core: it folds engine notifications into the pause and idle
//! flags, derives the playback state from them, and decides which events to
//! report back — the surrounding application only polls the engine and
//! performs the sends.

use vstd::prelude::*;

use std::sync::mpsc::Sender;

use crate::channel::{send_value, ChannelClosed};
use crate::events::AppEvent;

verus! {

/// The current playback status of the audio engine. Never set directly: it
/// is a pure function of the engine-reported idle and pause flags.
#[derive(Debug, Clone, Copy, PartialEq, Eq, Structural)]
pub enum PlayerState {
    Playing,
    Paused,
    Stopped,
}

/// A fire-and-forget command for the engine worker.
#[derive(Debug)]
pub enum AudioPlayerCommand {
    /// Load and replace the current media, then unpause.
    PlayFile(String),
    TogglePause,
    /// Relative seek, in seconds.
    Seek(i32),
    Stop,
    /// Relative volume change; the engine clamps the range.
    AdjustVolume(i32),
    ToggleMute,
}

/// The playback state that a pair of engine flags denotes.
pub open spec fn spec_player_state(is_paused: bool, is_idle: bool) -> PlayerState {
    if is_idle {
        PlayerState::Stopped
    } else if is_paused {
        PlayerState::Paused
    } else {
        PlayerState::Playing
    }
}

/// A handle to the audio playback engine: commands sent here are queued
/// for the worker thread that owns the engine.
pub struct AudioPlayer {
    command_tx: Sender<AudioPlayerCommand>,
}

impl AudioPlayer {
    /// A player handle sending its commands over the given channel.
    pub fn new(command_tx: Sender<AudioPlayerCommand>) -> (p: AudioPlayer) {
        AudioPlayer { command_tx }
    }

    /// Maps the engine-reported flags to the playback state: stopped when
    /// idle, else paused or playing by the pause flag.
    pub fn player_state(is_paused: bool, is_idle: bool) -> (s: PlayerState)
        ensures
            s == spec_player_state(is_paused, is_idle),
    {
        if is_idle {
            PlayerState::Stopped
        } else if is_paused {
            PlayerState::Paused
        } else {
            PlayerState::Playing
        }
    }

    /// Queues loading and playing the given file. Whether the send
    /// succeeds depends on the worker still listening.
    pub fn play_file(&self, filename: &str) -> (r: Result<(), ChannelClosed>) {
        send_value(&self.command_tx, AudioPlayerCommand::PlayFile(filename.to_owned()))
    }

    /// Queues toggling between paused and playing.
    pub fn toggle_pause(&self) -> (r: Result<(), ChannelClosed>) {
        send_value(&self.command_tx, AudioPlayerCommand::TogglePause)
    }

    /// Queues stopping playback.
    pub fn stop(&self) -> (r: Result<(), ChannelClosed>) {
        send_value(&self.command_tx, AudioPlayerCommand::Stop)
    }

    /// Queues a relative volume change.
    pub fn adjust_volume(&self, delta: i32) -> (r: Result<(), ChannelClosed>) {
        send_value(&self.command_tx, AudioPlayerCommand::AdjustVolume(delta))
    }

    /// Queues toggling the mute flag.
    pub fn toggle_mute(&self) -> (r: Result<(), ChannelClosed>) {
        send_value(&self.command_tx, AudioPlayerCommand::ToggleMute)
    }

    /// Queues a relative seek.
    pub fn seek(&self, delta: i32) -> (r: Result<(), ChannelClosed>) {
        send_value(&self.command_tx, AudioPlayerCommand::Seek(delta))
    }
}

/// One engine notification, reduced to plain values: a property change of
/// interest, the end of the current medium, or anything else.
#[derive(Debug)]
pub enum EngineNotification {
    /// The media title changed.
    Title(String),
    /// The medium's duration, in whole seconds.
    Duration(u64),
    /// The engine's pause flag.
    Pause(bool),
    /// The playback position, in whole seconds; the engine transiently
    /// reports negative values, which are filtered, never forwarded.
    TimePos(i64),
    /// The playback volume, in engine units.
    Volume(u32),
    /// The engine's idle flag.
    Idle(bool),
    /// The current medium ended; `eof` says whether it ran to its end
    /// rather than being replaced or stopped.
    EndFile { eof: bool },
    /// Any notification of no interest.
    Other,
}

/// The engine worker's decision state: the last reported flags and the
/// playback state derived from them at the previous notification.
pub struct AudioEngineWorker {
    pub is_paused: bool,
    pub is_idle: bool,
    pub state: PlayerState,
}

/// The worker state after folding in one notification: the pause and idle
/// flags are updated and the playback state recomputed from them.
pub open spec fn spec_worker_after(w: AudioEngineWorker, note: EngineNotification)
    -> AudioEngineWorker {
    let is_paused = match note {
        EngineNotification::Pause(p) => p,
        _ => w.is_paused,
    };
    let is_idle = match note {
        EngineNotification::Idle(i) => i,
        _ => w.is_idle,
    };
    AudioEngineWorker { is_paused, is_idle, state: spec_player_state(is_paused, is_idle) }
}

/// The state-change event a notification provokes: the new state exactly
/// when it differs from the previous one, at most one per notification.
pub open spec fn spec_state_event(w: AudioEngineWorker, note: EngineNotification)
    -> Option<PlayerState> {
    let after = spec_worker_after(w, note);
    if after.state != w.state {
        Some(after.state)
    } else {
        None
    }
}

/// The content event a notification provokes. Flag changes provoke none;
/// a position is forwarded only when non-negative; the end of a medium is
/// reported only when it ran to its actual end.
pub open spec fn spec_content_event(note: EngineNotification) -> Option<AppEvent> {
    match note {
        EngineNotification::Title(t) => Some(AppEvent::TitleChanged(t)),
        EngineNotification::Duration(d) => Some(AppEvent::DurationChanged(d)),
        EngineNotification::Pause(_) => None,
        EngineNotification::TimePos(s) => if s >= 0 {
            Some(AppEvent::TimeChanged(s as u64))
        } else {
            None
        },
        EngineNotification::Volume(v) => Some(AppEvent::VolumeChanged(v)),
        EngineNotification::Idle(_) => None,
        EngineNotification::EndFile { eof } => if eof {
            Some(AppEvent::TrackFinished)
        } else {
            None
        },
        EngineNotification::Other => None,
    }
}

impl AudioEngineWorker {
    /// The worker's state before any notification: flags as a fresh engine
    /// reports them — idle, not paused — and therefore stopped.
    pub fn new() -> (w: AudioEngineWorker)
        ensures
            !w.is_paused,
            w.is_idle,
            w.state == PlayerState::Stopped,
    {
        AudioEngineWorker { is_paused: false, is_idle: true, state: PlayerState::Stopped }
    }

    /// Folds one engine notification into the worker state and returns the
    /// events to report: at most one state change, which the caller must
    /// emit before the content event returned beside it.
    pub fn observe(&mut self, note: EngineNotification) -> (r: (
        Option<PlayerState>,
        Option<AppEvent>,
    ))
        ensures
            *final(self) == spec_worker_after(*old(self), note),
            r.0 == spec_state_event(*old(self), note),
            r.1 == spec_content_event(note),
    {
        let content: Option<AppEvent> = match note {
            EngineNotification::Title(t) => Some(AppEvent::TitleChanged(t)),
            EngineNotification::Duration(d) => Some(AppEvent::DurationChanged(d)),
            EngineNotification::Pause(p) => {
                self.is_paused = p;
                None
            },
            EngineNotification::TimePos(s) => if s >= 0 {
                Some(AppEvent::TimeChanged(s as u64))
            } else {
                None
            },
            EngineNotification::Volume(v) => Some(AppEvent::VolumeChanged(v)),
            EngineNotification::Idle(i) => {
                self.is_idle = i;
                None
            },
            EngineNotification::EndFile { eof } => if eof {
                Some(AppEvent::TrackFinished)
            } else {
                None
            },
            EngineNotification::Other => None,
        };

        let new_state = AudioPlayer::player_state(self.is_paused, self.is_idle);
        let state_event: Option<PlayerState> = if new_state != self.state {
            Some(new_state)
        } else {
            None
        };
        self.state = new_state;

        (state_event, content)
    }
}

/// Feeding a stopped worker an idle notification and then a busy one, with
/// the pause flag off throughout, yields exactly one state-change event:
/// the transition from stopped to playing, on the second notification.
pub proof fn lemma_one_transition_to_playing(w0: AudioEngineWorker)
    requires
        !w0.is_paused,
        w0.is_idle,
        w0.state == PlayerState::Stopped,
    ensures
        spec_state_event(w0, EngineNotification::Idle(true)) is None,
        spec_state_event(
            spec_worker_after(w0, EngineNotification::Idle(true)),
            EngineNotification::Idle(false),
        ) == Some(PlayerState::Playing),
        spec_worker_after(
            spec_worker_after(w0, EngineNotification::Idle(true)),
            EngineNotification::Idle(false),
        ).state == PlayerState::Playing,
{
}

} // verus!
