//! The playback controller: the state machine that orchestrates track
//! switching and keeps at most one decode session feeding the output
//! bridge at a time.
//!
//! A play request never constructs a second session beside a live one: it
//! either starts a session from `Idle`, or signals `Stop` to the active
//! session, remembers the request, and starts the new session only once
//! the prior session's completion is observed (or, on a natural end
//! detected by the poller, its teardown is known). The surrounding
//! runtime performs the returned [`ControllerAction`]s — spawning the
//! prefetcher and decode threads, signalling the control channel — and
//! feeds observations back in.

use vstd::prelude::*;
use crate::track::TrackInfo;
use crate::track::same_track;
use crate::utils::random;

verus! {

/// Repeat behavior on a natural end of track.
#[derive(Clone, Copy, PartialEq, Eq, Structural, Debug)]
pub enum RepeatMode {
    /// Advance to the next track.
    Off,
    /// Replay the same track.
    Single,
    /// Advance, wrapping to the first track after the last.
    All,
}

/// Where the controller stands in the life of a track.
#[derive(Clone, Copy, PartialEq, Eq, Structural, Debug)]
pub enum PlaybackPhase {
    /// No session exists.
    Idle,
    /// A session is being constructed; the bridge has no sample yet.
    Loading,
    /// The active session feeds the bridge.
    Playing,
    /// `Stop` was signalled; the completion report is awaited.
    Stopping,
}

/// What the surrounding runtime must do after a controller step.
#[derive(Clone, Copy, PartialEq, Eq, Structural, Debug)]
pub enum ControllerAction {
    /// No outside work.
    Nothing,
    /// Clear the bridge, then construct prefetcher and decode session for
    /// this track; the session number tags everything it produces.
    StartSession {
        /// Catalog identifier of the track to resolve and play.
        track_id: i32,
        /// The number of the new session.
        session: u64,
    },
    /// Send `Stop` on the active session's control channel, then await
    /// its completion report.
    SignalStop,
}

/// The controller's state: the track list and position in it, transport
/// settings, and the session-tracking fields that carry the one-producer
/// guarantee.
pub struct AudioPlayer {
    /// The track list, as fetched from the catalog.
    pub tracks: Vec<TrackInfo>,
    /// The track selected for (or in) playback.
    pub track: Option<TrackInfo>,
    /// Index of the selected track in `tracks`.
    pub track_index: usize,
    /// Volume, `0..=200`; `100` is unity gain, above is boosted.
    pub volume: u8,
    /// Whether the active session is expected to be producing samples.
    pub is_playing: bool,
    /// Whether shuffle mode selects the next track at random.
    pub is_shuffled: bool,
    /// Whether the output is muted; the volume is kept for toggle-off.
    pub is_muted: bool,
    /// Repeat behavior on a natural end of track.
    pub repeat_mode: RepeatMode,
    /// Where the controller stands in the life of a track.
    pub phase: PlaybackPhase,
    /// The play request remembered while the prior session stops.
    pub pending_track: Option<i32>,
    /// The number of the live session, while one exists.
    pub active_session: Option<u64>,
    /// Session numbers handed out so far; the next session gets this one.
    pub session_counter: u64,
}

impl AudioPlayer {
    /// The controller's invariant: volume stays in range, the track index
    /// stays inside the list, exactly the non-idle phases hold a live
    /// session, and a pending request exists only while stopping.
    pub open spec fn wf(&self) -> bool {
        &&& self.volume <= 200
        &&& (self.tracks@.len() == 0 ==> self.track_index == 0)
        &&& (self.tracks@.len() > 0 ==> self.track_index < self.tracks@.len())
        &&& (self.phase is Idle <==> self.active_session is None)
        &&& (self.pending_track is Some ==> self.phase is Stopping)
    }

    /// A fresh controller: empty list, unity volume, everything off,
    /// idle.
    pub fn new() -> (r: AudioPlayer)
        ensures
            r.wf(),
            r.tracks@.len() == 0,
            r.track is None,
            r.track_index == 0,
            r.volume == 100,
            !r.is_playing,
            !r.is_shuffled,
            !r.is_muted,
            r.repeat_mode == RepeatMode::Off,
            r.phase == PlaybackPhase::Idle,
            r.pending_track is None,
            r.active_session is None,
            r.session_counter == 0,
    {
        AudioPlayer {
            tracks: Vec::new(),
            track: None,
            track_index: 0,
            volume: 100,
            is_playing: false,
            is_shuffled: false,
            is_muted: false,
            repeat_mode: RepeatMode::Off,
            phase: PlaybackPhase::Idle,
            pending_track: None,
            active_session: None,
            session_counter: 0,
        }
    }

    /// Select the previous track: one step back, stopping at the first.
    pub fn previous_track(&mut self)
        requires
            old(self).wf(),
            old(self).tracks@.len() > 0,
        ensures
            final(self).wf(),
            final(self).track_index == (if old(self).track_index != 0 {
                old(self).track_index - 1
            } else {
                0int
            }),
            final(self).track matches Some(t) && same_track(
                t,
                old(self).tracks@[final(self).track_index as int],
            ),
            final(self).tracks@ == old(self).tracks@,
            *final(self) == (AudioPlayer {
                track: final(self).track,
                track_index: final(self).track_index,
                ..*old(self)
            }),
    {
        if self.track_index != 0 {
            self.track_index = self.track_index - 1;
        }
        self.track = Some(self.tracks[self.track_index].clone());
    }

    /// Select the next track: one step forward, wrapping to the first
    /// after the last — or a random index below the last in shuffle mode.
    pub fn next_track(&mut self)
        requires
            old(self).wf(),
            old(self).tracks@.len() > 0,
            old(self).is_shuffled ==> old(self).tracks@.len() >= 2,
        ensures
            final(self).wf(),
            !old(self).is_shuffled ==> final(self).track_index == (if old(self).track_index
                < old(self).tracks@.len() - 1 {
                old(self).track_index + 1
            } else {
                0int
            }),
            old(self).is_shuffled ==> final(self).track_index < old(self).tracks@.len() - 1,
            final(self).track matches Some(t) && same_track(
                t,
                old(self).tracks@[final(self).track_index as int],
            ),
            final(self).tracks@ == old(self).tracks@,
            *final(self) == (AudioPlayer {
                track: final(self).track,
                track_index: final(self).track_index,
                ..*old(self)
            }),
    {
        if self.is_shuffled {
            let last: usize = self.tracks.len() - 1;
            if last <= i32::MAX as usize {
                self.track_index = random(0, last as i32) as usize;
            } else {
                self.track_index = 0;
            }
        } else if self.track_index < self.tracks.len() - 1 {
            self.track_index = self.track_index + 1;
        } else {
            self.track_index = 0;
        }
        self.track = Some(self.tracks[self.track_index].clone());
    }

    /// Request playback of a track by catalog identifier. From idle a new
    /// session starts at once; beside a live session the request is
    /// remembered and the session is told to stop first — a new session
    /// is never constructed while another may still produce.
    pub fn play_track(&mut self, track_id: i32) -> (r: ControllerAction)
        requires
            old(self).wf(),
            old(self).session_counter < u64::MAX,
        ensures
            final(self).wf(),
            old(self).phase is Idle ==> r == (ControllerAction::StartSession {
                track_id,
                session: old(self).session_counter,
            }) && final(self).phase is Loading && final(self).active_session == Some(
                old(self).session_counter,
            ) && final(self).session_counter == old(self).session_counter + 1
                && final(self).pending_track is None,
            old(self).phase is Loading || old(self).phase is Playing ==> r
                == ControllerAction::SignalStop && final(self).phase is Stopping && final(self).pending_track == Some(track_id) && final(self).active_session == old(self).active_session && final(self).session_counter == old(self).session_counter,
            old(self).phase is Stopping ==> r == ControllerAction::Nothing && final(self).phase
                is Stopping && final(self).pending_track == Some(track_id) && final(self).active_session == old(self).active_session && final(self).session_counter == old(self).session_counter,
            r matches ControllerAction::StartSession { .. } ==> old(self).phase is Idle && old(self).active_session is None,
            final(self).tracks@ == old(self).tracks@,
            final(self).track == old(self).track,
            final(self).track_index == old(self).track_index,
            final(self).volume == old(self).volume,
            final(self).is_muted == old(self).is_muted,
            final(self).is_shuffled == old(self).is_shuffled,
            final(self).repeat_mode == old(self).repeat_mode,
    {
        match self.phase {
            PlaybackPhase::Idle => {
                let session: u64 = self.session_counter;
                self.session_counter = self.session_counter + 1;
                self.active_session = Some(session);
                self.phase = PlaybackPhase::Loading;
                self.pending_track = None;
                ControllerAction::StartSession { track_id, session }
            }
            PlaybackPhase::Loading | PlaybackPhase::Playing => {
                self.phase = PlaybackPhase::Stopping;
                self.pending_track = Some(track_id);
                self.is_playing = false;
                ControllerAction::SignalStop
            }
            PlaybackPhase::Stopping => {
                self.pending_track = Some(track_id);
                ControllerAction::Nothing
            }
        }
    }

    /// Play the track at a list index, if the index is valid.
    pub fn play_nth(&mut self, index: usize) -> (r: ControllerAction)
        requires
            old(self).wf(),
            old(self).session_counter < u64::MAX,
        ensures
            final(self).wf(),
            index >= old(self).tracks@.len() ==> r == ControllerAction::Nothing && *final(self)
                == *old(self),
            final(self).tracks@ == old(self).tracks@,
            index < old(self).tracks@.len() ==> final(self).track_index == index && (final(self).track matches Some(t) && same_track(t, old(self).tracks@[index as int])),
            r matches ControllerAction::StartSession { track_id, .. } ==> index < old(self).tracks@.len() && track_id == old(self).tracks@[index as int].id,
            r matches ControllerAction::StartSession { .. } ==> old(self).phase is Idle && old(self).active_session is None,
            index < old(self).tracks@.len() && old(self).phase is Idle ==> r
                == (ControllerAction::StartSession {
                track_id: old(self).tracks@[index as int].id,
                session: old(self).session_counter,
            }) && final(self).phase is Loading,
            index < old(self).tracks@.len() && (old(self).phase is Loading || old(self).phase
                is Playing) ==> r == ControllerAction::SignalStop && final(self).phase is Stopping
                && final(self).pending_track == Some(old(self).tracks@[index as int].id),
            index < old(self).tracks@.len() && old(self).phase is Stopping ==> r
                == ControllerAction::Nothing && final(self).phase is Stopping && final(self).pending_track == Some(old(self).tracks@[index as int].id),
    {
        if index < self.tracks.len() {
            let track: TrackInfo = self.tracks[index].clone();
            let id: i32 = track.id;
            self.track = Some(track);
            self.track_index = index;
            self.play_track(id)
        } else {
            ControllerAction::Nothing
        }
    }

    /// Select the previous track and request it.
    pub fn play_previous(&mut self) -> (r: ControllerAction)
        requires
            old(self).wf(),
            old(self).tracks@.len() > 0,
            old(self).session_counter < u64::MAX,
        ensures
            final(self).wf(),
            r matches ControllerAction::StartSession { track_id, .. } ==> track_id == old(self).tracks@[final(self).track_index as int].id,
            r matches ControllerAction::StartSession { .. } ==> old(self).phase is Idle,
            final(self).tracks@ == old(self).tracks@,
            final(self).track_index == (if old(self).track_index != 0 {
                old(self).track_index - 1
            } else {
                0int
            }),
            final(self).track matches Some(t) && same_track(
                t,
                old(self).tracks@[final(self).track_index as int],
            ),
            old(self).phase is Idle ==> r == (ControllerAction::StartSession {
                track_id: old(self).tracks@[final(self).track_index as int].id,
                session: old(self).session_counter,
            }) && final(self).phase is Loading,
            old(self).phase is Loading || old(self).phase is Playing ==> r
                == ControllerAction::SignalStop && final(self).phase is Stopping && final(self).pending_track == Some(old(self).tracks@[final(self).track_index as int].id),
            old(self).phase is Stopping ==> r == ControllerAction::Nothing && final(self).phase
                is Stopping && final(self).pending_track == Some(
                old(self).tracks@[final(self).track_index as int].id,
            ),
    {
        self.previous_track();
        let id: i32 = match &self.track {
            Some(t) => t.id,
            None => 0,
        };
        self.play_track(id)
    }

    /// Select the next track and request it.
    pub fn play_next(&mut self) -> (r: ControllerAction)
        requires
            old(self).wf(),
            old(self).tracks@.len() > 0,
            old(self).is_shuffled ==> old(self).tracks@.len() >= 2,
            old(self).session_counter < u64::MAX,
        ensures
            final(self).wf(),
            r matches ControllerAction::StartSession { track_id, .. } ==> track_id == old(self).tracks@[final(self).track_index as int].id,
            r matches ControllerAction::StartSession { .. } ==> old(self).phase is Idle,
            final(self).tracks@ == old(self).tracks@,
            !old(self).is_shuffled ==> final(self).track_index == (if old(self).track_index
                < old(self).tracks@.len() - 1 {
                old(self).track_index + 1
            } else {
                0int
            }),
            old(self).is_shuffled ==> final(self).track_index < old(self).tracks@.len() - 1,
            final(self).track matches Some(t) && same_track(
                t,
                old(self).tracks@[final(self).track_index as int],
            ),
            old(self).phase is Idle ==> r == (ControllerAction::StartSession {
                track_id: old(self).tracks@[final(self).track_index as int].id,
                session: old(self).session_counter,
            }) && final(self).phase is Loading,
            old(self).phase is Loading || old(self).phase is Playing ==> r
                == ControllerAction::SignalStop && final(self).phase is Stopping && final(self).pending_track == Some(old(self).tracks@[final(self).track_index as int].id),
            old(self).phase is Stopping ==> r == ControllerAction::Nothing && final(self).phase
                is Stopping && final(self).pending_track == Some(
                old(self).tracks@[final(self).track_index as int].id,
            ),
    {
        self.next_track();
        let id: i32 = match &self.track {
            Some(t) => t.id,
            None => 0,
        };
        self.play_track(id)
    }

    /// The bridge received the first sample of the loading session: the
    /// track is playing.
    pub fn on_first_sample(&mut self)
        requires
            old(self).wf(),
            old(self).phase is Loading,
        ensures
            final(self).wf(),
            final(self).phase is Playing,
            final(self).is_playing,
            *final(self) == (AudioPlayer {
                phase: PlaybackPhase::Playing,
                is_playing: true,
                ..*old(self)
            }),
    {
        self.phase = PlaybackPhase::Playing;
        self.is_playing = true;
    }

    /// Request an explicit stop of the current playback: the session is
    /// told to stop and its completion awaited; nothing happens when no
    /// session exists.
    pub fn stop_track(&mut self) -> (r: ControllerAction)
        requires
            old(self).wf(),
        ensures
            final(self).wf(),
            !final(self).is_playing,
            old(self).phase is Idle || old(self).phase is Stopping ==> r
                == ControllerAction::Nothing && final(self).phase == old(self).phase && *final(self) == (AudioPlayer { is_playing: false, ..*old(self) }),
            old(self).phase is Loading || old(self).phase is Playing ==> r
                == ControllerAction::SignalStop && *final(self) == (AudioPlayer {
                phase: PlaybackPhase::Stopping,
                pending_track: None,
                is_playing: false,
                ..*old(self)
            }),
            final(self).active_session == old(self).active_session,
            final(self).tracks@ == old(self).tracks@,
    {
        self.is_playing = false;
        match self.phase {
            PlaybackPhase::Loading | PlaybackPhase::Playing => {
                self.phase = PlaybackPhase::Stopping;
                self.pending_track = None;
                ControllerAction::SignalStop
            }
            PlaybackPhase::Idle => ControllerAction::Nothing,
            PlaybackPhase::Stopping => ControllerAction::Nothing,
        }
    }

    /// The track load failed before any session thread came up (the
    /// length probe failed, the codec is unknown): abort the loading
    /// state back to idle, so the diagnostic can be surfaced and another
    /// request accepted.
    pub fn on_load_failed(&mut self)
        requires
            old(self).wf(),
            old(self).phase is Loading,
        ensures
            final(self).wf(),
            final(self).phase is Idle,
            final(self).active_session is None,
            !final(self).is_playing,
            *final(self) == (AudioPlayer {
                phase: PlaybackPhase::Idle,
                active_session: None,
                is_playing: false,
                ..*old(self)
            }),
    {
        self.phase = PlaybackPhase::Idle;
        self.active_session = None;
        self.is_playing = false;
    }

    /// The stopping session reported its completion: the prior producer
    /// is gone. A remembered play request starts its session now — only
    /// now — otherwise the controller falls back to idle.
    pub fn on_completion(&mut self, explicit: bool) -> (r: ControllerAction)
        requires
            old(self).wf(),
            old(self).phase is Stopping,
            old(self).session_counter < u64::MAX,
        ensures
            final(self).wf(),
            old(self).pending_track is None ==> r == ControllerAction::Nothing && final(self).phase is Idle && final(self).active_session is None,
            old(self).pending_track matches Some(t) ==> r == (ControllerAction::StartSession {
                track_id: t,
                session: old(self).session_counter,
            }) && final(self).phase is Loading && final(self).active_session == Some(
                old(self).session_counter,
            ) && final(self).pending_track is None,
            r matches ControllerAction::StartSession { .. } ==> old(self).pending_track is Some,
    {
        self.active_session = None;
        self.phase = PlaybackPhase::Idle;
        match self.pending_track {
            Some(track_id) => {
                self.pending_track = None;
                self.play_track(track_id)
            }
            None => ControllerAction::Nothing,
        }
    }

    /// The poller detected a natural end of track. Auto-advance according
    /// to the repeat mode: play the next track, replay the same one, or
    /// wrap to the first track after the last. The dead session is known
    /// torn down, so the next one may start at once.
    pub fn on_track_end(&mut self) -> (r: ControllerAction)
        requires
            old(self).wf(),
            old(self).phase is Playing,
            old(self).tracks@.len() > 0,
            old(self).is_shuffled && (old(self).repeat_mode == RepeatMode::Off || (old(self).repeat_mode == RepeatMode::All && old(self).track_index != old(self).tracks@.len()
                - 1)) ==> old(self).tracks@.len() >= 2,
            old(self).session_counter < u64::MAX,
            old(self).repeat_mode == RepeatMode::Single ==> old(self).track is Some,
        ensures
            final(self).wf(),
            r matches ControllerAction::StartSession { .. },
            final(self).phase is Loading,
            final(self).tracks@ == old(self).tracks@,
            old(self).repeat_mode == RepeatMode::All && old(self).track_index == old(self).tracks@.len() - 1 ==> final(self).track_index == 0 && (final(self).track matches Some(
                t,
            ) && same_track(t, old(self).tracks@[0])) && r == (ControllerAction::StartSession {
                track_id: old(self).tracks@[0].id,
                session: old(self).session_counter,
            }),
            old(self).repeat_mode == RepeatMode::Single ==> final(self).track_index == old(self).track_index && final(self).track == old(self).track && (old(self).track
                matches Some(t) && r == (ControllerAction::StartSession {
                track_id: t.id,
                session: old(self).session_counter,
            })),
            old(self).repeat_mode == RepeatMode::Off || old(self).repeat_mode == RepeatMode::All
                ==> (final(self).track matches Some(t) && same_track(
                t,
                old(self).tracks@[final(self).track_index as int],
            )) && r == (ControllerAction::StartSession {
                track_id: old(self).tracks@[final(self).track_index as int].id,
                session: old(self).session_counter,
            }),
            (old(self).repeat_mode == RepeatMode::Off || (old(self).repeat_mode
                == RepeatMode::All && old(self).track_index != old(self).tracks@.len() - 1))
                && !old(self).is_shuffled ==> final(self).track_index == (if old(self).track_index
                < old(self).tracks@.len() - 1 {
                old(self).track_index + 1
            } else {
                0int
            }),
            (old(self).repeat_mode == RepeatMode::Off || (old(self).repeat_mode
                == RepeatMode::All && old(self).track_index != old(self).tracks@.len() - 1))
                && old(self).is_shuffled ==> final(self).track_index < old(self).tracks@.len()
                - 1,
    {
        self.active_session = None;
        self.phase = PlaybackPhase::Idle;
        self.is_playing = false;
        match self.repeat_mode {
            RepeatMode::Single => {
                let id: i32 = match &self.track {
                    Some(t) => t.id,
                    None => 0,
                };
                self.play_track(id)
            }
            RepeatMode::All => {
                if self.track_index == self.tracks.len() - 1 {
                    self.play_nth(0)
                } else {
                    self.play_next()
                }
            }
            RepeatMode::Off => self.play_next(),
        }
    }

    /// The gain the sink is asked to apply, in hundredths of unity: the
    /// volume, or zero while muted.
    pub open spec fn effective_volume(&self) -> u8 {
        if self.is_muted {
            0
        } else {
            self.volume
        }
    }

    /// The gain to hand the sink, in hundredths of unity.
    pub fn sink_gain(&self) -> (r: u8)
        ensures
            r == self.effective_volume(),
    {
        if self.is_muted {
            0
        } else {
            self.volume
        }
    }

    /// Set the volume outright, capped at `200`, and unmute.
    pub fn set_volume(&mut self, volume: u8)
        requires
            old(self).wf(),
        ensures
            final(self).wf(),
            final(self).volume == (if volume <= 200 {
                volume
            } else {
                200u8
            }),
            !final(self).is_muted,
            *final(self) == (AudioPlayer {
                volume: final(self).volume,
                is_muted: false,
                ..*old(self)
            }),
    {
        self.is_muted = false;
        self.volume = if volume < 200 {
            volume
        } else {
            200
        };
    }

    /// Raise the volume by a step, saturating at `200`, and unmute.
    pub fn volume_up(&mut self, step: u8)
        requires
            old(self).wf(),
        ensures
            final(self).wf(),
            final(self).volume == (if old(self).volume + step <= 200 {
                old(self).volume + step
            } else {
                200int
            }),
            !final(self).is_muted,
            *final(self) == (AudioPlayer {
                volume: final(self).volume,
                is_muted: false,
                ..*old(self)
            }),
    {
        self.is_muted = false;
        let raised: u16 = self.volume as u16 + step as u16;
        self.volume = if raised <= 200 {
            raised as u8
        } else {
            200
        };
    }

    /// Lower the volume by a step, saturating at zero, and unmute.
    pub fn volume_down(&mut self, step: u8)
        requires
            old(self).wf(),
        ensures
            final(self).wf(),
            final(self).volume == (if old(self).volume >= step {
                old(self).volume - step
            } else {
                0int
            }),
            !final(self).is_muted,
            *final(self) == (AudioPlayer {
                volume: final(self).volume,
                is_muted: false,
                ..*old(self)
            }),
    {
        self.is_muted = false;
        self.volume = if self.volume >= step {
            self.volume - step
        } else {
            0
        };
    }

    /// Resume when the sink is paused, pause when it runs: returns
    /// whether the sink should resume.
    pub fn play_pause(&mut self, sink_paused: bool) -> (resume: bool)
        requires
            old(self).wf(),
        ensures
            final(self).wf(),
            resume == sink_paused,
            final(self).is_playing == sink_paused,
            *final(self) == (AudioPlayer { is_playing: sink_paused, ..*old(self) }),
    {
        self.is_playing = sink_paused;
        sink_paused
    }

    /// Cycle the repeat mode: none, single, all, none again.
    pub fn toggle_repeat_mode(&mut self)
        requires
            old(self).wf(),
        ensures
            final(self).wf(),
            final(self).repeat_mode == (match old(self).repeat_mode {
                RepeatMode::Off => RepeatMode::Single,
                RepeatMode::Single => RepeatMode::All,
                RepeatMode::All => RepeatMode::Off,
            }),
            *final(self) == (AudioPlayer { repeat_mode: final(self).repeat_mode, ..*old(self) }),
    {
        self.repeat_mode = match self.repeat_mode {
            RepeatMode::Off => RepeatMode::Single,
            RepeatMode::Single => RepeatMode::All,
            RepeatMode::All => RepeatMode::Off,
        };
    }

    /// Toggle the mute flag. The volume setting is untouched, so
    /// toggle-off restores the prior gain; the effective gain is zero
    /// while muted.
    pub fn toggle_mute(&mut self)
        requires
            old(self).wf(),
        ensures
            final(self).wf(),
            final(self).is_muted == !old(self).is_muted,
            final(self).volume == old(self).volume,
            final(self).effective_volume() == (if old(self).is_muted {
                old(self).volume
            } else {
                0u8
            }),
            *final(self) == (AudioPlayer { is_muted: !old(self).is_muted, ..*old(self) }),
    {
        self.is_muted = !self.is_muted;
    }

    /// Toggle shuffle mode.
    pub fn toggle_shuffling(&mut self)
        requires
            old(self).wf(),
        ensures
            final(self).wf(),
            final(self).is_shuffled == !old(self).is_shuffled,
            *final(self) == (AudioPlayer { is_shuffled: !old(self).is_shuffled, ..*old(self) }),
    {
        self.is_shuffled = !self.is_shuffled;
    }

    /// The target of a seek forward from the current position, in
    /// milliseconds, saturating at the top of the range.
    pub fn seek_forwards(&self, position_ms: u64, seconds: u64) -> (target: u64)
        ensures
            seconds * 1000 <= u64::MAX && position_ms + seconds * 1000 <= u64::MAX ==> target
                == position_ms + seconds * 1000,
            seconds * 1000 > u64::MAX || position_ms + seconds * 1000 > u64::MAX ==> target
                == u64::MAX,
    {
        let delta: u64 = if seconds > u64::MAX / 1000 {
            u64::MAX
        } else {
            seconds * 1000
        };
        if position_ms > u64::MAX - delta {
            u64::MAX
        } else {
            position_ms + delta
        }
    }

    /// The target of a seek backward from the current position, in
    /// milliseconds, saturating at zero.
    pub fn seek_backwards(&self, position_ms: u64, seconds: u64) -> (target: u64)
        ensures
            seconds * 1000 <= position_ms ==> target == position_ms - seconds * 1000,
            seconds * 1000 > position_ms ==> target == 0,
    {
        let delta: u64 = if seconds > u64::MAX / 1000 {
            u64::MAX
        } else {
            seconds * 1000
        };
        if position_ms < delta {
            0
        } else {
            position_ms - delta
        }
    }
}

} // verus!
