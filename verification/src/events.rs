//! The signal and command vocabulary of the pipeline.
//!
//! Control signals travel from the controller to the active decode session
//! over a dedicated channel and are consumed at packet boundaries; events
//! travel from the pipeline and the input layer to the controller.

use vstd::prelude::*;
use crate::track::TrackInfo;

verus! {

/// In-band control consumed by the active decode session, at most one per
/// decoded packet boundary. Signals are coalesced by a latest-wins
/// non-blocking poll, except `Stop`, which is sticky once observed.
#[derive(Clone, Copy, PartialEq, Eq, Structural, Debug)]
pub enum ControlSignal {
    /// Arm the fade-out countdown; the session reports `true` on its
    /// completion channel once the fade window is exhausted.
    Stop,
    /// Coarse-seek to an absolute timestamp, in the track's timebase.
    Seek(u64),
    /// Coarse-seek forward by a delta of seconds from the current packet.
    SeekForward(u64),
    /// Coarse-seek backward by a delta of seconds, saturating at zero.
    SeekBackward(u64),
}

/// Events and commands handled by the controller layer.
pub enum Event {
    /// Start-up: fetch the track list.
    Initialize,
    /// The catalog returned the track list.
    TracksFetched(Vec<TrackInfo>),
    /// The poller detected a natural end of track.
    TrackEnded,
    /// Play the track with this catalog identifier.
    Play(i32),
    /// Resume the paused output.
    Resume,
    /// Pause the output.
    Pause,
    /// Set the volume, `0..=200`, `100` being unity gain.
    Volume(u8),
    /// Raise the volume by this many points, saturating at `200`.
    VolumeUp(u8),
    /// Lower the volume by this many points, saturating at `0`.
    VolumeDown(u8),
    /// Skip to the next track.
    Next,
    /// Go back to the previous track.
    Previous,
    /// Seek to an absolute position, in seconds.
    Seek(u32),
    /// Seek forward by this many seconds.
    SeekForward(u32),
    /// Seek backward by this many seconds.
    SeekBackward(u32),
    /// Toggle the mute flag, restoring the prior volume on toggle-off.
    ToggleMute,
}

/// One keystroke's meaning under the player's keymap.
#[derive(Clone, Copy, PartialEq, Eq, Structural, Debug)]
pub enum KeyCommand {
    /// Leave the application.
    Quit,
    /// Toggle between pause and resume.
    PlayPause,
    /// Play the previous track.
    PlayPrevious,
    /// Play the next track.
    PlayNext,
    /// Raise the volume by this many points.
    VolumeUp(u8),
    /// Lower the volume by this many points.
    VolumeDown(u8),
    /// Set the volume to this value.
    SetVolume(u8),
    /// Seek backward by this many seconds.
    SeekBackward(u64),
    /// Seek forward by this many seconds.
    SeekForward(u64),
    /// Cycle the repeat mode.
    ToggleRepeat,
    /// Toggle shuffle mode.
    ToggleShuffle,
    /// Toggle mute.
    ToggleMute,
}

/// The meaning the keymap gives a pressed key, if any. `c` with control
/// held quits; the other bindings ignore the modifier state.
pub fn key_command(c: char, ctrl: bool) -> (r: Option<KeyCommand>)
    ensures
        c == 'c' ==> r == (if ctrl {
            Some(KeyCommand::Quit)
        } else {
            None::<KeyCommand>
        }),
        c != 'c' ==> r == (if c == 'q' {
            Some(KeyCommand::Quit)
        } else if c == ' ' {
            Some(KeyCommand::PlayPause)
        } else if c == 'p' {
            Some(KeyCommand::PlayPrevious)
        } else if c == 'n' {
            Some(KeyCommand::PlayNext)
        } else if c == '+' {
            Some(KeyCommand::VolumeUp(10))
        } else if c == '-' {
            Some(KeyCommand::VolumeDown(10))
        } else if c == '=' {
            Some(KeyCommand::SetVolume(100))
        } else if c == 'H' {
            Some(KeyCommand::SeekBackward(10))
        } else if c == 'L' {
            Some(KeyCommand::SeekForward(10))
        } else if c == 'r' {
            Some(KeyCommand::ToggleRepeat)
        } else if c == 's' {
            Some(KeyCommand::ToggleShuffle)
        } else if c == 'm' {
            Some(KeyCommand::ToggleMute)
        } else {
            None::<KeyCommand>
        }),
{
    if c == 'c' {
        if ctrl {
            Some(KeyCommand::Quit)
        } else {
            None
        }
    } else if c == 'q' {
        Some(KeyCommand::Quit)
    } else if c == ' ' {
        Some(KeyCommand::PlayPause)
    } else if c == 'p' {
        Some(KeyCommand::PlayPrevious)
    } else if c == 'n' {
        Some(KeyCommand::PlayNext)
    } else if c == '+' {
        Some(KeyCommand::VolumeUp(10))
    } else if c == '-' {
        Some(KeyCommand::VolumeDown(10))
    } else if c == '=' {
        Some(KeyCommand::SetVolume(100))
    } else if c == 'H' {
        Some(KeyCommand::SeekBackward(10))
    } else if c == 'L' {
        Some(KeyCommand::SeekForward(10))
    } else if c == 'r' {
        Some(KeyCommand::ToggleRepeat)
    } else if c == 's' {
        Some(KeyCommand::ToggleShuffle)
    } else if c == 'm' {
        Some(KeyCommand::ToggleMute)
    } else {
        None
    }
}

/// Transport commands accepted by the output bridge.
#[derive(Clone, Copy, PartialEq, Eq, Structural, Debug)]
pub enum PlayerCommand {
    /// Resume pulling samples.
    Play,
    /// Stop pulling samples, keeping the queue.
    Pause,
    /// Apply this gain at the sink, in hundredths of unity.
    Volume(u16),
    /// Seek to this position, in milliseconds.
    Seek(u64),
}

} // verus!
