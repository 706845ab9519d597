//! Error taxonomy of the playback pipeline.
//!
//! Track-load and device failures are fatal for the affected track or
//! session and propagate to the controller; per-packet decode issues are
//! non-fatal and skipped so that transient corruption in one packet does not
//! lose the rest of a stream.

use vstd::prelude::*;

verus! {

/// What can go wrong while loading or playing a track.
#[derive(Clone, Copy, PartialEq, Eq, Structural, Debug)]
pub enum PlaybackError {
    /// The length probe or a range fetch failed: fatal for that track load,
    /// no decode is attempted.
    SourceUnavailable,
    /// The track's codec tag selects no known decoder: fatal for that track.
    UnsupportedCodec,
    /// A packet decoded to a sample representation other than planar float:
    /// non-fatal, the packet is skipped.
    UnsupportedSampleFormat,
    /// A packet failed to decode: non-fatal, the packet is skipped.
    DecodeError,
    /// No output device is available: reported once at startup, playback is
    /// disabled for the session.
    DeviceError,
}

impl PlaybackError {
    /// True for the per-packet conditions that are skipped rather than
    /// aborting the whole track.
    pub open spec fn spec_is_per_packet(self) -> bool {
        self is UnsupportedSampleFormat || self is DecodeError
    }

    /// Whether this error aborts only the offending packet, not the track.
    pub fn is_per_packet(&self) -> (r: bool)
        ensures
            r == self.spec_is_per_packet(),
    {
        match self {
            PlaybackError::UnsupportedSampleFormat => true,
            PlaybackError::DecodeError => true,
            _ => false,
        }
    }

    /// A one-line diagnostic for the UI.
    pub fn describe(&self) -> (r: &'static str)
        ensures
            r@.len() > 0,
    {
        let s: &'static str = match self {
            PlaybackError::SourceUnavailable => "source unavailable",
            PlaybackError::UnsupportedCodec => "unsupported codec",
            PlaybackError::UnsupportedSampleFormat => "unsupported sample format",
            PlaybackError::DecodeError => "decode error",
            PlaybackError::DeviceError => "no output device",
        };
        proof {
            reveal_strlit("source unavailable");
            reveal_strlit("unsupported codec");
            reveal_strlit("unsupported sample format");
            reveal_strlit("decode error");
            reveal_strlit("no output device");
        }
        s
    }
}

} // verus!
