//! The decode session: demuxed packets in, gain-scaled sample frames out.
//!
//! A session runs on its own thread. For each demuxed packet it polls the
//! control channel without blocking, handles seeks at the packet boundary,
//! skips packets of other tracks, reports the packet position, and emits
//! one frame record per decoded frame. A `Stop` signal does not terminate
//! the session at once: it arms a fade countdown of a quarter second of
//! frames, every further frame is scaled by `remaining / fade_samples`, and
//! when the window is exhausted the session reports an explicit stop on its
//! completion channel. Exhausting the packet source with no stop underway
//! instead reports a natural end — the two terminal outcomes are
//! observably different, and an observed stop always reports the explicit
//! one, even when the source ends before the fade window does.
//!
//! The demuxing and the sample decoding themselves (symphonia) live in the
//! surrounding application; what is modeled and verified here is every
//! decision the loop makes: which frames come out, at which gain, in which
//! order, and which of the two completions is reported.

use vstd::prelude::*;
use vstd::string::StringExecFns;
use crate::errors::PlaybackError;
use crate::events::ControlSignal;
use crate::progress::TrackProgress;

verus! {

/// How decoding one packet went: planar-float samples, an unsupported
/// sample representation, or a decoder failure. The latter two are
/// non-fatal: the packet is skipped.
#[derive(Clone, Copy, PartialEq, Eq, Structural, Debug)]
pub enum DecodeStatus {
    /// The packet decoded to planar-float frames.
    Decoded,
    /// The packet decoded to a sample format other than planar float.
    UnsupportedFormat,
    /// The decoder rejected the packet.
    Failed,
}

/// One demuxed unit of compressed audio, as the session sees it: its
/// timestamp in the track's timebase, the track it belongs to, how many
/// frames it decodes to, and how decoding it went.
#[derive(Clone, Copy, PartialEq, Eq, Structural, Debug)]
pub struct Packet {
    /// Timestamp in the track's timebase (sample counts).
    pub ts: u64,
    /// The demuxer-internal track this packet belongs to.
    pub track_id: u32,
    /// Frames this packet decodes to.
    pub frames: usize,
    /// How decoding this packet went.
    pub status: DecodeStatus,
}

/// One emitted frame record: the timestamp tag (the packet timestamp on
/// the first frame of each packet, zero otherwise — downstream consumers
/// use non-zero tags as frame-boundary markers) and the amplitude scale
/// `gain_num / gain_den` applied to every channel of the frame.
#[derive(Clone, Copy, PartialEq, Eq, Structural, Debug)]
pub struct FrameOut {
    /// Packet timestamp on the first frame of the packet, zero otherwise.
    pub ts_tag: u64,
    /// Numerator of the amplitude scale of this frame.
    pub gain_num: u32,
    /// Denominator of the amplitude scale: the fade-window length.
    pub gain_den: u32,
}

/// Per-track decode state: stream parameters, the fade countdown once a
/// stop was observed, and the terminal report once one was made.
#[derive(Clone, Copy, PartialEq, Eq, Structural, Debug)]
pub struct DecodeSession {
    /// Sample rate of the track, in frames per second.
    pub sample_rate: u32,
    /// Channels per frame.
    pub channels: usize,
    /// The demuxer-internal identifier of the selected track.
    pub track_id: u32,
    /// Length of the fade window: a quarter second of frames.
    pub fade_samples: u32,
    /// Frames left of the fade window; present once `Stop` was observed.
    pub fade_remaining: Option<u32>,
    /// The terminal report: `Some(true)` once an observed stop ends the
    /// session — its fade completed, or cut short by the source's end —
    /// `Some(false)` after a natural end with no stop underway.
    pub finished: Option<bool>,
}

/// The saturating product `delta_s * 1000`, the step that converts a
/// seek delta in seconds to the millisecond-scaled timebase delta.
pub open spec fn spec_delta_scaled(delta_s: u64) -> int {
    if delta_s * 1000 <= u64::MAX {
        delta_s * 1000
    } else {
        u64::MAX as int
    }
}

/// The target of a forward seek: the current packet timestamp plus the
/// scaled delta, saturating at the top of the timebase.
pub open spec fn spec_seek_forward_target(ts: u64, delta_s: u64) -> u64 {
    if ts + spec_delta_scaled(delta_s) <= u64::MAX {
        (ts + spec_delta_scaled(delta_s)) as u64
    } else {
        u64::MAX
    }
}

/// The target of a backward seek: the current packet timestamp minus the
/// scaled delta, saturating at zero.
pub open spec fn spec_seek_backward_target(ts: u64, delta_s: u64) -> u64 {
    if ts - spec_delta_scaled(delta_s) >= 0 {
        (ts - spec_delta_scaled(delta_s)) as u64
    } else {
        0
    }
}

/// How many frames a packet of `n` decoded frames makes the session emit:
/// all of them, or — while the fade window is counting down from `r` —
/// at most the `r` frames left of the window.
pub open spec fn spec_emit_count(fade: Option<u32>, n: nat) -> nat {
    match fade {
        Option::None => n,
        Option::Some(r) => if n <= r { n } else { r as nat },
    }
}

/// The frame record emitted at offset `j` of a packet: timestamp tag on
/// the first frame only, full gain while no fade is armed, and the
/// linearly decreasing countdown gain `r - j` during the fade.
pub open spec fn spec_frame_at(ts: u64, fade: Option<u32>, fs: u32, j: int) -> FrameOut {
    FrameOut {
        ts_tag: if j == 0 { ts } else { 0 },
        gain_num: match fade {
            Option::None => fs,
            Option::Some(r) => (r - j) as u32,
        },
        gain_den: fs,
    }
}

/// Everything one packet makes the session emit.
pub open spec fn spec_frames_out(ts: u64, fade: Option<u32>, fs: u32, n: nat) -> Seq<FrameOut> {
    Seq::new(spec_emit_count(fade, n), |j: int| spec_frame_at(ts, fade, fs, j))
}

/// The session state after emitting for one packet of `n` decoded frames:
/// untouched while no fade runs; the countdown shrunk by `n`; or, when the
/// window is exhausted within this packet, the explicit-stop report.
pub open spec fn spec_after_frames(s: DecodeSession, n: nat) -> DecodeSession {
    match s.fade_remaining {
        Option::None => s,
        Option::Some(r) => if n < r {
            DecodeSession { fade_remaining: Some((r - n) as u32), ..s }
        } else {
            DecodeSession { fade_remaining: None, finished: Some(true), ..s }
        },
    }
}

/// Gains never rise across an emitted frame sequence.
pub open spec fn gains_nonincreasing(s: Seq<FrameOut>) -> bool {
    forall|i: int, j: int| 0 <= i <= j < s.len() ==> s[i].gain_num >= s[j].gain_num
}

/// The playback position of a packet timestamp, in milliseconds,
/// saturating at the top of the range.
pub open spec fn spec_position_ms(ts: u64, sample_rate: u32) -> u64
    recommends
        sample_rate >= 1,
{
    if ts * 1000 / (sample_rate as int) <= u64::MAX {
        (ts * 1000 / (sample_rate as int)) as u64
    } else {
        u64::MAX
    }
}

/// The estimated total duration in milliseconds when the decoder reports
/// none: `total_bytes * 8 / (bitrate_kbps * 1000)` seconds, saturating.
pub open spec fn spec_estimate_total_ms(total_bytes: u64, bitrate_kbps: u32) -> u64
    recommends
        bitrate_kbps >= 1,
{
    if total_bytes * 8000 / ((bitrate_kbps * 1000) as int) <= u64::MAX {
        (total_bytes * 8000 / ((bitrate_kbps * 1000) as int)) as u64
    } else {
        u64::MAX
    }
}

/// Convert a packet timestamp to a playback position in milliseconds.
pub fn position_ms(ts: u64, sample_rate: u32) -> (r: u64)
    requires
        sample_rate >= 1,
    ensures
        r == spec_position_ms(ts, sample_rate),
{
    let v: u128 = (ts as u128) * 1000 / (sample_rate as u128);
    if v > u64::MAX as u128 {
        u64::MAX
    } else {
        v as u64
    }
}

/// Estimate the total duration of a track of `total_bytes` bytes at
/// `bitrate_kbps` kilobits per second, in milliseconds.
pub fn estimate_total_ms(total_bytes: u64, bitrate_kbps: u32) -> (r: u64)
    requires
        bitrate_kbps >= 1,
    ensures
        r == spec_estimate_total_ms(total_bytes, bitrate_kbps),
{
    let v: u128 = (total_bytes as u128) * 8000 / ((bitrate_kbps as u128) * 1000);
    if v > u64::MAX as u128 {
        u64::MAX
    } else {
        v as u64
    }
}

/// The total duration reported at session start: from the decoder's frame
/// count when it reports one, otherwise estimated from size and bitrate.
pub fn session_total_ms(
    total_frames: Option<u64>,
    sample_rate: u32,
    total_bytes: u64,
    bitrate_kbps: u32,
) -> (r: u64)
    requires
        sample_rate >= 1,
        bitrate_kbps >= 1,
    ensures
        total_frames matches Some(f) ==> r == spec_position_ms(f, sample_rate),
        total_frames is None ==> r == spec_estimate_total_ms(total_bytes, bitrate_kbps),
{
    match total_frames {
        Some(f) => position_ms(f, sample_rate),
        None => estimate_total_ms(total_bytes, bitrate_kbps),
    }
}

impl DecodeSession {
    /// Stream parameters are sane, the fade window is a quarter second of
    /// frames, and a running countdown always has at least one frame left
    /// and never more than the window.
    pub open spec fn wf(&self) -> bool {
        &&& self.sample_rate >= 4
        &&& self.channels >= 1
        &&& self.fade_samples == self.sample_rate / 4
        &&& match self.fade_remaining {
            Option::None => true,
            Option::Some(r) => 1 <= r <= self.fade_samples,
        }
    }

    /// A fresh session for one track: no fade armed, no report made.
    pub fn new(sample_rate: u32, channels: usize, track_id: u32) -> (r: DecodeSession)
        requires
            sample_rate >= 4,
            channels >= 1,
        ensures
            r.wf(),
            r.sample_rate == sample_rate,
            r.channels == channels,
            r.track_id == track_id,
            r.fade_samples == sample_rate / 4,
            r.fade_remaining is None,
            r.finished is None,
    {
        DecodeSession {
            sample_rate,
            channels,
            track_id,
            fade_samples: sample_rate / 4,
            fade_remaining: None,
            finished: None,
        }
    }

    /// Consume the one control signal polled at this packet boundary.
    /// `Stop` arms the fade countdown and is sticky: once armed, a second
    /// `Stop` neither resets nor extends the window. The seek variants
    /// yield the coarse-seek target — forward and backward compute it from
    /// the current packet timestamp, backward saturating at zero.
    pub fn observe_control(&mut self, signal: Option<ControlSignal>, packet_ts: u64) -> (seek: Option<
        u64,
    >)
        requires
            old(self).wf(),
            old(self).finished is None,
        ensures
            final(self).wf(),
            final(self).finished is None,
            final(self).fade_remaining == (if signal == Some(ControlSignal::Stop)
                && old(self).fade_remaining is None {
                Some(old(self).fade_samples)
            } else {
                old(self).fade_remaining
            }),
            *final(self) == (DecodeSession {
                fade_remaining: final(self).fade_remaining,
                ..*old(self)
            }),
            seek == (match signal {
                Some(ControlSignal::Seek(p)) => Some(p),
                Some(ControlSignal::SeekForward(d)) => Some(spec_seek_forward_target(packet_ts, d)),
                Some(ControlSignal::SeekBackward(d)) => Some(
                    spec_seek_backward_target(packet_ts, d),
                ),
                _ => None::<u64>,
            }),
    {
        match signal {
            Some(ControlSignal::Stop) => {
                if self.fade_remaining.is_none() {
                    self.fade_remaining = Some(self.fade_samples);
                }
                None
            }
            Some(ControlSignal::Seek(p)) => Some(p),
            Some(ControlSignal::SeekForward(d)) => {
                let dm: u64 = if d > u64::MAX / 1000 {
                    u64::MAX
                } else {
                    d * 1000
                };
                Some(if packet_ts > u64::MAX - dm {
                    u64::MAX
                } else {
                    packet_ts + dm
                })
            }
            Some(ControlSignal::SeekBackward(d)) => {
                let dm: u64 = if d > u64::MAX / 1000 {
                    u64::MAX
                } else {
                    d * 1000
                };
                Some(if packet_ts < dm {
                    0
                } else {
                    packet_ts - dm
                })
            }
            None => None,
        }
    }

    /// Handle one demuxed packet: packets of other tracks are skipped
    /// untouched; for an own packet the position is reported first, then a
    /// decoded packet emits its frames — gain-scaled and cut short by the
    /// fade window — while decode failures skip just this packet.
    pub fn process_packet(&mut self, packet: &Packet, progress: &mut TrackProgress) -> (out: Vec<
        FrameOut,
    >)
        requires
            old(self).wf(),
            old(self).finished is None,
        ensures
            final(self).wf(),
            packet.track_id != old(self).track_id ==> out@ =~= Seq::<FrameOut>::empty()
                && *final(self) == *old(self) && *final(progress) == *old(progress),
            packet.track_id == old(self).track_id ==> final(progress).current_ms()
                == spec_position_ms(packet.ts, old(self).sample_rate) && final(progress).total_ms()
                == old(progress).total_ms(),
            packet.track_id == old(self).track_id && packet.status != DecodeStatus::Decoded
                ==> out@ =~= Seq::<FrameOut>::empty() && *final(self) == *old(self),
            packet.track_id == old(self).track_id && packet.status == DecodeStatus::Decoded ==> out@
                =~= spec_frames_out(
                packet.ts,
                old(self).fade_remaining,
                old(self).fade_samples,
                packet.frames as nat,
            ) && *final(self) == spec_after_frames(*old(self), packet.frames as nat),
    {
        let mut out: Vec<FrameOut> = Vec::new();
        if packet.track_id != self.track_id {
            return out;
        }
        let pos: u64 = position_ms(packet.ts, self.sample_rate);
        progress.set_current_position(pos);
        match packet.status {
            DecodeStatus::UnsupportedFormat => {
                return out;
            }
            DecodeStatus::Failed => {
                return out;
            }
            DecodeStatus::Decoded => {}
        }
        let n: usize = packet.frames;
        let fs: u32 = self.fade_samples;
        match self.fade_remaining {
            None => {
                let mut j: usize = 0;
                while j < n
                    invariant
                        j <= n,
                        out@.len() == j,
                        forall|i: int|
                            0 <= i < j ==> out@[i] == spec_frame_at(
                                packet.ts,
                                None::<u32>,
                                fs,
                                i,
                            ),
                    decreases n - j,
                {
                    let tag: u64 = if j == 0 {
                        packet.ts
                    } else {
                        0
                    };
                    out.push(FrameOut { ts_tag: tag, gain_num: fs, gain_den: fs });
                    j += 1;
                }
                proof {
                    assert(out@ =~= spec_frames_out(
                        packet.ts,
                        None::<u32>,
                        fs,
                        n as nat,
                    ));
                }
            }
            Some(r0) => {
                let k: usize = if n < r0 as usize {
                    n
                } else {
                    r0 as usize
                };
                let mut j: usize = 0;
                while j < k
                    invariant
                        j <= k,
                        k <= r0,
                        out@.len() == j,
                        forall|i: int|
                            0 <= i < j ==> out@[i] == spec_frame_at(
                                packet.ts,
                                Some(r0),
                                fs,
                                i,
                            ),
                    decreases k - j,
                {
                    let tag: u64 = if j == 0 {
                        packet.ts
                    } else {
                        0
                    };
                    out.push(FrameOut { ts_tag: tag, gain_num: r0 - (j as u32), gain_den: fs });
                    j += 1;
                }
                proof {
                    assert(out@ =~= spec_frames_out(
                        packet.ts,
                        Some(r0),
                        fs,
                        n as nat,
                    ));
                }
                if n < r0 as usize {
                    self.fade_remaining = Some(r0 - (n as u32));
                } else {
                    self.fade_remaining = None;
                    self.finished = Some(true);
                }
            }
        }
        out
    }

    /// The packet source is exhausted. With no fade underway this is the
    /// natural end of track, reported as `false` — the only way a session
    /// reports `false`. A session whose fade was still counting down was
    /// explicitly stopped, and the cut-short fade still reports `true`:
    /// an observed stop is never answered with a natural-end report. A
    /// session reports at most once.
    pub fn on_source_exhausted(&mut self) -> (explicit: bool)
        requires
            old(self).wf(),
            old(self).finished is None,
        ensures
            final(self).wf(),
            explicit == (old(self).fade_remaining is Some),
            final(self).finished == Some(explicit),
            *final(self) == (DecodeSession { finished: Some(explicit), ..*old(self) }),
    {
        let explicit = self.fade_remaining.is_some();
        self.finished = Some(explicit);
        explicit
    }
}

/// The first `a` frames of an emitted sequence still carry full gain and
/// no more than `fs` frames follow them: the shape of a run that ended in
/// an explicit stop, whose faded tail fits the fade window.
pub open spec fn full_gain_prefix(s: Seq<FrameOut>, fs: u32, a: int) -> bool {
    &&& 0 <= a <= s.len()
    &&& s.len() - a <= fs
    &&& forall|k: int| 0 <= k < a ==> s[k].gain_num == fs
}

/// Every frame the packets of a run decode to, in total.
pub open spec fn spec_total_frames(ps: Seq<Packet>) -> int
    decreases ps.len(),
{
    if ps.len() == 0 {
        0
    } else {
        spec_total_frames(ps.drop_last()) + ps.last().frames
    }
}

/// The model packet list is ordered by timestamp, as a demuxer hands
/// packets out.
pub open spec fn sorted_by_ts(ps: Seq<Packet>) -> bool {
    forall|i: int, j: int| 0 <= i <= j < ps.len() ==> ps[i].ts <= ps[j].ts
}

/// Coarse seek in the model packet list: packet iteration resumes at the
/// first packet whose timestamp is at least the target. A coarse seek may
/// overshoot the requested timestamp; it never undershoots it, so the next
/// decoded packet carries a timestamp at or past the target.
pub fn seek_index(packets: &Vec<Packet>, target: u64) -> (r: usize)
    requires
        sorted_by_ts(packets@),
    ensures
        r <= packets@.len(),
        forall|i: int| 0 <= i < r ==> packets@[i].ts < target,
        forall|i: int| r <= i < packets@.len() ==> packets@[i].ts >= target,
{
    let mut i: usize = 0;
    while i < packets.len()
        invariant
            i <= packets@.len(),
            sorted_by_ts(packets@),
            forall|k: int| 0 <= k < i ==> packets@[k].ts < target,
        decreases packets@.len() - i,
    {
        if packets[i].ts >= target {
            proof {
                assert forall|k: int| i <= k < packets@.len() implies packets@[k].ts
                    >= target by {
                    assert(packets@[i as int].ts <= packets@[k].ts);
                }
            }
            return i;
        }
        i += 1;
    }
    i
}

/// What one full session run produced: every emitted frame record and
/// which of the two terminal reports went to the completion channel.
pub struct SessionOutcome {
    /// Every frame the session emitted, in order.
    pub emitted: Vec<FrameOut>,
    /// The terminal report: `true` for an observed stop — its fade
    /// completed or cut short by the source's end — `false` only for a
    /// natural end with no stop underway.
    pub stopped_explicitly: bool,
}

/// Run a session to completion over a model packet source. One control
/// signal is polled per packet boundary; seeks reposition the iteration
/// coarsely; packets are processed in order; and exactly one terminal
/// report is returned. The contract carries the session's observable
/// guarantees: a run that never saw `Stop` reports a natural end; a
/// natural end (`false`) comes only from a session with no fade underway,
/// so an observed stop reports `true` even when the source ends mid-fade;
/// gains never rise and never exceed the full window; and an explicit
/// stop is preceded by at most `fade_samples` frames that left full
/// gain.
pub fn run_session(
    session: &mut DecodeSession,
    packets: &Vec<Packet>,
    controls: &Vec<Option<ControlSignal>>,
    progress: &mut TrackProgress,
) -> (r: SessionOutcome)
    requires
        old(session).wf(),
        old(session).finished is None,
        sorted_by_ts(packets@),
    ensures
        final(session).wf(),
        final(session).finished == Some(r.stopped_explicitly),
        final(progress).total_ms() == old(progress).total_ms(),
        old(session).fade_remaining is None && (forall|i: int|
            0 <= i < controls@.len() ==> controls@[i] != Some(ControlSignal::Stop))
            ==> r.stopped_explicitly == false,
        gains_nonincreasing(r.emitted@),
        forall|k: int|
            0 <= k < r.emitted@.len() ==> r.emitted@[k].gain_den == old(session).fade_samples
                && r.emitted@[k].gain_num <= old(session).fade_samples,
        r.stopped_explicitly ==> exists|a: int|
            full_gain_prefix(r.emitted@, old(session).fade_samples, a),
        !r.stopped_explicitly ==> final(session).fade_remaining is None,
        old(session).fade_remaining is None && (forall|i: int|
            0 <= i < controls@.len() ==> controls@[i] is None) && (forall|i: int|
            0 <= i < packets@.len() ==> (#[trigger] packets@[i]).track_id == old(
                session,
            ).track_id && packets@[i].status == DecodeStatus::Decoded) ==> !r.stopped_explicitly
            && r.emitted@.len() == spec_total_frames(packets@),
{
    let mut emitted: Vec<FrameOut> = Vec::new();
    let mut idx: usize = 0;
    let mut c: usize = 0;
    let ghost fs = old(session).fade_samples;
    let ghost mut full_prefix: int = 0;
    while idx < packets.len()
        invariant
            session.wf(),
            session.finished is None,
            fs == old(session).fade_samples,
            session.fade_samples == old(session).fade_samples,
            session.sample_rate == old(session).sample_rate,
            session.track_id == old(session).track_id,
            session.channels == old(session).channels,
            idx <= packets@.len(),
            c <= controls@.len(),
            sorted_by_ts(packets@),
            progress.total_ms() == old(progress).total_ms(),
            old(session).fade_remaining is None && (forall|i: int|
                0 <= i < controls@.len() ==> controls@[i] != Some(ControlSignal::Stop))
                ==> session.fade_remaining is None,
            gains_nonincreasing(emitted@),
            forall|k: int|
                0 <= k < emitted@.len() ==> emitted@[k].gain_den == fs && emitted@[k].gain_num
                    <= fs,
            session.fade_remaining is None ==> full_prefix == emitted@.len(),
            session.fade_remaining is None ==> (forall|k: int|
                0 <= k < emitted@.len() ==> emitted@[k].gain_num == fs),
            session.fade_remaining matches Some(rr) ==> 0 <= full_prefix <= emitted@.len()
                && emitted@.len() - full_prefix + rr <= fs && (forall|k: int|
                0 <= k < full_prefix ==> emitted@[k].gain_num == fs) && (forall|k: int|
                0 <= k < emitted@.len() ==> emitted@[k].gain_num >= rr),
            old(session).fade_remaining is None && (forall|i: int|
                0 <= i < controls@.len() ==> controls@[i] is None) && (forall|i: int|
                0 <= i < packets@.len() ==> (#[trigger] packets@[i]).track_id == old(
                    session,
                ).track_id && packets@[i].status == DecodeStatus::Decoded) ==> emitted@.len()
                == spec_total_frames(packets@.subrange(0, idx as int)),
        decreases controls@.len() - c, packets@.len() - idx,
    {
        let signal: Option<ControlSignal> = if c < controls.len() {
            c += 1;
            controls[c - 1]
        } else {
            None
        };
        let packet_ts: u64 = packets[idx].ts;
        let seek_to: Option<u64> = session.observe_control(signal, packet_ts);
        match seek_to {
            Some(target) => {
                idx = seek_index(packets, target);
            }
            None => {
                let packet: Packet = packets[idx];
                let ghost s_before = *session;
                let mut frames = session.process_packet(&packet, progress);
                let ghost new_frames = frames@;
                let ghost old_emitted = emitted@;
                proof {
                    if session.fade_remaining is None && session.finished is None {
                        full_prefix = old_emitted.len() + new_frames.len() as int;
                    }
                }
                emitted.append(&mut frames);
                proof {
                    let fo = spec_frames_out(
                        packet.ts,
                        s_before.fade_remaining,
                        s_before.fade_samples,
                        packet.frames as nat,
                    );
                    if packet.track_id == s_before.track_id && packet.status
                        == DecodeStatus::Decoded {
                        assert forall|j: int| 0 <= j < new_frames.len() implies #[trigger] new_frames[j]
                            == spec_frame_at(
                            packet.ts,
                            s_before.fade_remaining,
                            s_before.fade_samples,
                            j,
                        ) by {
                            assert(new_frames[j] == fo[j]);
                        }
                    } else {
                        assert(emitted@ =~= old_emitted);
                    }
                    assert forall|k: int| 0 <= k < emitted@.len() implies (#[trigger] emitted@[k]).gain_den
                        == fs && emitted@[k].gain_num <= fs by {
                        if k < old_emitted.len() {
                            assert(emitted@[k] == old_emitted[k]);
                        } else {
                            assert(emitted@[k] == new_frames[k - old_emitted.len()]);
                        }
                    }
                    assert forall|i: int, j: int| 0 <= i <= j < emitted@.len() implies (
                    #[trigger] emitted@[i]).gain_num >= (#[trigger] emitted@[j]).gain_num by {
                        if j < old_emitted.len() {
                            assert(emitted@[i] == old_emitted[i]);
                            assert(emitted@[j] == old_emitted[j]);
                        } else if i >= old_emitted.len() {
                            assert(emitted@[i] == new_frames[i - old_emitted.len()]);
                            assert(emitted@[j] == new_frames[j - old_emitted.len()]);
                        } else {
                            assert(emitted@[i] == old_emitted[i]);
                            assert(emitted@[j] == new_frames[j - old_emitted.len()]);
                        }
                    }
                    assert forall|k: int| 0 <= k < full_prefix implies (#[trigger] emitted@[k]).gain_num
                        == fs by {
                        if k < old_emitted.len() {
                            assert(emitted@[k] == old_emitted[k]);
                        } else {
                            assert(emitted@[k] == new_frames[k - old_emitted.len()]);
                        }
                    }
                }
                proof {
                    let pre = packets@.subrange(0, idx as int);
                    let cur = packets@.subrange(0, idx + 1);
                    assert(cur.drop_last() =~= pre);
                    assert(cur.last() == packets@[idx as int]);
                }
                if let Some(explicit) = session.finished {
                    let out = SessionOutcome { emitted, stopped_explicitly: explicit };
                    proof {
                        assert(full_gain_prefix(out.emitted@, old(session).fade_samples, full_prefix));
                    }
                    return out;
                }
                idx += 1;
            }
        }
    }
    proof {
        assert(packets@.subrange(0, packets@.len() as int) =~= packets@);
    }
    let explicit: bool = session.on_source_exhausted();
    let out = SessionOutcome { emitted, stopped_explicitly: explicit };
    proof {
        if out.stopped_explicitly {
            assert(full_gain_prefix(out.emitted@, old(session).fade_samples, full_prefix));
        }
    }
    out
}

/// The total frame count of a run of packet frame counts.
pub open spec fn spec_frames_sum(counts: Seq<usize>) -> int
    decreases counts.len(),
{
    if counts.len() == 0 {
        0
    } else {
        counts[0] + spec_frames_sum(counts.subrange(1, counts.len() as int))
    }
}

/// The session state after emitting for a run of decoded own-track
/// packets with the given frame counts, stopping at the first report.
pub open spec fn spec_session_after(s: DecodeSession, counts: Seq<usize>) -> DecodeSession
    decreases counts.len(),
{
    if counts.len() == 0 || !(s.finished is None) {
        s
    } else {
        spec_session_after(spec_after_frames(s, counts[0] as nat), counts.subrange(1, counts.len() as int))
    }
}

/// How many frames that run makes the session emit before it reports.
pub open spec fn spec_emitted_after(s: DecodeSession, counts: Seq<usize>) -> int
    decreases counts.len(),
{
    if counts.len() == 0 || !(s.finished is None) {
        0
    } else {
        spec_emit_count(s.fade_remaining, counts[0] as nat) + spec_emitted_after(
            spec_after_frames(s, counts[0] as nat),
            counts.subrange(1, counts.len() as int),
        )
    }
}

/// Bounded worst-case stop latency: once a `Stop` has armed the fade
/// countdown at `r0` frames, the session emits at most `r0` — hence at
/// most `fade_samples` — further frames, however the following packets
/// are sized; and as soon as those packets supply `r0` decoded frames,
/// the session reports the explicit stop (`true`) on its completion
/// channel, before the countdown could underflow.
pub proof fn lemma_stop_latency(s: DecodeSession, r0: u32, counts: Seq<usize>)
    requires
        s.wf(),
        s.finished is None,
        s.fade_remaining == Some(r0),
    ensures
        spec_emitted_after(s, counts) <= r0 <= s.fade_samples,
        spec_frames_sum(counts) >= r0 ==> spec_session_after(s, counts).finished == Some(true),
    decreases counts.len(),
{
    if counts.len() == 0 {
    } else {
        let n = counts[0] as nat;
        let s1 = spec_after_frames(s, n);
        let rest = counts.subrange(1, counts.len() as int);
        if n < r0 {
            lemma_stop_latency(s1, (r0 - n) as u32, rest);
        } else {
            assert(s1.finished == Some(true));
            assert(spec_session_after(s, counts) == spec_session_after(s1, rest));
            assert(spec_emitted_after(s1, rest) == 0);
        }
    }
}

/// The fade ramp never rises: the gains a packet emits are monotonically
/// non-increasing, never exceed the full window (amplitude `1.0`), and
/// during a fade decrease linearly toward zero.
pub proof fn lemma_fade_ramp_monotone(ts: u64, fade: Option<u32>, fs: u32, n: nat)
    requires
        match fade {
            Option::None => true,
            Option::Some(r) => 1 <= r <= fs,
        },
    ensures
        gains_nonincreasing(spec_frames_out(ts, fade, fs, n)),
        forall|j: int|
            0 <= j < spec_frames_out(ts, fade, fs, n).len()
                ==> (#[trigger] spec_frames_out(ts, fade, fs, n)[j]).gain_num <= fs
                && spec_frames_out(ts, fade, fs, n)[j].gain_den == fs,
{
}

/// Frame emission alone never arms a fade: a session that has not
/// observed `Stop` is left unchanged by any run of packets and emits
/// every frame at full gain, so exhausting the source is what reports
/// the natural end, `false`, on the completion channel.
pub proof fn lemma_no_stop_no_fade(s: DecodeSession, counts: Seq<usize>)
    requires
        s.wf(),
        s.finished is None,
        s.fade_remaining is None,
    ensures
        spec_session_after(s, counts) == s,
        spec_emitted_after(s, counts) == spec_frames_sum(counts),
    decreases counts.len(),
{
    if counts.len() == 0 {
    } else {
        let n = counts[0] as nat;
        assert(spec_after_frames(s, n) == s);
        lemma_no_stop_no_fade(s, counts.subrange(1, counts.len() as int));
    }
}

/// The seek that survives coalescing: the latest signal of the drained
/// batch that is not a `Stop`.
pub open spec fn spec_last_seek(polled: Seq<ControlSignal>) -> Option<ControlSignal>
    decreases polled.len(),
{
    if polled.len() == 0 {
        None::<ControlSignal>
    } else if polled.last() != ControlSignal::Stop {
        Some(polled.last())
    } else {
        spec_last_seek(polled.drop_last())
    }
}

/// Coalesce everything one non-blocking poll drained from the control
/// channel at a packet boundary: the seek signals collapse to the latest
/// one — latest wins — while a `Stop` anywhere among them is kept, since
/// `Stop` is sticky and never superseded.
pub fn coalesce_controls(polled: &Vec<ControlSignal>) -> (r: (bool, Option<ControlSignal>))
    ensures
        r.0 <==> (exists|i: int| 0 <= i < polled@.len() && polled@[i] == ControlSignal::Stop),
        r.1 == spec_last_seek(polled@),
{
    let mut stop_seen = false;
    let mut last_seek: Option<ControlSignal> = None;
    let mut i: usize = 0;
    while i < polled.len()
        invariant
            i <= polled@.len(),
            stop_seen <==> (exists|k: int| 0 <= k < i && polled@[k] == ControlSignal::Stop),
            last_seek == spec_last_seek(polled@.subrange(0, i as int)),
        decreases polled@.len() - i,
    {
        match polled[i] {
            ControlSignal::Stop => {
                stop_seen = true;
            }
            other => {
                last_seek = Some(other);
            }
        }
        proof {
            let pre = polled@.subrange(0, i as int);
            let cur = polled@.subrange(0, i + 1);
            assert(cur.drop_last() =~= pre);
            assert(cur.last() == polled@[i as int]);
        }
        i += 1;
    }
    proof {
        assert(polled@.subrange(0, polled@.len() as int) =~= polled@);
    }
    (stop_seen, last_seek)
}

/// The decoder family a codec tag selects.
#[derive(Clone, Copy, PartialEq, Eq, Structural, Debug)]
pub enum CodecKind {
    /// The MPEG layer-three decoder.
    Mp3,
    /// The AAC-family decoder.
    Aac,
}

/// Select the decoder for a track's codec tag: `"mp3"` and `"aac"` are
/// known, any other tag fails the track load with `UnsupportedCodec`.
pub fn select_codec(tag: &str) -> (r: Result<CodecKind, PlaybackError>)
    ensures
        tag@ == "mp3"@ ==> r == Ok::<CodecKind, PlaybackError>(CodecKind::Mp3),
        tag@ != "mp3"@ && tag@ == "aac"@ ==> r == Ok::<CodecKind, PlaybackError>(CodecKind::Aac),
        tag@ != "mp3"@ && tag@ != "aac"@ ==> r == Err::<CodecKind, PlaybackError>(
            PlaybackError::UnsupportedCodec,
        ),
{
    let t: String = tag.to_owned();
    let mp3: String = "mp3".to_owned();
    if t == mp3 {
        return Ok(CodecKind::Mp3);
    }
    let aac: String = "aac".to_owned();
    if t == aac {
        Ok(CodecKind::Aac)
    } else {
        Err(PlaybackError::UnsupportedCodec)
    }
}

/// The non-fatal per-packet condition a decode status maps to, if any:
/// what the session logs before skipping the packet.
pub fn packet_issue(status: DecodeStatus) -> (r: Option<PlaybackError>)
    ensures
        status == DecodeStatus::Decoded ==> r is None,
        status == DecodeStatus::UnsupportedFormat ==> r == Some(
            PlaybackError::UnsupportedSampleFormat,
        ),
        status == DecodeStatus::Failed ==> r == Some(PlaybackError::DecodeError),
{
    match status {
        DecodeStatus::Decoded => None,
        DecodeStatus::UnsupportedFormat => Some(PlaybackError::UnsupportedSampleFormat),
        DecodeStatus::Failed => Some(PlaybackError::DecodeError),
    }
}

} // verus!
