//! A model of the output bridge: the device-facing sample sink.
//!
//! The real-time device callback pulls already-decoded samples from a
//! bounded queue and must never block; the bridge owns that queue, the
//! playing flag and the transport controls. The device itself and its
//! callback live in the surrounding application; modeled here is what the
//! pipeline relies on: which session's samples sit in the queue, that
//! `stop` clears it, and the poller decision that detects a natural end
//! of track. Each queued sample is tagged with the number of the decode
//! session that produced it, which is what makes the no-stale-samples
//! guarantee of a track switch expressible.

use vstd::prelude::*;

verus! {

/// The queue contents after appending `samples` samples of a session.
pub open spec fn appended(q: Seq<u64>, session: u64, samples: nat) -> Seq<u64> {
    q + Seq::new(samples, |i: int| session)
}

/// The bridge's modeled state: the queued samples, each tagged with its
/// producing session, and the paused flag of the transport.
pub struct OutputBridge {
    /// One tag per queued sample: the session that produced it.
    pub queue: Vec<u64>,
    /// Whether the transport is paused (the callback pulls nothing).
    pub paused: bool,
}

impl OutputBridge {
    /// A fresh bridge: empty queue, transport running.
    pub fn new() -> (r: OutputBridge)
        ensures
            r.queue@ =~= Seq::<u64>::empty(),
            !r.paused,
    {
        OutputBridge { queue: Vec::new(), paused: false }
    }

    /// Append `samples` samples of one session to the device queue, in
    /// order, after everything already queued.
    pub fn append(&mut self, session: u64, samples: usize)
        ensures
            final(self).queue@ =~= appended(old(self).queue@, session, samples as nat),
            final(self).paused == old(self).paused,
    {
        let mut i: usize = 0;
        while i < samples
            invariant
                i <= samples,
                self.queue@ =~= appended(old(self).queue@, session, i as nat),
                self.paused == old(self).paused,
            decreases samples - i,
        {
            self.queue.push(session);
            proof {
                assert(self.queue@ =~= appended(old(self).queue@, session, (i + 1) as nat));
            }
            i += 1;
        }
    }

    /// Clear queued and playing audio: after a stop no sample of any
    /// earlier session remains in the queue.
    pub fn stop(&mut self)
        ensures
            final(self).queue@ =~= Seq::<u64>::empty(),
            final(self).paused == old(self).paused,
    {
        self.queue.clear();
    }

    /// Resume pulling samples.
    pub fn play(&mut self)
        ensures
            final(self).queue@ == old(self).queue@,
            !final(self).paused,
    {
        self.paused = false;
    }

    /// Stop pulling samples, keeping the queue.
    pub fn pause(&mut self)
        ensures
            final(self).queue@ == old(self).queue@,
            final(self).paused,
    {
        self.paused = true;
    }

    /// Whether the device queue ran empty.
    pub fn is_empty(&self) -> (r: bool)
        ensures
            r == (self.queue@.len() == 0),
    {
        self.queue.len() == 0
    }
}

/// An explicit stop followed immediately by a new play request leaves no
/// sample of the old session in the bridge: the queue is cleared before
/// the new session appends, so once the new track's samples sit in the
/// queue, every queued sample carries the new session's tag and none the
/// old one's.
pub proof fn lemma_no_stale_samples(old_session: u64, new_session: u64, samples: nat)
    requires
        old_session != new_session,
    ensures
        forall|k: int|
            0 <= k < appended(Seq::<u64>::empty(), new_session, samples).len()
                ==> #[trigger] appended(Seq::<u64>::empty(), new_session, samples)[k]
                == new_session && appended(Seq::<u64>::empty(), new_session, samples)[k]
                != old_session,
{
}

/// The poller's once-a-second decision: a natural end of track is
/// detected exactly when playback was on and the device queue ran empty;
/// the playing flag is cleared at that moment, so the notification fires
/// once per track, and an explicit stop — which clears the flag first —
/// never fires it.
pub fn detect_track_end(is_playing: bool, sink_empty: bool) -> (r: (bool, bool))
    ensures
        r.0 == (is_playing && !sink_empty),
        r.1 == (is_playing && sink_empty),
{
    if is_playing && sink_empty {
        (false, true)
    } else {
        (is_playing, false)
    }
}

/// One output configuration a device offers: its channel count, the top
/// of its supported sample-rate range, and an opaque tag for its sample
/// format.
#[derive(Clone, Copy, PartialEq, Eq, Structural, Debug)]
pub struct DeviceConfigOption {
    /// Channels of this configuration.
    pub channels: u16,
    /// The highest sample rate this configuration supports.
    pub max_sample_rate: u32,
    /// An opaque tag identifying the sample format.
    pub format_tag: u32,
}

/// The stream settings the bridge opens the device with.
#[derive(Clone, Copy, PartialEq, Eq, Structural, Debug)]
pub struct StreamSettings {
    /// Channels of the stream.
    pub channels: u16,
    /// Sample rate of the stream.
    pub sample_rate: u32,
    /// Fixed device-callback buffer size, in frames.
    pub buffer_size: u32,
    /// The chosen configuration's sample-format tag.
    pub format_tag: u32,
}

/// Negotiate the output configuration once at startup: among the
/// configurations the device supports, take one with the highest sample
/// rate, with a fixed callback buffer; with none reported, fall back to
/// stereo at 48 kHz.
pub fn setup_device_config(options: &Vec<DeviceConfigOption>) -> (r: StreamSettings)
    ensures
        r.buffer_size == 4096,
        options@.len() == 0 ==> r == (StreamSettings {
            channels: 2,
            sample_rate: 48000,
            buffer_size: 4096,
            format_tag: 0,
        }),
        options@.len() > 0 ==> (exists|i: int|
            0 <= i < options@.len() && r.sample_rate == (#[trigger] options@[i]).max_sample_rate
                && r.channels == options@[i].channels && r.format_tag == options@[i].format_tag),
        forall|j: int| 0 <= j < options@.len() ==> (#[trigger] options@[j]).max_sample_rate <= r.sample_rate,
{
    if options.len() == 0 {
        return StreamSettings { channels: 2, sample_rate: 48000, buffer_size: 4096, format_tag: 0 };
    }
    let mut best: DeviceConfigOption = options[0];
    let mut i: usize = 1;
    while i < options.len()
        invariant
            1 <= i <= options@.len(),
            options@.len() > 0,
            exists|k: int|
                0 <= k < options@.len() && best == (#[trigger] options@[k]),
            forall|j: int| 0 <= j < i ==> (#[trigger] options@[j]).max_sample_rate <= best.max_sample_rate,
        decreases options@.len() - i,
    {
        if options[i].max_sample_rate >= best.max_sample_rate {
            best = options[i];
        }
        i += 1;
    }
    StreamSettings {
        channels: best.channels,
        sample_rate: best.max_sample_rate,
        buffer_size: 4096,
        format_tag: best.format_tag,
    }
}

} // verus!
