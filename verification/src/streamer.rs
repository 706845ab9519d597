//! Network-backed, randomly addressable byte source: the ring-buffered
//! prefetcher.
//!
//! A background fetch loop issues sequential HTTP range requests and pushes
//! the bytes into a bounded channel; the bounded capacity is the explicit
//! backpressure mechanism — the fetch loop stalls rather than growing memory
//! when decode is slower than the network. The reader drains the channel.
//! The HTTP calls themselves live in the surrounding application; this
//! module plans the ranges, validates what a fetch returned, and owns the
//! consuming end of the channel.

use vstd::prelude::*;
use vstd::string::StrSliceExecFns;
use crate::errors::PlaybackError;

verus! {

/// The consuming end of the prefetch channel (`flume::Receiver`), declared
/// so that it can stand in fields and signatures.
#[verifier::external_type_specification]
#[verifier::external_body]
#[verifier::reject_recursive_types(T)]
pub struct ExReceiver<T>(flume::Receiver<T>);

/// Relies on `flume::Receiver::recv`: blocks until a value arrives and
/// returns it, or reports `None` once every sender is gone and the queue is
/// drained. Which byte arrives depends on the fetch thread, so nothing more
/// is stated.
#[verifier::external_body]
fn recv_byte(rx: &flume::Receiver<u8>) -> (r: Option<u8>) {
    match rx.recv() {
        Ok(b) => Some(b),
        Err(flume::RecvError::Disconnected) => None,
    }
}

/// What one non-blocking poll of the ring buffer yielded.
pub enum TryByte {
    /// A byte was waiting.
    Got(u8),
    /// Nothing is waiting right now, but senders remain.
    Empty,
    /// Every sender is gone and the queue is drained: end of stream.
    Closed,
}

/// Relies on `flume::Receiver::try_recv`: takes a waiting value without
/// blocking, and tells an empty queue apart from one whose senders are all
/// gone. What is waiting depends on the fetch thread, so nothing more is
/// stated.
#[verifier::external_body]
fn try_recv_byte(rx: &flume::Receiver<u8>) -> (r: TryByte) {
    match rx.try_recv() {
        Ok(b) => TryByte::Got(b),
        Err(flume::TryRecvError::Empty) => TryByte::Empty,
        Err(flume::TryRecvError::Disconnected) => TryByte::Closed,
    }
}

/// The prefetcher's reader-side state: the consuming end of the ring
/// buffer, the total byte length learned from the length probe, the logical
/// fetch cursor, and the end-of-stream flag.
pub struct AudioStreamer {
    ring_buffer: flume::Receiver<u8>,
    /// Total byte length of the source, from the length probe.
    pub total_bytes: u64,
    fetch_cursor: u64,
    eof: bool,
}

impl AudioStreamer {
    /// The total byte length, as the length probe reported it.
    pub closed spec fn total_len(&self) -> u64 {
        self.total_bytes
    }

    /// The logical read cursor the fetch loop starts its next range from.
    pub closed spec fn cursor(&self) -> u64 {
        self.fetch_cursor
    }

    /// Whether end-of-stream has been observed: the channel was drained
    /// with no more data forthcoming, or a seek went past the end.
    pub closed spec fn is_eof(&self) -> bool {
        self.eof
    }

    /// The cursor never exceeds the total length.
    pub open spec fn wf(&self) -> bool {
        self.cursor() <= self.total_len()
    }

    /// A streamer over a source of `total_bytes` bytes, reading from the
    /// channel the fetch loop feeds.
    pub fn new(total_bytes: u64, ring_buffer: flume::Receiver<u8>) -> (r: AudioStreamer)
        ensures
            r.wf(),
            r.total_len() == total_bytes,
            r.cursor() == 0,
            !r.is_eof(),
    {
        AudioStreamer { ring_buffer, total_bytes, fetch_cursor: 0, eof: false }
    }

    /// Drain up to `want` bytes from the ring buffer: block until at least
    /// one byte is available or the channel is permanently closed, then
    /// take whatever more is already waiting, without blocking again.
    /// After end of stream the read returns no bytes, does not touch the
    /// channel, and leaves the streamer unchanged — calling it again is
    /// safe, and an empty read happens only at end of stream.
    pub fn read(&mut self, want: usize) -> (r: Vec<u8>)
        ensures
            r@.len() <= want,
            final(self).total_len() == old(self).total_len(),
            final(self).cursor() == old(self).cursor(),
            old(self).is_eof() ==> r@.len() == 0 && *final(self) == *old(self),
            !old(self).is_eof() && want > 0 ==> (r@.len() == 0 ==> final(self).is_eof()),
            !old(self).is_eof() && want == 0 ==> r@.len() == 0 && *final(self) == *old(self),
    {
        let mut out: Vec<u8> = Vec::new();
        if self.eof || want == 0 {
            return out;
        }
        match recv_byte(&self.ring_buffer) {
            Some(b) => out.push(b),
            None => {
                self.eof = true;
                return out;
            }
        }
        while out.len() < want
            invariant
                1 <= out@.len() <= want,
                *self == *old(self),
                !old(self).is_eof(),
            decreases want - out@.len(),
        {
            match try_recv_byte(&self.ring_buffer) {
                TryByte::Got(b) => out.push(b),
                TryByte::Empty => {
                    return out;
                }
                TryByte::Closed => {
                    self.eof = true;
                    return out;
                }
            }
        }
        out
    }

    /// Reset the logical read cursor to an absolute start offset. Only
    /// forward, absolute-start seeking is supported; a seek to a position
    /// beyond the total length immediately raises end-of-stream, and the
    /// cursor is clamped so that it never exceeds the total.
    pub fn seek(&mut self, pos: u64) -> (r: u64)
        ensures
            final(self).total_len() == old(self).total_len(),
            final(self).wf(),
            r == pos,
            pos < old(self).total_len() ==> final(self).cursor() == pos
                && final(self).is_eof() == old(self).is_eof(),
            pos >= old(self).total_len() ==> final(self).cursor() == old(self).total_len()
                && final(self).is_eof(),
    {
        if pos >= self.total_bytes {
            self.fetch_cursor = self.total_bytes;
            self.eof = true;
        } else {
            self.fetch_cursor = pos;
        }
        pos
    }
}

/// The inclusive end of the next range request: `fetch_amount` bytes from
/// `cursor` on, clipped to the last byte of the source.
pub open spec fn spec_chunk_end(cursor: u64, total: u64, fetch_amount: u64) -> int {
    if cursor + fetch_amount - 1 <= total - 1 {
        cursor + fetch_amount - 1
    } else {
        total - 1
    }
}

/// Plan the next sequential range request: `Some((start, end))`, both
/// inclusive, while the cursor has not reached the total; `None` once it
/// has, ending the fetch loop.
pub fn next_fetch_range(cursor: u64, total: u64, fetch_amount: u64) -> (r: Option<(u64, u64)>)
    requires
        fetch_amount >= 1,
        cursor <= total,
    ensures
        (r is Some) <==> cursor < total,
        r matches Some(p) ==> p.0 == cursor && p.1 == spec_chunk_end(cursor, total, fetch_amount),
        r matches Some(p) ==> p.0 <= p.1 < total,
        r matches Some(p) ==> p.1 - p.0 + 1
            == (if fetch_amount <= total - cursor { fetch_amount as int } else { total - cursor }),
    {
    if cursor >= total {
        return None;
    }
    let remaining: u64 = total - cursor;
    let len: u64 = if fetch_amount < remaining { fetch_amount } else { remaining };
    Some((cursor, cursor + len - 1))
}

/// Where the cursor stands after the range `(start, end)` was fetched and
/// pushed: just past `end`.
pub fn advance_cursor(end: u64, total: u64) -> (r: u64)
    requires
        end < total,
    ensures
        r == end + 1,
        r <= total,
{
    end + 1
}

/// Whether a range fetch for `(start, end)` is acceptable: it returned
/// exactly `end - start + 1` bytes.
pub open spec fn chunk_accepted(received: u64, start: u64, end: u64) -> bool {
    received == end - start + 1
}

/// Validate what a range fetch returned: exactly `end - start + 1` bytes is
/// accepted, anything else — a truncated or overlong response — is an
/// explicit `SourceUnavailable`, never silently passed on.
pub fn accept_chunk(received: u64, start: u64, end: u64) -> (r: Result<(), PlaybackError>)
    requires
        start <= end,
    ensures
        (r is Ok) <==> chunk_accepted(received, start, end),
        r matches Err(e) ==> e == PlaybackError::SourceUnavailable,
{
    if end - start <= u64::MAX - 1 && received == end - start + 1 {
        Ok(())
    } else {
        Err(PlaybackError::SourceUnavailable)
    }
}

/// A decimal digit character.
pub open spec fn spec_is_digit(c: char) -> bool {
    48 <= c as int && c as int <= 57
}

/// The value of a decimal digit character.
pub open spec fn spec_digit_val(c: char) -> int {
    c as int - 48
}

/// Every character of the sequence is a decimal digit.
pub open spec fn spec_all_digits(s: Seq<char>) -> bool {
    forall|i: int| 0 <= i < s.len() ==> spec_is_digit(#[trigger] s[i])
}

/// The value of a decimal digit string, most significant digit first.
pub open spec fn spec_dec_val(s: Seq<char>) -> int
    decreases s.len(),
{
    if s.len() == 0 {
        0
    } else {
        spec_dec_val(s.drop_last()) * 10 + spec_digit_val(s.last())
    }
}

/// A digit string's value is never negative.
proof fn lemma_dec_val_nonneg(s: Seq<char>)
    requires
        spec_all_digits(s),
    ensures
        spec_dec_val(s) >= 0,
    decreases s.len(),
{
    if s.len() > 0 {
        assert(spec_all_digits(s.drop_last())) by {
            assert forall|i: int| 0 <= i < s.drop_last().len() implies spec_is_digit(
                #[trigger] s.drop_last()[i],
            ) by {
                assert(s.drop_last()[i] == s[i]);
            }
        }
        lemma_dec_val_nonneg(s.drop_last());
    }
}

/// A digit string is worth at least any of its prefixes.
proof fn lemma_dec_val_prefix(s: Seq<char>, j: int)
    requires
        spec_all_digits(s),
        0 <= j <= s.len(),
    ensures
        spec_dec_val(s.subrange(0, j)) <= spec_dec_val(s),
    decreases s.len() - j,
{
    if j == s.len() {
        assert(s.subrange(0, j) =~= s);
    } else {
        let p = s.subrange(0, j);
        let q = s.subrange(0, j + 1);
        assert(q.drop_last() =~= p);
        assert(q.last() == s[j]);
        assert(spec_all_digits(p)) by {
            assert forall|i: int| 0 <= i < p.len() implies spec_is_digit(#[trigger] p[i]) by {
                assert(p[i] == s[i]);
            }
        }
        lemma_dec_val_nonneg(p);
        assert(spec_dec_val(q) == spec_dec_val(p) * 10 + spec_digit_val(s[j]));
        lemma_dec_val_prefix(s, j + 1);
    }
}

/// Parse the decimal byte count of a length probe's `Content-Length`
/// header: the value of a non-empty, digits-only string, when it fits the
/// range — anything else is rejected.
pub fn parse_content_length(s: &str) -> (r: Option<u64>)
    ensures
        (r is Some) <==> (s@.len() > 0 && spec_all_digits(s@) && spec_dec_val(s@) <= u64::MAX),
        r matches Some(v) ==> v == spec_dec_val(s@),
{
    let n: usize = s.unicode_len();
    if n == 0 {
        return None;
    }
    let mut i: usize = 0;
    let mut val: u64 = 0;
    while i < n
        invariant
            i <= n,
            n == s@.len(),
            spec_all_digits(s@.subrange(0, i as int)),
            val == spec_dec_val(s@.subrange(0, i as int)),
        decreases n - i,
    {
        let c: char = s.get_char(i);
        let cv: u32 = c as u32;
        if cv < 48 || cv > 57 {
            proof {
                assert(!spec_is_digit(s@[i as int]));
            }
            return None;
        }
        let d: u64 = (cv - 48) as u64;
        proof {
            let p = s@.subrange(0, i as int);
            let q = s@.subrange(0, i + 1);
            assert(q.drop_last() =~= p);
            assert(q.last() == s@[i as int]);
            assert(spec_all_digits(q)) by {
                assert forall|k: int| 0 <= k < q.len() implies spec_is_digit(#[trigger] q[k]) by {
                    assert(q[k] == s@[k]);
                }
            }
            assert(spec_dec_val(q) == val * 10 + d);
        }
        if val > (u64::MAX - d) / 10 {
            proof {
                assert(val * 10 + d > u64::MAX) by (nonlinear_arith)
                    requires
                        val > (u64::MAX - d) / 10,
                        d <= 9,
                ;
                if spec_all_digits(s@) {
                    lemma_dec_val_prefix(s@, i + 1);
                }
            }
            return None;
        }
        proof {
            assert(val * 10 + d <= u64::MAX) by (nonlinear_arith)
                requires
                    val <= (u64::MAX - d) / 10,
                    d <= 9,
                    val >= 0,
            ;
        }
        val = val * 10 + d;
        i += 1;
    }
    proof {
        assert(s@.subrange(0, n as int) =~= s@);
    }
    Some(val)
}

/// Every range the fetch loop plans lies within the source and is accepted
/// exactly when the fetch returned its full `end - start + 1` bytes; a
/// response of any other length is rejected.
pub proof fn lemma_planned_ranges_exact(cursor: u64, total: u64, fetch_amount: u64)
    requires
        fetch_amount >= 1,
        cursor < total,
    ensures
        cursor <= spec_chunk_end(cursor, total, fetch_amount) < total,
        forall|n: u64|
            #[trigger] chunk_accepted(n, cursor, spec_chunk_end(cursor, total, fetch_amount) as u64)
                <==> n == spec_chunk_end(cursor, total, fetch_amount) - cursor + 1,
{
}

} // verus!
