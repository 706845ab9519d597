use yatui::errors::PlaybackError;
use yatui::streamer::{accept_chunk, advance_cursor, next_fetch_range, parse_content_length,
    AudioStreamer};

#[test]
fn range_plan_covers_interior_chunk() {
    // From the start of a 10-byte source, a 4-byte fetch plans bytes 0..=3.
    let plan = next_fetch_range(0, 10, 4);
    assert_eq!(plan, Some((0, 3)));
    let (start, end) = plan.unwrap();
    assert_eq!(end - start + 1, 4);
    assert_eq!(advance_cursor(end, 10), 4);
}

#[test]
fn range_plan_clips_final_chunk() {
    // Near the end only the remaining bytes are requested.
    let plan = next_fetch_range(8, 10, 4);
    assert_eq!(plan, Some((8, 9)));
    let (start, end) = plan.unwrap();
    assert_eq!(end - start + 1, 2);
}

#[test]
fn range_plan_ends_at_total() {
    assert_eq!(next_fetch_range(10, 10, 4), None);
}

#[test]
fn range_fetch_exact_length_accepted() {
    // A fetch of bytes 5..=9 is accepted exactly when 5 bytes came back.
    assert!(accept_chunk(5, 5, 9).is_ok());
    assert_eq!(accept_chunk(4, 5, 9), Err(PlaybackError::SourceUnavailable));
    assert_eq!(accept_chunk(6, 5, 9), Err(PlaybackError::SourceUnavailable));
    assert_eq!(accept_chunk(0, 0, 0), Err(PlaybackError::SourceUnavailable));
    assert!(accept_chunk(1, 0, 0).is_ok());
}

#[test]
fn read_drains_available_bytes() {
    let (tx, rx) = flume::bounded::<u8>(16);
    let mut s = AudioStreamer::new(4, rx);
    for b in [10u8, 20, 30, 40] {
        tx.send(b).unwrap();
    }
    let got = s.read(4);
    assert_eq!(got, vec![10, 20, 30, 40]);
    drop(tx);
    let rest = s.read(1);
    assert_eq!(rest.len(), 0);
}

#[test]
fn read_after_eof_returns_zero_and_is_idempotent() {
    let (tx, rx) = flume::bounded::<u8>(16);
    let mut s = AudioStreamer::new(4, rx);
    tx.send(1).unwrap();
    tx.send(2).unwrap();
    drop(tx);
    // The channel closes after two bytes: the read comes back short.
    let got = s.read(4);
    assert_eq!(got, vec![1, 2]);
    // Every read after end-of-stream returns zero bytes, without blocking,
    // however often it is called.
    for _ in 0..3 {
        let empty = s.read(4);
        assert_eq!(empty.len(), 0);
    }
    let empty = s.read(0);
    assert_eq!(empty.len(), 0);
}

#[test]
fn seek_beyond_total_raises_eof() {
    let (tx, rx) = flume::bounded::<u8>(16);
    let mut s = AudioStreamer::new(50, rx);
    tx.send(9).unwrap();
    assert_eq!(s.seek(100), 100);
    // End of stream is raised at once: the queued byte is not delivered.
    let got = s.read(1);
    assert_eq!(got.len(), 0);
    drop(tx);
}

#[test]
fn seek_within_total_keeps_reading() {
    let (tx, rx) = flume::bounded::<u8>(16);
    let mut s = AudioStreamer::new(50, rx);
    tx.send(7).unwrap();
    assert_eq!(s.seek(10), 10);
    let got = s.read(1);
    assert_eq!(got, vec![7]);
    drop(tx);
}

#[test]
fn content_length_parses_plain_digits() {
    assert_eq!(parse_content_length("4000000"), Some(4_000_000));
    assert_eq!(parse_content_length("0"), Some(0));
    assert_eq!(parse_content_length("18446744073709551615"), Some(u64::MAX));
}

#[test]
fn content_length_rejects_junk() {
    assert_eq!(parse_content_length(""), None);
    assert_eq!(parse_content_length("12a"), None);
    assert_eq!(parse_content_length("-5"), None);
    assert_eq!(parse_content_length(" 12"), None);
    // One past the top of the range no longer fits.
    assert_eq!(parse_content_length("18446744073709551616"), None);
}
