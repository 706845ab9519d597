use yatui::decode::{coalesce_controls, estimate_total_ms, packet_issue, position_ms,
    run_session, seek_index, select_codec, session_total_ms, CodecKind, DecodeSession,
    DecodeStatus, Packet};
use yatui::errors::PlaybackError;
use yatui::events::ControlSignal;
use yatui::progress::TrackProgress;

fn packet(ts: u64, frames: usize) -> Packet {
    Packet { ts, track_id: 1, frames, status: DecodeStatus::Decoded }
}

#[test]
fn natural_end_reports_false() {
    // A session that exhausts its packets without ever observing Stop
    // reports a natural end, at full gain throughout.
    let mut session = DecodeSession::new(8, 2, 1);
    let packets = vec![packet(5, 3), packet(8, 3), packet(11, 3)];
    let controls: Vec<Option<ControlSignal>> = vec![None, None, None];
    let mut progress = TrackProgress::new();
    let out = run_session(&mut session, &packets, &controls, &mut progress);
    assert!(!out.stopped_explicitly);
    assert_eq!(out.emitted.len(), 9);
    // fade_samples = 8 / 4 = 2: full gain is 2/2.
    for f in &out.emitted {
        assert_eq!(f.gain_num, 2);
        assert_eq!(f.gain_den, 2);
    }
    assert_eq!(session.finished, Some(false));
}

#[test]
fn stop_reports_true_within_fade_window() {
    // fade_samples = 2: after the Stop at the second packet boundary, at
    // most two more frames come out, then the explicit stop is reported.
    let mut session = DecodeSession::new(8, 2, 1);
    let packets = vec![packet(5, 3), packet(8, 3), packet(11, 3)];
    let controls = vec![None, Some(ControlSignal::Stop)];
    let mut progress = TrackProgress::new();
    let out = run_session(&mut session, &packets, &controls, &mut progress);
    assert!(out.stopped_explicitly);
    assert_eq!(session.finished, Some(true));
    // Three full-gain frames from the first packet, then the two frames of
    // the fade window.
    assert_eq!(out.emitted.len(), 5);
    assert_eq!(out.emitted[3].gain_num, 2);
    assert_eq!(out.emitted[4].gain_num, 1);
}

#[test]
fn fade_ramp_is_monotonically_nonincreasing() {
    // A longer fade window (sample rate 16 gives 4 frames) across several
    // small packets: the ramp starts at full gain and never rises.
    let mut session = DecodeSession::new(16, 2, 1);
    let packets = vec![packet(5, 2), packet(7, 2), packet(9, 2), packet(11, 2)];
    let controls = vec![None, Some(ControlSignal::Stop)];
    let mut progress = TrackProgress::new();
    let out = run_session(&mut session, &packets, &controls, &mut progress);
    assert!(out.stopped_explicitly);
    assert_eq!(out.emitted[0].gain_num, out.emitted[0].gain_den);
    for w in out.emitted.windows(2) {
        assert!(w[0].gain_num >= w[1].gain_num);
    }
    // The faded tail: 4, 3, 2, 1 over denominator 4.
    let gains: Vec<u32> = out.emitted.iter().map(|f| f.gain_num).collect();
    assert_eq!(gains, vec![4, 4, 4, 3, 2, 1]);
}

#[test]
fn first_frame_of_packet_carries_timestamp_tag() {
    let mut session = DecodeSession::new(8, 2, 1);
    let packets = vec![packet(5, 2), packet(8, 2)];
    let controls: Vec<Option<ControlSignal>> = vec![];
    let mut progress = TrackProgress::new();
    let out = run_session(&mut session, &packets, &controls, &mut progress);
    assert_eq!(out.emitted[0].ts_tag, 5);
    assert_eq!(out.emitted[1].ts_tag, 0);
    assert_eq!(out.emitted[2].ts_tag, 8);
    assert_eq!(out.emitted[3].ts_tag, 0);
}

#[test]
fn foreign_packets_are_skipped() {
    let mut session = DecodeSession::new(8, 2, 1);
    let packets = vec![
        packet(5, 2),
        Packet { ts: 6, track_id: 9, frames: 2, status: DecodeStatus::Decoded },
        packet(8, 2),
    ];
    let controls: Vec<Option<ControlSignal>> = vec![];
    let mut progress = TrackProgress::new();
    let out = run_session(&mut session, &packets, &controls, &mut progress);
    assert_eq!(out.emitted.len(), 4);
    assert!(!out.stopped_explicitly);
}

#[test]
fn undecodable_packets_are_skipped_not_fatal() {
    let mut session = DecodeSession::new(8, 2, 1);
    let packets = vec![
        packet(5, 2),
        Packet { ts: 6, track_id: 1, frames: 2, status: DecodeStatus::Failed },
        Packet { ts: 7, track_id: 1, frames: 2, status: DecodeStatus::UnsupportedFormat },
        packet(8, 2),
    ];
    let controls: Vec<Option<ControlSignal>> = vec![];
    let mut progress = TrackProgress::new();
    let out = run_session(&mut session, &packets, &controls, &mut progress);
    assert_eq!(out.emitted.len(), 4);
    assert!(!out.stopped_explicitly);
}

#[test]
fn seek_never_undershoots_target() {
    // Seeking to timestamp 9 resumes at the first packet at or past 9.
    let packets = vec![packet(5, 3), packet(8, 3), packet(11, 3)];
    let idx = seek_index(&packets, 9);
    assert_eq!(idx, 2);
    assert!(packets[idx].ts >= 9);
    assert_eq!(seek_index(&packets, 5), 0);
    assert_eq!(seek_index(&packets, 6), 1);
    assert_eq!(seek_index(&packets, 12), 3);
}

#[test]
fn seek_signal_repositions_the_run() {
    let mut session = DecodeSession::new(8, 2, 1);
    let packets = vec![packet(5, 1), packet(8, 1), packet(11, 1)];
    let controls = vec![Some(ControlSignal::Seek(9))];
    let mut progress = TrackProgress::new();
    let out = run_session(&mut session, &packets, &controls, &mut progress);
    // The run resumed at ts 11, the first timestamp at or past 9.
    assert_eq!(out.emitted.len(), 1);
    assert_eq!(out.emitted[0].ts_tag, 11);
    // Position reporting converted ts 11 at 8 frames per second.
    assert_eq!(progress.get_progress().0, 11 * 1000 / 8);
}

#[test]
fn seek_forward_adds_scaled_delta() {
    let mut session = DecodeSession::new(8, 2, 1);
    let packets = vec![packet(5, 1), packet(4000, 1), packet(6000, 1)];
    let controls = vec![Some(ControlSignal::SeekForward(3))];
    let mut progress = TrackProgress::new();
    let out = run_session(&mut session, &packets, &controls, &mut progress);
    // Target 5 + 3 * 1000 = 3005: resumes at ts 4000.
    assert_eq!(out.emitted[0].ts_tag, 4000);
}

#[test]
fn seek_backward_saturates_at_zero() {
    let mut session = DecodeSession::new(8, 2, 1);
    let packets = vec![packet(5, 1), packet(4000, 1)];
    let controls = vec![None, Some(ControlSignal::SeekBackward(99))];
    let mut progress = TrackProgress::new();
    let out = run_session(&mut session, &packets, &controls, &mut progress);
    // The backward seek from ts 4000 saturates to 0 and replays from ts 5.
    assert_eq!(out.emitted.len(), 3);
    assert_eq!(out.emitted[0].ts_tag, 5);
    assert_eq!(out.emitted[1].ts_tag, 5);
    assert_eq!(out.emitted[2].ts_tag, 4000);
}

#[test]
fn position_converts_timestamp_to_milliseconds() {
    assert_eq!(position_ms(44100, 44100), 1000);
    assert_eq!(position_ms(0, 44100), 0);
    assert_eq!(position_ms(22050, 44100), 500);
}

#[test]
fn estimated_duration_matches_formula() {
    // 4,000,000 bytes at 192 kbps: 4e6 * 8 / 192000 s = 166.666... s.
    assert_eq!(estimate_total_ms(4_000_000, 192), 166_666);
}

#[test]
fn session_duration_prefers_decoder_frames() {
    assert_eq!(session_total_ms(Some(44100), 44100, 4_000_000, 192), 1000);
    assert_eq!(session_total_ms(None, 44100, 4_000_000, 192), 166_666);
}

#[test]
fn codec_tags_select_decoders() {
    assert_eq!(select_codec("mp3"), Ok(CodecKind::Mp3));
    assert_eq!(select_codec("aac"), Ok(CodecKind::Aac));
    assert_eq!(select_codec("flac"), Err(PlaybackError::UnsupportedCodec));
    assert_eq!(select_codec(""), Err(PlaybackError::UnsupportedCodec));
}

#[test]
fn packet_issues_map_to_nonfatal_errors() {
    assert_eq!(packet_issue(DecodeStatus::Decoded), None);
    assert_eq!(
        packet_issue(DecodeStatus::UnsupportedFormat),
        Some(PlaybackError::UnsupportedSampleFormat)
    );
    assert_eq!(packet_issue(DecodeStatus::Failed), Some(PlaybackError::DecodeError));
    assert!(PlaybackError::UnsupportedSampleFormat.is_per_packet());
    assert!(PlaybackError::DecodeError.is_per_packet());
    assert!(!PlaybackError::SourceUnavailable.is_per_packet());
}

#[test]
fn stop_is_sticky_across_further_signals() {
    // A second Stop neither resets nor extends the countdown.
    let mut session = DecodeSession::new(8, 2, 1);
    let packets = vec![packet(5, 1), packet(6, 1), packet(7, 1), packet(8, 1)];
    let controls = vec![Some(ControlSignal::Stop), Some(ControlSignal::Stop)];
    let mut progress = TrackProgress::new();
    let out = run_session(&mut session, &packets, &controls, &mut progress);
    assert!(out.stopped_explicitly);
    // fade_samples = 2: exactly the two window frames come out.
    let gains: Vec<u32> = out.emitted.iter().map(|f| f.gain_num).collect();
    assert_eq!(gains, vec![2, 1]);
}

#[test]
fn coalescing_keeps_stop_and_the_latest_seek() {
    let polled = vec![
        ControlSignal::Seek(5),
        ControlSignal::Stop,
        ControlSignal::SeekForward(2),
    ];
    assert_eq!(coalesce_controls(&polled), (true, Some(ControlSignal::SeekForward(2))));
    assert_eq!(coalesce_controls(&Vec::new()), (false, None));
    assert_eq!(coalesce_controls(&vec![ControlSignal::Stop]), (true, None));
    assert_eq!(
        coalesce_controls(&vec![ControlSignal::SeekBackward(1), ControlSignal::Seek(7)]),
        (false, Some(ControlSignal::Seek(7)))
    );
}

#[test]
fn stop_cut_short_by_source_end_reports_explicit() {
    // Sample rate 16 gives a 4-frame fade window, but only one frame
    // arrives after the Stop: the source's end cuts the fade short, and
    // the observed stop is still reported as explicit, never as a
    // natural end.
    let mut session = DecodeSession::new(16, 2, 1);
    let packets = vec![packet(5, 1)];
    let controls = vec![Some(ControlSignal::Stop)];
    let mut progress = TrackProgress::new();
    let out = run_session(&mut session, &packets, &controls, &mut progress);
    assert!(out.stopped_explicitly);
    assert_eq!(session.finished, Some(true));
    let gains: Vec<u32> = out.emitted.iter().map(|f| f.gain_num).collect();
    assert_eq!(gains, vec![4]);
}
