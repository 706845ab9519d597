use yatui::controller::RepeatMode;
use yatui::events::{key_command, KeyCommand};
use yatui::errors::PlaybackError;
use yatui::progress::TrackProgress;
use yatui::utils::{random, random_from_seed};
use yatui::widgets::{artists_line, format_duration, progress_label, progress_ratio_permille,
    volume_gauge, PlayerControlsWidget, PlayerWidget, ProgressWidget};

#[test]
fn duration_label_is_zero_padded() {
    assert_eq!(format_duration(0), "00:00");
    assert_eq!(format_duration(5), "00:05");
    assert_eq!(format_duration(59), "00:59");
    assert_eq!(format_duration(60), "01:00");
    assert_eq!(format_duration(61), "01:01");
    assert_eq!(format_duration(600), "10:00");
}

#[test]
fn duration_label_grows_past_an_hour_of_minutes() {
    assert_eq!(format_duration(3_665), "61:05");
    assert_eq!(format_duration(6_000), "100:00");
}

#[test]
fn progress_label_pairs_position_and_total() {
    assert_eq!(progress_label(61_000, 180_000), "01:01 / 03:00");
    assert_eq!(progress_label(0, 0), "00:00 / 00:00");
    // The estimate of a 4,000,000-byte track at 192 kbps reads 02:46.
    let total = yatui::decode::estimate_total_ms(4_000_000, 192);
    assert_eq!(progress_label(0, total), "00:00 / 02:46");
}

#[test]
fn progress_ratio_spans_the_gauge() {
    assert_eq!(progress_ratio_permille(0, 0), 0);
    assert_eq!(progress_ratio_permille(5_000, 10_000), 500);
    assert_eq!(progress_ratio_permille(10_000, 10_000), 1000);
    assert_eq!(progress_ratio_permille(20_000, 10_000), 1000);
    assert_eq!(progress_ratio_permille(1, 10_000), 0);
}

#[test]
fn volume_gauge_splits_plain_and_boosted_ranges() {
    assert_eq!(volume_gauge(0), (0, false));
    assert_eq!(volume_gauge(50), (500, false));
    assert_eq!(volume_gauge(100), (1000, false));
    assert_eq!(volume_gauge(101), (10, true));
    assert_eq!(volume_gauge(150), (500, true));
    assert_eq!(volume_gauge(200), (1000, true));
}

#[test]
fn artist_line_joins_names_with_placeholders() {
    let artists = vec![
        Some(String::from("Alpha")),
        None,
        Some(String::from("Beta")),
    ];
    assert_eq!(artists_line(&artists), "Alpha, Unknown, Beta");
    assert_eq!(artists_line(&Vec::new()), "");
    assert_eq!(artists_line(&vec![None]), "Unknown");
}

#[test]
fn progress_cell_reports_what_was_set() {
    let mut progress = TrackProgress::new();
    assert_eq!(progress.get_progress(), (0, 0));
    progress.set_total_duration(166_666);
    progress.set_current_position(4_500);
    assert_eq!(progress.get_progress(), (4_500, 166_666));
    progress.reset();
    assert_eq!(progress.get_progress(), (0, 0));
    let fresh = TrackProgress::default();
    assert_eq!(fresh.get_progress(), (0, 0));
}

#[test]
fn widgets_carry_their_fields() {
    let controls = PlayerControlsWidget::new(RepeatMode::All, true, 150);
    assert_eq!(controls.repeat_mode, RepeatMode::All);
    assert!(controls.shuffle_mode);
    assert_eq!(controls.volume, 150);

    let progress = TrackProgress::new();
    let gauge = ProgressWidget::new(&progress, "Some Track", Some(String::from("Someone")), true);
    assert_eq!(gauge.track_title, "Some Track");
    assert_eq!(gauge.track_artist.as_deref(), Some("Someone"));
    assert!(gauge.is_playing);

    let row = PlayerWidget::new(&progress, "Some Track", None, RepeatMode::Off, false, 90, false);
    assert_eq!(row.volume, 90);
    assert_eq!(row.repeat_mode, RepeatMode::Off);
    assert!(!row.is_playing);
}

#[test]
fn random_stays_in_range() {
    for _ in 0..64 {
        let r = random(0, 5);
        assert!((0..5).contains(&r));
    }
    let r = random(3, 4);
    assert_eq!(r, 3);
}

#[test]
fn seeded_random_is_the_offset_remainder() {
    assert_eq!(random_from_seed(7, 2, 5), 2 + (7 % 3) as i32);
    assert_eq!(random_from_seed(0, 0, 10), 0);
    assert_eq!(random_from_seed(u64::MAX, 0, 2), (u64::MAX % 2) as i32);
}

#[test]
fn random_accepts_negative_minima() {
    assert_eq!(random_from_seed(7, -5, 5), -5 + (7 % 10) as i32);
    assert_eq!(random_from_seed(3, -10, -2), -10 + (3 % 8) as i32);
    assert_eq!(random_from_seed(0, i32::MIN, i32::MAX), i32::MIN);
    for _ in 0..32 {
        let r = random(-5, 5);
        assert!((-5..5).contains(&r));
    }
}

#[test]
fn errors_describe_themselves() {
    assert_eq!(PlaybackError::SourceUnavailable.describe(), "source unavailable");
    assert_eq!(PlaybackError::UnsupportedCodec.describe(), "unsupported codec");
    assert_eq!(PlaybackError::DeviceError.describe(), "no output device");
}

#[test]
fn keymap_matches_the_bindings() {
    assert_eq!(key_command('c', true), Some(KeyCommand::Quit));
    assert_eq!(key_command('c', false), None);
    assert_eq!(key_command('q', false), Some(KeyCommand::Quit));
    assert_eq!(key_command(' ', false), Some(KeyCommand::PlayPause));
    assert_eq!(key_command('p', false), Some(KeyCommand::PlayPrevious));
    assert_eq!(key_command('n', false), Some(KeyCommand::PlayNext));
    assert_eq!(key_command('+', false), Some(KeyCommand::VolumeUp(10)));
    assert_eq!(key_command('-', false), Some(KeyCommand::VolumeDown(10)));
    assert_eq!(key_command('=', false), Some(KeyCommand::SetVolume(100)));
    assert_eq!(key_command('H', false), Some(KeyCommand::SeekBackward(10)));
    assert_eq!(key_command('L', false), Some(KeyCommand::SeekForward(10)));
    assert_eq!(key_command('r', false), Some(KeyCommand::ToggleRepeat));
    assert_eq!(key_command('s', false), Some(KeyCommand::ToggleShuffle));
    assert_eq!(key_command('m', false), Some(KeyCommand::ToggleMute));
    assert_eq!(key_command('x', false), None);
}
