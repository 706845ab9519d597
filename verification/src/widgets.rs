//! The player's widgets: the data they carry and the pure computations
//! behind their rendering — duration labels, gauge ratios, the artist
//! line. The drawing itself (layout, borders, colors) happens in the
//! surrounding application; everything it prints or measures is computed
//! and specified here.

use vstd::prelude::*;
use vstd::string::StrSliceExecFns;
use vstd::string::StringExecFns;
use crate::controller::RepeatMode;
use crate::progress::TrackProgress;

verus! {

/// The decimal digit character for a value below ten.
pub open spec fn spec_digit_char(d: int) -> char {
    if d == 0 {
        '0'
    } else if d == 1 {
        '1'
    } else if d == 2 {
        '2'
    } else if d == 3 {
        '3'
    } else if d == 4 {
        '4'
    } else if d == 5 {
        '5'
    } else if d == 6 {
        '6'
    } else if d == 7 {
        '7'
    } else if d == 8 {
        '8'
    } else {
        '9'
    }
}

/// The decimal rendering of a non-negative integer, most significant
/// digit first.
pub open spec fn spec_decimal(n: int) -> Seq<char>
    decreases n,
{
    if n < 10 {
        seq![spec_digit_char(n)]
    } else {
        spec_decimal(n / 10) + seq![spec_digit_char(n % 10)]
    }
}

/// The decimal rendering padded to at least two digits with a leading
/// zero.
pub open spec fn spec_two_digits(n: int) -> Seq<char> {
    if n < 10 {
        seq!['0'] + spec_decimal(n)
    } else {
        spec_decimal(n)
    }
}

/// A duration label: minutes and seconds, each at least two digits,
/// separated by a colon.
pub open spec fn spec_format_duration(total_seconds: int) -> Seq<char> {
    spec_two_digits(total_seconds / 60) + seq![':'] + spec_two_digits(total_seconds % 60)
}

/// The one-character string of a decimal digit.
fn digit_str(d: u64) -> (r: &'static str)
    requires
        d < 10,
    ensures
        r@ =~= seq![spec_digit_char(d as int)],
{
    let s: &'static str = match d {
        0 => "0",
        1 => "1",
        2 => "2",
        3 => "3",
        4 => "4",
        5 => "5",
        6 => "6",
        7 => "7",
        8 => "8",
        _ => "9",
    };
    proof {
        reveal_strlit("0");
        reveal_strlit("1");
        reveal_strlit("2");
        reveal_strlit("3");
        reveal_strlit("4");
        reveal_strlit("5");
        reveal_strlit("6");
        reveal_strlit("7");
        reveal_strlit("8");
        reveal_strlit("9");
    }
    s
}

/// Append the decimal rendering of `n` to a label under construction.
fn push_decimal(n: u64, out: &mut String)
    ensures
        final(out)@ == old(out)@ + spec_decimal(n as int),
    decreases n,
{
    if n >= 10 {
        push_decimal(n / 10, out);
        out.append(digit_str(n % 10));
        proof {
            assert(out@ =~= old(out)@ + spec_decimal(n as int));
        }
    } else {
        out.append(digit_str(n));
        proof {
            assert(out@ =~= old(out)@ + spec_decimal(n as int));
        }
    }
}

/// Render a duration in whole seconds as an `MM:SS` label (minutes grow
/// past two digits when they must).
pub fn format_duration(total_seconds: u64) -> (r: String)
    ensures
        r@ == spec_format_duration(total_seconds as int),
{
    let minutes: u64 = total_seconds / 60;
    let seconds: u64 = total_seconds % 60;
    let mut out: String = String::new();
    if minutes < 10 {
        out.append("0");
    }
    push_decimal(minutes, &mut out);
    out.append(":");
    if seconds < 10 {
        out.append("0");
    }
    push_decimal(seconds, &mut out);
    proof {
        reveal_strlit("0");
        reveal_strlit(":");
        assert(out@ =~= spec_format_duration(total_seconds as int));
    }
    out
}

/// The `current / total` label of the progress gauge, both sides
/// rendered as duration labels from milliseconds.
pub fn progress_label(current_ms: u64, total_ms: u64) -> (r: String)
    ensures
        r@ == spec_format_duration(current_ms as int / 1000) + " / "@ + spec_format_duration(
            total_ms as int / 1000,
        ),
{
    let mut out: String = format_duration(current_ms / 1000);
    out.append(" / ");
    let right: String = format_duration(total_ms / 1000);
    out.append(right.as_str());
    proof {
        assert(out@ =~= spec_format_duration(current_ms as int / 1000) + " / "@
            + spec_format_duration(total_ms as int / 1000));
    }
    out
}

/// How far the progress gauge is filled, in thousandths: position over
/// total, zero with no known total, full once the position passes it.
pub open spec fn spec_progress_permille(current_ms: u64, total_ms: u64) -> int {
    if total_ms == 0 {
        0
    } else if current_ms >= total_ms {
        1000
    } else {
        current_ms * 1000 / (total_ms as int)
    }
}

/// The progress gauge's fill ratio, in thousandths.
pub fn progress_ratio_permille(current_ms: u64, total_ms: u64) -> (r: u16)
    ensures
        r == spec_progress_permille(current_ms, total_ms),
        r <= 1000,
{
    if total_ms == 0 {
        0
    } else if current_ms >= total_ms {
        1000
    } else {
        let v: u128 = (current_ms as u128) * 1000 / (total_ms as u128);
        proof {
            assert((current_ms as int) * 1000 / (total_ms as int) < 1000) by (nonlinear_arith)
                requires
                    current_ms < total_ms,
                    total_ms >= 1,
            ;
        }
        v as u16
    }
}

/// Where the volume gauge stands, in thousandths: the plain range below
/// unity gain, and the boosted range above it, each mapped over the full
/// gauge.
pub open spec fn spec_volume_gauge_permille(volume: u8) -> int {
    if volume <= 100 {
        volume * 10
    } else {
        (volume - 100) * 10
    }
}

/// The volume gauge's fill ratio in thousandths, and whether the gauge
/// shows the visually distinguished boosted range above unity gain.
pub fn volume_gauge(volume: u8) -> (r: (u16, bool))
    requires
        volume <= 200,
    ensures
        r.0 == spec_volume_gauge_permille(volume),
        r.1 == (volume > 100),
        r.0 <= 1000,
{
    if volume <= 100 {
        ((volume as u16) * 10, false)
    } else {
        (((volume - 100) as u16) * 10, true)
    }
}

/// The artist name to show: the reported one, or a placeholder.
pub open spec fn spec_artist_name(a: Option<String>) -> Seq<char> {
    match a {
        Option::Some(s) => s@,
        Option::None => "Unknown"@,
    }
}

/// The artist line: every artist's display name, comma-separated.
pub open spec fn spec_artists_line(s: Seq<Option<String>>) -> Seq<char>
    decreases s.len(),
{
    if s.len() == 0 {
        Seq::empty()
    } else if s.len() == 1 {
        spec_artist_name(s[0])
    } else {
        spec_artists_line(s.drop_last()) + ", "@ + spec_artist_name(s.last())
    }
}

/// Join the artist names of a track with commas, writing a placeholder
/// for each artist the catalog reported without a name.
pub fn artists_line(artists: &Vec<Option<String>>) -> (r: String)
    ensures
        r@ == spec_artists_line(artists@),
{
    let mut out: String = String::new();
    let mut i: usize = 0;
    while i < artists.len()
        invariant
            i <= artists@.len(),
            out@ == spec_artists_line(artists@.subrange(0, i as int)),
        decreases artists@.len() - i,
    {
        if i > 0 {
            out.append(", ");
        }
        match &artists[i] {
            Some(name) => {
                out.append(name.as_str());
            }
            None => {
                out.append("Unknown");
            }
        }
        proof {
            let pre = artists@.subrange(0, i as int);
            let cur = artists@.subrange(0, i + 1);
            assert(cur.drop_last() =~= pre);
            assert(cur.last() == artists@[i as int]);
            assert(out@ =~= spec_artists_line(cur));
        }
        i += 1;
    }
    proof {
        assert(artists@.subrange(0, artists@.len() as int) =~= artists@);
    }
    out
}

/// The repeat and shuffle indicators and the volume gauge, as one block.
pub struct PlayerControlsWidget {
    /// Repeat behavior to indicate.
    pub repeat_mode: RepeatMode,
    /// Whether shuffle is on.
    pub shuffle_mode: bool,
    /// Volume to show on the gauge, `0..=200`.
    pub volume: u8,
}

impl PlayerControlsWidget {
    /// A controls block for the given transport settings.
    pub fn new(repeat_mode: RepeatMode, shuffle_mode: bool, volume: u8) -> (r: PlayerControlsWidget)
        ensures
            r.repeat_mode == repeat_mode,
            r.shuffle_mode == shuffle_mode,
            r.volume == volume,
    {
        PlayerControlsWidget { repeat_mode, shuffle_mode, volume }
    }
}

/// The progress gauge: position over duration, under the track heading.
pub struct ProgressWidget<'a> {
    /// The progress cell to read position and duration from.
    pub progress: &'a TrackProgress,
    /// Title of the shown track.
    pub track_title: &'a str,
    /// Artist line of the shown track, when known.
    pub track_artist: Option<String>,
    /// Whether to show the playing indicator.
    pub is_playing: bool,
}

impl<'a> ProgressWidget<'a> {
    /// A progress gauge for the given track and progress cell.
    pub fn new(
        progress: &'a TrackProgress,
        track_title: &'a str,
        track_artist: Option<String>,
        is_playing: bool,
    ) -> (r: ProgressWidget<'a>)
        ensures
            r.progress == progress,
            r.track_title@ == track_title@,
            r.track_artist == track_artist,
            r.is_playing == is_playing,
    {
        ProgressWidget { progress, track_title, track_artist, is_playing }
    }
}

/// The whole player row: the progress gauge beside the controls block.
pub struct PlayerWidget<'a> {
    /// The progress cell to read position and duration from.
    pub progress: &'a TrackProgress,
    /// Title of the shown track.
    pub track_title: &'a str,
    /// Artist line of the shown track, when known.
    pub track_artist: Option<String>,
    /// Repeat behavior to indicate.
    pub repeat_mode: RepeatMode,
    /// Whether shuffle is on.
    pub shuffle_mode: bool,
    /// Volume to show on the gauge, `0..=200`.
    pub volume: u8,
    /// Whether to show the playing indicator.
    pub is_playing: bool,
}

impl<'a> PlayerWidget<'a> {
    /// A player row for the given track, progress cell and transport
    /// settings.
    pub fn new(
        progress: &'a TrackProgress,
        track_title: &'a str,
        track_artist: Option<String>,
        repeat_mode: RepeatMode,
        shuffle_mode: bool,
        volume: u8,
        is_playing: bool,
    ) -> (r: PlayerWidget<'a>)
        ensures
            r.progress == progress,
            r.track_title@ == track_title@,
            r.track_artist == track_artist,
            r.repeat_mode == repeat_mode,
            r.shuffle_mode == shuffle_mode,
            r.volume == volume,
            r.is_playing == is_playing,
    {
        PlayerWidget { progress, track_title, track_artist, repeat_mode, shuffle_mode, volume, is_playing }
    }
}

} // verus!
