//! Presentation logic behind the GTK panels: duration labels, which rows
//! are highlighted, and what a click on a row asks the controller for.

use vstd::prelude::*;
use crate::text::{decimal, two_digits, push_char, push_decimal, blank, is_blank, prefixed};
use crate::types::{Command, CommandView, PlaybackStatus, Playlist, Track, TrackView, copy_tracks, track_views};

verus! {

/// `ms` rendered as `m:ss`, or `h:mm:ss` once it reaches an hour.
pub open spec fn duration_text(ms: nat) -> Seq<char> {
    let total = ms / 1000;
    let hours = total / 3600;
    let minutes = (total % 3600) / 60;
    let seconds = total % 60;
    if hours > 0 {
        decimal(hours) + seq![':'] + two_digits(minutes) + seq![':'] + two_digits(seconds)
    } else {
        decimal(minutes) + seq![':'] + two_digits(seconds)
    }
}

fn push_two_digits(s: &mut String, n: u64)
    ensures
        final(s)@ == old(s)@ + two_digits(n as nat),
{
    let ghost start = s@;
    if n < 10 {
        push_char(s, '0');
    }
    push_decimal(s, n);
    assert(s@ =~= start + two_digits(n as nat));
}

/// Formats a duration in milliseconds as `m:ss` (or `h:mm:ss` for tracks
/// over an hour, which — Spotify being Spotify — does happen).
pub fn format_duration(ms: u32) -> (res: String)
    ensures
        res@ == duration_text(ms as nat),
{
    let total_secs = ms / 1000;
    let hours = total_secs / 3600;
    let minutes = (total_secs % 3600) / 60;
    let seconds = total_secs % 60;
    let mut res = String::new();
    if hours > 0 {
        push_decimal(&mut res, hours as u64);
        push_char(&mut res, ':');
        push_two_digits(&mut res, minutes as u64);
        push_char(&mut res, ':');
        push_two_digits(&mut res, seconds as u64);
    } else {
        push_decimal(&mut res, minutes as u64);
        push_char(&mut res, ':');
        push_two_digits(&mut res, seconds as u64);
    }
    assert(res@ =~= duration_text(ms as nat));
    res
}


/// What activating row `index` of a track list asks for: playing the
/// listed tracks from that row. GTK reports a negative index for a row
/// that is not in a list.
pub fn row_command(tracks: &Vec<Track>, index: i32) -> (res: Option<Command>)
    ensures
        index < 0 ==> res is None,
        index >= 0 ==> (res matches Some(c) && c@ == CommandView::PlayQueue {
            tracks: track_views(tracks@),
            start_index: index as usize,
        }),
{
    if index < 0 {
        return None;
    }
    Some(Command::PlayQueue { tracks: copy_tracks(tracks), start_index: index as usize })
}

/// What activating row `index` of the playlist list asks for: loading
/// that playlist, if there is one at that row.
pub fn playlist_command(playlists: &Vec<Playlist>, index: i32) -> (res: Option<Command>)
    ensures
        (0 <= index < playlists@.len()) ==> (res matches Some(c) && c@ == CommandView::LoadPlaylist(
            playlists@[index as int]@,
        )),
        !(0 <= index < playlists@.len()) ==> res is None,
{
    if index < 0 || index as usize >= playlists.len() {
        return None;
    }
    Some(Command::LoadPlaylist(playlists[index as usize].duplicate()))
}

/// What pressing Enter in the search bar asks for: nothing while the text
/// is blank, else a search for it.
pub fn search_command(text: String) -> (res: Option<Command>)
    ensures
        is_blank(text@) ==> res is None,
        !is_blank(text@) ==> (res matches Some(c) && c@ == CommandView::Search(text@)),
{
    if blank(text.as_str()) {
        None
    } else {
        Some(Command::Search(text))
    }
}

/// Whether row `i` shows the track whose URI is `uri`.
pub open spec fn highlighted(tracks: Seq<TrackView>, uri: Option<Seq<char>>, i: int) -> bool {
    uri matches Some(u) && tracks[i].uri == u
}

/// For each row of a track list, whether it is the playing track.
pub fn playing_rows(tracks: &Vec<Track>, uri: &Option<String>) -> (res: Vec<bool>)
    ensures
        res@.len() == tracks@.len(),
        forall|i: int|
            0 <= i < tracks@.len() ==> res@[i] == highlighted(
                track_views(tracks@),
                crate::types::opt_view(*uri),
                i,
            ),
{
    let mut res: Vec<bool> = Vec::new();
    let n = tracks.len();
    let mut i: usize = 0;
    while i < n
        invariant
            n == tracks@.len(),
            i <= n,
            res@.len() == i,
            forall|j: int|
                0 <= j < i ==> res@[j] == highlighted(
                    track_views(tracks@),
                    crate::types::opt_view(*uri),
                    j,
                ),
        decreases n - i,
    {
        let on = match uri {
            Some(u) => tracks[i].uri == *u,
            None => false,
        };
        res.push(on);
        i = i + 1;
    }
    res
}

/// The icon of the play/pause button: "pause" while playing, else "play".
pub fn playback_icon(status: PlaybackStatus) -> (res: &'static str)
    ensures
        status == PlaybackStatus::Playing ==> res@ == "media-playback-pause-symbolic"@,
        status != PlaybackStatus::Playing ==> res@ == "media-playback-start-symbolic"@,
{
    match status {
        PlaybackStatus::Playing => "media-playback-pause-symbolic",
        PlaybackStatus::Paused | PlaybackStatus::Stopped => "media-playback-start-symbolic",
    }
}

/// Whether the record spins: only while playing.
pub fn record_spins(status: PlaybackStatus) -> (res: bool)
    ensures
        res == (status == PlaybackStatus::Playing),
{
    status == PlaybackStatus::Playing
}

/// The seek bar's labels: the track duration it shows, and what a
/// position report changes.
pub struct SeekBar {
    pub duration_ms: u32,
}

/// What a position report changes on the seek bar: a new duration (and its
/// label) when one is reported that differs from the shown one, and the
/// elapsed label.
pub struct PositionUpdate {
    pub new_duration: Option<(u32, String)>,
    pub elapsed_label: String,
}

impl SeekBar {
    /// Takes in a position report.
    pub fn set_position(&mut self, position_ms: u32, duration_ms: u32) -> (res: PositionUpdate)
        ensures
            (duration_ms > 0 && duration_ms != old(self).duration_ms) ==> (res.new_duration matches Some(
                d,
            ) && d.0 == duration_ms && d.1@ == duration_text(duration_ms as nat)
                && final(self).duration_ms == duration_ms),
            !(duration_ms > 0 && duration_ms != old(self).duration_ms) ==> (res.new_duration is None
                && final(self).duration_ms == old(self).duration_ms),
            res.elapsed_label@ == duration_text(position_ms as nat),
    {
        let new_duration = if duration_ms > 0 && duration_ms != self.duration_ms {
            self.duration_ms = duration_ms;
            Some((duration_ms, format_duration(duration_ms)))
        } else {
            None
        };
        PositionUpdate { new_duration, elapsed_label: format_duration(position_ms) }
    }
}

/// The subtitle of a playlist row: `<n> tracks`.
pub fn track_count_label(count: u32) -> (res: String)
    ensures
        res@ == decimal(count as nat) + " tracks"@,
{
    let mut s = String::new();
    push_decimal(&mut s, count as u64);
    s.append(" tracks");
    s
}

/// The subtitle of a track row: its artists, a dash, and its album.
pub fn track_subtitle(track: &Track) -> (res: String)
    ensures
        res@ == crate::text::join(crate::text::views(track.artists@), ", "@) + " \u{2014} "@ + track.album@,
{
    let mut s = track.artist_names();
    s.append(" \u{2014} ");
    s.append(track.album.as_str());
    s
}

/// The detail of the "up to date" dialog.
pub fn up_to_date_detail(commit: &str) -> (res: String)
    ensures
        res@ == "You're running the latest version (commit "@ + commit@ + ")."@,
{
    let mut s = prefixed("You're running the latest version (commit ", commit);
    s.append(").");
    s
}

/// The detail of the "update available" dialog.
pub fn update_available_detail(local: &str, remote: &str) -> (res: String)
    ensures
        res@ == "Velo Player "@ + local@ + " \u{2192} "@ + remote@
            + " is available.\n\nPull, build, and install the update now? You may be asked for your password to finish installing."@,
{
    let mut s = prefixed("Velo Player ", local);
    s.append(" \u{2192} ");
    s.append(remote);
    s.append(
        " is available.\n\nPull, build, and install the update now? You may be asked for your password to finish installing.",
    );
    s
}

/// Where the window shows an error.
#[derive(Debug, Clone, Copy, PartialEq, Eq, Structural)]
pub enum ErrorDisplay {
    /// A passing toast: once logged in, errors don't take over the window.
    Toast,
    /// The banner with its Retry button, while setup or login is unfinished.
    Banner,
}

/// Where the window shows an error, given whether login has succeeded.
pub fn error_display(connected: bool) -> (res: ErrorDisplay)
    ensures
        connected ==> res == ErrorDisplay::Toast,
        !connected ==> res == ErrorDisplay::Banner,
{
    if connected {
        ErrorDisplay::Toast
    } else {
        ErrorDisplay::Banner
    }
}

/// The banner text asking for the Client ID.
pub fn config_banner(path: &str) -> (res: String)
    ensures
        res@ == "Add your Spotify Client ID to "@ + path@ + " and click Retry"@,
{
    let mut m = prefixed("Add your Spotify Client ID to ", path);
    m.append(" and click Retry");
    m
}

/// The status line once logged in.
pub fn connected_status(display_name: &str) -> (res: String)
    ensures
        res@ == "Connected as "@ + display_name@,
{
    prefixed("Connected as ", display_name)
}

/// Whether `c` is an ASCII digit.
pub open spec fn is_digit(c: char) -> bool {
    48 <= (c as u32) <= 57
}

/// The value of an ASCII digit.
pub open spec fn digit_value(c: char) -> int {
    (c as u32) - 48
}

/// Reads a clock text left to right: the value of the fields completed so
/// far (each `:` multiplies it by 60) and of the field being read.
pub open spec fn clock_read(t: Seq<char>) -> (int, int)
    decreases t.len(),
{
    if t.len() == 0 {
        (0, 0)
    } else {
        let (done, field) = clock_read(t.drop_last());
        if t.last() == ':' {
            ((done + field) * 60, 0)
        } else {
            (done, field * 10 + digit_value(t.last()))
        }
    }
}

/// The number of seconds a clock text such as `1:02:03` stands for.
pub open spec fn clock_value(t: Seq<char>) -> int {
    clock_read(t).0 + clock_read(t).1
}

/// The number of `:` in a text.
pub open spec fn colons(t: Seq<char>) -> nat
    decreases t.len(),
{
    if t.len() == 0 {
        0
    } else {
        colons(t.drop_last()) + if t.last() == ':' {
            1nat
        } else {
            0nat
        }
    }
}

/// Every `:` of `t` is followed by exactly two digits, worth less than 60,
/// and then by the end or another `:`; no field is empty.
pub open spec fn later_fields_two_digits(t: Seq<char>) -> bool {
    forall|i: int|
        0 <= i < t.len() && #[trigger] t[i] == ':' ==> {
            &&& 0 < i
            &&& i + 2 < t.len()
            &&& is_digit(t[i + 1])
            &&& is_digit(t[i + 2])
            &&& digit_value(t[i + 1]) * 10 + digit_value(t[i + 2]) < 60
            &&& (i + 3 == t.len() || t[i + 3] == ':')
        }
}

proof fn lemma_digit_char(d: int)
    requires
        0 <= d < 10,
    ensures
        is_digit(crate::text::digit_char(d)),
        digit_value(crate::text::digit_char(d)) == d,
        crate::text::digit_char(d) != ':',
{
}

proof fn lemma_decimal_digits(n: nat)
    ensures
        decimal(n).len() > 0,
        forall|i: int| 0 <= i < decimal(n).len() ==> is_digit(#[trigger] decimal(n)[i]),
        colons(decimal(n)) == 0,
    decreases n,
{
    if n < 10 {
        lemma_digit_char(n as int);
        assert(decimal(n).drop_last() =~= Seq::<char>::empty());
        assert(colons(Seq::<char>::empty()) == 0);
        assert(decimal(n).last() == crate::text::digit_char(n as int));
    } else {
        lemma_decimal_digits(n / 10);
        lemma_digit_char((n % 10) as int);
        assert(decimal(n).drop_last() =~= decimal(n / 10));
        assert(decimal(n).last() == crate::text::digit_char((n % 10) as int));
    }
}

/// Reading `decimal(n)` after a completed field reads `n`.
proof fn lemma_read_decimal(p: Seq<char>, n: nat)
    requires
        clock_read(p).1 == 0,
    ensures
        clock_read(p + decimal(n)) == (clock_read(p).0, n as int),
        colons(p + decimal(n)) == colons(p),
    decreases n,
{
    if n < 10 {
        lemma_digit_char(n as int);
        assert((p + decimal(n)).drop_last() =~= p);
    } else {
        lemma_read_decimal(p, n / 10);
        lemma_digit_char((n % 10) as int);
        assert((p + decimal(n)).drop_last() =~= p + decimal(n / 10));
    }
}

proof fn lemma_read_two_digits(p: Seq<char>, n: nat)
    requires
        clock_read(p).1 == 0,
    ensures
        clock_read(p + two_digits(n)) == (clock_read(p).0, n as int),
        colons(p + two_digits(n)) == colons(p),
{
    if n < 10 {
        let q = p + seq!['0'];
        assert(q.drop_last() =~= p);
        assert(p + two_digits(n) =~= q + decimal(n));
        lemma_read_decimal(q, n);
    } else {
        lemma_read_decimal(p, n);
    }
}

proof fn lemma_read_colon(p: Seq<char>)
    ensures
        clock_read(p.push(':')) == ((clock_read(p).0 + clock_read(p).1) * 60, 0int),
        colons(p.push(':')) == colons(p) + 1,
{
    assert(p.push(':').drop_last() =~= p);
}

proof fn lemma_two_digits_shape(n: nat)
    requires
        n < 60,
    ensures
        two_digits(n).len() == 2,
        is_digit(two_digits(n)[0]),
        is_digit(two_digits(n)[1]),
        digit_value(two_digits(n)[0]) * 10 + digit_value(two_digits(n)[1]) == n,
{
    if n < 10 {
        lemma_digit_char(n as int);
        assert(decimal(n) =~= seq![crate::text::digit_char(n as int)]);
    } else {
        lemma_digit_char((n / 10) as int);
        lemma_digit_char((n % 10) as int);
        assert(decimal(n / 10) =~= seq![crate::text::digit_char((n / 10) as int)]);
        assert(decimal(n) =~= seq![
            crate::text::digit_char((n / 10) as int),
            crate::text::digit_char((n % 10) as int),
        ]);
    }
}

/// The label reads back as the whole seconds of its input: its
/// `:`-separated fields, read as numbers in base 60, give `ms / 1000`;
/// every field after the first is two digits worth less than 60; and there
/// are three fields exactly from an hour on, two below.
pub proof fn law_duration_reads_back(ms: nat)
    ensures
        clock_value(duration_text(ms)) == ms / 1000,
        later_fields_two_digits(duration_text(ms)),
        colons(duration_text(ms)) == if ms >= 3_600_000 {
            2nat
        } else {
            1nat
        },
{
    let total = ms / 1000;
    let hours = total / 3600;
    let minutes = (total % 3600) / 60;
    let seconds = total % 60;
    let t = duration_text(ms);
    lemma_two_digits_shape(seconds);
    assert(clock_read(Seq::<char>::empty()) == (0int, 0int));
    assert(colons(Seq::<char>::empty()) == 0);
    if hours > 0 {
        let a = decimal(hours);
        lemma_decimal_digits(hours);
        lemma_read_decimal(Seq::empty(), hours);
        assert(Seq::<char>::empty() + a =~= a);
        let b = a.push(':');
        lemma_read_colon(a);
        lemma_two_digits_shape(minutes);
        lemma_read_two_digits(b, minutes);
        let c = (b + two_digits(minutes)).push(':');
        lemma_read_colon(b + two_digits(minutes));
        lemma_read_two_digits(c, seconds);
        assert(t =~= c + two_digits(seconds));
        assert(clock_value(t) == (hours * 60 + minutes) * 60 + seconds);
        assert(total == hours * 3600 + minutes * 60 + seconds);
        assert(ms >= 3_600_000);
        let k = a.len() as int;
        assert forall|i: int| 0 <= i < t.len() && #[trigger] t[i] == ':' implies {
            &&& 0 < i
            &&& i + 2 < t.len()
            &&& is_digit(t[i + 1])
            &&& is_digit(t[i + 2])
            &&& digit_value(t[i + 1]) * 10 + digit_value(t[i + 2]) < 60
            &&& (i + 3 == t.len() || t[i + 3] == ':')
        } by {
            if i < k {
                assert(t[i] == a[i]);
                assert(is_digit(a[i]));
            } else if i == k {
                assert(t[i + 1] == two_digits(minutes)[0]);
                assert(t[i + 2] == two_digits(minutes)[1]);
                assert(t[i + 3] == ':');
            } else if i == k + 1 || i == k + 2 {
                assert(t[i] == two_digits(minutes)[i - k - 1]);
            } else if i == k + 3 {
                assert(t[i + 1] == two_digits(seconds)[0]);
                assert(t[i + 2] == two_digits(seconds)[1]);
            } else {
                assert(t[i] == two_digits(seconds)[i - k - 4]);
            }
        }
    } else {
        let a = decimal(minutes);
        lemma_decimal_digits(minutes);
        lemma_read_decimal(Seq::empty(), minutes);
        assert(Seq::<char>::empty() + a =~= a);
        let b = a.push(':');
        lemma_read_colon(a);
        lemma_read_two_digits(b, seconds);
        assert(t =~= b + two_digits(seconds));
        assert(total == minutes * 60 + seconds);
        assert(ms < 3_600_000);
        let k = a.len() as int;
        assert forall|i: int| 0 <= i < t.len() && #[trigger] t[i] == ':' implies {
            &&& 0 < i
            &&& i + 2 < t.len()
            &&& is_digit(t[i + 1])
            &&& is_digit(t[i + 2])
            &&& digit_value(t[i + 1]) * 10 + digit_value(t[i + 2]) < 60
            &&& (i + 3 == t.len() || t[i + 3] == ':')
        } by {
            if i < k {
                assert(t[i] == a[i]);
                assert(is_digit(a[i]));
            } else if i == k {
                assert(t[i + 1] == two_digits(seconds)[0]);
                assert(t[i + 2] == two_digits(seconds)[1]);
            } else {
                assert(t[i] == two_digits(seconds)[i - k - 1]);
            }
        }
    }
}

/// The label depends on whole seconds only: milliseconds are dropped, not
/// rounded.
pub proof fn law_duration_whole_seconds(ms: nat)
    ensures
        duration_text(ms) == duration_text((ms / 1000) * 1000),
{
    assert((ms / 1000) * 1000 / 1000 == ms / 1000) by (nonlinear_arith);
}

} // verus!
