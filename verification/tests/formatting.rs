use velo_player::text::{blank, join_path, join_strings, same_text, starts_with, trimmed, white_space};
use velo_player::types::Track;
use velo_player::ui::format_duration;

fn track_with_artists(artists: &[&str]) -> Track {
    Track {
        uri: "spotify:track:4uLU6hMCjMI75M1A2tKUQC".to_string(),
        name: "Song".to_string(),
        artists: artists.iter().map(|a| a.to_string()).collect(),
        album: "Album".to_string(),
        album_art: None,
        duration_ms: 1000,
    }
}

#[test]
fn format_duration_minutes_and_seconds() {
    assert_eq!(format_duration(0), "0:00");
    assert_eq!(format_duration(999), "0:00");
    assert_eq!(format_duration(1000), "0:01");
    assert_eq!(format_duration(61_000), "1:01");
    assert_eq!(format_duration(600_000), "10:00");
    assert_eq!(format_duration(3_599_999), "59:59");
}

#[test]
fn format_duration_hours() {
    assert_eq!(format_duration(3_600_000), "1:00:00");
    assert_eq!(format_duration(3_723_000), "1:02:03");
    assert_eq!(format_duration(36_000_000), "10:00:00");
    assert_eq!(format_duration(u32::MAX), "1193:02:47");
}

#[test]
fn format_duration_drops_milliseconds() {
    assert_eq!(format_duration(125_999), format_duration(125_000));
}

#[test]
fn artist_names_are_comma_separated() {
    assert_eq!(track_with_artists(&["Daft Punk", "Pharrell Williams"]).artist_names(), "Daft Punk, Pharrell Williams");
    assert_eq!(track_with_artists(&["Solo"]).artist_names(), "Solo");
    assert_eq!(track_with_artists(&[]).artist_names(), "");
    assert_eq!(track_with_artists(&["a", "b", "c"]).artist_names(), "a, b, c");
}

#[test]
fn join_strings_with_separator() {
    let parts = vec!["x".to_string(), "y".to_string()];
    assert_eq!(join_strings(&parts, "--"), "x--y");
}

#[test]
fn whitespace_follows_unicode() {
    assert!(white_space(' '));
    assert!(white_space('\t'));
    assert!(white_space('\u{3000}'));
    assert!(white_space('\u{a0}'));
    assert!(!white_space('a'));
    assert!(!white_space('\u{200b}'));
    for c in ['\n', '\u{85}', '\u{2028}', 'x', '0', '\u{feff}'] {
        assert_eq!(white_space(c), c.is_whitespace());
    }
}

#[test]
fn trimming_matches_str_trim() {
    for s in ["", "   ", "  abc ", "\tx y\n", "\u{3000}wide\u{3000}", "no-trim", " é "] {
        assert_eq!(trimmed(s), s.trim());
        assert_eq!(blank(s), s.trim().is_empty());
    }
}

#[test]
fn prefix_and_equality() {
    assert!(starts_with("spotify:track:abc", "spotify:track:"));
    assert!(!starts_with("spotify:episode:abc", "spotify:track:"));
    assert!(!starts_with("spot", "spotify"));
    assert!(starts_with("anything", ""));
    assert!(same_text("é", "é"));
    assert!(!same_text("ab", "abc"));
}

#[test]
fn path_joining() {
    assert_eq!(join_path("/home/a/.config", "velo-player"), "/home/a/.config/velo-player");
    assert_eq!(join_path("/home/a/.config/", "velo-player"), "/home/a/.config/velo-player");
    assert_eq!(join_path("", "config.toml"), "config.toml");
    assert_eq!(join_path(".", "velo-player"), "./velo-player");
}

#[test]
fn duration_label_reads_back_as_whole_seconds() {
    for ms in [0u32, 999, 59_999, 60_000, 3_599_999, 3_600_000, 3_723_456, 86_399_000, u32::MAX] {
        let label = format_duration(ms);
        let fields: Vec<&str> = label.split(':').collect();
        assert_eq!(fields.len(), if ms >= 3_600_000 { 3 } else { 2 });
        for f in &fields[1..] {
            assert_eq!(f.len(), 2);
            assert!(f.parse::<u32>().unwrap() < 60);
        }
        let secs = fields.iter().fold(0u64, |acc, f| acc * 60 + f.parse::<u64>().unwrap());
        assert_eq!(secs, u64::from(ms / 1000));
    }
}
