use velo_player::types::{Command, PlaybackStatus, Playlist, Track};
use velo_player::ui::{error_display, ErrorDisplay};
use velo_player::ui::{
    config_banner, connected_status, playback_icon, playing_rows, playlist_command, record_spins,
    row_command, search_command, SeekBar,
};

fn track(uri: &str) -> Track {
    Track { uri: uri.into(), name: "n".into(), artists: vec![], album: "a".into(), album_art: None, duration_ms: 1 }
}

#[test]
fn clicking_a_row_plays_from_it() {
    let tracks = vec![track("spotify:track:a"), track("spotify:track:b")];
    match row_command(&tracks, 1) {
        Some(Command::PlayQueue { tracks: q, start_index }) => {
            assert_eq!(q, tracks);
            assert_eq!(start_index, 1);
        }
        other => panic!("unexpected {other:?}"),
    }
    assert!(row_command(&tracks, -1).is_none());
}

#[test]
fn clicking_a_playlist_loads_it() {
    let p = Playlist { id: "1".into(), uri: "u".into(), name: "n".into(), image: None, track_count: 2 };
    let list = vec![p.clone()];
    assert!(matches!(playlist_command(&list, 0), Some(Command::LoadPlaylist(q)) if q == p));
    assert!(playlist_command(&list, 1).is_none());
    assert!(playlist_command(&list, -1).is_none());
}

#[test]
fn search_bar_ignores_blank_text() {
    assert!(search_command("   ".into()).is_none());
    assert!(matches!(search_command(" abba ".into()), Some(Command::Search(q)) if q == " abba "));
}

#[test]
fn playing_row_is_highlighted() {
    let tracks = vec![track("a"), track("b"), track("a")];
    assert_eq!(playing_rows(&tracks, &Some("a".into())), vec![true, false, true]);
    assert_eq!(playing_rows(&tracks, &None), vec![false, false, false]);
}

#[test]
fn transport_reflects_status() {
    assert_eq!(playback_icon(PlaybackStatus::Playing), "media-playback-pause-symbolic");
    assert_eq!(playback_icon(PlaybackStatus::Paused), "media-playback-start-symbolic");
    assert_eq!(playback_icon(PlaybackStatus::Stopped), "media-playback-start-symbolic");
    assert!(record_spins(PlaybackStatus::Playing));
    assert!(!record_spins(PlaybackStatus::Paused));
}

#[test]
fn seek_bar_updates() {
    let mut bar = SeekBar { duration_ms: 0 };
    let u = bar.set_position(61_000, 200_000);
    assert_eq!(u.new_duration, Some((200_000, "3:20".to_string())));
    assert_eq!(u.elapsed_label, "1:01");
    let u = bar.set_position(62_000, 200_000);
    assert_eq!(u.new_duration, None);
    let u = bar.set_position(0, 0);
    assert_eq!(u.new_duration, None);
    assert_eq!(bar.duration_ms, 200_000);
}

#[test]
fn window_texts() {
    assert_eq!(config_banner("/x/config.toml"), "Add your Spotify Client ID to /x/config.toml and click Retry");
    assert_eq!(connected_status("rick"), "Connected as rick");
}

#[test]
fn row_labels() {
    assert_eq!(velo_player::ui::track_count_label(42), "42 tracks");
    assert_eq!(velo_player::ui::track_count_label(0), "0 tracks");
    let t = Track {
        uri: "u".into(),
        name: "n".into(),
        artists: vec!["A".into(), "B".into()],
        album: "Alb".into(),
        album_art: None,
        duration_ms: 1,
    };
    assert_eq!(velo_player::ui::track_subtitle(&t), "A, B — Alb");
}

#[test]
fn update_dialog_texts() {
    assert_eq!(
        velo_player::ui::up_to_date_detail("abc1234"),
        "You're running the latest version (commit abc1234)."
    );
    assert_eq!(
        velo_player::ui::update_available_detail("abc", "def"),
        "Velo Player abc → def is available.\n\nPull, build, and install the update now? You may be asked for your password to finish installing."
    );
}

#[test]
fn errors_go_to_banner_until_logged_in() {
    assert_eq!(error_display(false), ErrorDisplay::Banner);
    assert_eq!(error_display(true), ErrorDisplay::Toast);
}
