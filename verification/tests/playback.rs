use velo_player::controller::{
    api_event, recents_file, ApiCall, ApiOutcome, ApiReply, Effect, PlayerSignal, PlayerState,
    MAX_RECENTS,
};
use velo_player::auth::Paths;
use velo_player::types::{Command, Event, PlaybackStatus, Playlist, Track};

const IDS: [&str; 4] = [
    "4uLU6hMCjMI75M1A2tKUQC",
    "6rqhFgbbKwnb9MLmUQDhG6",
    "3n3Ppam7vgaVa1iaRUc9Lp",
    "7GhIk7Il098yCjg4BQjzvb",
];

fn track(n: usize) -> Track {
    let id = if n < IDS.len() { IDS[n].to_string() } else { format!("{:0>22}", n) };
    Track {
        uri: format!("spotify:track:{id}"),
        name: format!("Track {n}"),
        artists: vec![format!("Artist {n}")],
        album: "Album".to_string(),
        album_art: None,
        duration_ms: 1000 * (n as u32 + 1),
    }
}

fn queue(n: usize) -> Vec<Track> {
    (0..n).map(track).collect()
}

fn describe(fx: &[Effect]) -> Vec<String> {
    fx.iter()
        .map(|e| match e {
            Effect::Emit(Event::NowPlaying(Some(t))) => format!("now:{}", t.name),
            Effect::Emit(Event::NowPlaying(None)) => "now:none".to_string(),
            Effect::Emit(Event::Recents(r)) => format!("recents:{}", r.len()),
            Effect::Emit(Event::Error(m)) => format!("error:{m}"),
            Effect::Emit(Event::PlaybackStatus(s)) => format!("status:{s:?}"),
            Effect::Emit(Event::Position { position_ms, duration_ms }) => {
                format!("position:{position_ms}/{duration_ms}")
            }
            Effect::Emit(Event::Volume(v)) => format!("volume:{v}"),
            Effect::Emit(Event::SearchResults(r)) => format!("results:{}", r.len()),
            Effect::Emit(other) => format!("event:{other:?}"),
            Effect::Load(_) => "load".to_string(),
            Effect::Play => "play".to_string(),
            Effect::Pause => "pause".to_string(),
            Effect::Stop => "stop".to_string(),
            Effect::Seek(p) => format!("seek:{p}"),
            Effect::Volume(v) => format!("set-volume:{v}"),
            Effect::SaveRecents(r) => format!("save:{}", r.len()),
            Effect::Search(q) => format!("search:{q}"),
            Effect::FetchPlaylists => "fetch-playlists".to_string(),
            Effect::FetchPlaylistTracks(p) => format!("fetch-playlist:{}", p.id),
        })
        .collect()
}

#[test]
fn play_queue_starts_at_clicked_track() {
    let mut s = PlayerState::new(Vec::new());
    let fx = s.handle_command(Command::PlayQueue { tracks: queue(3), start_index: 1 });
    assert_eq!(describe(&fx), vec!["load", "now:Track 1", "save:1", "recents:1"]);
    assert_eq!(s.index, Some(1));
    assert_eq!(s.queue.len(), 3);
    assert_eq!(s.recents[0].name, "Track 1");
}

#[test]
fn play_queue_clamps_start_index() {
    let mut s = PlayerState::new(Vec::new());
    s.handle_command(Command::PlayQueue { tracks: queue(3), start_index: 99 });
    assert_eq!(s.index, Some(2));
}

#[test]
fn empty_play_queue_does_nothing() {
    let mut s = PlayerState::new(Vec::new());
    let fx = s.handle_command(Command::PlayQueue { tracks: Vec::new(), start_index: 0 });
    assert!(fx.is_empty());
    assert_eq!(s.index, None);
}

#[test]
fn next_and_previous_walk_the_queue() {
    let mut s = PlayerState::new(Vec::new());
    s.handle_command(Command::PlayQueue { tracks: queue(3), start_index: 0 });
    let fx = s.handle_command(Command::Next);
    assert_eq!(describe(&fx)[1], "now:Track 1");
    assert_eq!(s.index, Some(1));
    s.handle_command(Command::Previous);
    assert_eq!(s.index, Some(0));
    let fx = s.handle_command(Command::Previous);
    assert_eq!(describe(&fx), vec!["stop", "now:none"]);
    assert_eq!(s.index, None);
    assert!(s.handle_command(Command::Next).is_empty());
}

#[test]
fn end_of_track_advances_and_stops_at_the_end() {
    let mut s = PlayerState::new(Vec::new());
    s.handle_command(Command::PlayQueue { tracks: queue(2), start_index: 0 });
    let fx = s.handle_player_event(PlayerSignal::EndOfTrack);
    assert_eq!(describe(&fx)[1], "now:Track 1");
    let fx = s.handle_player_event(PlayerSignal::EndOfTrack);
    assert_eq!(describe(&fx), vec!["stop", "now:none"]);
    assert_eq!(s.index, None);
}

#[test]
fn toggle_play_pause_follows_player_state() {
    let mut s = PlayerState::new(Vec::new());
    assert!(s.handle_command(Command::TogglePlayPause).is_empty());
    s.handle_command(Command::PlayQueue { tracks: queue(1), start_index: 0 });
    assert_eq!(describe(&s.handle_command(Command::TogglePlayPause)), vec!["play"]);
    let fx = s.handle_player_event(PlayerSignal::Playing { position_ms: 10 });
    assert_eq!(describe(&fx), vec!["status:Playing", "position:10/1000"]);
    assert!(s.is_playing);
    assert_eq!(describe(&s.handle_command(Command::TogglePlayPause)), vec!["pause"]);
    s.handle_player_event(PlayerSignal::Paused { position_ms: 20 });
    assert!(!s.is_playing);
    let fx = s.handle_player_event(PlayerSignal::Stopped);
    assert_eq!(describe(&fx), vec!["status:Stopped"]);
}

#[test]
fn position_without_current_track_has_zero_duration() {
    let mut s = PlayerState::new(Vec::new());
    let fx = s.handle_player_event(PlayerSignal::Position { position_ms: 500 });
    assert_eq!(describe(&fx), vec!["position:500/0"]);
}

#[test]
fn unavailable_track_is_skipped_with_a_message() {
    let mut s = PlayerState::new(Vec::new());
    s.handle_command(Command::PlayQueue { tracks: queue(2), start_index: 0 });
    let fx = s.handle_player_event(PlayerSignal::Unavailable);
    let d = describe(&fx);
    assert_eq!(d[0], "error:Skipping \"Track 0\": unavailable for playback");
    assert_eq!(d[2], "now:Track 1");
    let mut idle = PlayerState::new(Vec::new());
    let fx = idle.handle_player_event(PlayerSignal::Unavailable);
    assert_eq!(describe(&fx), vec!["error:Skipping track: unavailable for playback"]);
}

#[test]
fn recents_are_most_recent_first_without_duplicates() {
    let mut s = PlayerState::new(Vec::new());
    s.handle_command(Command::PlayQueue { tracks: queue(3), start_index: 0 });
    s.handle_command(Command::Next);
    s.handle_command(Command::Next);
    s.handle_command(Command::Previous);
    let names: Vec<&str> = s.recents.iter().map(|t| t.name.as_str()).collect();
    assert_eq!(names, vec!["Track 1", "Track 2", "Track 0"]);
}

#[test]
fn recents_are_capped() {
    let mut s = PlayerState::new(Vec::new());
    let many = queue(MAX_RECENTS + 5);
    s.handle_command(Command::PlayQueue { tracks: many, start_index: 0 });
    for _ in 0..(MAX_RECENTS + 4) {
        s.handle_command(Command::Next);
    }
    assert_eq!(s.recents.len(), MAX_RECENTS);
    assert_eq!(s.recents[0].name, format!("Track {}", MAX_RECENTS + 4));
}

#[test]
fn invalid_uri_reports_librespot_error() {
    let mut s = PlayerState::new(Vec::new());
    let mut bad = track(0);
    bad.uri = "spotify:track:not-base62!".to_string();
    bad.name = "Broken".to_string();
    let fx = s.handle_command(Command::PlayQueue { tracks: vec![bad], start_index: 0 });
    let d = describe(&fx);
    assert_eq!(d.len(), 1);
    assert!(d[0].starts_with("error:Couldn't play \"Broken\": "));
    assert!(d[0].len() > "error:Couldn't play \"Broken\": ".len());
    assert!(!d[0].ends_with("not-base62!"));
    assert!(s.recents.is_empty());
    assert_eq!(s.index, Some(0));
}

#[test]
fn commands_that_pass_through() {
    let mut s = PlayerState::new(Vec::new());
    assert_eq!(describe(&s.handle_command(Command::Seek(1234))), vec!["seek:1234"]);
    assert_eq!(describe(&s.handle_command(Command::SetVolume(65535))), vec!["set-volume:65535"]);
    assert!(s.handle_command(Command::Login).is_empty());
    assert_eq!(describe(&s.handle_command(Command::Search("abba".into()))), vec!["search:abba"]);
    assert_eq!(describe(&s.handle_command(Command::Search("  ".into()))), vec!["results:0"]);
    assert_eq!(describe(&s.handle_command(Command::LoadPlaylists)), vec!["fetch-playlists"]);
    let p = Playlist { id: "p1".into(), uri: "spotify:playlist:p1".into(), name: "P".into(), image: None, track_count: 3 };
    assert_eq!(describe(&s.handle_command(Command::LoadPlaylist(p))), vec!["fetch-playlist:p1"]);
    assert_eq!(describe(&s.handle_player_event(PlayerSignal::VolumeChanged { volume: 7 })), vec!["volume:7"]);
    assert!(s.handle_player_event(PlayerSignal::Other).is_empty());
}

#[test]
fn api_outcomes_become_events() {
    match api_event(ApiCall::Search, ApiOutcome::Done(ApiReply::Tracks(queue(2)))) {
        Event::SearchResults(t) => assert_eq!(t.len(), 2),
        other => panic!("unexpected {other:?}"),
    }
    let p = Playlist { id: "p".into(), uri: "u".into(), name: "n".into(), image: None, track_count: 0 };
    match api_event(ApiCall::PlaylistTracks(p), ApiOutcome::Done(ApiReply::Tracks(queue(1)))) {
        Event::PlaylistTracks { playlist, tracks } => {
            assert_eq!(playlist.id, "p");
            assert_eq!(tracks.len(), 1);
        }
        other => panic!("unexpected {other:?}"),
    }
    match api_event(ApiCall::Playlists, ApiOutcome::Crashed("boom".into())) {
        Event::Error(m) => assert_eq!(m, "internal error: boom"),
        other => panic!("unexpected {other:?}"),
    }
    match api_event(ApiCall::Playlists, ApiOutcome::TokenFailed("not logged in".into())) {
        Event::Error(m) => assert_eq!(m, "not logged in"),
        other => panic!("unexpected {other:?}"),
    }
}

#[test]
fn recents_file_is_in_cache() {
    let paths = Paths { config_dir: "/c/velo-player".into(), cache_dir: "/k/velo-player".into() };
    assert_eq!(recents_file(&paths), "/k/velo-player/recent_tracks.json");
    let _ = PlaybackStatus::Stopped;
}

#[test]
fn the_clicked_track_is_the_one_loaded() {
    let mut s = PlayerState::new(Vec::new());
    let tracks = queue(3);
    let fx = s.handle_command(Command::PlayQueue { tracks: tracks.clone(), start_index: 2 });
    match &fx[0] {
        Effect::Load(p) => assert_eq!(p.id().to_uri().unwrap(), tracks[2].uri),
        _ => panic!("first effect is not a load"),
    }
    let fx = s.handle_command(Command::Previous);
    match &fx[0] {
        Effect::Load(p) => assert_eq!(p.id().to_uri().unwrap(), tracks[1].uri),
        _ => panic!("first effect is not a load"),
    }
}
