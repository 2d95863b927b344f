use velo_player::api::{
    current_user_playlists, first_image_url, parse_playlist, parse_track, playlist_tracks,
    search_response, search_results, PlaylistPages,
};
use velo_player::json::{JsonNumber, JsonValue};

fn convert(v: serde_json::Value) -> JsonValue {
    match v {
        serde_json::Value::Null => JsonValue::Null,
        serde_json::Value::Bool(b) => JsonValue::Bool(b),
        serde_json::Value::Number(n) => JsonValue::Number(if let Some(u) = n.as_u64() {
            JsonNumber::Unsigned(u)
        } else if let Some(i) = n.as_i64() {
            JsonNumber::Negative(i)
        } else {
            JsonNumber::Fractional
        }),
        serde_json::Value::String(s) => JsonValue::Str(s),
        serde_json::Value::Array(a) => JsonValue::Array(a.into_iter().map(convert).collect()),
        serde_json::Value::Object(m) => {
            JsonValue::Object(m.into_iter().map(|(k, v)| (k, convert(v))).collect())
        }
    }
}

fn json(text: &str) -> JsonValue {
    convert(serde_json::from_str(text).expect("valid JSON"))
}

const TRACK: &str = r#"{
  "uri": "spotify:track:4uLU6hMCjMI75M1A2tKUQC",
  "name": "Never Gonna Give You Up",
  "duration_ms": 213573,
  "artists": [{"name": "Rick Astley"}, {"id": "x"}, {"name": "Someone"}],
  "album": {"name": "Whenever You Need Somebody",
            "images": [{"url": "https://i.scdn.co/big"}, {"url": "https://i.scdn.co/small"}]}
}"#;

#[test]
fn parses_a_full_track() {
    let t = parse_track(&json(TRACK)).expect("a track");
    assert_eq!(t.uri, "spotify:track:4uLU6hMCjMI75M1A2tKUQC");
    assert_eq!(t.name, "Never Gonna Give You Up");
    assert_eq!(t.duration_ms, 213573);
    assert_eq!(t.artists, vec!["Rick Astley".to_string(), "Someone".to_string()]);
    assert_eq!(t.album, "Whenever You Need Somebody");
    assert_eq!(t.album_art.as_deref(), Some("https://i.scdn.co/big"));
}

#[test]
fn parses_a_minimal_track() {
    let t = parse_track(&json(r#"{"uri":"spotify:track:abc","name":"n","duration_ms":5}"#)).unwrap();
    assert!(t.artists.is_empty());
    assert_eq!(t.album, "");
    assert_eq!(t.album_art, None);
}

#[test]
fn skips_non_tracks() {
    assert!(parse_track(&json(r#"{"uri":"spotify:local:a:b:c:1","name":"n","duration_ms":5}"#)).is_none());
    assert!(parse_track(&json(r#"{"uri":"spotify:episode:abc","name":"n","duration_ms":5}"#)).is_none());
    assert!(parse_track(&json(r#"{"name":"n","duration_ms":5}"#)).is_none());
    assert!(parse_track(&json(r#"{"uri":"spotify:track:a","duration_ms":5}"#)).is_none());
    assert!(parse_track(&json(r#"{"uri":"spotify:track:a","name":"n","duration_ms":-5}"#)).is_none());
    assert!(parse_track(&json(r#"{"uri":"spotify:track:a","name":"n","duration_ms":1.5}"#)).is_none());
    assert!(parse_track(&json("null")).is_none());
    assert!(parse_track(&json("[1,2]")).is_none());
}

#[test]
fn duration_truncates_to_u32() {
    let t = parse_track(&json(r#"{"uri":"spotify:track:a","name":"n","duration_ms":4294967297}"#)).unwrap();
    assert_eq!(t.duration_ms, 1);
}

#[test]
fn parses_playlists() {
    let p = parse_playlist(&json(
        r#"{"id":"pl1","uri":"spotify:playlist:pl1","name":"Mix","images":[{"url":"u"}],"tracks":{"total":42}}"#,
    ))
    .unwrap();
    assert_eq!(p.id, "pl1");
    assert_eq!(p.uri, "spotify:playlist:pl1");
    assert_eq!(p.name, "Mix");
    assert_eq!(p.image.as_deref(), Some("u"));
    assert_eq!(p.track_count, 42);
    let bare = parse_playlist(&json(r#"{"id":"a","uri":"b","name":"c","images":null}"#)).unwrap();
    assert_eq!(bare.track_count, 0);
    assert_eq!(bare.image, None);
    assert!(parse_playlist(&json(r#"{"id":"a","name":"c"}"#)).is_none());
}

#[test]
fn first_image_url_of_arrays() {
    assert_eq!(first_image_url(Some(&json(r#"[{"url":"a"},{"url":"b"}]"#))), Some("a".to_string()));
    assert_eq!(first_image_url(Some(&json("[]"))), None);
    assert_eq!(first_image_url(Some(&json(r#"[{"width":1}]"#))), None);
    assert_eq!(first_image_url(None), None);
}

#[test]
fn json_values_and_lookup() {
    let v = json(r#"{"a":1,"b":-2,"c":0.5,"d":"s","e":true,"f":null}"#);
    assert_eq!(v.get("a").unwrap().as_u64(), Some(1));
    assert!(matches!(v.get("b"), Some(JsonValue::Number(JsonNumber::Negative(-2)))));
    assert!(matches!(v.get("c"), Some(JsonValue::Number(JsonNumber::Fractional))));
    assert_eq!(v.get("d").unwrap().as_str().map(|s| s.as_str()), Some("s"));
    assert!(matches!(v.get("e"), Some(JsonValue::Bool(true))));
    assert!(matches!(v.get("f"), Some(JsonValue::Null)));
    assert!(v.get("g").is_none());
    assert!(json("[1]").get("a").is_none());
}

#[test]
fn json_errors_are_reported() {
    let e = search_response("{not json").unwrap_err();
    let detail = serde_json::from_str::<serde_json::Value>("{not json").unwrap_err().to_string();
    assert_eq!(e, format!("failed to parse search response: Failed to read JSON: {detail}"));
}

#[test]
fn search_results_keep_only_tracks() {
    let body = format!(
        r#"{{"tracks":{{"items":[{},{{"uri":"spotify:episode:x","name":"e","duration_ms":1}},{{"uri":"spotify:track:b","name":"B","duration_ms":2}}]}}}}"#,
        TRACK
    );
    let tracks = search_results(&json(&body));
    assert_eq!(tracks.len(), 2);
    assert_eq!(tracks[1].name, "B");
    assert!(search_results(&json("{}")).is_empty());
    let via_text = search_response(&body).unwrap();
    assert_eq!(via_text, tracks);
    let err = search_response("oops").unwrap_err();
    assert!(err.starts_with("failed to parse search response: Failed to read JSON: "));
    assert!(err.len() > "failed to parse search response: Failed to read JSON: ".len());
}

#[test]
fn playlist_listing_pages() {
    let mut pages: PlaylistPages = current_user_playlists();
    assert_eq!(pages.pager.next_url.as_deref(), Some("https://api.spotify.com/v1/me/playlists?limit=50"));
    assert_eq!(pages.pager.pages_left, 4);
    let first = r#"{"items":[{"id":"1","uri":"u1","name":"One"},{"bad":true}],"next":"https://api.spotify.com/v1/me/playlists?offset=50"}"#;
    pages.receive(first).unwrap();
    assert_eq!(pages.playlists.len(), 1);
    assert_eq!(pages.pager.next_url.as_deref(), Some("https://api.spotify.com/v1/me/playlists?offset=50"));
    let last = r#"{"items":[{"id":"2","uri":"u2","name":"Two"}],"next":null}"#;
    pages.receive(last).unwrap();
    assert_eq!(pages.playlists.len(), 2);
    assert_eq!(pages.playlists[1].name, "Two");
    assert!(pages.pager.next_url.is_none());
}

#[test]
fn playlist_listing_stops_at_four_pages() {
    let mut pages = current_user_playlists();
    let page = r#"{"items":[{"id":"1","uri":"u","name":"n"}],"next":"more"}"#;
    let mut fetched = 0;
    while pages.pager.next_url.is_some() {
        pages.receive(page).unwrap();
        fetched += 1;
    }
    assert_eq!(fetched, 4);
    assert_eq!(pages.playlists.len(), 4);
}

#[test]
fn empty_next_ends_listing() {
    let mut pages = current_user_playlists();
    pages.receive(r#"{"items":[],"next":""}"#).unwrap();
    assert!(pages.pager.next_url.is_none());
    assert_eq!(pages.pager.pages_left, 3);
}

#[test]
fn listing_parse_error_names_the_url() {
    let mut pages = current_user_playlists();
    let err = pages.receive("<html>").unwrap_err();
    let detail = serde_json::from_str::<serde_json::Value>("<html>").unwrap_err().to_string();
    assert_eq!(
        err,
        format!("failed to parse response from https://api.spotify.com/v1/me/playlists?limit=50: Failed to read JSON: {detail}")
    );
    assert_eq!(pages.pager.pages_left, 4);
}

#[test]
fn playlist_track_listing() {
    let mut pages = playlist_tracks("37i9dQZF1DXcBWIGoYBM5M");
    assert_eq!(
        pages.pager.next_url.as_deref(),
        Some("https://api.spotify.com/v1/playlists/37i9dQZF1DXcBWIGoYBM5M/tracks?limit=50&fields=items(track(uri,name,duration_ms,artists(name),album(name,images))),next")
    );
    assert_eq!(pages.pager.pages_left, 10);
    let body = format!(r#"{{"items":[{{"track":{}}},{{"track":null}},{{"other":1}}],"next":null}}"#, TRACK);
    pages.receive(&body).unwrap();
    assert_eq!(pages.tracks.len(), 1);
    assert_eq!(pages.tracks[0].name, "Never Gonna Give You Up");
    assert!(pages.pager.next_url.is_none());
}

#[test]
fn track_listing_stops_at_ten_pages() {
    let mut pages = playlist_tracks("p");
    let mut fetched = 0;
    while pages.pager.next_url.is_some() {
        pages.receive(r#"{"items":[],"next":"again"}"#).unwrap();
        fetched += 1;
    }
    assert_eq!(fetched, 10);
}
