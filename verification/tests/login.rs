use velo_player::auth::{
    default_redirect_port, Config, ConnectAction, ConnectFlow, ConnectInput, Paths,
    StoredToken, TokenAction, TokenFlow, TokenInput, AUDIO_CACHE_LIMIT, CONFIG_TEMPLATE,
};

fn token(access: &str, expires_at: u64) -> StoredToken {
    StoredToken { access_token: access.into(), refresh_token: format!("refresh-{access}"), expires_at }
}

#[test]
fn paths_under_platform_dirs() {
    let p = Paths::under(Some("/home/u/.config".into()), None);
    assert_eq!(p.config_dir, "/home/u/.config/velo-player");
    assert_eq!(p.cache_dir, "./velo-player");
    assert_eq!(p.config_file(), "/home/u/.config/velo-player/config.toml");
    assert_eq!(p.oauth_token_file(), "./velo-player/oauth_token.json");
    assert_eq!(p.in_cache("audio"), "./velo-player/audio");
    let d = Paths::discover();
    assert!(d.config_dir.ends_with("velo-player"));
    assert!(d.cache_dir.ends_with("velo-player"));
}

#[test]
fn config_needs_a_client_id() {
    assert!(Config { client_id: "".into(), redirect_port: 1 }.usable().is_none());
    assert!(Config { client_id: " \t\n".into(), redirect_port: 1 }.usable().is_none());
    let c = Config { client_id: "abc123".into(), redirect_port: 9000 }.usable().unwrap();
    assert_eq!(c.client_id, "abc123");
    assert_eq!(c.redirect_port, 9000);
    assert_eq!(default_redirect_port(), 8978);
    assert!(CONFIG_TEMPLATE.contains("redirect_port = 8978"));
    assert!(CONFIG_TEMPLATE.contains("client_id = \"\""));
    assert_eq!(AUDIO_CACHE_LIMIT, 2 * 1024 * 1024 * 1024);
}

#[test]
fn freshness_keeps_thirty_second_margin() {
    let t = token("a", 1000);
    assert!(t.is_fresh_at(969));
    assert!(!t.is_fresh_at(970));
    assert!(!t.is_fresh_at(2000));
    assert!(!token("a", 10).is_fresh_at(0));
    assert!(!token("a", 0).is_fresh());
    assert!(token("a", u64::MAX).is_fresh());
}

#[test]
fn issued_tokens_expire_later() {
    let t = StoredToken::issued_at("a".into(), "r".into(), 100, 3600);
    assert_eq!(t.expires_at, 3700);
    assert_eq!(StoredToken::issued_at("a".into(), "r".into(), u64::MAX - 10, 3600).expires_at, u64::MAX);
    assert_eq!(StoredToken::issued_at("a".into(), "r".into(), u64::MAX - 3600, 3600).expires_at, u64::MAX);
    let before = std::time::SystemTime::now().duration_since(std::time::UNIX_EPOCH).unwrap().as_secs();
    let t = StoredToken::from_oauth_token("a".into(), "r".into(), 3600);
    assert!(t.expires_at >= before + 3600);
    assert!(t.is_fresh());
    assert_eq!(StoredToken::from_oauth_token("a".into(), "r".into(), u64::MAX).expires_at, u64::MAX);
}

#[test]
fn connect_with_fresh_cached_token() {
    let (s, a) = ConnectFlow::Start.step(ConnectInput::Loaded { token: Some(token("a", 1000)), now: 0, credentials: true });
    assert!(matches!(a, ConnectAction::Connect(ref t) if t == "a"));
    let (s, a) = s.step(ConnectInput::Connected(Ok(())));
    assert!(matches!(a, ConnectAction::Save(ref t) if t.access_token == "a"));
    let (s, a) = s.step(ConnectInput::Saved(Err("disk full".into())));
    assert!(matches!(a, ConnectAction::Done(Ok(()))));
    assert!(matches!(s, ConnectFlow::Finished));
}

#[test]
fn connect_refreshes_expired_token() {
    let (s, a) = ConnectFlow::Start.step(ConnectInput::Loaded { token: Some(token("a", 10)), now: 100, credentials: true });
    assert!(matches!(a, ConnectAction::Refresh(ref r) if r == "refresh-a"));
    let (s, a) = s.step(ConnectInput::Refreshed(Ok(token("b", 5000))));
    assert!(matches!(a, ConnectAction::Connect(ref t) if t == "b"));
    let (_, a) = s.step(ConnectInput::Connected(Err("nope".into())));
    assert!(matches!(a, ConnectAction::Login));
}

#[test]
fn connect_falls_back_to_login() {
    let (s, a) = ConnectFlow::Start.step(ConnectInput::Loaded { token: None, now: 0, credentials: true });
    assert!(matches!(a, ConnectAction::Login));
    let (s, a) = s.step(ConnectInput::LoggedIn(Ok(token("c", 100))));
    assert!(matches!(a, ConnectAction::Connect(ref t) if t == "c"));
    let (_, a) = s.step(ConnectInput::Connected(Err("bad credentials".into())));
    assert!(matches!(a, ConnectAction::Done(Err(ref m)) if m == "failed to connect to Spotify: bad credentials"));
}

#[test]
fn connect_reports_login_and_save_failures() {
    let (s, _) = ConnectFlow::Start.step(ConnectInput::Loaded { token: None, now: 0, credentials: true });
    let (_, a) = s.step(ConnectInput::LoggedIn(Err("OAuth login failed: x".into())));
    assert!(matches!(a, ConnectAction::Done(Err(ref m)) if m == "OAuth login failed: x"));
    let (s, _) = ConnectFlow::Start.step(ConnectInput::Loaded { token: None, now: 0, credentials: true });
    let (s, _) = s.step(ConnectInput::LoggedIn(Ok(token("c", 100))));
    let (s, _) = s.step(ConnectInput::Connected(Ok(())));
    let (_, a) = s.step(ConnectInput::Saved(Err("writing: denied".into())));
    assert!(matches!(a, ConnectAction::Done(Err(ref m)) if m == "writing: denied"));
    let (s, _) = ConnectFlow::Start.step(ConnectInput::Loaded { token: Some(token("x", 0)), now: 5, credentials: true });
    let (_, a) = s.step(ConnectInput::Refreshed(Err("expired".into())));
    assert!(matches!(a, ConnectAction::Login));
}

#[test]
fn web_api_token_flow() {
    let (_, a) = TokenFlow::Start.step(TokenInput::Loaded { token: None, now: 0 });
    assert!(matches!(a, TokenAction::Done(Err(ref m)) if m == "not logged in"));
    let (_, a) = TokenFlow::Start.step(TokenInput::Loaded { token: Some(token("a", 100)), now: 0 });
    assert!(matches!(a, TokenAction::Done(Ok(ref t)) if t == "a"));
    let (s, a) = TokenFlow::Start.step(TokenInput::Loaded { token: Some(token("a", 100)), now: 80 });
    assert!(matches!(a, TokenAction::Refresh(ref r) if r == "refresh-a"));
    let (s, a) = s.step(TokenInput::Refreshed(Ok(token("b", 9000))));
    assert!(matches!(a, TokenAction::Save(ref t) if t.access_token == "b"));
    let (_, a) = s.step(TokenInput::Saved(Ok(())));
    assert!(matches!(a, TokenAction::Done(Ok(ref t)) if t == "b"));
    let (s, _) = TokenFlow::Start.step(TokenInput::Loaded { token: Some(token("a", 0)), now: 80 });
    let (_, a) = s.step(TokenInput::Refreshed(Err("refresh failed".into())));
    assert!(matches!(a, TokenAction::Done(Err(ref m)) if m == "refresh failed"));
}

#[test]
fn oauth_redirect_uri() {
    let c = Config { client_id: "x".into(), redirect_port: 8978 };
    assert_eq!(c.redirect_uri(), "http://127.0.0.1:8978/login");
    let c = Config { client_id: "x".into(), redirect_port: 0 };
    assert_eq!(c.redirect_uri(), "http://127.0.0.1:0/login");
    assert_eq!(velo_player::auth::OAUTH_SCOPES[0], "streaming");
    assert_eq!(velo_player::auth::OAUTH_SCOPES.len(), 7);
}

#[test]
fn deleting_credentials_logs_out() {
    let (s, a) = ConnectFlow::Start.step(ConnectInput::Loaded {
        token: Some(token("a", u64::MAX)),
        now: 0,
        credentials: false,
    });
    assert!(matches!(a, ConnectAction::Login));
    assert!(matches!(s, ConnectFlow::LoggingIn));
    let (_, a) = ConnectFlow::Start.step(ConnectInput::Loaded { token: None, now: 0, credentials: false });
    assert!(matches!(a, ConnectAction::Login));
}
