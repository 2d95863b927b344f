use velo_player::auth::{Config, Paths};
use velo_player::startup::{Phase, Startup, StartupAction, StartupInput};
use velo_player::types::{Command, Event};

fn paths() -> Paths {
    Paths { config_dir: "/home/u/.config/velo-player".into(), cache_dir: "/home/u/.cache/velo-player".into() }
}

fn config(id: &str) -> Config {
    Config { client_id: id.into(), redirect_port: 8978 }
}

#[test]
fn missing_config_prompts_and_retries() {
    let (mut s, a) = Startup::new(paths());
    assert!(matches!(a, StartupAction::LoadConfig));
    let (ev, a) = s.step(StartupInput::ConfigLoaded(Ok(None)));
    assert!(matches!(a, StartupAction::AwaitCommand));
    assert!(matches!(&ev[..], [Event::ConfigRequired(p)] if p == "/home/u/.config/velo-player/config.toml"));
    let (ev, a) = s.step(StartupInput::Received(Some(Command::Login)));
    assert!(ev.is_empty());
    assert!(matches!(a, StartupAction::LoadConfig));
    let (_, a) = s.step(StartupInput::ConfigLoaded(Ok(Some(config("  ")))));
    assert!(matches!(a, StartupAction::AwaitCommand));
    let (_, a) = s.step(StartupInput::Received(None));
    assert!(matches!(a, StartupAction::Stop));
    assert!(matches!(s.phase, Phase::Stopped));
}

#[test]
fn happy_path_connects_and_runs() {
    let (mut s, _) = Startup::new(paths());
    let (ev, a) = s.step(StartupInput::ConfigLoaded(Ok(Some(config("id")))));
    assert!(ev.is_empty());
    assert!(matches!(a, StartupAction::OpenCache));
    let (ev, a) = s.step(StartupInput::CacheOpened(Ok(())));
    assert!(matches!(&ev[..], [Event::Status(m)] if m == "Connecting to Spotify..."));
    assert!(matches!(a, StartupAction::Connect(ref c) if c.client_id == "id"));
    let (ev, a) = s.step(StartupInput::Connected(Err("failed to connect to Spotify: x".into())));
    assert!(matches!(&ev[..], [Event::Error(m)] if m == "failed to connect to Spotify: x"));
    assert!(matches!(a, StartupAction::AwaitCommand));
    let (_, a) = s.step(StartupInput::Received(Some(Command::Login)));
    assert!(matches!(a, StartupAction::Connect(_)));
    let (ev, a) = s.step(StartupInput::Connected(Ok("rick".into())));
    assert!(matches!(&ev[..], [Event::LoggedIn { display_name }] if display_name == "rick"));
    assert!(matches!(a, StartupAction::Run(ref c) if c.redirect_port == 8978));
}

#[test]
fn config_and_cache_errors_stop() {
    let (mut s, _) = Startup::new(paths());
    let (ev, a) = s.step(StartupInput::ConfigLoaded(Err("parsing x: bad".into())));
    assert!(matches!(&ev[..], [Event::Error(m)] if m == "Configuration error: parsing x: bad"));
    assert!(matches!(a, StartupAction::Stop));
    let (mut s, _) = Startup::new(paths());
    s.step(StartupInput::ConfigLoaded(Ok(Some(config("id")))));
    let (ev, a) = s.step(StartupInput::CacheOpened(Err("failed to open cache: denied".into())));
    assert!(matches!(&ev[..], [Event::Error(m)] if m == "failed to open cache: denied"));
    assert!(matches!(a, StartupAction::Stop));
}

#[test]
fn other_commands_at_a_prompt_stop() {
    let (mut s, _) = Startup::new(paths());
    s.step(StartupInput::ConfigLoaded(Ok(None)));
    let (_, a) = s.step(StartupInput::Received(Some(Command::Next)));
    assert!(matches!(a, StartupAction::Stop));
}
