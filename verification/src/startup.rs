//! Bringing the controller up: waiting for a usable configuration,
//! opening the cache, and connecting to Spotify, with the user's "Retry"
//! re-running whichever step failed. The caller performs each
//! [`StartupAction`] and reports back what happened.

use vstd::prelude::*;
use crate::auth::{Config, ConfigView, Paths};
use crate::text::{blank, is_blank, path_join, prefixed};
use crate::types::{Command, CommandView, Event, EventView};

verus! {

/// Where bringing the controller up stands.
pub enum Phase {
    /// Loading `config.toml`.
    LoadingConfig,
    /// Waiting for the user to fill in the config and retry.
    ConfigPrompt,
    /// Opening the on-disk cache.
    OpeningCache(Config),
    /// Connecting the session.
    Connecting(Config),
    /// Waiting for the user to retry after a failed connection.
    ConnectPrompt(Config),
    /// Connected; the controller runs.
    Running(Config),
    /// Given up.
    Stopped,
}

/// What happened in reply to the last [`StartupAction`].
pub enum StartupInput {
    /// `config.toml`: `None` when it did not exist (a template was written),
    /// else its settings, or why it could not be read or parsed.
    ConfigLoaded(Result<Option<Config>, String>),
    /// The next command from the UI, or `None` once the UI is gone.
    Received(Option<Command>),
    /// The outcome of opening the cache.
    CacheOpened(Result<(), String>),
    /// The outcome of connecting: the user's name, or why it failed.
    Connected(Result<String, String>),
}

/// What bringing the controller up asks for next.
pub enum StartupAction {
    LoadConfig,
    AwaitCommand,
    OpenCache,
    Connect(Config),
    Run(Config),
    Stop,
}

pub enum PhaseView {
    LoadingConfig,
    ConfigPrompt,
    OpeningCache(ConfigView),
    Connecting(ConfigView),
    ConnectPrompt(ConfigView),
    Running(ConfigView),
    Stopped,
}

pub enum StartupInputView {
    ConfigLoaded(Result<Option<ConfigView>, Seq<char>>),
    Received(Option<CommandView>),
    CacheOpened(Result<(), Seq<char>>),
    Connected(Result<Seq<char>, Seq<char>>),
}

pub enum StartupActionView {
    LoadConfig,
    AwaitCommand,
    OpenCache,
    Connect(ConfigView),
    Run(ConfigView),
    Stop,
}

impl View for Phase {
    type V = PhaseView;

    open spec fn view(&self) -> PhaseView {
        match self {
            Phase::LoadingConfig => PhaseView::LoadingConfig,
            Phase::ConfigPrompt => PhaseView::ConfigPrompt,
            Phase::OpeningCache(c) => PhaseView::OpeningCache(c@),
            Phase::Connecting(c) => PhaseView::Connecting(c@),
            Phase::ConnectPrompt(c) => PhaseView::ConnectPrompt(c@),
            Phase::Running(c) => PhaseView::Running(c@),
            Phase::Stopped => PhaseView::Stopped,
        }
    }
}

impl View for StartupInput {
    type V = StartupInputView;

    open spec fn view(&self) -> StartupInputView {
        match self {
            StartupInput::ConfigLoaded(r) => StartupInputView::ConfigLoaded(
                match r {
                    Ok(Some(c)) => Ok(Some(c@)),
                    Ok(None) => Ok(None),
                    Err(e) => Err(e@),
                },
            ),
            StartupInput::Received(c) => StartupInputView::Received(
                match c {
                    Some(c) => Some(c@),
                    None => None,
                },
            ),
            StartupInput::CacheOpened(r) => StartupInputView::CacheOpened(
                match r {
                    Ok(()) => Ok(()),
                    Err(e) => Err(e@),
                },
            ),
            StartupInput::Connected(r) => StartupInputView::Connected(
                match r {
                    Ok(n) => Ok(n@),
                    Err(e) => Err(e@),
                },
            ),
        }
    }
}

impl View for StartupAction {
    type V = StartupActionView;

    open spec fn view(&self) -> StartupActionView {
        match self {
            StartupAction::LoadConfig => StartupActionView::LoadConfig,
            StartupAction::AwaitCommand => StartupActionView::AwaitCommand,
            StartupAction::OpenCache => StartupActionView::OpenCache,
            StartupAction::Connect(c) => StartupActionView::Connect(c@),
            StartupAction::Run(c) => StartupActionView::Run(c@),
            StartupAction::Stop => StartupActionView::Stop,
        }
    }
}

/// The views of a sequence of events.
pub open spec fn event_views(events: Seq<Event>) -> Seq<EventView> {
    events.map_values(|e: Event| e@)
}

/// Whether `input` answers the action that led to `phase`.
pub open spec fn startup_accepts(phase: PhaseView, input: StartupInputView) -> bool {
    match (phase, input) {
        (PhaseView::LoadingConfig, StartupInputView::ConfigLoaded(_)) => true,
        (PhaseView::ConfigPrompt, StartupInputView::Received(_)) => true,
        (PhaseView::OpeningCache(_), StartupInputView::CacheOpened(_)) => true,
        (PhaseView::Connecting(_), StartupInputView::Connected(_)) => true,
        (PhaseView::ConnectPrompt(_), StartupInputView::Received(_)) => true,
        _ => false,
    }
}

/// Whether a received command asks to retry.
pub open spec fn is_retry(c: Option<CommandView>) -> bool {
    c matches Some(CommandView::Login)
}

pub open spec fn connecting_status() -> Seq<char> {
    "Connecting to Spotify..."@
}

/// One step of bringing the controller up: the next phase, the events for
/// the UI, and the next action. `config_file` is where the UI tells the
/// user to fill in the Client ID.
pub open spec fn startup_spec(phase: PhaseView, input: StartupInputView, config_file: Seq<char>) -> (
    PhaseView,
    Seq<EventView>,
    StartupActionView,
) {
    match (phase, input) {
        (PhaseView::LoadingConfig, StartupInputView::ConfigLoaded(r)) => match r {
            Ok(Some(c)) => if is_blank(c.client_id) {
                (
                    PhaseView::ConfigPrompt,
                    seq![EventView::ConfigRequired(config_file)],
                    StartupActionView::AwaitCommand,
                )
            } else {
                (PhaseView::OpeningCache(c), Seq::empty(), StartupActionView::OpenCache)
            },
            Ok(None) => (
                PhaseView::ConfigPrompt,
                seq![EventView::ConfigRequired(config_file)],
                StartupActionView::AwaitCommand,
            ),
            Err(e) => (
                PhaseView::Stopped,
                seq![EventView::Error("Configuration error: "@ + e)],
                StartupActionView::Stop,
            ),
        },
        (PhaseView::ConfigPrompt, StartupInputView::Received(c)) => if is_retry(c) {
            (PhaseView::LoadingConfig, Seq::empty(), StartupActionView::LoadConfig)
        } else {
            (PhaseView::Stopped, Seq::empty(), StartupActionView::Stop)
        },
        (PhaseView::OpeningCache(c), StartupInputView::CacheOpened(r)) => match r {
            Ok(()) => (
                PhaseView::Connecting(c),
                seq![EventView::Status(connecting_status())],
                StartupActionView::Connect(c),
            ),
            Err(e) => (PhaseView::Stopped, seq![EventView::Error(e)], StartupActionView::Stop),
        },
        (PhaseView::Connecting(c), StartupInputView::Connected(r)) => match r {
            Ok(name) => (
                PhaseView::Running(c),
                seq![EventView::LoggedIn { display_name: name }],
                StartupActionView::Run(c),
            ),
            Err(e) => (
                PhaseView::ConnectPrompt(c),
                seq![EventView::Error(e)],
                StartupActionView::AwaitCommand,
            ),
        },
        (PhaseView::ConnectPrompt(c), StartupInputView::Received(cmd)) => if is_retry(cmd) {
            (
                PhaseView::Connecting(c),
                seq![EventView::Status(connecting_status())],
                StartupActionView::Connect(c),
            )
        } else {
            (PhaseView::Stopped, Seq::empty(), StartupActionView::Stop)
        },
        _ => (phase, Seq::empty(), StartupActionView::Stop),
    }
}

/// Bringing the controller up.
pub struct Startup {
    pub paths: Paths,
    pub phase: Phase,
}

fn no_events() -> (res: Vec<Event>)
    ensures
        event_views(res@) == Seq::<EventView>::empty(),
{
    let v: Vec<Event> = Vec::new();
    assert(event_views(v@) =~= Seq::<EventView>::empty());
    v
}

fn one_event(e: Event) -> (res: Vec<Event>)
    ensures
        event_views(res@) == seq![e@],
{
    let mut v: Vec<Event> = Vec::new();
    v.push(e);
    assert(event_views(v@) =~= seq![e@]);
    v
}

fn connecting_event() -> (res: Event)
    ensures
        res@ == EventView::Status(connecting_status()),
{
    Event::Status(String::from_str("Connecting to Spotify..."))
}

impl Startup {
    /// Starting out with the given locations: the first action is to load
    /// the configuration.
    pub fn new(paths: Paths) -> (res: (Startup, StartupAction))
        ensures
            res.0.paths == paths,
            res.0.phase@ == PhaseView::LoadingConfig,
            res.1@ == StartupActionView::LoadConfig,
    {
        (Startup { paths, phase: Phase::LoadingConfig }, StartupAction::LoadConfig)
    }

    /// Advances with the answer to the last action.
    pub fn step(&mut self, input: StartupInput) -> (res: (Vec<Event>, StartupAction))
        requires
            startup_accepts(old(self).phase@, input@),
        ensures
            final(self).paths == old(self).paths,
            (final(self).phase@, event_views(res.0@), res.1@) == startup_spec(
                old(self).phase@,
                input@,
                path_join(old(self).paths.config_dir@, "config.toml"@),
            ),
    {
        let mut phase = Phase::Stopped;
        std::mem::swap(&mut phase, &mut self.phase);
        match (phase, input) {
            (Phase::LoadingConfig, StartupInput::ConfigLoaded(r)) => match r {
                Ok(Some(c)) => if blank(c.client_id.as_str()) {
                    self.phase = Phase::ConfigPrompt;
                    (
                        one_event(Event::ConfigRequired(self.paths.config_file())),
                        StartupAction::AwaitCommand,
                    )
                } else {
                    self.phase = Phase::OpeningCache(c);
                    (no_events(), StartupAction::OpenCache)
                },
                Ok(None) => {
                    self.phase = Phase::ConfigPrompt;
                    (
                        one_event(Event::ConfigRequired(self.paths.config_file())),
                        StartupAction::AwaitCommand,
                    )
                },
                Err(e) => {
                    self.phase = Phase::Stopped;
                    (
                        one_event(Event::Error(prefixed("Configuration error: ", e.as_str()))),
                        StartupAction::Stop,
                    )
                },
            },
            (Phase::ConfigPrompt, StartupInput::Received(c)) => match c {
                Some(Command::Login) => {
                    self.phase = Phase::LoadingConfig;
                    (no_events(), StartupAction::LoadConfig)
                },
                _ => {
                    self.phase = Phase::Stopped;
                    (no_events(), StartupAction::Stop)
                },
            },
            (Phase::OpeningCache(c), StartupInput::CacheOpened(r)) => match r {
                Ok(()) => {
                    let action = StartupAction::Connect(c.duplicate());
                    self.phase = Phase::Connecting(c);
                    (one_event(connecting_event()), action)
                },
                Err(e) => {
                    self.phase = Phase::Stopped;
                    (one_event(Event::Error(e)), StartupAction::Stop)
                },
            },
            (Phase::Connecting(c), StartupInput::Connected(r)) => match r {
                Ok(name) => {
                    let action = StartupAction::Run(c.duplicate());
                    self.phase = Phase::Running(c);
                    (one_event(Event::LoggedIn { display_name: name }), action)
                },
                Err(e) => {
                    self.phase = Phase::ConnectPrompt(c);
                    (one_event(Event::Error(e)), StartupAction::AwaitCommand)
                },
            },
            (Phase::ConnectPrompt(c), StartupInput::Received(cmd)) => match cmd {
                Some(Command::Login) => {
                    let action = StartupAction::Connect(c.duplicate());
                    self.phase = Phase::Connecting(c);
                    (one_event(connecting_event()), action)
                },
                _ => {
                    self.phase = Phase::Stopped;
                    (no_events(), StartupAction::Stop)
                },
            },
            (phase, _) => {
                self.phase = phase;
                (no_events(), StartupAction::Stop)
            },
        }
    }
}

/// Once past loading, the configuration the controller holds has a
/// Client ID: blank ones are never carried forward.
pub open spec fn phase_wf(phase: PhaseView) -> bool {
    match phase {
        PhaseView::OpeningCache(c) => !is_blank(c.client_id),
        PhaseView::Connecting(c) => !is_blank(c.client_id),
        PhaseView::ConnectPrompt(c) => !is_blank(c.client_id),
        PhaseView::Running(c) => !is_blank(c.client_id),
        _ => true,
    }
}

/// The controller never connects without a Client ID, and keeps that so;
/// only a "Retry" (`Login`) moves it on from a prompt, anything else (or
/// the UI going away) stops it; and it only runs once connected.
pub proof fn law_startup(phase: PhaseView, input: StartupInputView, config_file: Seq<char>)
    requires
        phase_wf(phase),
        startup_accepts(phase, input),
    ensures
        phase_wf(startup_spec(phase, input, config_file).0),
        startup_spec(phase, input, config_file).2 matches StartupActionView::Connect(c) ==> !is_blank(
            c.client_id,
        ),
        (phase is ConfigPrompt || phase is ConnectPrompt) ==> (is_retry(
            input->Received_0,
        ) <==> !(startup_spec(phase, input, config_file).0 is Stopped)),
        startup_spec(phase, input, config_file).0 is Running ==> phase is Connecting,
{
}

/// A configuration whose Client ID is blank (such as the template written
/// on first run) is answered as a missing one: the UI is told, once, to
/// have the Client ID filled in at `config_file`, and the controller waits
/// for the user's next command. One with a Client ID goes on, quietly, to
/// opening the cache with that configuration.
pub proof fn law_config_client_id(c: ConfigView, config_file: Seq<char>)
    ensures
        !is_blank(c.client_id) ==> startup_spec(
            PhaseView::LoadingConfig,
            StartupInputView::ConfigLoaded(Ok(Some(c))),
            config_file,
        ) == (PhaseView::OpeningCache(c), Seq::<EventView>::empty(), StartupActionView::OpenCache),
        is_blank(c.client_id) ==> startup_spec(
            PhaseView::LoadingConfig,
            StartupInputView::ConfigLoaded(Ok(Some(c))),
            config_file,
        ) == startup_spec(
            PhaseView::LoadingConfig,
            StartupInputView::ConfigLoaded(Ok(None)),
            config_file,
        ),
        startup_spec(PhaseView::LoadingConfig, StartupInputView::ConfigLoaded(Ok(None)), config_file)
            == (
            PhaseView::ConfigPrompt,
            seq![EventView::ConfigRequired(config_file)],
            StartupActionView::AwaitCommand,
        ),
{
}

} // verus!
