//! Where Velo Player keeps its files, its configuration, and the OAuth token
//! it caches between runs.

use vstd::prelude::*;
use crate::text::{is_blank, blank, join_path, path_join, decimal, push_decimal, prefixed};

verus! {

/// Text of the configuration template written on first run, with setup
/// instructions for the user.
pub const CONFIG_TEMPLATE: &'static str = "# Velo Player configuration
#
# 1. Go to https://developer.spotify.com/dashboard and create an app.
# 2. Open \"Settings\" on the app and add this exact Redirect URI:
#      http://127.0.0.1:8978/login
# 3. Paste the app's Client ID below.
client_id = \"\"

# Local port used to receive the OAuth redirect. If you change this, update
# the Redirect URI above to match.
redirect_port = 8978
";

/// Scopes requested during the OAuth login. `streaming` is required for
/// playback; the rest are used to browse the user's library.
pub const OAUTH_SCOPES: [&'static str; 7] = [
    "streaming",
    "user-read-playback-state",
    "user-modify-playback-state",
    "user-read-currently-playing",
    "playlist-read-private",
    "playlist-read-collaborative",
    "user-library-read",
];

/// Size limit of the on-disk audio cache: 2 GiB, enough to avoid
/// re-downloading recently played tracks.
pub const AUDIO_CACHE_LIMIT: u64 = 2 * 1024 * 1024 * 1024;

/// Name of the directory Velo Player uses under the user's config and cache
/// directories.
pub open spec fn app_dir_name() -> Seq<char> {
    "velo-player"@
}

/// The directory used under `base`, or under `.` when the platform has none.
pub open spec fn app_dir(base: Option<Seq<char>>) -> Seq<char> {
    match base {
        Some(b) => path_join(b, app_dir_name()),
        None => path_join("."@, app_dir_name()),
    }
}

/// The user's configuration directory (`dirs::config_dir`), as text.
/// Nothing is claimed of it: it depends on the environment.
#[verifier::external_body]
fn platform_config_dir() -> Option<String> {
    dirs::config_dir().map(|p| p.to_string_lossy().into_owned())
}

/// The user's cache directory (`dirs::cache_dir`), as text.
/// Nothing is claimed of it: it depends on the environment.
#[verifier::external_body]
fn platform_cache_dir() -> Option<String> {
    dirs::cache_dir().map(|p| p.to_string_lossy().into_owned())
}

fn app_dir_under(base: Option<String>) -> (res: String)
    ensures
        res@ == app_dir(crate::types::opt_view(base)),
{
    match base {
        Some(b) => join_path(b.as_str(), "velo-player"),
        None => join_path(".", "velo-player"),
    }
}

/// XDG-ish locations Velo Player reads its config from and writes its
/// session cache to.
#[derive(Debug, Clone)]
pub struct Paths {
    pub config_dir: String,
    pub cache_dir: String,
}

impl Paths {
    /// The locations under the given platform config and cache
    /// directories (`None` where the platform has none).
    pub fn under(config_base: Option<String>, cache_base: Option<String>) -> (res: Paths)
        ensures
            res.config_dir@ == app_dir(crate::types::opt_view(config_base)),
            res.cache_dir@ == app_dir(crate::types::opt_view(cache_base)),
    {
        Paths { config_dir: app_dir_under(config_base), cache_dir: app_dir_under(cache_base) }
    }

    /// The locations under the user's platform config and cache directories.
    pub fn discover() -> (res: Paths)
        ensures
            exists|c: Option<Seq<char>>, k: Option<Seq<char>>|
                res.config_dir@ == app_dir(c) && res.cache_dir@ == app_dir(k),
    {
        let config_base = platform_config_dir();
        let cache_base = platform_cache_dir();
        let res = Paths::under(config_base, cache_base);
        assert(res.config_dir@ == app_dir(crate::types::opt_view(config_base))
            && res.cache_dir@ == app_dir(crate::types::opt_view(cache_base)));
        res
    }

    /// The configuration file, `config.toml` in the config directory.
    pub fn config_file(&self) -> (res: String)
        ensures
            res@ == path_join(self.config_dir@, "config.toml"@),
    {
        join_path(self.config_dir.as_str(), "config.toml")
    }

    /// The file or directory `name` inside the cache directory.
    pub fn in_cache(&self, name: &str) -> (res: String)
        ensures
            res@ == path_join(self.cache_dir@, name@),
    {
        join_path(self.cache_dir.as_str(), name)
    }

    /// Where the OAuth token is cached between runs.
    pub fn oauth_token_file(&self) -> (res: String)
        ensures
            res@ == path_join(self.cache_dir@, "oauth_token.json"@),
    {
        self.in_cache("oauth_token.json")
    }
}

/// The user's settings from `config.toml`.
#[derive(Debug, Clone)]
pub struct Config {
    pub client_id: String,
    pub redirect_port: u16,
}

/// The port assumed when `config.toml` names none.
pub fn default_redirect_port() -> (port: u16)
    ensures
        port == 8978,
{
    8978
}

/// The contents of a [`Config`] as plain values.
pub struct ConfigView {
    pub client_id: Seq<char>,
    pub redirect_port: u16,
}

impl View for Config {
    type V = ConfigView;

    open spec fn view(&self) -> ConfigView {
        ConfigView { client_id: self.client_id@, redirect_port: self.redirect_port }
    }
}

impl Config {
    /// A copy of this configuration.
    pub fn duplicate(&self) -> (res: Config)
        ensures
            res@ == self@,
    {
        Config { client_id: self.client_id.clone(), redirect_port: self.redirect_port }
    }

    /// Where the OAuth login redirects the browser to:
    /// `http://127.0.0.1:<redirect_port>/login`.
    pub fn redirect_uri(&self) -> (res: String)
        ensures
            res@ == "http://127.0.0.1:"@ + decimal(self.redirect_port as nat) + "/login"@,
    {
        let mut s = String::from_str("http://127.0.0.1:");
        push_decimal(&mut s, self.redirect_port as u64);
        s.append("/login");
        s
    }

    /// The configuration, if it is ready to log in with: `None` while the
    /// `client_id` is still empty or only whitespace.
    pub fn usable(self) -> (res: Option<Config>)
        ensures
            res is None <==> is_blank(self.client_id@),
            res matches Some(c) ==> c.client_id@ == self.client_id@ && c.redirect_port
                == self.redirect_port,
    {
        if blank(self.client_id.as_str()) {
            None
        } else {
            Some(self)
        }
    }
}


/// An OAuth access token cached on disk, reused across runs and across the
/// librespot session and Web API calls alike.
#[derive(Debug, Clone)]
pub struct StoredToken {
    pub access_token: String,
    pub refresh_token: String,
    /// Unix timestamp (seconds) after which `access_token` should be refreshed.
    pub expires_at: u64,
}

/// The contents of a [`StoredToken`] as plain values.
pub struct StoredTokenView {
    pub access_token: Seq<char>,
    pub refresh_token: Seq<char>,
    pub expires_at: u64,
}

impl View for StoredToken {
    type V = StoredTokenView;

    open spec fn view(&self) -> StoredTokenView {
        StoredTokenView {
            access_token: self.access_token@,
            refresh_token: self.refresh_token@,
            expires_at: self.expires_at,
        }
    }
}

/// Seconds of margin kept so a token doesn't expire mid-request.
pub const FRESHNESS_MARGIN: u64 = 30;

impl StoredTokenView {
    /// Usable at time `now`: more than the margin before it expires.
    pub open spec fn fresh_at(self, now: u64) -> bool {
        now + FRESHNESS_MARGIN < self.expires_at
    }
}

/// The expiry of a token issued at `now` for `remaining` seconds,
/// saturating at `u64::MAX`.
pub open spec fn expiry(now: u64, remaining: u64) -> u64 {
    if now + remaining <= u64::MAX {
        (now + remaining) as u64
    } else {
        u64::MAX
    }
}

/// The current Unix time in seconds (`SystemTime::now` since the epoch,
/// 0 for a clock before it). Nothing is claimed of the value.
#[verifier::external_body]
pub(crate) fn unix_now() -> u64 {
    std::time::SystemTime::now().duration_since(std::time::UNIX_EPOCH).unwrap_or_default().as_secs()
}

impl StoredToken {
    /// The token as stored when issued at `now` and valid for another
    /// `remaining_secs` seconds (the expiry saturates at `u64::MAX`).
    pub fn issued_at(access_token: String, refresh_token: String, now: u64, remaining_secs: u64) -> (res: StoredToken)
        ensures
            res.access_token == access_token,
            res.refresh_token == refresh_token,
            res.expires_at == expiry(now, remaining_secs),
    {
        let expires_at = if now <= u64::MAX - remaining_secs {
            now + remaining_secs
        } else {
            u64::MAX
        };
        StoredToken { access_token, refresh_token, expires_at }
    }

    /// The token as stored when issued now and valid for another
    /// `remaining_secs` seconds (the expiry saturates at `u64::MAX`).
    pub fn from_oauth_token(access_token: String, refresh_token: String, remaining_secs: u64) -> (res: StoredToken)
        ensures
            res.access_token == access_token,
            res.refresh_token == refresh_token,
            exists|now: u64| res.expires_at == #[trigger] expiry(now, remaining_secs),
    {
        let now = unix_now();
        StoredToken::issued_at(access_token, refresh_token, now, remaining_secs)
    }

    /// Whether the token can still be used at `now`, leaving a 30 second
    /// margin so a token doesn't expire mid-request.
    pub fn is_fresh_at(&self, now: u64) -> (res: bool)
        ensures
            res == self@.fresh_at(now),
    {
        self.expires_at > FRESHNESS_MARGIN && now < self.expires_at - FRESHNESS_MARGIN
    }

    /// Whether the token can still be used now.
    pub fn is_fresh(&self) -> (res: bool)
        ensures
            res ==> self.expires_at > FRESHNESS_MARGIN,
            exists|now: u64| res == self@.fresh_at(now),
    {
        self.is_fresh_at(unix_now())
    }

    /// A copy of this token.
    pub fn duplicate(&self) -> (res: StoredToken)
        ensures
            res@ == self@,
    {
        StoredToken {
            access_token: self.access_token.clone(),
            refresh_token: self.refresh_token.clone(),
            expires_at: self.expires_at,
        }
    }
}

/// A token fresh at some moment was fresh at every earlier moment.
pub proof fn law_freshness_only_wears_off(t: StoredTokenView, earlier: u64, later: u64)
    requires
        earlier <= later,
        t.fresh_at(later),
    ensures
        t.fresh_at(earlier),
{
}

/// Where connecting the librespot session stands.
pub enum ConnectFlow {
    /// Nothing done yet; waiting for the cached token to be loaded.
    Start,
    /// The cached token had expired; waiting for the refresh.
    Refreshing,
    /// Connecting with the cached (or refreshed) token.
    ConnectingCached(StoredToken),
    /// Connected with the cached token; waiting for it to be saved.
    SavingCached,
    /// Waiting for the interactive OAuth login in the browser.
    LoggingIn,
    /// Connecting with the token from the login.
    ConnectingNew(StoredToken),
    /// Connected with the new token; waiting for it to be saved.
    SavingNew,
    /// The attempt is over.
    Finished,
}

/// What happened in reply to the last [`ConnectAction`].
pub enum ConnectInput {
    /// The cached token, if any, the current Unix time, and whether the
    /// session's credentials file is present (deleting it logs out).
    Loaded { token: Option<StoredToken>, now: u64, credentials: bool },
    /// The outcome of refreshing the token.
    Refreshed(Result<StoredToken, String>),
    /// The outcome of connecting the session.
    Connected(Result<(), String>),
    /// The outcome of the interactive login.
    LoggedIn(Result<StoredToken, String>),
    /// The outcome of saving the token.
    Saved(Result<(), String>),
}

/// What connecting asks for next.
pub enum ConnectAction {
    /// Exchange this refresh token for a new access token.
    Refresh(String),
    /// Connect the session with this access token.
    Connect(String),
    /// Run the interactive OAuth login.
    Login,
    /// Save this token to the cache.
    Save(StoredToken),
    /// The attempt is over, with this outcome.
    Done(Result<(), String>),
}

pub enum ConnectFlowView {
    Start,
    Refreshing,
    ConnectingCached(StoredTokenView),
    SavingCached,
    LoggingIn,
    ConnectingNew(StoredTokenView),
    SavingNew,
    Finished,
}

pub enum ConnectInputView {
    Loaded { token: Option<StoredTokenView>, now: u64, credentials: bool },
    Refreshed(Result<StoredTokenView, Seq<char>>),
    Connected(Result<(), Seq<char>>),
    LoggedIn(Result<StoredTokenView, Seq<char>>),
    Saved(Result<(), Seq<char>>),
}

pub enum ConnectActionView {
    Refresh(Seq<char>),
    Connect(Seq<char>),
    Login,
    Save(StoredTokenView),
    Done(Result<(), Seq<char>>),
}

/// The view of an outcome with a text error.
pub open spec fn unit_outcome(r: Result<(), String>) -> Result<(), Seq<char>> {
    match r {
        Ok(()) => Ok(()),
        Err(e) => Err(e@),
    }
}

/// The view of an outcome carrying a token.
pub open spec fn token_outcome(r: Result<StoredToken, String>) -> Result<StoredTokenView, Seq<char>> {
    match r {
        Ok(t) => Ok(t@),
        Err(e) => Err(e@),
    }
}

impl View for ConnectFlow {
    type V = ConnectFlowView;

    open spec fn view(&self) -> ConnectFlowView {
        match self {
            ConnectFlow::Start => ConnectFlowView::Start,
            ConnectFlow::Refreshing => ConnectFlowView::Refreshing,
            ConnectFlow::ConnectingCached(t) => ConnectFlowView::ConnectingCached(t@),
            ConnectFlow::SavingCached => ConnectFlowView::SavingCached,
            ConnectFlow::LoggingIn => ConnectFlowView::LoggingIn,
            ConnectFlow::ConnectingNew(t) => ConnectFlowView::ConnectingNew(t@),
            ConnectFlow::SavingNew => ConnectFlowView::SavingNew,
            ConnectFlow::Finished => ConnectFlowView::Finished,
        }
    }
}

impl View for ConnectInput {
    type V = ConnectInputView;

    open spec fn view(&self) -> ConnectInputView {
        match self {
            ConnectInput::Loaded { token, now, credentials } => ConnectInputView::Loaded {
                token: match token {
                    Some(t) => Some(t@),
                    None => None,
                },
                now: *now,
                credentials: *credentials,
            },
            ConnectInput::Refreshed(r) => ConnectInputView::Refreshed(token_outcome(*r)),
            ConnectInput::Connected(r) => ConnectInputView::Connected(unit_outcome(*r)),
            ConnectInput::LoggedIn(r) => ConnectInputView::LoggedIn(token_outcome(*r)),
            ConnectInput::Saved(r) => ConnectInputView::Saved(unit_outcome(*r)),
        }
    }
}

impl View for ConnectAction {
    type V = ConnectActionView;

    open spec fn view(&self) -> ConnectActionView {
        match self {
            ConnectAction::Refresh(t) => ConnectActionView::Refresh(t@),
            ConnectAction::Connect(t) => ConnectActionView::Connect(t@),
            ConnectAction::Login => ConnectActionView::Login,
            ConnectAction::Save(t) => ConnectActionView::Save(t@),
            ConnectAction::Done(r) => ConnectActionView::Done(unit_outcome(*r)),
        }
    }
}

/// Whether `input` answers the action that led to `state`.
pub open spec fn connect_accepts(state: ConnectFlowView, input: ConnectInputView) -> bool {
    match (state, input) {
        (ConnectFlowView::Start, ConnectInputView::Loaded { .. }) => true,
        (ConnectFlowView::Refreshing, ConnectInputView::Refreshed(_)) => true,
        (ConnectFlowView::ConnectingCached(_), ConnectInputView::Connected(_)) => true,
        (ConnectFlowView::SavingCached, ConnectInputView::Saved(_)) => true,
        (ConnectFlowView::LoggingIn, ConnectInputView::LoggedIn(_)) => true,
        (ConnectFlowView::ConnectingNew(_), ConnectInputView::Connected(_)) => true,
        (ConnectFlowView::SavingNew, ConnectInputView::Saved(_)) => true,
        _ => false,
    }
}

/// `failed to connect to Spotify: <detail>`.
pub open spec fn connect_failure(detail: Seq<char>) -> Seq<char> {
    "failed to connect to Spotify: "@ + detail
}

/// Connecting the session: a cached token is reused (refreshed first if it
/// has expired), falling back to the interactive login when there is none,
/// the credentials file has been deleted to log out, it cannot be
/// refreshed, or the session refuses it. A successful
/// connection saves the token; only a failure to save a freshly logged-in
/// token is reported.
pub open spec fn connect_spec(state: ConnectFlowView, input: ConnectInputView) -> (
    ConnectFlowView,
    ConnectActionView,
) {
    match (state, input) {
        (ConnectFlowView::Start, ConnectInputView::Loaded { token, now, credentials }) => match token {
            Some(t) => if !credentials {
                (ConnectFlowView::LoggingIn, ConnectActionView::Login)
            } else if t.fresh_at(now) {
                (ConnectFlowView::ConnectingCached(t), ConnectActionView::Connect(t.access_token))
            } else {
                (ConnectFlowView::Refreshing, ConnectActionView::Refresh(t.refresh_token))
            },
            None => (ConnectFlowView::LoggingIn, ConnectActionView::Login),
        },
        (ConnectFlowView::Refreshing, ConnectInputView::Refreshed(r)) => match r {
            Ok(t) => (ConnectFlowView::ConnectingCached(t), ConnectActionView::Connect(t.access_token)),
            Err(_) => (ConnectFlowView::LoggingIn, ConnectActionView::Login),
        },
        (ConnectFlowView::ConnectingCached(t), ConnectInputView::Connected(r)) => match r {
            Ok(()) => (ConnectFlowView::SavingCached, ConnectActionView::Save(t)),
            Err(_) => (ConnectFlowView::LoggingIn, ConnectActionView::Login),
        },
        (ConnectFlowView::SavingCached, ConnectInputView::Saved(_)) => (
            ConnectFlowView::Finished,
            ConnectActionView::Done(Ok(())),
        ),
        (ConnectFlowView::LoggingIn, ConnectInputView::LoggedIn(r)) => match r {
            Ok(t) => (ConnectFlowView::ConnectingNew(t), ConnectActionView::Connect(t.access_token)),
            Err(e) => (ConnectFlowView::Finished, ConnectActionView::Done(Err(e))),
        },
        (ConnectFlowView::ConnectingNew(t), ConnectInputView::Connected(r)) => match r {
            Ok(()) => (ConnectFlowView::SavingNew, ConnectActionView::Save(t)),
            Err(e) => (ConnectFlowView::Finished, ConnectActionView::Done(Err(connect_failure(e)))),
        },
        (ConnectFlowView::SavingNew, ConnectInputView::Saved(r)) => (
            ConnectFlowView::Finished,
            ConnectActionView::Done(r),
        ),
        _ => (state, ConnectActionView::Done(Ok(()))),
    }
}

impl ConnectFlow {
    /// Advances the connection attempt with the answer to its last action.
    pub fn step(self, input: ConnectInput) -> (res: (ConnectFlow, ConnectAction))
        requires
            connect_accepts(self@, input@),
        ensures
            (res.0@, res.1@) == connect_spec(self@, input@),
    {
        match (self, input) {
            (ConnectFlow::Start, ConnectInput::Loaded { token, now, credentials }) => match token {
                Some(t) => if !credentials {
                    (ConnectFlow::LoggingIn, ConnectAction::Login)
                } else if t.is_fresh_at(now) {
                    let access = t.access_token.clone();
                    (ConnectFlow::ConnectingCached(t), ConnectAction::Connect(access))
                } else {
                    (ConnectFlow::Refreshing, ConnectAction::Refresh(t.refresh_token))
                },
                None => (ConnectFlow::LoggingIn, ConnectAction::Login),
            },
            (ConnectFlow::Refreshing, ConnectInput::Refreshed(r)) => match r {
                Ok(t) => {
                    let access = t.access_token.clone();
                    (ConnectFlow::ConnectingCached(t), ConnectAction::Connect(access))
                },
                Err(_) => (ConnectFlow::LoggingIn, ConnectAction::Login),
            },
            (ConnectFlow::ConnectingCached(t), ConnectInput::Connected(r)) => match r {
                Ok(()) => (ConnectFlow::SavingCached, ConnectAction::Save(t)),
                Err(_) => (ConnectFlow::LoggingIn, ConnectAction::Login),
            },
            (ConnectFlow::SavingCached, ConnectInput::Saved(_)) => (
                ConnectFlow::Finished,
                ConnectAction::Done(Ok(())),
            ),
            (ConnectFlow::LoggingIn, ConnectInput::LoggedIn(r)) => match r {
                Ok(t) => {
                    let access = t.access_token.clone();
                    (ConnectFlow::ConnectingNew(t), ConnectAction::Connect(access))
                },
                Err(e) => (ConnectFlow::Finished, ConnectAction::Done(Err(e))),
            },
            (ConnectFlow::ConnectingNew(t), ConnectInput::Connected(r)) => match r {
                Ok(()) => (ConnectFlow::SavingNew, ConnectAction::Save(t)),
                Err(e) => (
                    ConnectFlow::Finished,
                    ConnectAction::Done(Err(prefixed("failed to connect to Spotify: ", e.as_str()))),
                ),
            },
            (ConnectFlow::SavingNew, ConnectInput::Saved(r)) => (ConnectFlow::Finished, ConnectAction::Done(r)),
            (state, _) => (state, ConnectAction::Done(Ok(()))),
        }
    }
}

/// How far a connection attempt is from its end.
pub open spec fn connect_rank(state: ConnectFlowView) -> nat {
    match state {
        ConnectFlowView::Start => 7,
        ConnectFlowView::Refreshing => 6,
        ConnectFlowView::ConnectingCached(_) => 5,
        ConnectFlowView::LoggingIn => 4,
        ConnectFlowView::ConnectingNew(_) => 3,
        ConnectFlowView::SavingNew => 2,
        ConnectFlowView::SavingCached => 1,
        ConnectFlowView::Finished => 0,
    }
}

/// Every answered step brings the attempt closer to its end, so it ends
/// after at most seven steps; once past the login it never asks for
/// another, so the browser opens at most once; and it reports an outcome
/// exactly when it ends.
pub proof fn law_connect_terminates(state: ConnectFlowView, input: ConnectInputView)
    requires
        connect_accepts(state, input),
    ensures
        connect_rank(connect_spec(state, input).0) < connect_rank(state),
        connect_spec(state, input).1 is Login ==> connect_rank(state) > connect_rank(
            ConnectFlowView::LoggingIn,
        ),
        (connect_spec(state, input).0 is Finished) <==> (connect_spec(state, input).1 is Done),
{
}

/// Whatever token the session accepts is saved next, so the following run
/// can reuse it instead of logging in again.
pub proof fn law_connected_token_is_saved(t: StoredTokenView)
    ensures
        connect_spec(ConnectFlowView::ConnectingCached(t), ConnectInputView::Connected(Ok(()))).1
            == ConnectActionView::Save(t),
        connect_spec(ConnectFlowView::ConnectingNew(t), ConnectInputView::Connected(Ok(()))).1
            == ConnectActionView::Save(t),
{
}

/// A cached token that is still fresh is used as it is, while the user is
/// still logged in: no refresh and no login.
pub proof fn law_fresh_token_used_directly(t: StoredTokenView, now: u64)
    requires
        t.fresh_at(now),
    ensures
        connect_spec(
            ConnectFlowView::Start,
            ConnectInputView::Loaded { token: Some(t), now, credentials: true },
        ).1 == ConnectActionView::Connect(t.access_token),
{
}

/// Deleting the credentials file logs out: whatever token is cached, the
/// next connection starts with the interactive login.
pub proof fn law_deleted_credentials_log_out(token: Option<StoredTokenView>, now: u64)
    ensures
        connect_spec(
            ConnectFlowView::Start,
            ConnectInputView::Loaded { token, now, credentials: false },
        ) == (ConnectFlowView::LoggingIn, ConnectActionView::Login),
{
}

/// Where fetching a Web API token stands.
pub enum TokenFlow {
    /// Waiting for the cached token to be loaded.
    Start,
    /// The cached token had expired; waiting for the refresh.
    Refreshing,
    /// Refreshed; waiting for the new token to be saved.
    Saving(StoredToken),
    /// Over.
    Finished,
}

/// What happened in reply to the last [`TokenAction`].
pub enum TokenInput {
    Loaded { token: Option<StoredToken>, now: u64 },
    Refreshed(Result<StoredToken, String>),
    Saved(Result<(), String>),
}

/// What fetching a Web API token asks for next.
pub enum TokenAction {
    Refresh(String),
    Save(StoredToken),
    /// Over: the access token, or why there is none.
    Done(Result<String, String>),
}

pub enum TokenFlowView {
    Start,
    Refreshing,
    Saving(StoredTokenView),
    Finished,
}

pub enum TokenInputView {
    Loaded { token: Option<StoredTokenView>, now: u64 },
    Refreshed(Result<StoredTokenView, Seq<char>>),
    Saved(Result<(), Seq<char>>),
}

pub enum TokenActionView {
    Refresh(Seq<char>),
    Save(StoredTokenView),
    Done(Result<Seq<char>, Seq<char>>),
}

impl View for TokenFlow {
    type V = TokenFlowView;

    open spec fn view(&self) -> TokenFlowView {
        match self {
            TokenFlow::Start => TokenFlowView::Start,
            TokenFlow::Refreshing => TokenFlowView::Refreshing,
            TokenFlow::Saving(t) => TokenFlowView::Saving(t@),
            TokenFlow::Finished => TokenFlowView::Finished,
        }
    }
}

impl View for TokenInput {
    type V = TokenInputView;

    open spec fn view(&self) -> TokenInputView {
        match self {
            TokenInput::Loaded { token, now } => TokenInputView::Loaded {
                token: match token {
                    Some(t) => Some(t@),
                    None => None,
                },
                now: *now,
            },
            TokenInput::Refreshed(r) => TokenInputView::Refreshed(token_outcome(*r)),
            TokenInput::Saved(r) => TokenInputView::Saved(unit_outcome(*r)),
        }
    }
}

impl View for TokenAction {
    type V = TokenActionView;

    open spec fn view(&self) -> TokenActionView {
        match self {
            TokenAction::Refresh(t) => TokenActionView::Refresh(t@),
            TokenAction::Save(t) => TokenActionView::Save(t@),
            TokenAction::Done(r) => TokenActionView::Done(
                match r {
                    Ok(a) => Ok(a@),
                    Err(e) => Err(e@),
                },
            ),
        }
    }
}

/// Whether `input` answers the action that led to `state`.
pub open spec fn token_accepts(state: TokenFlowView, input: TokenInputView) -> bool {
    match (state, input) {
        (TokenFlowView::Start, TokenInputView::Loaded { .. }) => true,
        (TokenFlowView::Refreshing, TokenInputView::Refreshed(_)) => true,
        (TokenFlowView::Saving(_), TokenInputView::Saved(_)) => true,
        _ => false,
    }
}

/// Fetching a valid Web API access token: the cached one while fresh,
/// else a refreshed one once it is saved; `not logged in` without a cached
/// token, and any refresh or save failure, end it with that error.
pub open spec fn token_spec(state: TokenFlowView, input: TokenInputView) -> (
    TokenFlowView,
    TokenActionView,
) {
    match (state, input) {
        (TokenFlowView::Start, TokenInputView::Loaded { token, now }) => match token {
            Some(t) => if t.fresh_at(now) {
                (TokenFlowView::Finished, TokenActionView::Done(Ok(t.access_token)))
            } else {
                (TokenFlowView::Refreshing, TokenActionView::Refresh(t.refresh_token))
            },
            None => (TokenFlowView::Finished, TokenActionView::Done(Err("not logged in"@))),
        },
        (TokenFlowView::Refreshing, TokenInputView::Refreshed(r)) => match r {
            Ok(t) => (TokenFlowView::Saving(t), TokenActionView::Save(t)),
            Err(e) => (TokenFlowView::Finished, TokenActionView::Done(Err(e))),
        },
        (TokenFlowView::Saving(t), TokenInputView::Saved(r)) => match r {
            Ok(()) => (TokenFlowView::Finished, TokenActionView::Done(Ok(t.access_token))),
            Err(e) => (TokenFlowView::Finished, TokenActionView::Done(Err(e))),
        },
        _ => (state, TokenActionView::Done(Err(Seq::empty()))),
    }
}

impl TokenFlow {
    /// Advances fetching a token with the answer to its last action.
    pub fn step(self, input: TokenInput) -> (res: (TokenFlow, TokenAction))
        requires
            token_accepts(self@, input@),
        ensures
            (res.0@, res.1@) == token_spec(self@, input@),
    {
        match (self, input) {
            (TokenFlow::Start, TokenInput::Loaded { token, now }) => match token {
                Some(t) => if t.is_fresh_at(now) {
                    (TokenFlow::Finished, TokenAction::Done(Ok(t.access_token)))
                } else {
                    (TokenFlow::Refreshing, TokenAction::Refresh(t.refresh_token))
                },
                None => (
                    TokenFlow::Finished,
                    TokenAction::Done(Err(String::from_str("not logged in"))),
                ),
            },
            (TokenFlow::Refreshing, TokenInput::Refreshed(r)) => match r {
                Ok(t) => {
                    let saved = t.duplicate();
                    (TokenFlow::Saving(t), TokenAction::Save(saved))
                },
                Err(e) => (TokenFlow::Finished, TokenAction::Done(Err(e))),
            },
            (TokenFlow::Saving(t), TokenInput::Saved(r)) => match r {
                Ok(()) => (TokenFlow::Finished, TokenAction::Done(Ok(t.access_token))),
                Err(e) => (TokenFlow::Finished, TokenAction::Done(Err(e))),
            },
            (state, _) => (state, TokenAction::Done(Err(String::new()))),
        }
    }
}

/// Fetching a token takes at most three steps, and a refreshed token is
/// only handed out once it has been saved.
pub proof fn law_token_flow(state: TokenFlowView, input: TokenInputView)
    requires
        token_accepts(state, input),
    ensures
        token_spec(state, input).0 is Finished || token_spec(state, input).0 is Refreshing
            || token_spec(state, input).0 is Saving,
        state is Refreshing ==> !(token_spec(state, input).1 matches TokenActionView::Done(Ok(_))),
        token_spec(state, input).0 is Refreshing ==> state is Start,
        token_spec(state, input).0 is Saving ==> state is Refreshing,
{
}

} // verus!
