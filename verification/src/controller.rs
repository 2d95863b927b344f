//! The playback controller: the play queue, play/pause state and recently
//! played tracks, and what each command from the UI and each player event
//! turns into. The caller owns the librespot player, mixer, cache and
//! channels; it performs the [`Effect`]s that come back, in order.

use vstd::prelude::*;
use crate::auth::Paths;
use crate::text::{blank, is_blank, path_join, prefixed};
use crate::types::{
    Command, CommandView, Event, EventView, PlaybackStatus, Playlist, PlaylistView, Track,
    TrackView, copy_tracks, track_views,
};

verus! {

#[verifier::external_type_specification]
#[verifier::external_body]
pub struct ExSpotifyUri(librespot::core::SpotifyUri);

/// How many recently played tracks to remember.
pub const MAX_RECENTS: usize = 30;

/// What librespot says is wrong with a URI: `None` when
/// `SpotifyUri::from_uri` accepts it, else its error message.
pub uninterp spec fn spotify_uri_problem(uri: Seq<char>) -> Option<Seq<char>>;

/// A Spotify URI that librespot accepted, together with the text it was
/// parsed from.
pub struct PlayableUri {
    id: librespot::core::SpotifyUri,
    text: Ghost<Seq<char>>,
}

impl PlayableUri {
    /// The text this URI was parsed from.
    pub closed spec fn source(&self) -> Seq<char> {
        self.text@
    }

    /// The parsed URI, for the player.
    pub fn id(&self) -> &librespot::core::SpotifyUri {
        &self.id
    }

    /// The parsed URI, for the player.
    pub fn into_id(self) -> librespot::core::SpotifyUri {
        self.id
    }
}

/// Parses a Spotify URI with librespot (`SpotifyUri::from_uri`). The
/// contract names the outcome: whether it is accepted, and the error
/// message when it is not, are functions of the text alone; an accepted
/// URI is kept with the text it was parsed from. Nothing is said of the
/// parsed value beyond that, which only goes back to the player.
#[verifier::external_body]
fn parse_playable(uri: &str) -> (res: Result<PlayableUri, String>)
    ensures
        match res {
            Ok(p) => spotify_uri_problem(uri@) is None && p.source() == uri@,
            Err(m) => spotify_uri_problem(uri@) == Some(m@),
        },
{
    match librespot::core::SpotifyUri::from_uri(uri) {
        Ok(u) => Ok(PlayableUri { id: u, text: Ghost(uri@) }),
        Err(e) => Err(e.to_string()),
    }
}

/// Something the controller asks its owner to do.
pub enum Effect {
    /// Send this event to the UI.
    Emit(Event),
    /// Load this item into the player and start playing it from the start.
    Load(PlayableUri),
    /// Resume playback.
    Play,
    /// Pause playback.
    Pause,
    /// Stop playback.
    Stop,
    /// Seek to this position in the current track, in milliseconds.
    Seek(u32),
    /// Set the mixer to this volume, announce it, and persist it in the cache.
    Volume(u16),
    /// Persist the recently played tracks.
    SaveRecents(Vec<Track>),
    /// Search the catalog for this query and report the results.
    Search(String),
    /// Fetch the current user's playlists and report them.
    FetchPlaylists,
    /// Fetch this playlist's tracks and report them.
    FetchPlaylistTracks(Playlist),
}

/// The contents of an [`Effect`] as plain values.
pub enum EffectView {
    Emit(EventView),
    Load(Seq<char>),
    Play,
    Pause,
    Stop,
    Seek(u32),
    Volume(u16),
    SaveRecents(Seq<TrackView>),
    Search(Seq<char>),
    FetchPlaylists,
    FetchPlaylistTracks(PlaylistView),
}

impl View for Effect {
    type V = EffectView;

    open spec fn view(&self) -> EffectView {
        match self {
            Effect::Emit(e) => EffectView::Emit(e@),
            Effect::Load(p) => EffectView::Load(p.source()),
            Effect::Play => EffectView::Play,
            Effect::Pause => EffectView::Pause,
            Effect::Stop => EffectView::Stop,
            Effect::Seek(p) => EffectView::Seek(*p),
            Effect::Volume(v) => EffectView::Volume(*v),
            Effect::SaveRecents(t) => EffectView::SaveRecents(track_views(t@)),
            Effect::Search(q) => EffectView::Search(q@),
            Effect::FetchPlaylists => EffectView::FetchPlaylists,
            Effect::FetchPlaylistTracks(p) => EffectView::FetchPlaylistTracks(p@),
        }
    }
}

/// The views of a sequence of effects.
pub open spec fn effect_views(fx: Seq<Effect>) -> Seq<EffectView> {
    fx.map_values(|e: Effect| e@)
}

/// A player event, as far as the controller tells them apart.
#[derive(Debug, Clone, Copy, PartialEq, Eq, Structural)]
pub enum PlayerSignal {
    /// Playback started or resumed at this position.
    Playing { position_ms: u32 },
    /// Playback paused at this position.
    Paused { position_ms: u32 },
    /// The position moved: a correction, a periodic update or a seek.
    Position { position_ms: u32 },
    /// Playback stopped.
    Stopped,
    /// The current track played to its end.
    EndOfTrack,
    /// The current track cannot be played.
    Unavailable,
    /// The volume changed.
    VolumeChanged { volume: u16 },
    /// Anything else.
    Other,
}

/// Tracks playback queue position, play/pause state, and recently played
/// tracks, which the GTK side doesn't need to know the internals of.
pub struct PlayerState {
    pub queue: Vec<Track>,
    pub index: Option<usize>,
    pub is_playing: bool,
    /// Recently played tracks, most-recent-first.
    pub recents: Vec<Track>,
}

/// The contents of a [`PlayerState`] as plain values.
pub struct PlayerStateView {
    pub queue: Seq<TrackView>,
    pub index: Option<usize>,
    pub is_playing: bool,
    pub recents: Seq<TrackView>,
}

impl View for PlayerState {
    type V = PlayerStateView;

    open spec fn view(&self) -> PlayerStateView {
        PlayerStateView {
            queue: track_views(self.queue@),
            index: self.index,
            is_playing: self.is_playing,
            recents: track_views(self.recents@),
        }
    }
}

impl PlayerStateView {
    /// The queue cursor, when set, points into the queue.
    pub open spec fn wf(self) -> bool {
        self.index matches Some(i) ==> i < self.queue.len()
    }

    /// The track under the queue cursor.
    pub open spec fn current(self) -> Option<TrackView> {
        match self.index {
            Some(i) => if i < self.queue.len() {
                Some(self.queue[i as int])
            } else {
                None
            },
            None => None,
        }
    }
}

/// `recents` without the tracks whose URI is `uri`, in order.
pub open spec fn without_uri(recents: Seq<TrackView>, uri: Seq<char>) -> Seq<TrackView>
    decreases recents.len(),
{
    if recents.len() == 0 {
        Seq::empty()
    } else {
        let rest = without_uri(recents.drop_last(), uri);
        if recents.last().uri == uri {
            rest
        } else {
            rest.push(recents.last())
        }
    }
}

/// The recently played list after `t` was played: `t` first, any earlier
/// entry with its URI dropped, cut to [`MAX_RECENTS`] entries.
pub open spec fn remember(recents: Seq<TrackView>, t: TrackView) -> Seq<TrackView> {
    let updated = seq![t] + without_uri(recents, t.uri);
    if updated.len() > MAX_RECENTS {
        updated.take(MAX_RECENTS as int)
    } else {
        updated
    }
}

/// `Couldn't play "<name>": <problem>`.
pub open spec fn cannot_play(name: Seq<char>, problem: Seq<char>) -> Seq<char> {
    "Couldn't play \""@ + name + "\": "@ + problem
}

/// Loading `t`: into the player, announced as now playing, and recorded
/// first among the recently played; or an error message when librespot
/// rejects its URI.
pub open spec fn load_spec(s: PlayerStateView, t: TrackView) -> (PlayerStateView, Seq<EffectView>) {
    match spotify_uri_problem(t.uri) {
        None => {
            let r = remember(s.recents, t);
            (
                PlayerStateView { recents: r, ..s },
                seq![
                    EffectView::Load(t.uri),
                    EffectView::Emit(EventView::NowPlaying(Some(t))),
                    EffectView::SaveRecents(r),
                    EffectView::Emit(EventView::Recents(r)),
                ],
            )
        },
        Some(problem) => (
            s,
            seq![EffectView::Emit(EventView::Error(cannot_play(t.name, problem)))],
        ),
    }
}

/// Moving the queue cursor by `delta`: the track there is loaded, or, past
/// either end of the queue, playback stops and the cursor is cleared.
pub open spec fn step_spec(s: PlayerStateView, delta: int) -> (PlayerStateView, Seq<EffectView>) {
    match s.index {
        None => (s, Seq::empty()),
        Some(i) => {
            let n = i + delta;
            if n < 0 || n >= s.queue.len() {
                (
                    PlayerStateView { index: None, ..s },
                    seq![EffectView::Stop, EffectView::Emit(EventView::NowPlaying(None))],
                )
            } else {
                load_spec(PlayerStateView { index: Some(n as usize), ..s }, s.queue[n])
            }
        },
    }
}

/// The position report: `position_ms` within the current track's duration
/// (0 when there is no current track).
pub open spec fn position_spec(s: PlayerStateView, position_ms: u32) -> EffectView {
    EffectView::Emit(
        EventView::Position {
            position_ms: position_ms,
            duration_ms: match s.current() {
                Some(t) => t.duration_ms,
                None => 0,
            },
        },
    )
}

/// What a command from the UI does to the state, and asks for.
pub open spec fn command_spec(s: PlayerStateView, cmd: CommandView) -> (
    PlayerStateView,
    Seq<EffectView>,
) {
    match cmd {
        CommandView::Login => (s, Seq::empty()),
        CommandView::Search(q) => if is_blank(q) {
            (s, seq![EffectView::Emit(EventView::SearchResults(Seq::empty()))])
        } else {
            (s, seq![EffectView::Search(q)])
        },
        CommandView::LoadPlaylists => (s, seq![EffectView::FetchPlaylists]),
        CommandView::LoadPlaylist(p) => (s, seq![EffectView::FetchPlaylistTracks(p)]),
        CommandView::PlayQueue { tracks, start_index } => if tracks.len() == 0 {
            (s, Seq::empty())
        } else {
            let i = if start_index < tracks.len() {
                start_index as int
            } else {
                tracks.len() - 1
            };
            load_spec(PlayerStateView { queue: tracks, index: Some(i as usize), ..s }, tracks[i])
        },
        CommandView::TogglePlayPause => if s.index is None {
            (s, Seq::empty())
        } else if s.is_playing {
            (s, seq![EffectView::Pause])
        } else {
            (s, seq![EffectView::Play])
        },
        CommandView::Next => step_spec(s, 1),
        CommandView::Previous => step_spec(s, -1),
        CommandView::Seek(p) => (s, seq![EffectView::Seek(p)]),
        CommandView::SetVolume(v) => (s, seq![EffectView::Volume(v)]),
    }
}

/// `Skipping "<name>": unavailable for playback`, or without a name when
/// there is no current track.
pub open spec fn skipping(current: Option<TrackView>) -> Seq<char> {
    match current {
        Some(t) => "Skipping \""@ + t.name + "\": unavailable for playback"@,
        None => "Skipping track: unavailable for playback"@,
    }
}

/// What a player event does to the state, and asks for.
pub open spec fn signal_spec(s: PlayerStateView, sig: PlayerSignal) -> (
    PlayerStateView,
    Seq<EffectView>,
) {
    match sig {
        PlayerSignal::Playing { position_ms } => {
            let s2 = PlayerStateView { is_playing: true, ..s };
            (
                s2,
                seq![
                    EffectView::Emit(EventView::PlaybackStatus(PlaybackStatus::Playing)),
                    position_spec(s2, position_ms),
                ],
            )
        },
        PlayerSignal::Paused { position_ms } => {
            let s2 = PlayerStateView { is_playing: false, ..s };
            (
                s2,
                seq![
                    EffectView::Emit(EventView::PlaybackStatus(PlaybackStatus::Paused)),
                    position_spec(s2, position_ms),
                ],
            )
        },
        PlayerSignal::Position { position_ms } => (s, seq![position_spec(s, position_ms)]),
        PlayerSignal::Stopped => (
            PlayerStateView { is_playing: false, ..s },
            seq![EffectView::Emit(EventView::PlaybackStatus(PlaybackStatus::Stopped))],
        ),
        PlayerSignal::EndOfTrack => step_spec(s, 1),
        PlayerSignal::Unavailable => {
            let (s2, fx) = step_spec(s, 1);
            (s2, seq![EffectView::Emit(EventView::Error(skipping(s.current())))] + fx)
        },
        PlayerSignal::VolumeChanged { volume } => (
            s,
            seq![EffectView::Emit(EventView::Volume(volume))],
        ),
        PlayerSignal::Other => (s, Seq::empty()),
    }
}

fn one(e: Effect) -> (res: Vec<Effect>)
    ensures
        effect_views(res@) == seq![e@],
{
    let mut v: Vec<Effect> = Vec::new();
    v.push(e);
    assert(effect_views(v@) =~= seq![e@]);
    v
}

impl PlayerState {
    /// A stopped player with an empty queue and the given recently played
    /// tracks.
    pub fn new(recents: Vec<Track>) -> (res: PlayerState)
        ensures
            res@.wf(),
            res@.queue.len() == 0,
            res@.index is None,
            !res@.is_playing,
            res@.recents == track_views(recents@),
    {
        PlayerState { queue: Vec::new(), index: None, is_playing: false, recents }
    }

    /// Records `track` as the most recently played.
    fn remember(&mut self, track: &Track)
        ensures
            final(self)@ == (PlayerStateView {
                recents: remember(old(self)@.recents, track@),
                ..old(self)@
            }),
    {
        let ghost old_recents = track_views(self.recents@);
        let mut kept: Vec<Track> = Vec::new();
        let n = self.recents.len();
        let mut i: usize = 0;
        while i < n
            invariant
                n == self.recents@.len(),
                i <= n,
                old_recents == track_views(self.recents@),
                track_views(kept@) == without_uri(old_recents.take(i as int), track@.uri),
            decreases n - i,
        {
            assert(old_recents.take(i + 1).drop_last() =~= old_recents.take(i as int));
            assert(old_recents.take(i + 1).last() == self.recents@[i as int]@);
            if self.recents[i].uri != track.uri {
                let c = self.recents[i].duplicate();
                let ghost before = kept@;
                kept.push(c);
                assert(track_views(kept@) =~= track_views(before).push(c@));
            }
            i = i + 1;
        }
        assert(old_recents.take(n as int) =~= old_recents);
        let ghost filtered = track_views(kept@);
        kept.insert(0, track.duplicate());
        assert(track_views(kept@) =~= seq![track@] + filtered);
        kept.truncate(MAX_RECENTS);
        assert(track_views(kept@) =~= remember(old_recents, track@));
        self.recents = kept;
    }

    /// Loads `track` into the player, tells the UI it's now the current
    /// track, and records it in the recently-played list.
    pub fn load_track(&mut self, track: &Track) -> (fx: Vec<Effect>)
        ensures
            (final(self)@, effect_views(fx@)) == load_spec(old(self)@, track@),
    {
        match parse_playable(track.uri.as_str()) {
            Ok(uri) => {
                self.remember(track);
                let mut fx: Vec<Effect> = Vec::new();
                fx.push(Effect::Load(uri));
                fx.push(Effect::Emit(Event::NowPlaying(Some(track.duplicate()))));
                fx.push(Effect::SaveRecents(copy_tracks(&self.recents)));
                fx.push(Effect::Emit(Event::Recents(copy_tracks(&self.recents))));
                assert(effect_views(fx@) =~= load_spec(old(self)@, track@).1);
                fx
            },
            Err(problem) => {
                let mut m = prefixed("Couldn't play \"", track.name.as_str());
                m.append("\": ");
                m.append(problem.as_str());
                one(Effect::Emit(Event::Error(m)))
            },
        }
    }

    /// Moves the queue cursor by `delta` (+1 for next, -1 for previous),
    /// loading the new track or stopping playback if the queue is
    /// exhausted.
    pub fn step_queue(&mut self, delta: i64) -> (fx: Vec<Effect>)
        requires
            old(self)@.wf(),
        ensures
            final(self)@.wf(),
            (final(self)@, effect_views(fx@)) == step_spec(old(self)@, delta as int),
    {
        let index = match self.index {
            Some(i) => i,
            None => {
                let fx: Vec<Effect> = Vec::new();
                assert(effect_views(fx@) =~= Seq::<EffectView>::empty());
                return fx;
            },
        };
        let new_index: i128 = index as i128 + delta as i128;
        if new_index < 0 || new_index >= self.queue.len() as i128 {
            self.index = None;
            let mut fx: Vec<Effect> = Vec::new();
            fx.push(Effect::Stop);
            fx.push(Effect::Emit(Event::NowPlaying(None)));
            assert(effect_views(fx@) =~= step_spec(old(self)@, delta as int).1);
            return fx;
        }
        let n = new_index as usize;
        self.index = Some(n);
        let track = self.queue[n].duplicate();
        self.load_track(&track)
    }

    /// The position report for `position_ms` within the current track.
    pub fn position(&self, position_ms: u32) -> (e: Effect)
        ensures
            e@ == position_spec(self@, position_ms),
    {
        let duration_ms = match self.index {
            Some(i) => if i < self.queue.len() {
                self.queue[i].duration_ms
            } else {
                0
            },
            None => 0,
        };
        Effect::Emit(Event::Position { position_ms, duration_ms })
    }

    /// Handles a command from the UI.
    pub fn handle_command(&mut self, cmd: Command) -> (fx: Vec<Effect>)
        requires
            old(self)@.wf(),
        ensures
            final(self)@.wf(),
            (final(self)@, effect_views(fx@)) == command_spec(old(self)@, cmd@),
    {
        match cmd {
            Command::Login => {
                let fx: Vec<Effect> = Vec::new();
                assert(effect_views(fx@) =~= Seq::<EffectView>::empty());
                fx
            },
            Command::Search(query) => {
                if blank(query.as_str()) {
                    let none: Vec<Track> = Vec::new();
                    assert(track_views(none@) =~= Seq::<TrackView>::empty());
                    let e = Effect::Emit(Event::SearchResults(none));
                    assert(e@ == EffectView::Emit(EventView::SearchResults(Seq::empty())));
                    one(e)
                } else {
                    one(Effect::Search(query))
                }
            },
            Command::LoadPlaylists => one(Effect::FetchPlaylists),
            Command::LoadPlaylist(p) => one(Effect::FetchPlaylistTracks(p)),
            Command::PlayQueue { tracks, start_index } => {
                if tracks.len() == 0 {
                    let fx: Vec<Effect> = Vec::new();
                    assert(effect_views(fx@) =~= Seq::<EffectView>::empty());
                    return fx;
                }
                let index = if start_index < tracks.len() {
                    start_index
                } else {
                    tracks.len() - 1
                };
                let track = tracks[index].duplicate();
                self.queue = tracks;
                self.index = Some(index);
                self.load_track(&track)
            },
            Command::TogglePlayPause => {
                if self.index.is_none() {
                    let fx: Vec<Effect> = Vec::new();
                    assert(effect_views(fx@) =~= Seq::<EffectView>::empty());
                    fx
                } else if self.is_playing {
                    one(Effect::Pause)
                } else {
                    one(Effect::Play)
                }
            },
            Command::Next => self.step_queue(1),
            Command::Previous => self.step_queue(-1),
            Command::Seek(p) => one(Effect::Seek(p)),
            Command::SetVolume(v) => one(Effect::Volume(v)),
        }
    }

    /// Handles an event from the player.
    pub fn handle_player_event(&mut self, sig: PlayerSignal) -> (fx: Vec<Effect>)
        requires
            old(self)@.wf(),
        ensures
            final(self)@.wf(),
            (final(self)@, effect_views(fx@)) == signal_spec(old(self)@, sig),
    {
        match sig {
            PlayerSignal::Playing { position_ms } => {
                self.is_playing = true;
                let mut fx: Vec<Effect> = Vec::new();
                fx.push(Effect::Emit(Event::PlaybackStatus(PlaybackStatus::Playing)));
                fx.push(self.position(position_ms));
                assert(effect_views(fx@) =~= signal_spec(old(self)@, sig).1);
                fx
            },
            PlayerSignal::Paused { position_ms } => {
                self.is_playing = false;
                let mut fx: Vec<Effect> = Vec::new();
                fx.push(Effect::Emit(Event::PlaybackStatus(PlaybackStatus::Paused)));
                fx.push(self.position(position_ms));
                assert(effect_views(fx@) =~= signal_spec(old(self)@, sig).1);
                fx
            },
            PlayerSignal::Position { position_ms } => one(self.position(position_ms)),
            PlayerSignal::Stopped => {
                self.is_playing = false;
                one(Effect::Emit(Event::PlaybackStatus(PlaybackStatus::Stopped)))
            },
            PlayerSignal::EndOfTrack => self.step_queue(1),
            PlayerSignal::Unavailable => {
                let msg = match self.index {
                    Some(i) => if i < self.queue.len() {
                        let mut m = prefixed("Skipping \"", self.queue[i].name.as_str());
                        m.append("\": unavailable for playback");
                        m
                    } else {
                        String::from_str("Skipping track: unavailable for playback")
                    },
                    None => String::from_str("Skipping track: unavailable for playback"),
                };
                let ghost first = Effect::Emit(Event::Error(msg))@;
                assert(first == EffectView::Emit(EventView::Error(skipping(old(self)@.current()))));
                let mut fx = one(Effect::Emit(Event::Error(msg)));
                let mut rest = self.step_queue(1);
                let ghost rest_views = effect_views(rest@);
                fx.append(&mut rest);
                assert(effect_views(fx@) =~= seq![first] + rest_views);
                fx
            },
            PlayerSignal::VolumeChanged { volume } => one(Effect::Emit(Event::Volume(volume))),
            PlayerSignal::Other => {
                let fx: Vec<Effect> = Vec::new();
                assert(effect_views(fx@) =~= Seq::<EffectView>::empty());
                fx
            },
        }
    }
}

/// No two entries share a URI.
pub open spec fn distinct_uris(s: Seq<TrackView>) -> bool {
    forall|i: int, j: int| 0 <= i < j < s.len() ==> s[i].uri != s[j].uri
}

proof fn lemma_without_uri(s: Seq<TrackView>, u: Seq<char>)
    ensures
        without_uri(s, u).len() <= s.len(),
        forall|k: int|
            0 <= k < without_uri(s, u).len() ==> (#[trigger] without_uri(s, u)[k]).uri != u
                && s.contains(without_uri(s, u)[k]),
        distinct_uris(s) ==> distinct_uris(without_uri(s, u)),
    decreases s.len(),
{
    if s.len() > 0 {
        let d = s.drop_last();
        lemma_without_uri(d, u);
        let rest = without_uri(d, u);
        assert forall|k: int| 0 <= k < rest.len() implies s.contains(#[trigger] rest[k]) by {
            let j = choose|j: int| 0 <= j < d.len() && d[j] == rest[k];
            assert(s[j] == rest[k]);
        }
        if s.last().uri != u {
            let w = rest.push(s.last());
            assert(s[s.len() - 1] == s.last());
            assert forall|k: int| 0 <= k < w.len() implies (#[trigger] w[k]).uri != u
                && s.contains(w[k]) by {
                if k < rest.len() {
                    assert(w[k] == rest[k]);
                }
            }
            if distinct_uris(s) {
                assert(distinct_uris(d));
                assert forall|i: int, j: int| 0 <= i < j < w.len() implies w[i].uri
                    != w[j].uri by {
                    if j == w.len() - 1 {
                        let m = choose|m: int| 0 <= m < d.len() && d[m] == rest[i];
                        assert(s[m] == w[i]);
                    } else {
                        assert(w[i] == rest[i] && w[j] == rest[j]);
                    }
                }
            }
        } else {
            if distinct_uris(s) {
                assert(distinct_uris(d));
            }
        }
    }
}

/// Recently played tracks, most-recent-first: after a track is played it
/// heads the list, appears there once, the list holds at most
/// [`MAX_RECENTS`] entries and nothing that was not there before besides
/// it, and a list without repeated URIs stays without them.
pub proof fn law_recently_played(recents: Seq<TrackView>, t: TrackView)
    ensures
        remember(recents, t).len() >= 1,
        remember(recents, t)[0] == t,
        remember(recents, t).len() <= MAX_RECENTS,
        forall|k: int|
            0 < k < remember(recents, t).len() ==> (#[trigger] remember(recents, t)[k]).uri
                != t.uri && recents.contains(remember(recents, t)[k]),
        distinct_uris(recents) ==> distinct_uris(remember(recents, t)),
{
    lemma_without_uri(recents, t.uri);
    let w = without_uri(recents, t.uri);
    let updated = seq![t] + w;
    let r = remember(recents, t);
    assert forall|k: int| 0 < k < r.len() implies (#[trigger] r[k]).uri != t.uri
        && recents.contains(r[k]) by {
        assert(r[k] == updated[k]);
        assert(updated[k] == w[k - 1]);
    }
    if distinct_uris(recents) {
        assert forall|i: int, j: int| 0 <= i < j < r.len() implies r[i].uri != r[j].uri by {
            assert(r[i] == updated[i] && r[j] == updated[j]);
            if i > 0 {
                assert(updated[i] == w[i - 1] && updated[j] == w[j - 1]);
            } else {
                assert(updated[j] == w[j - 1]);
            }
        }
    }
}

/// Dropping the entries with a given URI keeps the others, in their order.
proof fn lemma_without_uri_filters(s: Seq<TrackView>, u: Seq<char>)
    ensures
        without_uri(s, u) == s.filter(|x: TrackView| x.uri != u),
    decreases s.len(),
{
    reveal(Seq::filter);
    if s.len() > 0 {
        lemma_without_uri_filters(s.drop_last(), u);
    }
}

/// Playing `t` puts it first and keeps the rest of the list in its order
/// with `t`'s earlier entry taken out; only the oldest entries fall off,
/// once there are more than [`MAX_RECENTS`].
pub proof fn law_recents_keep_order(recents: Seq<TrackView>, t: TrackView)
    ensures
        ({
            let rest = recents.filter(|x: TrackView| x.uri != t.uri);
            &&& remember(recents, t).len() == if rest.len() + 1 > MAX_RECENTS {
                MAX_RECENTS as int
            } else {
                rest.len() + 1int
            }
            &&& remember(recents, t)[0] == t
            &&& forall|k: int|
                0 < k < remember(recents, t).len() ==> #[trigger] remember(recents, t)[k]
                    == rest[k - 1]
        }),
{
    lemma_without_uri_filters(recents, t.uri);
}

/// Every position report, also the ones that come with "playing" and
/// "paused", gives the position with `d`, the length of the track under
/// the queue cursor (0 when there is none); "playing" and "paused" set the
/// playing flag and change nothing else, a bare report changes nothing.
pub proof fn law_position_reports_cursor_track(s: PlayerStateView, p: u32, d: u32)
    requires
        s.wf(),
        s.index matches Some(i) ==> d == s.queue[i as int].duration_ms,
        s.index is None ==> d == 0,
    ensures
        signal_spec(s, PlayerSignal::Position { position_ms: p }) == (
            s,
            seq![EffectView::Emit((EventView::Position { position_ms: p, duration_ms: d }))],
        ),
        signal_spec(s, PlayerSignal::Playing { position_ms: p }).0 == (PlayerStateView {
            is_playing: true,
            ..s
        }),
        signal_spec(s, PlayerSignal::Paused { position_ms: p }).0 == (PlayerStateView {
            is_playing: false,
            ..s
        }),
        signal_spec(s, PlayerSignal::Playing { position_ms: p }).1 == seq![
            EffectView::Emit(EventView::PlaybackStatus(PlaybackStatus::Playing)),
            EffectView::Emit((EventView::Position { position_ms: p, duration_ms: d })),
        ],
        signal_spec(s, PlayerSignal::Paused { position_ms: p }).1 == seq![
            EffectView::Emit(EventView::PlaybackStatus(PlaybackStatus::Paused)),
            EffectView::Emit((EventView::Position { position_ms: p, duration_ms: d })),
        ],
{
}

proof fn lemma_load_keeps_cursor(s: PlayerStateView, t: TrackView)
    ensures
        load_spec(s, t).0.queue == s.queue,
        load_spec(s, t).0.index == s.index,
        load_spec(s, t).0.is_playing == s.is_playing,
{
}

/// Every command keeps the queue cursor inside the queue.
pub proof fn law_command_keeps_cursor_valid(s: PlayerStateView, cmd: CommandView)
    requires
        s.wf(),
    ensures
        command_spec(s, cmd).0.wf(),
{
}

/// Every player event keeps the queue cursor inside the queue.
pub proof fn law_event_keeps_cursor_valid(s: PlayerStateView, sig: PlayerSignal)
    requires
        s.wf(),
    ensures
        signal_spec(s, sig).0.wf(),
{
}

/// Stepping forward and then back returns to the same queue position,
/// with the queue itself untouched.
pub proof fn law_next_then_previous(s: PlayerStateView)
    requires
        s.wf(),
        s.index is Some,
        s.index->0 + 1 < s.queue.len() <= usize::MAX,
    ensures
        step_spec(step_spec(s, 1).0, -1).0.index == s.index,
        step_spec(step_spec(s, 1).0, -1).0.queue == s.queue,
{
    let i = s.index->0;
    let s1 = PlayerStateView { index: Some((i + 1) as usize), ..s };
    lemma_load_keeps_cursor(s1, s.queue[i + 1]);
    let s2 = step_spec(s, 1).0;
    assert(s2.index == Some((i + 1) as usize) && s2.queue == s.queue);
    let s3 = PlayerStateView { index: Some(i), ..s2 };
    lemma_load_keeps_cursor(s3, s2.queue[i as int]);
}

/// Clicking a track replaces the queue with the shown tracks and makes the
/// clicked one current; a click past the end lands on the last track.
pub proof fn law_play_queue_starts_at_clicked(
    s: PlayerStateView,
    tracks: Seq<TrackView>,
    start: usize,
)
    requires
        tracks.len() > 0,
    ensures
        command_spec(s, CommandView::PlayQueue { tracks, start_index: start }).0.queue == tracks,
        command_spec(s, CommandView::PlayQueue { tracks, start_index: start }).0.current() == Some(
            tracks[if start < tracks.len() {
                start as int
            } else {
                tracks.len() - 1
            }],
        ),
{
}

/// Play/pause with nothing loaded does nothing; otherwise it asks for the
/// opposite of the current state and leaves the state to the player's
/// report.
pub proof fn law_toggle(s: PlayerStateView)
    ensures
        command_spec(s, CommandView::TogglePlayPause).0 == s,
        s.index is None ==> command_spec(s, CommandView::TogglePlayPause).1.len() == 0,
        s.index is Some && s.is_playing ==> command_spec(s, CommandView::TogglePlayPause).1
            == seq![EffectView::Pause],
        s.index is Some && !s.is_playing ==> command_spec(s, CommandView::TogglePlayPause).1
            == seq![EffectView::Play],
{
}

/// A Web API request the controller runs in the background.
pub enum ApiCall {
    /// A catalog search; reported as search results.
    Search,
    /// The user's playlists; reported as playlists.
    Playlists,
    /// A playlist's tracks; reported with the playlist.
    PlaylistTracks(Playlist),
}

/// What a Web API request came back with.
pub enum ApiReply {
    Tracks(Vec<Track>),
    Playlists(Vec<Playlist>),
}

/// How a background Web API request ended.
pub enum ApiOutcome {
    /// It succeeded with this reply.
    Done(ApiReply),
    /// No Web API token could be had, for this reason.
    TokenFailed(String),
    /// The request failed, for this reason.
    CallFailed(String),
    /// The worker running it failed, with this message.
    Crashed(String),
}

/// Whether `reply` is what `call` asks for.
pub open spec fn reply_fits(call: ApiCall, reply: ApiReply) -> bool {
    match (call, reply) {
        (ApiCall::Search, ApiReply::Tracks(_)) => true,
        (ApiCall::PlaylistTracks(_), ApiReply::Tracks(_)) => true,
        (ApiCall::Playlists, ApiReply::Playlists(_)) => true,
        _ => false,
    }
}

/// The event reporting how a background Web API request ended.
pub open spec fn api_event_spec(call: ApiCall, outcome: ApiOutcome) -> EventView {
    match outcome {
        ApiOutcome::Done(ApiReply::Tracks(t)) => match call {
            ApiCall::PlaylistTracks(p) => EventView::PlaylistTracks {
                playlist: p@,
                tracks: track_views(t@),
            },
            _ => EventView::SearchResults(track_views(t@)),
        },
        ApiOutcome::Done(ApiReply::Playlists(p)) => EventView::Playlists(
            crate::types::playlist_views(p@),
        ),
        ApiOutcome::TokenFailed(e) => EventView::Error(e@),
        ApiOutcome::CallFailed(e) => EventView::Error(e@),
        ApiOutcome::Crashed(e) => EventView::Error("internal error: "@ + e@),
    }
}

/// Reports how a background Web API request ended: its result, or the
/// error.
pub fn api_event(call: ApiCall, outcome: ApiOutcome) -> (res: Event)
    requires
        outcome matches ApiOutcome::Done(reply) ==> reply_fits(call, reply),
    ensures
        res@ == api_event_spec(call, outcome),
{
    match outcome {
        ApiOutcome::Done(ApiReply::Tracks(t)) => match call {
            ApiCall::PlaylistTracks(p) => Event::PlaylistTracks { playlist: p, tracks: t },
            _ => Event::SearchResults(t),
        },
        ApiOutcome::Done(ApiReply::Playlists(p)) => Event::Playlists(p),
        ApiOutcome::TokenFailed(e) => Event::Error(e),
        ApiOutcome::CallFailed(e) => Event::Error(e),
        ApiOutcome::Crashed(e) => Event::Error(prefixed("internal error: ", e.as_str())),
    }
}

/// Where the recently played tracks are kept between runs.
pub fn recents_file(paths: &Paths) -> (res: String)
    ensures
        res@ == path_join(paths.cache_dir@, "recent_tracks.json"@),
{
    paths.in_cache("recent_tracks.json")
}

} // verus!
