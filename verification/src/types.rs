//! The data model shared by the UI and the Spotify controller.

use vstd::prelude::*;
use crate::text::{join, join_strings, views};

verus! {

/// A single track, normalised from the Spotify Web API into just the
/// fields the UI needs.
#[derive(Debug, Clone, PartialEq)]
pub struct Track {
    pub uri: String,
    pub name: String,
    pub artists: Vec<String>,
    pub album: String,
    pub album_art: Option<String>,
    pub duration_ms: u32,
}

/// The contents of a [`Track`] as plain text values.
pub struct TrackView {
    pub uri: Seq<char>,
    pub name: Seq<char>,
    pub artists: Seq<Seq<char>>,
    pub album: Seq<char>,
    pub album_art: Option<Seq<char>>,
    pub duration_ms: u32,
}

/// The view of an optional string.
pub open spec fn opt_view(s: Option<String>) -> Option<Seq<char>> {
    match s {
        Some(t) => Some(t@),
        None => None,
    }
}

impl View for Track {
    type V = TrackView;

    open spec fn view(&self) -> TrackView {
        TrackView {
            uri: self.uri@,
            name: self.name@,
            artists: views(self.artists@),
            album: self.album@,
            album_art: opt_view(self.album_art),
            duration_ms: self.duration_ms,
        }
    }
}

/// The views of a sequence of tracks.
pub open spec fn track_views(tracks: Seq<Track>) -> Seq<TrackView> {
    tracks.map_values(|t: Track| t@)
}

/// A copy of an optional string.
pub fn copy_opt(s: &Option<String>) -> (res: Option<String>)
    ensures
        opt_view(res) == opt_view(*s),
{
    match s {
        Some(t) => Some(t.clone()),
        None => None,
    }
}

/// A copy of a list of strings.
pub fn copy_strings(v: &Vec<String>) -> (res: Vec<String>)
    ensures
        views(res@) == views(v@),
{
    let mut res: Vec<String> = Vec::new();
    let n = v.len();
    let mut i: usize = 0;
    while i < n
        invariant
            n == v@.len(),
            i <= n,
            views(res@) == views(v@).take(i as int),
        decreases n - i,
    {
        let c = v[i].clone();
        let ghost before = res@;
        res.push(c);
        assert(res@ =~= before.push(c));
        assert(views(res@) =~= views(before).push(v@[i as int]@));
        assert(views(res@) =~= views(v@).take(i + 1));
        i = i + 1;
    }
    assert(views(v@).take(n as int) =~= views(v@));
    res
}

impl Track {
    /// The track's artists, comma separated.
    pub fn artist_names(&self) -> (res: String)
        ensures
            res@ == join(views(self.artists@), ", "@),
    {
        join_strings(&self.artists, ", ")
    }

    /// A copy of this track.
    pub fn duplicate(&self) -> (res: Track)
        ensures
            res@ == self@,
    {
        Track {
            uri: self.uri.clone(),
            name: self.name.clone(),
            artists: copy_strings(&self.artists),
            album: self.album.clone(),
            album_art: copy_opt(&self.album_art),
            duration_ms: self.duration_ms,
        }
    }
}

/// A copy of a list of tracks.
pub fn copy_tracks(v: &Vec<Track>) -> (res: Vec<Track>)
    ensures
        track_views(res@) == track_views(v@),
{
    let mut res: Vec<Track> = Vec::new();
    let n = v.len();
    let mut i: usize = 0;
    while i < n
        invariant
            n == v@.len(),
            i <= n,
            track_views(res@) == track_views(v@).take(i as int),
        decreases n - i,
    {
        let c = v[i].duplicate();
        let ghost before = res@;
        res.push(c);
        assert(res@ =~= before.push(c));
        assert(track_views(res@) =~= track_views(before).push(v@[i as int]@));
        assert(track_views(res@) =~= track_views(v@).take(i + 1));
        i = i + 1;
    }
    assert(track_views(v@).take(n as int) =~= track_views(v@));
    res
}

/// A playlist from the current user's library.
#[derive(Debug, Clone, PartialEq)]
pub struct Playlist {
    pub id: String,
    pub uri: String,
    pub name: String,
    pub image: Option<String>,
    pub track_count: u32,
}

/// The contents of a [`Playlist`] as plain text values.
pub struct PlaylistView {
    pub id: Seq<char>,
    pub uri: Seq<char>,
    pub name: Seq<char>,
    pub image: Option<Seq<char>>,
    pub track_count: u32,
}

impl View for Playlist {
    type V = PlaylistView;

    open spec fn view(&self) -> PlaylistView {
        PlaylistView {
            id: self.id@,
            uri: self.uri@,
            name: self.name@,
            image: opt_view(self.image),
            track_count: self.track_count,
        }
    }
}

/// The views of a sequence of playlists.
pub open spec fn playlist_views(playlists: Seq<Playlist>) -> Seq<PlaylistView> {
    playlists.map_values(|p: Playlist| p@)
}

impl Playlist {
    /// A copy of this playlist.
    pub fn duplicate(&self) -> (res: Playlist)
        ensures
            res@ == self@,
    {
        Playlist {
            id: self.id.clone(),
            uri: self.uri.clone(),
            name: self.name.clone(),
            image: copy_opt(&self.image),
            track_count: self.track_count,
        }
    }
}

/// Whether the player is playing, paused or stopped.
#[derive(Debug, Clone, Copy, PartialEq, Eq, Structural)]
pub enum PlaybackStatus {
    Stopped,
    Playing,
    Paused,
}

/// Requests sent from the UI thread to the background Spotify controller.
#[derive(Debug, Clone)]
pub enum Command {
    /// Run (or re-run) the OAuth login flow.
    Login,
    /// Search the catalog for tracks matching the query.
    Search(String),
    /// Refresh the current user's playlists.
    LoadPlaylists,
    /// Fetch the tracks of a playlist.
    LoadPlaylist(Playlist),
    /// Replace the play queue and start playing `tracks[start_index]`.
    PlayQueue { tracks: Vec<Track>, start_index: usize },
    TogglePlayPause,
    Next,
    Previous,
    /// Seek to an absolute position within the current track, in milliseconds.
    Seek(u32),
    /// Set the output volume, as a mixer level in `0..=u16::MAX`.
    SetVolume(u16),
}

/// The contents of a [`Command`] as plain values.
pub enum CommandView {
    Login,
    Search(Seq<char>),
    LoadPlaylists,
    LoadPlaylist(PlaylistView),
    PlayQueue { tracks: Seq<TrackView>, start_index: usize },
    TogglePlayPause,
    Next,
    Previous,
    Seek(u32),
    SetVolume(u16),
}

impl View for Command {
    type V = CommandView;

    open spec fn view(&self) -> CommandView {
        match self {
            Command::Login => CommandView::Login,
            Command::Search(q) => CommandView::Search(q@),
            Command::LoadPlaylists => CommandView::LoadPlaylists,
            Command::LoadPlaylist(p) => CommandView::LoadPlaylist(p@),
            Command::PlayQueue { tracks, start_index } => CommandView::PlayQueue {
                tracks: track_views(tracks@),
                start_index: *start_index,
            },
            Command::TogglePlayPause => CommandView::TogglePlayPause,
            Command::Next => CommandView::Next,
            Command::Previous => CommandView::Previous,
            Command::Seek(p) => CommandView::Seek(*p),
            Command::SetVolume(v) => CommandView::SetVolume(*v),
        }
    }
}

/// Updates sent from the background Spotify controller to the UI thread.
#[derive(Debug, Clone)]
pub enum Event {
    /// A short human-readable status message (e.g. "Connecting...").
    Status(String),
    /// No `client_id` is configured yet; a template config file was written
    /// to this path (if it didn't already exist) for the user to fill in.
    ConfigRequired(String),
    LoggedIn { display_name: String },
    Error(String),
    Playlists(Vec<Playlist>),
    PlaylistTracks { playlist: Playlist, tracks: Vec<Track> },
    SearchResults(Vec<Track>),
    /// The currently loaded track, or `None` if playback has stopped.
    NowPlaying(Option<Track>),
    PlaybackStatus(PlaybackStatus),
    Position { position_ms: u32, duration_ms: u32 },
    /// Current mixer volume, in the range `0..=u16::MAX`.
    Volume(u16),
    /// Recently played tracks, most-recent-first.
    Recents(Vec<Track>),
}

/// The contents of an [`Event`] as plain values.
pub enum EventView {
    Status(Seq<char>),
    ConfigRequired(Seq<char>),
    LoggedIn { display_name: Seq<char> },
    Error(Seq<char>),
    Playlists(Seq<PlaylistView>),
    PlaylistTracks { playlist: PlaylistView, tracks: Seq<TrackView> },
    SearchResults(Seq<TrackView>),
    NowPlaying(Option<TrackView>),
    PlaybackStatus(PlaybackStatus),
    Position { position_ms: u32, duration_ms: u32 },
    Volume(u16),
    Recents(Seq<TrackView>),
}

impl View for Event {
    type V = EventView;

    open spec fn view(&self) -> EventView {
        match self {
            Event::Status(s) => EventView::Status(s@),
            Event::ConfigRequired(p) => EventView::ConfigRequired(p@),
            Event::LoggedIn { display_name } => EventView::LoggedIn {
                display_name: display_name@,
            },
            Event::Error(m) => EventView::Error(m@),
            Event::Playlists(p) => EventView::Playlists(playlist_views(p@)),
            Event::PlaylistTracks { playlist, tracks } => EventView::PlaylistTracks {
                playlist: playlist@,
                tracks: track_views(tracks@),
            },
            Event::SearchResults(t) => EventView::SearchResults(track_views(t@)),
            Event::NowPlaying(t) => EventView::NowPlaying(
                match t {
                    Some(t) => Some(t@),
                    None => None,
                },
            ),
            Event::PlaybackStatus(s) => EventView::PlaybackStatus(*s),
            Event::Position { position_ms, duration_ms } => EventView::Position {
                position_ms: *position_ms,
                duration_ms: *duration_ms,
            },
            Event::Volume(v) => EventView::Volume(*v),
            Event::Recents(t) => EventView::Recents(track_views(t@)),
        }
    }
}

} // verus!
