//! Readers for Spotify Web API responses, and the paging of the playlist
//! listings. The HTTP requests themselves are made by the caller, which
//! hands each response body in and asks what to request next.

use vstd::prelude::*;
use crate::json::{JsonValue, str_of, u64_of, array_of, field_of, parse_json, json_document};
use crate::text::{has_prefix, starts_with, prefixed};
use crate::types::{Track, TrackView, Playlist, PlaylistView, opt_view, track_views, playlist_views};

verus! {

/// Base URL of the Spotify Web API.
pub const API_BASE: &'static str = "https://api.spotify.com/v1";

/// How many search results to ask for.
pub const SEARCH_LIMIT: &'static str = "30";

/// The `url` of the first of an array of images, or `None`.
pub open spec fn first_image(images: Option<JsonValue>) -> Option<Seq<char>> {
    match array_of(images) {
        Some(a) => if a.len() > 0 {
            str_of(a[0].field("url"@))
        } else {
            None
        },
        None => None,
    }
}

/// The `name` of each artist object that has one, in order.
pub open spec fn artist_list(artists: Seq<JsonValue>) -> Seq<Seq<char>>
    decreases artists.len(),
{
    if artists.len() == 0 {
        Seq::empty()
    } else {
        let rest = artist_list(artists.drop_last());
        match str_of(artists.last().field("name"@)) {
            Some(n) => rest.push(n),
            None => rest,
        }
    }
}

/// The track a Web API track object describes: `None` unless it has a
/// string `uri` starting with `spotify:track:` (so local files and podcast
/// episodes are skipped), a string `name` and a non-negative integer
/// `duration_ms`.
pub open spec fn track_of(v: JsonValue) -> Option<TrackView> {
    let album = v.field("album"@);
    match (str_of(v.field("uri"@)), str_of(v.field("name"@)), u64_of(v.field("duration_ms"@))) {
        (Some(uri), Some(name), Some(duration)) => if has_prefix(uri, "spotify:track:"@) {
            Some(
                TrackView {
                    uri: uri,
                    name: name,
                    artists: match array_of(v.field("artists"@)) {
                        Some(a) => artist_list(a),
                        None => Seq::empty(),
                    },
                    album: match str_of(field_of(album, "name"@)) {
                        Some(n) => n,
                        None => Seq::empty(),
                    },
                    album_art: first_image(field_of(album, "images"@)),
                    duration_ms: duration as u32,
                },
            )
        } else {
            None
        },
        _ => None,
    }
}

/// The playlist a Web API playlist object describes: `None` unless it has
/// string `id`, `uri` and `name` members.
pub open spec fn playlist_of(v: JsonValue) -> Option<PlaylistView> {
    match (str_of(v.field("id"@)), str_of(v.field("uri"@)), str_of(v.field("name"@))) {
        (Some(id), Some(uri), Some(name)) => Some(
            PlaylistView {
                id: id,
                uri: uri,
                name: name,
                image: first_image(v.field("images"@)),
                track_count: match u64_of(field_of(v.field("tracks"@), "total"@)) {
                    Some(n) => n as u32,
                    None => 0u32,
                },
            },
        ),
        _ => None,
    }
}

/// The tracks among `items` that read as tracks, in order.
pub open spec fn tracks_in(items: Seq<JsonValue>) -> Seq<TrackView>
    decreases items.len(),
{
    if items.len() == 0 {
        Seq::empty()
    } else {
        let rest = tracks_in(items.drop_last());
        match track_of(items.last()) {
            Some(t) => rest.push(t),
            None => rest,
        }
    }
}

/// Only Spotify tracks are ever read as tracks: local files, podcast
/// episodes and other items are skipped.
pub proof fn law_only_spotify_tracks(items: Seq<JsonValue>)
    ensures
        forall|k: int|
            0 <= k < tracks_in(items).len() ==> has_prefix(
                #[trigger] tracks_in(items)[k].uri,
                "spotify:track:"@,
            ),
    decreases items.len(),
{
    if items.len() > 0 {
        law_only_spotify_tracks(items.drop_last());
    }
}

/// The tracks of playlist items (`{"track": {...}}`), in order.
pub open spec fn item_tracks_in(items: Seq<JsonValue>) -> Seq<TrackView>
    decreases items.len(),
{
    if items.len() == 0 {
        Seq::empty()
    } else {
        let rest = item_tracks_in(items.drop_last());
        match items.last().field("track"@) {
            Some(t) => match track_of(t) {
                Some(tr) => rest.push(tr),
                None => rest,
            },
            None => rest,
        }
    }
}

/// The playlists among `items` that read as playlists, in order.
pub open spec fn playlists_in(items: Seq<JsonValue>) -> Seq<PlaylistView>
    decreases items.len(),
{
    if items.len() == 0 {
        Seq::empty()
    } else {
        let rest = playlists_in(items.drop_last());
        match playlist_of(items.last()) {
            Some(p) => rest.push(p),
            None => rest,
        }
    }
}

/// The track of one playlist item: the track its `track` member describes.
pub open spec fn item_track(item: JsonValue) -> Option<TrackView> {
    match item.field("track"@) {
        Some(t) => track_of(t),
        None => None,
    }
}

/// The entries that one item adds: its value, when it has one.
pub open spec fn one_or_none<A>(x: Option<A>) -> Seq<A> {
    match x {
        Some(v) => seq![v],
        None => Seq::empty(),
    }
}

/// A playlist page's tracks come in the page's order: reading two runs of
/// items one after the other gives the tracks of the first run followed by
/// those of the second, and a single item gives its own track, if any.
pub proof fn law_item_tracks_in_order(a: Seq<JsonValue>, b: Seq<JsonValue>, x: JsonValue)
    ensures
        item_tracks_in(a + b) == item_tracks_in(a) + item_tracks_in(b),
        item_tracks_in(seq![x]) == one_or_none(item_track(x)),
    decreases b.len(),
{
    if b.len() == 0 {
        assert(a + b =~= a);
    } else {
        law_item_tracks_in_order(a, b.drop_last(), x);
        assert((a + b).drop_last() =~= a + b.drop_last());
        assert((a + b).last() == b.last());
    }
    assert(seq![x].drop_last() =~= Seq::<JsonValue>::empty());
    assert(seq![x].last() == x);
    assert(item_tracks_in(Seq::<JsonValue>::empty()) =~= Seq::empty());
    assert(item_tracks_in(seq![x]) =~= one_or_none(item_track(x)));
}

/// A listing page's playlists come in the page's order: reading two runs
/// of items one after the other gives the playlists of the first run
/// followed by those of the second, and a single item gives its own
/// playlist, if any.
pub proof fn law_playlists_in_order(a: Seq<JsonValue>, b: Seq<JsonValue>, x: JsonValue)
    ensures
        playlists_in(a + b) == playlists_in(a) + playlists_in(b),
        playlists_in(seq![x]) == one_or_none(playlist_of(x)),
    decreases b.len(),
{
    if b.len() == 0 {
        assert(a + b =~= a);
    } else {
        law_playlists_in_order(a, b.drop_last(), x);
        assert((a + b).drop_last() =~= a + b.drop_last());
        assert((a + b).last() == b.last());
    }
    assert(seq![x].drop_last() =~= Seq::<JsonValue>::empty());
    assert(seq![x].last() == x);
    assert(playlists_in(Seq::<JsonValue>::empty()) =~= Seq::empty());
    assert(playlists_in(seq![x]) =~= one_or_none(playlist_of(x)));
}

/// Search results come in the order of the results: reading two runs of
/// items one after the other gives the tracks of the first run followed by
/// those of the second, and a single item gives its own track, if any.
pub proof fn law_tracks_in_order(a: Seq<JsonValue>, b: Seq<JsonValue>, x: JsonValue)
    ensures
        tracks_in(a + b) == tracks_in(a) + tracks_in(b),
        tracks_in(seq![x]) == one_or_none(track_of(x)),
    decreases b.len(),
{
    if b.len() == 0 {
        assert(a + b =~= a);
    } else {
        law_tracks_in_order(a, b.drop_last(), x);
        assert((a + b).drop_last() =~= a + b.drop_last());
        assert((a + b).last() == b.last());
    }
    assert(seq![x].drop_last() =~= Seq::<JsonValue>::empty());
    assert(seq![x].last() == x);
    assert(tracks_in(Seq::<JsonValue>::empty()) =~= Seq::empty());
    assert(tracks_in(seq![x]) =~= one_or_none(track_of(x)));
}

/// The `items` array of a page, or nothing.
pub open spec fn items_of(page: JsonValue) -> Seq<JsonValue> {
    match array_of(page.field("items"@)) {
        Some(a) => a,
        None => Seq::empty(),
    }
}

/// The `next` URL of a page, when it is a non-empty string.
pub open spec fn next_of(page: JsonValue) -> Option<Seq<char>> {
    match str_of(page.field("next"@)) {
        Some(n) => if n.len() > 0 {
            Some(n)
        } else {
            None
        },
        None => None,
    }
}

/// The `tracks.items` array of a search response, or nothing.
pub open spec fn search_items(body: JsonValue) -> Seq<JsonValue> {
    match array_of(field_of(body.field("tracks"@), "items"@)) {
        Some(a) => a,
        None => Seq::empty(),
    }
}

fn text_member(v: &JsonValue, key: &str) -> (res: Option<String>)
    ensures
        opt_view(res) == str_of(v.field(key@)),
{
    match v.get(key) {
        Some(m) => match m.as_str() {
            Some(s) => Some(s.clone()),
            None => None,
        },
        None => None,
    }
}

/// Spotify image arrays are ordered largest-first; the first entry is good
/// enough for both the vinyl record art and playlist thumbnails since GTK
/// scales it down to fit.
pub fn first_image_url(images: Option<&JsonValue>) -> (res: Option<String>)
    ensures
        opt_view(res) == first_image(
            match images {
                Some(i) => Some(*i),
                None => None,
            },
        ),
{
    match images {
        Some(imgs) => match imgs.as_array() {
            Some(arr) => if arr.len() > 0 {
                text_member(&arr[0], "url")
            } else {
                None
            },
            None => None,
        },
        None => None,
    }
}

fn artists_from(artists: &Vec<JsonValue>) -> (res: Vec<String>)
    ensures
        crate::text::views(res@) == artist_list(artists@),
{
    let mut res: Vec<String> = Vec::new();
    let n = artists.len();
    let mut i: usize = 0;
    while i < n
        invariant
            n == artists@.len(),
            i <= n,
            crate::text::views(res@) == artist_list(artists@.take(i as int)),
        decreases n - i,
    {
        assert(artists@.take(i + 1).drop_last() =~= artists@.take(i as int));
        assert(artists@.take(i + 1).last() == artists@[i as int]);
        let ghost before = res@;
        match text_member(&artists[i], "name") {
            Some(name) => {
                res.push(name);
                assert(res@ =~= before.push(name));
                assert(crate::text::views(res@) =~= crate::text::views(before).push(name@));
            },
            None => {},
        }
        i = i + 1;
    }
    assert(artists@.take(n as int) =~= artists@);
    res
}

/// Parses a Web API track object, skipping local files, podcast episodes,
/// and other non-track items that may appear in playlists or search results.
pub fn parse_track(v: &JsonValue) -> (res: Option<Track>)
    ensures
        match res {
            Some(t) => track_of(*v) == Some(t@),
            None => track_of(*v) is None,
        },
{
    let uri = match text_member(v, "uri") {
        Some(u) => u,
        None => return None,
    };
    if !starts_with(uri.as_str(), "spotify:track:") {
        return None;
    }
    let name = match text_member(v, "name") {
        Some(n) => n,
        None => return None,
    };
    let duration: u64 = match v.get("duration_ms") {
        Some(d) => match d.as_u64() {
            Some(d) => d,
            None => return None,
        },
        None => return None,
    };
    let artists = match v.get("artists") {
        Some(a) => match a.as_array() {
            Some(arr) => artists_from(arr),
            None => Vec::new(),
        },
        None => Vec::new(),
    };
    let album_obj = v.get("album");
    let album = match album_obj {
        Some(a) => match text_member(a, "name") {
            Some(n) => n,
            None => String::new(),
        },
        None => String::new(),
    };
    let images = match album_obj {
        Some(a) => a.get("images"),
        None => None,
    };
    let album_art = first_image_url(images);
    let t = Track { uri, name, artists, album, album_art, duration_ms: duration as u32 };
    assert(crate::text::views(t.artists@) =~= match array_of(v.field("artists"@)) {
        Some(a) => artist_list(a),
        None => Seq::empty(),
    });
    Some(t)
}

/// Parses a Web API playlist object.
pub fn parse_playlist(v: &JsonValue) -> (res: Option<Playlist>)
    ensures
        match res {
            Some(p) => playlist_of(*v) == Some(p@),
            None => playlist_of(*v) is None,
        },
{
    let id = match text_member(v, "id") {
        Some(s) => s,
        None => return None,
    };
    let uri = match text_member(v, "uri") {
        Some(s) => s,
        None => return None,
    };
    let name = match text_member(v, "name") {
        Some(s) => s,
        None => return None,
    };
    let image = first_image_url(v.get("images"));
    let total: u64 = match v.get("tracks") {
        Some(t) => match t.get("total") {
            Some(n) => match n.as_u64() {
                Some(n) => n,
                None => 0,
            },
            None => 0,
        },
        None => 0,
    };
    Some(Playlist { id, uri, name, image, track_count: total as u32 })
}


/// The tracks among `items` that read as tracks, in order.
pub fn tracks_from(items: &Vec<JsonValue>) -> (res: Vec<Track>)
    ensures
        track_views(res@) == tracks_in(items@),
{
    let mut res: Vec<Track> = Vec::new();
    let n = items.len();
    let mut i: usize = 0;
    while i < n
        invariant
            n == items@.len(),
            i <= n,
            track_views(res@) == tracks_in(items@.take(i as int)),
        decreases n - i,
    {
        assert(items@.take(i + 1).drop_last() =~= items@.take(i as int));
        assert(items@.take(i + 1).last() == items@[i as int]);
        let ghost before = res@;
        match parse_track(&items[i]) {
            Some(t) => {
                res.push(t);
                assert(track_views(res@) =~= track_views(before).push(t@));
            },
            None => {},
        }
        i = i + 1;
    }
    assert(items@.take(n as int) =~= items@);
    res
}

/// The tracks of playlist items (`{"track": {...}}`), in order.
pub fn item_tracks_from(items: &Vec<JsonValue>) -> (res: Vec<Track>)
    ensures
        track_views(res@) == item_tracks_in(items@),
{
    let mut res: Vec<Track> = Vec::new();
    let n = items.len();
    let mut i: usize = 0;
    while i < n
        invariant
            n == items@.len(),
            i <= n,
            track_views(res@) == item_tracks_in(items@.take(i as int)),
        decreases n - i,
    {
        assert(items@.take(i + 1).drop_last() =~= items@.take(i as int));
        assert(items@.take(i + 1).last() == items@[i as int]);
        let ghost before = res@;
        match items[i].get("track") {
            Some(track) => match parse_track(track) {
                Some(t) => {
                    res.push(t);
                    assert(track_views(res@) =~= track_views(before).push(t@));
                },
                None => {},
            },
            None => {},
        }
        i = i + 1;
    }
    assert(items@.take(n as int) =~= items@);
    res
}

/// The playlists among `items` that read as playlists, in order.
pub fn playlists_from(items: &Vec<JsonValue>) -> (res: Vec<Playlist>)
    ensures
        playlist_views(res@) == playlists_in(items@),
{
    let mut res: Vec<Playlist> = Vec::new();
    let n = items.len();
    let mut i: usize = 0;
    while i < n
        invariant
            n == items@.len(),
            i <= n,
            playlist_views(res@) == playlists_in(items@.take(i as int)),
        decreases n - i,
    {
        assert(items@.take(i + 1).drop_last() =~= items@.take(i as int));
        assert(items@.take(i + 1).last() == items@[i as int]);
        let ghost before = res@;
        match parse_playlist(&items[i]) {
            Some(p) => {
                res.push(p);
                assert(playlist_views(res@) =~= playlist_views(before).push(p@));
            },
            None => {},
        }
        i = i + 1;
    }
    assert(items@.take(n as int) =~= items@);
    res
}

fn items_array(page: &JsonValue) -> (res: Option<&Vec<JsonValue>>)
    ensures
        match res {
            Some(a) => items_of(*page) == a@,
            None => items_of(*page) == Seq::<JsonValue>::empty(),
        },
{
    match page.get("items") {
        Some(i) => i.as_array(),
        None => None,
    }
}

/// The tracks of a search response (`tracks.items`), skipping anything
/// that is not a track.
pub fn search_results(body: &JsonValue) -> (res: Vec<Track>)
    ensures
        track_views(res@) == tracks_in(search_items(*body)),
{
    let items = match body.get("tracks") {
        Some(t) => match t.get("items") {
            Some(i) => i.as_array(),
            None => None,
        },
        None => None,
    };
    match items {
        Some(arr) => tracks_from(arr),
        None => {
            let res: Vec<Track> = Vec::new();
            assert(tracks_in(search_items(*body)) =~= Seq::<TrackView>::empty());
            res
        },
    }
}

/// Reads a search response body: the tracks it lists, or the message
/// `failed to parse search response: Failed to read JSON: ...` when it is
/// not JSON.
pub fn search_response(text: &str) -> (res: Result<Vec<Track>, String>)
    ensures
        match json_document(text@) {
            Ok(body) => res matches Ok(tracks) && track_views(tracks@) == tracks_in(
                search_items(body),
            ),
            Err(e) => res matches Err(m) && m@ == "failed to parse search response: Failed to read JSON: "@
                + e,
        },
{
    match parse_json(text) {
        Ok(body) => Ok(search_results(&body)),
        Err(e) => Err(prefixed("failed to parse search response: Failed to read JSON: ", e.as_str())),
    }
}

/// The pager's next URL and remaining budget after a page, given the budget
/// before it.
pub open spec fn page_step(left: u32, page: JsonValue) -> (Option<Seq<char>>, u32) {
    let rest = (left - 1) as u32;
    (if rest == 0 {
        None
    } else {
        next_of(page)
    }, rest)
}

/// How many of the responses `pages` a listing takes in, starting with the
/// pending URL `next` and a budget of `left` pages: it takes one while it
/// has a URL to request.
pub open spec fn pages_taken(next: Option<Seq<char>>, left: u32, pages: Seq<JsonValue>) -> nat
    decreases pages.len(),
{
    if next is None || pages.len() == 0 {
        0
    } else {
        let (n2, l2) = page_step(left, pages[0]);
        1 + pages_taken(n2, l2, pages.drop_first())
    }
}

/// A listing never requests more pages than its budget, whatever the
/// responses say: at most 4 pages of playlists, at most 10 of a playlist's
/// tracks.
pub proof fn law_listing_within_budget(next: Option<Seq<char>>, left: u32, pages: Seq<JsonValue>)
    requires
        next is Some ==> left > 0,
    ensures
        pages_taken(next, left, pages) <= left,
    decreases pages.len(),
{
    if next is Some && pages.len() > 0 {
        let (n2, l2) = page_step(left, pages[0]);
        law_listing_within_budget(n2, l2, pages.drop_first());
    }
}

/// Position in a paged listing: the URL to fetch next, if any, and how many
/// more pages may be fetched.
#[derive(Debug, Clone)]
pub struct Pager {
    pub next_url: Option<String>,
    pub pages_left: u32,
}

impl Pager {
    /// A pager is done once it has no next URL; while it has one, at least
    /// one page remains in its budget.
    pub open spec fn wf(self) -> bool {
        self.next_url is Some ==> self.pages_left > 0
    }

    /// The pager after `page` was received: one page of the budget spent,
    /// and the page's `next` URL followed while the budget lasts.
    pub open spec fn after_page(self, page: JsonValue) -> (Option<Seq<char>>, u32) {
        page_step(self.pages_left, page)
    }

    /// Follows a received page.
    pub fn advance(&mut self, page: &JsonValue)
        requires
            old(self).wf(),
            old(self).next_url is Some,
        ensures
            final(self).wf(),
            (opt_view(final(self).next_url), final(self).pages_left) == old(self).after_page(
                *page,
            ),
    {
        self.pages_left = self.pages_left - 1;
        if self.pages_left == 0 {
            self.next_url = None;
            return;
        }
        let next = match page.get("next") {
            Some(n) => match n.as_str() {
                Some(s) => if s.unicode_len() > 0 {
                    Some(s.clone())
                } else {
                    None
                },
                None => None,
            },
            None => None,
        };
        self.next_url = next;
    }
}

/// The current user's playlists, fetched page by page.
#[derive(Debug, Clone)]
pub struct PlaylistPages {
    pub pager: Pager,
    pub playlists: Vec<Playlist>,
}

/// The tracks of a playlist, fetched page by page.
#[derive(Debug, Clone)]
pub struct TrackPages {
    pub pager: Pager,
    pub tracks: Vec<Track>,
}

/// Fetches the current user's playlists (up to 200, across 4 pages):
/// the listing starts at `/me/playlists?limit=50`.
pub fn current_user_playlists() -> (res: PlaylistPages)
    ensures
        res.pager.wf(),
        opt_view(res.pager.next_url) == Some(API_BASE@ + "/me/playlists?limit=50"@),
        res.pager.pages_left == 4,
        res.playlists@.len() == 0,
{
    let url = prefixed(API_BASE, "/me/playlists?limit=50");
    PlaylistPages { pager: Pager { next_url: Some(url), pages_left: 4 }, playlists: Vec::new() }
}

/// The fields the playlist track listing asks for.
pub open spec fn track_fields() -> Seq<char> {
    "/tracks?limit=50&fields=items(track(uri,name,duration_ms,artists(name),album(name,images))),next"@
}

/// Fetches the tracks of a playlist (up to 500, across 10 pages).
pub fn playlist_tracks(playlist_id: &str) -> (res: TrackPages)
    ensures
        res.pager.wf(),
        opt_view(res.pager.next_url) == Some(
            API_BASE@ + "/playlists/"@ + playlist_id@ + track_fields(),
        ),
        res.pager.pages_left == 10,
        res.tracks@.len() == 0,
{
    let mut url = prefixed(API_BASE, "/playlists/");
    url.append(playlist_id);
    url.append(
        "/tracks?limit=50&fields=items(track(uri,name,duration_ms,artists(name),album(name,images))),next",
    );
    TrackPages { pager: Pager { next_url: Some(url), pages_left: 10 }, tracks: Vec::new() }
}

/// `failed to parse response from <url>: Failed to read JSON: <detail>`.
pub open spec fn parse_failure(url: Seq<char>, detail: Seq<char>) -> Seq<char> {
    "failed to parse response from "@ + url + ": Failed to read JSON: "@ + detail
}

fn parse_failure_message(url: &str, detail: &str) -> (res: String)
    ensures
        res@ == parse_failure(url@, detail@),
{
    let mut m = prefixed("failed to parse response from ", url);
    m.append(": Failed to read JSON: ");
    m.append(detail);
    m
}

impl PlaylistPages {
    /// Takes in a listing page: its playlists are added and its `next`
    /// URL is followed while the page budget lasts.
    pub fn add_page(&mut self, page: &JsonValue)
        requires
            old(self).pager.wf(),
            old(self).pager.next_url is Some,
        ensures
            final(self).pager.wf(),
            (opt_view(final(self).pager.next_url), final(self).pager.pages_left)
                == old(self).pager.after_page(*page),
            playlist_views(final(self).playlists@) == playlist_views(old(self).playlists@)
                + playlists_in(items_of(*page)),
    {
        let ghost before = self.playlists@;
        match items_array(page) {
            Some(arr) => {
                let mut found = playlists_from(arr);
                self.playlists.append(&mut found);
                assert(playlist_views(self.playlists@) =~= playlist_views(before)
                    + playlists_in(items_of(*page)));
            },
            None => {
                assert(playlist_views(self.playlists@) =~= playlist_views(before)
                    + playlists_in(items_of(*page)));
            },
        }
        self.pager.advance(page);
    }

    /// Takes in the body of the response to the pending request. When it
    /// is not JSON the listing fails with
    /// `failed to parse response from <url>: Failed to read JSON: ...` and
    /// nothing changes.
    pub fn receive(&mut self, body: &str) -> (res: Result<(), String>)
        requires
            old(self).pager.wf(),
            old(self).pager.next_url is Some,
        ensures
            final(self).pager.wf(),
            match json_document(body@) {
                Ok(page) => res is Ok && (opt_view(final(self).pager.next_url),
                    final(self).pager.pages_left) == old(self).pager.after_page(page)
                    && playlist_views(final(self).playlists@) == playlist_views(
                    old(self).playlists@,
                ) + playlists_in(items_of(page)),
                Err(e) => res matches Err(m) && m@ == parse_failure(
                    opt_view(old(self).pager.next_url)->0,
                    e,
                ) && *final(self) == *old(self),
            },
    {
        match parse_json(body) {
            Ok(page) => {
                self.add_page(&page);
                Ok(())
            },
            Err(e) => {
                let url = match &self.pager.next_url {
                    Some(u) => u.as_str(),
                    None => "",
                };
                Err(parse_failure_message(url, e.as_str()))
            },
        }
    }
}

impl TrackPages {
    /// Takes in a listing page: its tracks are added and its `next` URL is
    /// followed while the page budget lasts.
    pub fn add_page(&mut self, page: &JsonValue)
        requires
            old(self).pager.wf(),
            old(self).pager.next_url is Some,
        ensures
            final(self).pager.wf(),
            (opt_view(final(self).pager.next_url), final(self).pager.pages_left)
                == old(self).pager.after_page(*page),
            track_views(final(self).tracks@) == track_views(old(self).tracks@) + item_tracks_in(
                items_of(*page),
            ),
    {
        let ghost before = self.tracks@;
        match items_array(page) {
            Some(arr) => {
                let mut found = item_tracks_from(arr);
                self.tracks.append(&mut found);
                assert(track_views(self.tracks@) =~= track_views(before) + item_tracks_in(
                    items_of(*page),
                ));
            },
            None => {
                assert(track_views(self.tracks@) =~= track_views(before) + item_tracks_in(
                    items_of(*page),
                ));
            },
        }
        self.pager.advance(page);
    }

    /// Takes in the body of the response to the pending request. When it
    /// is not JSON the listing fails with
    /// `failed to parse response from <url>: Failed to read JSON: ...` and
    /// nothing changes.
    pub fn receive(&mut self, body: &str) -> (res: Result<(), String>)
        requires
            old(self).pager.wf(),
            old(self).pager.next_url is Some,
        ensures
            final(self).pager.wf(),
            match json_document(body@) {
                Ok(page) => res is Ok && (opt_view(final(self).pager.next_url),
                    final(self).pager.pages_left) == old(self).pager.after_page(page)
                    && track_views(final(self).tracks@) == track_views(old(self).tracks@)
                    + item_tracks_in(items_of(page)),
                Err(e) => res matches Err(m) && m@ == parse_failure(
                    opt_view(old(self).pager.next_url)->0,
                    e,
                ) && *final(self) == *old(self),
            },
    {
        match parse_json(body) {
            Ok(page) => {
                self.add_page(&page);
                Ok(())
            },
            Err(e) => {
                let url = match &self.pager.next_url {
                    Some(u) => u.as_str(),
                    None => "",
                };
                Err(parse_failure_message(url, e.as_str()))
            },
        }
    }
}

} // verus!
