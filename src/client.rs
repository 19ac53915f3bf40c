use vstd::prelude::*;

use crate::model::TimeWindow;
use crate::text::{
    decimal, decimal_string, join_prefix, joined, string_views, two_digit_string, two_digits,
};

verus! {

/// How many genre tags an artist entry shows.
pub const GENRE_LIMIT: usize = 3;

/// "m:ss": whole minutes unpadded, then the remaining seconds as two digits.
pub open spec fn duration_text(total_seconds: nat) -> Seq<char> {
    decimal(total_seconds / 60) + seq![':'] + two_digits(total_seconds % 60)
}

/// The genre tag string of an artist: its first three genres, comma-space separated.
pub open spec fn genre_text(genres: Seq<Seq<char>>) -> Seq<char> {
    joined(
        genres.take(if genres.len() < GENRE_LIMIT { genres.len() as int } else { GENRE_LIMIT as int }),
        ", "@,
    )
}

/// Formats a track length given in whole seconds as "m:ss".
pub fn format_duration(total_seconds: u64) -> (r: String)
    ensures
        r@ == duration_text(total_seconds as nat),
{
    let minutes = total_seconds / 60;
    let seconds = total_seconds % 60;
    let mut s = decimal_string(minutes);
    s.append(":");
    let tail = two_digit_string(seconds);
    s.append(tail.as_str());
    proof {
        reveal_strlit(":");
    }
    s
}

/// Formats the genre tags of an artist: at most the first three, in their
/// source order, separated by ", ".
pub fn format_genres(genres: &Vec<String>) -> (r: String)
    ensures
        r@ == genre_text(string_views(genres@)),
{
    let count = if genres.len() < GENRE_LIMIT {
        genres.len()
    } else {
        GENRE_LIMIT
    };
    join_prefix(genres, count, ", ")
}

/// One track as the streaming service hands it over: its title, its length in
/// whole seconds and the names of its artists.
pub struct TrackItem {
    pub name: String,
    pub duration_seconds: u64,
    pub artists: Vec<String>,
}

/// One artist as the streaming service hands it over: its name and its genres.
pub struct ArtistItem {
    pub name: String,
    pub genres: Vec<String>,
}

/// What a ranked track entry shows.
pub ghost struct TopTrackView {
    pub index: int,
    pub track_name: Seq<char>,
    pub duration: Seq<char>,
    pub artists: Seq<Seq<char>>,
}

/// One entry of a top-tracks list.
#[derive(Debug, PartialEq, Eq)]
pub struct TopTrack {
    pub index: usize,
    pub track_name: String,
    pub duration: String,
    pub artists: Vec<String>,
}

impl View for TopTrack {
    type V = TopTrackView;

    open spec fn view(&self) -> TopTrackView {
        TopTrackView {
            index: self.index as int,
            track_name: self.track_name@,
            duration: self.duration@,
            artists: string_views(self.artists@),
        }
    }
}

/// The entry of rank `rank` made from `item`.
pub open spec fn track_entry(rank: int, item: TrackItem) -> TopTrackView {
    TopTrackView {
        index: rank,
        track_name: item.name@,
        duration: duration_text(item.duration_seconds as nat),
        artists: string_views(item.artists@),
    }
}

impl Clone for TopTrack {
    fn clone(&self) -> (r: Self)
        ensures
            r@ == self@,
    {
        let artists = self.artists.clone();
        proof {
            assert(string_views(artists@) =~= string_views(self.artists@));
        }
        TopTrack {
            index: self.index,
            track_name: self.track_name.clone(),
            duration: self.duration.clone(),
            artists,
        }
    }
}


/// The ranked entries that a fetch of `items` with limit `limit` yields: the
/// first `limit` items (or all, if fewer), ranked 1, 2, ... in encounter order.
pub open spec fn ranked_tracks(items: Seq<TrackItem>, limit: int) -> Seq<TopTrackView> {
    let n = if items.len() < limit { items.len() as int } else { limit };
    Seq::new(n as nat, |i: int| track_entry(i + 1, items[i]))
}

/// A fetch of N tracks under a limit L with N <= L ranks them exactly
/// 1, ..., N in encounter order, each entry made from the item at its place.
pub proof fn lemma_track_ranks_dense(items: Seq<TrackItem>, limit: int)
    requires
        items.len() <= limit,
    ensures
        ranked_tracks(items, limit).len() == items.len(),
        forall|i: int|
            0 <= i < items.len() ==> (#[trigger] ranked_tracks(items, limit)[i]).index == i + 1
                && ranked_tracks(items, limit)[i] == track_entry(i + 1, items[i]),
{
}

/// The top tracks of a user for one statistics period, best first.
#[derive(Debug, PartialEq, Eq)]
pub struct TopTracks {
    pub time_range: TimeWindow,
    pub tracks: Vec<TopTrack>,
}

impl TopTracks {
    /// What the entries show, in list order.
    pub open spec fn entries(&self) -> Seq<TopTrackView> {
        self.tracks@.map_values(|t: TopTrack| t@)
    }

    /// Ranks are dense and 1-based: the entry at position `i` has rank `i + 1`.
    pub open spec fn wf(&self) -> bool {
        forall|i: int| 0 <= i < self.tracks.len() ==> #[trigger] self.tracks@[i].index == i + 1
    }

    /// An empty list for `time_range`.
    pub fn new(time_range: TimeWindow) -> (r: TopTracks)
        ensures
            r.time_range == time_range,
            r.tracks.len() == 0,
            r.wf(),
    {
        TopTracks { time_range, tracks: Vec::new() }
    }

    /// Whether a fetch bounded by `limit` should take another item from upstream.
    pub fn wants_more(&self, limit: usize) -> (r: bool)
        ensures
            r == (self.tracks.len() < limit),
    {
        self.tracks.len() < limit
    }

    /// Appends `item` as the next entry, ranked one below the last.
    pub fn push_item(&mut self, item: TrackItem)
        requires
            old(self).wf(),
            old(self).tracks.len() < usize::MAX,
        ensures
            final(self).wf(),
            final(self).time_range == old(self).time_range,
            final(self).entries() == old(self).entries().push(
                track_entry(old(self).tracks.len() + 1, item),
            ),
    {
        let ghost expected = track_entry(self.tracks.len() + 1, item);
        let entry = TopTrack {
            index: self.tracks.len() + 1,
            track_name: item.name,
            duration: format_duration(item.duration_seconds),
            artists: item.artists,
        };
        assert(entry@ == expected);
        self.tracks.push(entry);
        proof {
            assert(self.entries() =~= old(self).entries().push(expected));
        }
    }

    /// A walk over the entries, from the top.
    pub fn iter(&self) -> (r: TopTracksIterator)
        ensures
            r.top_tracks.time_range == self.time_range,
            r.top_tracks.entries() == self.entries(),
            r.current == 0,
    {
        TopTracksIterator { top_tracks: self.clone(), current: 0 }
    }
}

impl Clone for TopTracks {
    fn clone(&self) -> (r: Self)
        ensures
            r.time_range == self.time_range,
            r.entries() == self.entries(),
    {
        let tracks = self.tracks.clone();
        proof {
            assert forall|i: int| 0 <= i < tracks.len() implies tracks@[i]@ == self.tracks@[i]@ by {
                assert(cloned::<TopTrack>(self.tracks[i], tracks[i]));
            }
            assert(tracks@.map_values(|t: TopTrack| t@) =~= self.entries());
        }
        TopTracks { time_range: self.time_range, tracks }
    }
}

/// Ranks the tracks that upstream yields, taking no more than `limit` of them.
pub fn collect_top_tracks(time_range: TimeWindow, items: Vec<TrackItem>, limit: usize) -> (r:
    TopTracks)
    ensures
        r.time_range == time_range,
        r.wf(),
        r.entries() == ranked_tracks(items@, limit as int),
{
    let ghost all = items@;
    let mut rest = items;
    let mut out = TopTracks::new(time_range);
    while out.wants_more(limit) && rest.len() > 0
        invariant
            out.wf(),
            out.time_range == time_range,
            out.tracks.len() <= limit,
            out.tracks.len() + rest.len() == all.len(),
            rest@ == all.subrange(out.tracks.len() as int, all.len() as int),
            out.entries() == ranked_tracks(all.subrange(0, out.tracks.len() as int), limit as int),
        decreases rest.len(),
    {
        let ghost k = out.tracks.len() as int;
        let item = rest.remove(0);
        proof {
            assert(item == all[k]);
        }
        out.push_item(item);
        proof {
            assert(rest@ =~= all.subrange(k + 1, all.len() as int));
            assert(out.entries() =~= ranked_tracks(all.subrange(0, k + 1), limit as int));
        }
    }
    proof {
        assert(ranked_tracks(all.subrange(0, out.tracks.len() as int), limit as int) =~= ranked_tracks(all, limit as int));
    }
    out
}

/// A walk over a copy of a top-tracks list.
pub struct TopTracksIterator {
    pub top_tracks: TopTracks,
    pub current: usize,
}

impl TopTracksIterator {
    /// The entry at the current position, moving past it; `None` at the end.
    pub fn next(&mut self) -> (r: Option<TopTrack>)
        ensures
            final(self).top_tracks == old(self).top_tracks,
            old(self).current < old(self).top_tracks.tracks.len() ==> {
                &&& r is Some
                &&& r->0@ == old(self).top_tracks.tracks@[old(self).current as int]@
                &&& final(self).current == old(self).current + 1
            },
            old(self).current >= old(self).top_tracks.tracks.len() ==> {
                &&& r is None
                &&& final(self).current == old(self).current
            },
    {
        if self.current < self.top_tracks.tracks.len() {
            let track = self.top_tracks.tracks[self.current].clone();
            self.current = self.current + 1;
            Some(track)
        } else {
            None
        }
    }
}


/// What a ranked artist entry shows.
pub ghost struct TopArtistView {
    pub index: int,
    pub artist_name: Seq<char>,
    pub genres: Seq<char>,
}

/// One entry of a top-artists list.
#[derive(Debug, PartialEq, Eq)]
pub struct TopArtist {
    pub index: usize,
    pub artist_name: String,
    pub genres: String,
}

impl View for TopArtist {
    type V = TopArtistView;

    open spec fn view(&self) -> TopArtistView {
        TopArtistView {
            index: self.index as int,
            artist_name: self.artist_name@,
            genres: self.genres@,
        }
    }
}

impl Clone for TopArtist {
    fn clone(&self) -> (r: Self)
        ensures
            r@ == self@,
    {
        TopArtist {
            index: self.index,
            artist_name: self.artist_name.clone(),
            genres: self.genres.clone(),
        }
    }
}

/// The entry of rank `rank` made from `item`.
pub open spec fn artist_entry(rank: int, item: ArtistItem) -> TopArtistView {
    TopArtistView {
        index: rank,
        artist_name: item.name@,
        genres: genre_text(string_views(item.genres@)),
    }
}

/// The ranked entries that a fetch of `items` with limit `limit` yields.
pub open spec fn ranked_artists(items: Seq<ArtistItem>, limit: int) -> Seq<TopArtistView> {
    let n = if items.len() < limit { items.len() as int } else { limit };
    Seq::new(n as nat, |i: int| artist_entry(i + 1, items[i]))
}

/// A fetch of N artists under a limit L with N <= L ranks them exactly
/// 1, ..., N in encounter order, each entry made from the item at its place.
pub proof fn lemma_artist_ranks_dense(items: Seq<ArtistItem>, limit: int)
    requires
        items.len() <= limit,
    ensures
        ranked_artists(items, limit).len() == items.len(),
        forall|i: int|
            0 <= i < items.len() ==> (#[trigger] ranked_artists(items, limit)[i]).index == i + 1
                && ranked_artists(items, limit)[i] == artist_entry(i + 1, items[i]),
{
}

/// The top artists of a user for one statistics period, best first.
#[derive(Debug, PartialEq, Eq)]
pub struct TopArtists {
    pub time_range: TimeWindow,
    pub artists: Vec<TopArtist>,
}

impl TopArtists {
    /// What the entries show, in list order.
    pub open spec fn entries(&self) -> Seq<TopArtistView> {
        self.artists@.map_values(|a: TopArtist| a@)
    }

    /// Ranks are dense and 1-based: the entry at position `i` has rank `i + 1`.
    pub open spec fn wf(&self) -> bool {
        forall|i: int| 0 <= i < self.artists.len() ==> #[trigger] self.artists@[i].index == i + 1
    }

    /// An empty list for `time_range`.
    pub fn new(time_range: TimeWindow) -> (r: TopArtists)
        ensures
            r.time_range == time_range,
            r.artists.len() == 0,
            r.wf(),
    {
        TopArtists { time_range, artists: Vec::new() }
    }

    /// Whether a fetch bounded by `limit` should take another item from upstream.
    pub fn wants_more(&self, limit: usize) -> (r: bool)
        ensures
            r == (self.artists.len() < limit),
    {
        self.artists.len() < limit
    }

    /// Appends `item` as the next entry, ranked one below the last.
    pub fn push_item(&mut self, item: ArtistItem)
        requires
            old(self).wf(),
            old(self).artists.len() < usize::MAX,
        ensures
            final(self).wf(),
            final(self).time_range == old(self).time_range,
            final(self).entries() == old(self).entries().push(
                artist_entry(old(self).artists.len() + 1, item),
            ),
    {
        let ghost expected = artist_entry(self.artists.len() + 1, item);
        let genres = format_genres(&item.genres);
        let entry = TopArtist { index: self.artists.len() + 1, artist_name: item.name, genres };
        assert(entry@ == expected);
        self.artists.push(entry);
        proof {
            assert(self.entries() =~= old(self).entries().push(expected));
        }
    }

    /// A walk over the entries, from the top.
    pub fn iter(&self) -> (r: TopArtistsIterator)
        ensures
            r.top_artists.time_range == self.time_range,
            r.top_artists.entries() == self.entries(),
            r.current == 0,
    {
        TopArtistsIterator { top_artists: self.clone(), current: 0 }
    }
}

impl Clone for TopArtists {
    fn clone(&self) -> (r: Self)
        ensures
            r.time_range == self.time_range,
            r.entries() == self.entries(),
    {
        let artists = self.artists.clone();
        proof {
            assert forall|i: int| 0 <= i < artists.len() implies artists@[i]@ == self.artists@[i]@ by {
                assert(cloned::<TopArtist>(self.artists[i], artists[i]));
            }
            assert(artists@.map_values(|a: TopArtist| a@) =~= self.entries());
        }
        TopArtists { time_range: self.time_range, artists }
    }
}

/// Ranks the artists that upstream yields, taking no more than `limit` of them.
pub fn collect_top_artists(time_range: TimeWindow, items: Vec<ArtistItem>, limit: usize) -> (r:
    TopArtists)
    ensures
        r.time_range == time_range,
        r.wf(),
        r.entries() == ranked_artists(items@, limit as int),
{
    let ghost all = items@;
    let mut rest = items;
    let mut out = TopArtists::new(time_range);
    while out.wants_more(limit) && rest.len() > 0
        invariant
            out.wf(),
            out.time_range == time_range,
            out.artists.len() <= limit,
            out.artists.len() + rest.len() == all.len(),
            rest@ == all.subrange(out.artists.len() as int, all.len() as int),
            out.entries() == ranked_artists(all.subrange(0, out.artists.len() as int), limit as int),
        decreases rest.len(),
    {
        let ghost k = out.artists.len() as int;
        let item = rest.remove(0);
        proof {
            assert(item == all[k]);
        }
        out.push_item(item);
        proof {
            assert(rest@ =~= all.subrange(k + 1, all.len() as int));
            assert(out.entries() =~= ranked_artists(all.subrange(0, k + 1), limit as int));
        }
    }
    proof {
        assert(ranked_artists(all.subrange(0, out.artists.len() as int), limit as int) =~= ranked_artists(all, limit as int));
    }
    out
}

/// A walk over a copy of a top-artists list.
pub struct TopArtistsIterator {
    pub top_artists: TopArtists,
    pub current: usize,
}

impl TopArtistsIterator {
    /// The entry at the current position, moving past it; `None` at the end.
    pub fn next(&mut self) -> (r: Option<TopArtist>)
        ensures
            final(self).top_artists == old(self).top_artists,
            old(self).current < old(self).top_artists.artists.len() ==> {
                &&& r is Some
                &&& r->0@ == old(self).top_artists.artists@[old(self).current as int]@
                &&& final(self).current == old(self).current + 1
            },
            old(self).current >= old(self).top_artists.artists.len() ==> {
                &&& r is None
                &&& final(self).current == old(self).current
            },
    {
        if self.current < self.top_artists.artists.len() {
            let artist = self.top_artists.artists[self.current].clone();
            self.current = self.current + 1;
            Some(artist)
        } else {
            None
        }
    }
}

/// The name to greet the user by: the service's display name, or
/// "Unknown User" where the service gave none.
pub fn display_name_or_unknown(name: Option<String>) -> (r: String)
    ensures
        name is Some ==> r@ == name->0@,
        name is None ==> r@ == "Unknown User"@,
{
    match name {
        Some(n) => n,
        None => String::from_str("Unknown User"),
    }
}

} // verus!
