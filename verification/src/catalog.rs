//! What the catalog of the streaming service answers, turned into tracks.
//!
//! The catalog is asked elsewhere; here its answers are plain values. A
//! search needs every entry to be complete, the library listing passes over
//! the entries that are not, and the listing is fetched page by page.

use vstd::prelude::*;
use crate::error::Error;
use crate::track::{views, Track, TrackView, Uri, UriView};
use crate::youtube::{result_views, YoutubeResult, YoutubeResultView};

verus! {

/// A track as the catalog describes it.
#[derive(Debug)]
pub struct CatalogTrack {
    pub name: String,
    /// The names of the artists, the first being the main one.
    pub artists: Vec<String>,
    /// The reference under which the track is played, where it has one.
    pub uri: Option<String>,
}

/// The mathematical value of a [`CatalogTrack`].
pub struct CatalogTrackView {
    pub name: Seq<char>,
    pub artists: Seq<Seq<char>>,
    pub uri: Option<Seq<char>>,
}

impl View for CatalogTrack {
    type V = CatalogTrackView;

    open spec fn view(&self) -> CatalogTrackView {
        CatalogTrackView {
            name: self.name@,
            artists: self.artists@.map_values(|artist: String| artist@),
            uri: match self.uri {
                Some(uri) => Some(uri@),
                None => None,
            },
        }
    }
}

/// The views of a sequence of catalog entries, in order.
pub open spec fn entry_views(entries: Seq<CatalogTrack>) -> Seq<CatalogTrackView> {
    entries.map_values(|entry: CatalogTrack| entry@)
}

/// The track that a catalog entry gives: its title, its first artist and
/// its reference. An entry without an artist or without a reference gives
/// none.
pub open spec fn listed(entry: CatalogTrackView) -> Option<TrackView> {
    if entry.artists.len() > 0 && entry.uri is Some {
        Some(
            TrackView {
                name: entry.name,
                artist: entry.artists[0],
                uri: UriView::Spotify(entry.uri->Some_0),
            },
        )
    } else {
        None
    }
}

/// The tracks of a library listing: those that the entries give, in order;
/// incomplete entries are passed over.
pub open spec fn library_tracks(entries: Seq<CatalogTrackView>) -> Seq<TrackView> {
    entries.filter_map(|entry: CatalogTrackView| listed(entry))
}

/// The tracks of a search: one for each entry, in order. There is no
/// result where the search found nothing or an entry is incomplete.
pub open spec fn search_tracks(entries: Seq<CatalogTrackView>) -> Option<Seq<TrackView>> {
    if entries.len() > 0 && forall|i: int| 0 <= i < entries.len() ==> listed(#[trigger] entries[i]) is Some {
        Some(Seq::new(entries.len(), |i: int| listed(entries[i])->Some_0))
    } else {
        None
    }
}

/// The track that a video of the video site gives: it has no artist.
pub open spec fn video_track(video: YoutubeResultView) -> TrackView {
    TrackView { name: video.title, artist: Seq::empty(), uri: UriView::Youtube(video.href) }
}

/// What a search that found nothing, or something incomplete, is answered
/// with.
pub open spec fn no_results<T>(outcome: Result<T, Error>) -> bool {
    outcome matches Err(Error::Other(message)) && message@ == "Search returned no results."@
}

/// The track that `entry` gives, if it is complete.
pub fn track_from(entry: &CatalogTrack) -> (track: Option<Track>)
    ensures
        track is Some <==> listed(entry@) is Some,
        track matches Some(found) ==> listed(entry@) == Some(found@),
{
    if entry.artists.len() == 0 {
        return None;
    }
    match &entry.uri {
        None => None,
        Some(uri) => {
            let artist = entry.artists[0].clone();
            assert(entry@.artists[0] == artist@);
            Some(Track::new(entry.name.clone(), artist, Uri::Spotify(uri.clone())))
        },
    }
}

/// The tracks of a library listing.
pub fn tracks_from_library(entries: &Vec<CatalogTrack>) -> (tracks: Vec<Track>)
    ensures
        views(tracks@) == library_tracks(entry_views(entries@)),
{
    let mut tracks: Vec<Track> = Vec::new();
    let mut i: usize = 0;
    assert(entry_views(entries@).take(0) =~= Seq::<CatalogTrackView>::empty());
    assert(views(tracks@) =~= Seq::<TrackView>::empty());
    while i < entries.len()
        invariant
            i <= entries@.len(),
            views(tracks@) == library_tracks(entry_views(entries@).take(i as int)),
        decreases entries@.len() - i,
    {
        let ghost before = views(tracks@);
        let ghost all = entry_views(entries@);
        assert(all.take(i + 1).drop_last() =~= all.take(i as int));
        assert(all.take(i + 1).last() == entries@[i as int]@);
        if let Some(track) = track_from(&entries[i]) {
            tracks.push(track);
            assert(views(tracks@) =~= before + seq![track@]);
        }
        i += 1;
    }
    assert(entry_views(entries@).take(i as int) =~= entry_views(entries@));
    tracks
}

/// The tracks of a search. A search that found nothing, or an entry
/// without an artist or a reference, is answered with the error that says
/// that the search returned no results.
pub fn tracks_from_search(entries: &Vec<CatalogTrack>) -> (tracks: Result<Vec<Track>, Error>)
    ensures
        match search_tracks(entry_views(entries@)) {
            Some(expected) => tracks matches Ok(found) && views(found@) == expected,
            None => no_results(tracks),
        },
{
    if entries.len() == 0 {
        return Err(Error::Other(String::from_str("Search returned no results.")));
    }
    let mut found: Vec<Track> = Vec::new();
    let mut i: usize = 0;
    while i < entries.len()
        invariant
            i <= entries@.len(),
            entries@.len() > 0,
            found@.len() == i,
            forall|j: int| 0 <= j < i ==> listed(#[trigger] entry_views(entries@)[j]) == Some(found@[j]@),
        decreases entries@.len() - i,
    {
        match track_from(&entries[i]) {
            None => {
                assert(listed(entry_views(entries@)[i as int]) is None);
                return Err(Error::Other(String::from_str("Search returned no results.")));
            },
            Some(track) => {
                found.push(track);
            },
        }
        i += 1;
    }
    assert(views(found@) =~= search_tracks(entry_views(entries@))->Some_0);
    Ok(found)
}

/// The tracks that the videos of a search give, in order.
pub fn tracks_from_videos(videos: &Vec<YoutubeResult>) -> (tracks: Vec<Track>)
    ensures
        views(tracks@) == result_views(videos@).map_values(|v: YoutubeResultView| video_track(v)),
{
    let mut tracks: Vec<Track> = Vec::new();
    let mut i: usize = 0;
    while i < videos.len()
        invariant
            i <= videos@.len(),
            tracks@.len() == i,
            forall|j: int| 0 <= j < i ==> tracks@[j]@ == video_track(#[trigger] videos@[j]@),
        decreases videos@.len() - i,
    {
        let video = &videos[i];
        tracks.push(Track::new(video.title.clone(), String::new(), Uri::Youtube(video.href.clone())));
        i += 1;
    }
    assert(views(tracks@) =~= result_views(videos@).map_values(
        |v: YoutubeResultView| video_track(v),
    ));
    tracks
}

/// The first of the tracks that a search found, for a command that plays
/// what it finds.
pub fn first_result(tracks: &Vec<Track>) -> (first: Result<Track, Error>)
    ensures
        tracks@.len() > 0 ==> (first matches Ok(track) && track@ == tracks@[0]@),
        tracks@.len() == 0 ==> no_results(first),
{
    if tracks.len() == 0 {
        Err(Error::Other(String::from_str("Search returned no results.")))
    } else {
        Ok(tracks[0].clone())
    }
}

/// How many entries one request to the library listing asks for.
pub const PAGE_SIZE: u32 = 50;

/// One page of the library listing.
#[derive(Debug)]
pub struct Page {
    pub items: Vec<CatalogTrack>,
    /// How many entries the whole listing has.
    pub total: u32,
}

/// Fetches the library listing page by page: it says which page to ask
/// for next and takes the answer.
#[derive(Debug)]
pub struct LibraryPager {
    offset: u32,
    tracks: Vec<CatalogTrack>,
    done: bool,
}

/// The mathematical value of a [`LibraryPager`].
pub struct PagerView {
    /// Where the next page starts.
    pub offset: nat,
    /// The entries received so far.
    pub tracks: Seq<CatalogTrackView>,
    /// Whether the listing is complete, or was given up.
    pub done: bool,
}

impl PagerView {
    pub open spec fn initial() -> PagerView {
        PagerView { offset: 0, tracks: Seq::empty(), done: false }
    }

    /// The request for the next page, as its size and its offset.
    pub open spec fn request(self) -> Option<(u32, u32)> {
        if self.done {
            None
        } else {
            Some((PAGE_SIZE, self.offset as u32))
        }
    }

    /// The state after the answer to the request: a failed request ends
    /// the listing; a page is added to the entries, and the listing goes
    /// on behind it unless the offset already lies beyond the total, or the
    /// next offset would be no 32-bit number.
    pub open spec fn received(self, page: Option<(Seq<CatalogTrackView>, u32)>) -> PagerView {
        if self.done {
            self
        } else {
            match page {
                None => PagerView { done: true, ..self },
                Some((items, total)) => if self.offset > total || self.offset + PAGE_SIZE
                    > u32::MAX {
                    PagerView { tracks: self.tracks + items, done: true, ..self }
                } else {
                    PagerView {
                        tracks: self.tracks + items,
                        offset: self.offset + PAGE_SIZE as nat,
                        ..self
                    }
                },
            }
        }
    }
}

impl View for LibraryPager {
    type V = PagerView;

    closed spec fn view(&self) -> PagerView {
        PagerView {
            offset: self.offset as nat,
            tracks: entry_views(self.tracks@),
            done: self.done,
        }
    }
}

/// What a page holds, as [`PagerView::received`] takes it.
pub open spec fn page_view(page: Option<Page>) -> Option<(Seq<CatalogTrackView>, u32)> {
    match page {
        Some(page) => Some((entry_views(page.items@), page.total)),
        None => None,
    }
}

impl LibraryPager {
    pub fn new() -> (pager: LibraryPager)
        ensures
            pager@ == PagerView::initial(),
    {
        let pager = LibraryPager { offset: 0, tracks: Vec::new(), done: false };
        assert(pager@.tracks =~= Seq::empty());
        pager
    }

    /// The page to ask for next, as its size and its offset; `None` when
    /// the listing has ended.
    pub fn request(&self) -> (request: Option<(u32, u32)>)
        ensures
            request == self@.request(),
    {
        if self.done {
            None
        } else {
            Some((PAGE_SIZE, self.offset))
        }
    }

    /// Takes the answer to the last request: the page, or `None` where the
    /// request failed.
    pub fn receive(&mut self, page: Option<Page>)
        ensures
            final(self)@ == old(self)@.received(page_view(page)),
    {
        if self.done {
            return ;
        }
        match page {
            None => {
                self.done = true;
            },
            Some(page) => {
                let ghost before = self@.tracks;
                let ghost added = entry_views(page.items@);
                let total = page.total;
                let mut items = page.items;
                self.tracks.append(&mut items);
                assert(self@.tracks =~= before + added);
                if self.offset > total || self.offset > u32::MAX - PAGE_SIZE {
                    self.done = true;
                } else {
                    self.offset = self.offset + PAGE_SIZE;
                }
            },
        }
    }

    /// Whether the listing has ended.
    pub fn is_done(&self) -> (done: bool)
        ensures
            done == self@.done,
    {
        self.done
    }

    /// The entries received, in the order of their arrival.
    pub fn finish(self) -> (tracks: Vec<CatalogTrack>)
        ensures
            entry_views(tracks@) == self@.tracks,
    {
        self.tracks
    }
}

} // verus!
