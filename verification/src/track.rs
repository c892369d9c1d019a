//! Tracks and the references that identify them.

use vstd::prelude::*;

verus! {

/// One of the two playback engines that can own the audio output device.
#[derive(Clone, Copy, Debug, PartialEq, Eq, Structural)]
pub enum Platform {
    /// The remote streaming service.
    Spotify,
    /// Audio fetched to a local file and played from there.
    Youtube,
}

/// Identifies a playable unit, tagged by the backend that can play it.
#[derive(Debug)]
pub enum Uri {
    Spotify(String),
    Youtube(String),
}

/// The mathematical value of a [`Uri`].
pub enum UriView {
    Spotify(Seq<char>),
    Youtube(Seq<char>),
}

impl UriView {
    /// The backend that plays this reference.
    pub open spec fn platform(self) -> Platform {
        match self {
            UriView::Spotify(_) => Platform::Spotify,
            UriView::Youtube(_) => Platform::Youtube,
        }
    }

    /// The identifier without its tag.
    pub open spec fn id(self) -> Seq<char> {
        match self {
            UriView::Spotify(id) => id,
            UriView::Youtube(id) => id,
        }
    }
}

impl View for Uri {
    type V = UriView;

    open spec fn view(&self) -> UriView {
        match self {
            Uri::Spotify(id) => UriView::Spotify(id@),
            Uri::Youtube(id) => UriView::Youtube(id@),
        }
    }
}

impl Clone for Uri {
    fn clone(&self) -> (copy: Uri)
        ensures
            copy == *self,
    {
        match self {
            Uri::Spotify(id) => Uri::Spotify(id.clone()),
            Uri::Youtube(id) => Uri::Youtube(id.clone()),
        }
    }
}

impl Uri {
    /// The backend that plays this reference.
    pub fn platform(&self) -> (backend: Platform)
        ensures
            backend == self@.platform(),
    {
        match self {
            Uri::Spotify(_) => Platform::Spotify,
            Uri::Youtube(_) => Platform::Youtube,
        }
    }

    /// The identifier without its tag.
    pub fn id(&self) -> (id: &String)
        ensures
            id@ == self@.id(),
    {
        match self {
            Uri::Spotify(id) => id,
            Uri::Youtube(id) => id,
        }
    }

    /// Whether two references have the same tag and the same identifier.
    pub fn same(&self, other: &Uri) -> (equal: bool)
        ensures
            equal == (self@ == other@),
    {
        match (self, other) {
            (Uri::Spotify(a), Uri::Spotify(b)) => *a == *b,
            (Uri::Youtube(a), Uri::Youtube(b)) => *a == *b,
            _ => false,
        }
    }
}

/// A track as it is shown and queued.
#[derive(Debug)]
pub struct Track {
    /// Track title
    name: String,
    /// Track artist
    artist: String,
    /// Track URI
    uri: Uri,
}

/// The mathematical value of a [`Track`].
pub struct TrackView {
    pub name: Seq<char>,
    pub artist: Seq<char>,
    pub uri: UriView,
}

impl TrackView {
    /// The track as a list shows it: the title, a dash and the artist.
    pub open spec fn line(self) -> Seq<char> {
        self.name + " - "@ + self.artist
    }
}

impl View for Track {
    type V = TrackView;

    closed spec fn view(&self) -> TrackView {
        TrackView { name: self.name@, artist: self.artist@, uri: self.uri@ }
    }
}

impl Clone for Track {
    fn clone(&self) -> (copy: Track)
        ensures
            copy == *self,
    {
        Track { name: self.name.clone(), artist: self.artist.clone(), uri: self.uri.clone() }
    }
}

impl Track {
    pub fn new(name: String, artist: String, uri: Uri) -> (track: Track)
        ensures
            track@ == (TrackView { name: name@, artist: artist@, uri: uri@ }),
    {
        Self { name, artist, uri }
    }

    pub fn name(&self) -> (name: &String)
        ensures
            name@ == self@.name,
    {
        &self.name
    }

    pub fn artist(&self) -> (artist: &String)
        ensures
            artist@ == self@.artist,
    {
        &self.artist
    }

    pub fn uri(&self) -> (uri: &Uri)
        ensures
            uri@ == self@.uri,
    {
        &self.uri
    }

    /// The track as a list shows it: the title, a dash and the artist.
    pub fn display(&self) -> (line: String)
        ensures
            line@ == self@.line(),
    {
        let mut line = self.name.clone();
        line.append(" - ");
        line.append(self.artist.as_str());
        line
    }

    /// Whether two tracks have the same title, artist and reference.
    pub fn same(&self, other: &Track) -> (equal: bool)
        ensures
            equal == (self@ == other@),
    {
        self.name == other.name && self.artist == other.artist && self.uri.same(&other.uri)
    }
}

/// `parts` written one behind the other with `separator` between them.
pub open spec fn joined(parts: Seq<Seq<char>>, separator: Seq<char>) -> Seq<char>
    decreases parts.len(),
{
    if parts.len() == 0 {
        Seq::empty()
    } else if parts.len() == 1 {
        parts[0]
    } else {
        joined(parts.drop_last(), separator) + separator + parts.last()
    }
}

/// The views of a sequence of texts, in order.
pub open spec fn texts(parts: Seq<String>) -> Seq<Seq<char>> {
    parts.map_values(|part: String| part@)
}

/// The label of a streamed track, from what the catalog says of it: the
/// artists, separated by commas, then a dash and the title.
pub open spec fn streamed_label(artists: Seq<Seq<char>>, title: Seq<char>) -> Seq<char> {
    joined(artists, ", "@) + " - "@ + title
}

/// The now-playing label of a streamed track.
pub fn now_playing_label(artists: &Vec<String>, title: &str) -> (label: String)
    ensures
        label@ == streamed_label(texts(artists@), title@),
{
    let mut label = String::new();
    let mut i: usize = 0;
    assert(texts(artists@).take(0) =~= Seq::<Seq<char>>::empty());
    while i < artists.len()
        invariant
            i <= artists@.len(),
            label@ == joined(texts(artists@).take(i as int), ", "@),
        decreases artists@.len() - i,
    {
        let ghost all = texts(artists@);
        assert(all.take(i + 1).drop_last() =~= all.take(i as int));
        assert(all.take(i + 1).last() == artists@[i as int]@);
        if i > 0 {
            label.append(", ");
        }
        label.append(artists[i].as_str());
        assert(label@ =~= joined(all.take(i + 1), ", "@));
        i += 1;
    }
    assert(texts(artists@).take(i as int) =~= texts(artists@));
    label.append(" - ");
    label.append(title);
    label
}

/// The views of a sequence of tracks, in order.
pub open spec fn views(tracks: Seq<Track>) -> Seq<TrackView> {
    tracks.map_values(|t: Track| t@)
}

} // verus!
