//! The track as the player reports it, and the answers of the two catalogues.

use vstd::prelude::*;

verus! {

/// The view of a text that may be missing.
pub open spec fn text_view(text: Option<String>) -> Option<Seq<char>> {
    match text {
        Some(t) => Some(t@),
        None => None,
    }
}

/// The views of a list of texts.
pub open spec fn texts_view(texts: Vec<String>) -> Seq<Seq<char>> {
    texts@.map_values(|t: String| t@)
}

/// What the player reports of the track that it plays. A property that the
/// player does not know is `None`.
#[derive(Clone, Debug, PartialEq, Eq)]
pub struct NowPlayingItem {
    /// The player's persistent number of the track.
    pub persistent_id: u64,
    pub title: Option<String>,
    pub artist: Option<String>,
    pub album_title: Option<String>,
    /// The length of the track in whole seconds.
    pub playback_duration: u64,
    /// How far into the track the player is, in whole seconds.
    pub playback_position: u64,
}

/// A [`NowPlayingItem`] with its texts as sequences of characters.
pub struct NowPlayingItemView {
    pub persistent_id: u64,
    pub title: Option<Seq<char>>,
    pub artist: Option<Seq<char>>,
    pub album_title: Option<Seq<char>>,
    pub playback_duration: u64,
    pub playback_position: u64,
}

impl View for NowPlayingItem {
    type V = NowPlayingItemView;

    open spec fn view(&self) -> NowPlayingItemView {
        NowPlayingItemView {
            persistent_id: self.persistent_id,
            title: text_view(self.title),
            artist: text_view(self.artist),
            album_title: text_view(self.album_title),
            playback_duration: self.playback_duration,
            playback_position: self.playback_position,
        }
    }
}

/// A track with everything that the status and the search for its cover need.
#[derive(Clone, Debug, PartialEq, Eq)]
pub struct MusicProps {
    pub name: String,
    pub artist: String,
    pub album: String,
    /// The length of the track in whole seconds.
    pub duration: u64,
    /// How far into the track the player was when it was asked, in whole seconds.
    pub player_position: u64,
}

/// A [`MusicProps`] with its texts as sequences of characters.
pub struct MusicPropsView {
    pub name: Seq<char>,
    pub artist: Seq<char>,
    pub album: Seq<char>,
    pub duration: u64,
    pub player_position: u64,
}

impl View for MusicProps {
    type V = MusicPropsView;

    open spec fn view(&self) -> MusicPropsView {
        MusicPropsView {
            name: self.name@,
            artist: self.artist@,
            album: self.album@,
            duration: self.duration,
            player_position: self.player_position,
        }
    }
}

/// One song in the answer of the song catalogue.
#[derive(Clone, Debug, PartialEq, Eq)]
pub struct ArtworkITunesSearchResult {
    pub track_name: String,
    pub collection_name: String,
    pub artwork_url100: String,
    pub track_view_url: String,
}

/// An [`ArtworkITunesSearchResult`] with its texts as sequences of characters.
pub struct ArtworkITunesSearchResultView {
    pub track_name: Seq<char>,
    pub collection_name: Seq<char>,
    pub artwork_url100: Seq<char>,
    pub track_view_url: Seq<char>,
}

impl View for ArtworkITunesSearchResult {
    type V = ArtworkITunesSearchResultView;

    open spec fn view(&self) -> ArtworkITunesSearchResultView {
        ArtworkITunesSearchResultView {
            track_name: self.track_name@,
            collection_name: self.collection_name@,
            artwork_url100: self.artwork_url100@,
            track_view_url: self.track_view_url@,
        }
    }
}

/// The answer of the song catalogue to a search.
#[derive(Clone, Debug, PartialEq, Eq)]
pub struct ArtworkITunesSearchResponse {
    /// How many songs the catalogue says it found.
    pub result_count: i32,
    pub results: Vec<ArtworkITunesSearchResult>,
}

/// An [`ArtworkITunesSearchResponse`] with its songs as a sequence of views.
pub struct ArtworkITunesSearchResponseView {
    pub result_count: i32,
    pub results: Seq<ArtworkITunesSearchResultView>,
}

impl View for ArtworkITunesSearchResponse {
    type V = ArtworkITunesSearchResponseView;

    open spec fn view(&self) -> ArtworkITunesSearchResponseView {
        ArtworkITunesSearchResponseView {
            result_count: self.result_count,
            results: self.results@.map_values(|r: ArtworkITunesSearchResult| r@),
        }
    }
}

/// One release in the answer of the release catalogue.
#[derive(Clone, Debug, PartialEq, Eq)]
pub struct ArtworkMusicBrainzRelease {
    pub id: String,
}

impl View for ArtworkMusicBrainzRelease {
    type V = Seq<char>;

    open spec fn view(&self) -> Seq<char> {
        self.id@
    }
}

/// The answer of the release catalogue to a search.
#[derive(Clone, Debug, PartialEq, Eq)]
pub struct ArtworkMusicBrainzResponse {
    pub releases: Vec<ArtworkMusicBrainzRelease>,
}

impl View for ArtworkMusicBrainzResponse {
    type V = Seq<Seq<char>>;

    /// The identifiers of the releases, in the order of the answer.
    open spec fn view(&self) -> Seq<Seq<char>> {
        self.releases@.map_values(|r: ArtworkMusicBrainzRelease| r@)
    }
}

} // verus!
