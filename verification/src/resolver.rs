//! The search for a cover, step by step.
//!
//! The search asks the song catalogue first. Only if that gives no cover it asks
//! the release catalogue, and then the cover archive for one release after the
//! other, in the order of the catalogue's answer, until one has a cover. A
//! request that fails is an answer without a cover; the search itself never
//! fails.
//!
//! The library sends nothing. An [`ArtworkResolver`] says which request is due
//! and is told what came back; the caller does the sending.

use vstd::prelude::*;
use vstd::string::StringExecFns;
use crate::artwork::artwork_in;
use crate::artwork::cover_addresses_of;
use crate::artwork::get_artwork_itunes;
use crate::artwork::get_artwork_musicbrainz;
use crate::artwork::itunes_address_of;
use crate::artwork::itunes_search_url;
use crate::artwork::musicbrainz_address_of;
use crate::artwork::musicbrainz_search_url;
use crate::models::text_view;
use crate::models::texts_view;
use crate::models::ArtworkITunesSearchResponse;
use crate::models::ArtworkITunesSearchResponseView;
use crate::models::ArtworkMusicBrainzResponse;
use crate::models::MusicProps;
use crate::models::MusicPropsView;

verus! {

/// What came back from the request that was due.
#[derive(Clone, Debug, PartialEq, Eq)]
pub enum ResolverEvent {
    /// The answer of the song catalogue, or `None` if the request failed or the
    /// answer could not be read.
    SongsAnswered(Option<ArtworkITunesSearchResponse>),
    /// The answer of the release catalogue, or `None` if the request failed or
    /// the answer could not be read.
    ReleasesAnswered(Option<ArtworkMusicBrainzResponse>),
    /// The status code with which the cover archive answered, or `None` if the
    /// request failed.
    CoverProbed(Option<u16>),
}

/// A [`ResolverEvent`] with its answer as a view.
pub enum ResolverEventView {
    SongsAnswered(Option<ArtworkITunesSearchResponseView>),
    ReleasesAnswered(Option<Seq<Seq<char>>>),
    CoverProbed(Option<u16>),
}

impl View for ResolverEvent {
    type V = ResolverEventView;

    open spec fn view(&self) -> ResolverEventView {
        match self {
            ResolverEvent::SongsAnswered(Some(response)) => ResolverEventView::SongsAnswered(
                Some(response@),
            ),
            ResolverEvent::SongsAnswered(None) => ResolverEventView::SongsAnswered(None),
            ResolverEvent::ReleasesAnswered(Some(response)) => ResolverEventView::ReleasesAnswered(
                Some(response@),
            ),
            ResolverEvent::ReleasesAnswered(None) => ResolverEventView::ReleasesAnswered(None),
            ResolverEvent::CoverProbed(status) => ResolverEventView::CoverProbed(*status),
        }
    }
}

/// What the caller is to do next.
#[derive(Clone, Debug, PartialEq, Eq)]
pub enum ResolverAction {
    /// Ask the song catalogue: a GET of `url` that accepts JSON and names itself
    /// `user_agent`. The answer comes back as [`ResolverEvent::SongsAnswered`].
    AskSongs { url: String, user_agent: String },
    /// Ask the release catalogue: a GET of `url` that accepts JSON and names
    /// itself `user_agent`. The answer comes back as
    /// [`ResolverEvent::ReleasesAnswered`].
    AskReleases { url: String, user_agent: String },
    /// Ask the cover archive whether `url` exists: a HEAD of it. The status
    /// comes back as [`ResolverEvent::CoverProbed`].
    ProbeCover { url: String },
    /// The search is over: `artwork` is the address of the cover, or `None` if
    /// none was found.
    Finish { artwork: Option<String> },
}

/// A [`ResolverAction`] with its texts as sequences of characters.
pub enum ResolverActionView {
    AskSongs { url: Seq<char>, user_agent: Seq<char> },
    AskReleases { url: Seq<char>, user_agent: Seq<char> },
    ProbeCover { url: Seq<char> },
    Finish { artwork: Option<Seq<char>> },
}

impl View for ResolverAction {
    type V = ResolverActionView;

    open spec fn view(&self) -> ResolverActionView {
        match self {
            ResolverAction::AskSongs { url, user_agent } => ResolverActionView::AskSongs {
                url: url@,
                user_agent: user_agent@,
            },
            ResolverAction::AskReleases { url, user_agent } => ResolverActionView::AskReleases {
                url: url@,
                user_agent: user_agent@,
            },
            ResolverAction::ProbeCover { url } => ResolverActionView::ProbeCover { url: url@ },
            ResolverAction::Finish { artwork } => ResolverActionView::Finish {
                artwork: text_view(*artwork),
            },
        }
    }
}

/// How far a search has come.
pub enum ResolverState {
    /// The song catalogue has been asked and has not answered yet.
    AskingSongs,
    /// The release catalogue has been asked and has not answered yet.
    AskingReleases,
    /// The cover archive has been asked whether `candidates[next]` exists; those
    /// before it do not.
    Probing { candidates: Seq<Seq<char>>, next: int },
    /// The search is over.
    Done { artwork: Option<Seq<char>> },
}

/// Whether a status code says that the request succeeded: the codes from 200 to 299.
pub open spec fn is_success(status: u16) -> bool {
    200 <= status < 300
}

/// The state in which a search for the cover of `props` is after `event` came
/// in in the state `state`.
///
/// An event that does not answer the request that was due ends the search
/// without a cover. A search that is over stays as it is.
pub open spec fn next_state(
    props: MusicPropsView,
    state: ResolverState,
    event: ResolverEventView,
) -> ResolverState {
    match (state, event) {
        (ResolverState::Done { artwork }, _) => ResolverState::Done { artwork },
        (ResolverState::AskingSongs, ResolverEventView::SongsAnswered(Some(response))) => {
            match artwork_in(response, props) {
                Some(url) => ResolverState::Done { artwork: Some(url) },
                None => ResolverState::AskingReleases,
            }
        },
        (ResolverState::AskingSongs, ResolverEventView::SongsAnswered(None)) => {
            ResolverState::AskingReleases
        },
        (ResolverState::AskingReleases, ResolverEventView::ReleasesAnswered(Some(releases))) => {
            if releases.len() > 0 {
                ResolverState::Probing { candidates: cover_addresses_of(releases), next: 0 }
            } else {
                ResolverState::Done { artwork: None }
            }
        },
        (
            ResolverState::Probing { candidates, next },
            ResolverEventView::CoverProbed(Some(status)),
        ) => {
            if is_success(status) {
                ResolverState::Done { artwork: Some(candidates[next]) }
            } else if next + 1 < candidates.len() {
                ResolverState::Probing { candidates, next: next + 1 }
            } else {
                ResolverState::Done { artwork: None }
            }
        },
        _ => ResolverState::Done { artwork: None },
    }
}

/// What is to be done in the state `state` of a search for the cover of `props`.
pub open spec fn action_in(props: MusicPropsView, state: ResolverState) -> ResolverActionView {
    match state {
        ResolverState::AskingSongs => ResolverActionView::AskSongs {
            url: itunes_address_of(props),
            user_agent: "discord-rich-presence"@,
        },
        ResolverState::AskingReleases => ResolverActionView::AskReleases {
            url: musicbrainz_address_of(props),
            user_agent: "rust/apple-music-discord-rs"@,
        },
        ResolverState::Probing { candidates, next } => ResolverActionView::ProbeCover {
            url: candidates[next],
        },
        ResolverState::Done { artwork } => ResolverActionView::Finish { artwork },
    }
}

/// Tells the status codes of success from the others.
pub fn status_is_success(status: u16) -> (success: bool)
    ensures
        success == is_success(status),
{
    200 <= status && status < 300
}

#[derive(Clone, Copy, Debug)]
enum Phase {
    AskingSongs,
    AskingReleases,
    Probing,
    Done,
}

/// One search for the cover of one track.
#[derive(Debug)]
pub struct ArtworkResolver {
    props: MusicProps,
    phase: Phase,
    candidates: Vec<String>,
    next: usize,
    artwork: Option<String>,
}

impl ArtworkResolver {
    #[verifier::type_invariant]
    spec fn well_formed(self) -> bool {
        &&& self.phase is Probing ==> self.next < self.candidates.len()
        &&& !(self.phase is Done) ==> self.artwork is None
    }

    /// The track whose cover is looked for.
    pub closed spec fn props(&self) -> MusicPropsView {
        self.props@
    }

    /// How far the search has come.
    pub closed spec fn state(&self) -> ResolverState {
        match self.phase {
            Phase::AskingSongs => ResolverState::AskingSongs,
            Phase::AskingReleases => ResolverState::AskingReleases,
            Phase::Probing => ResolverState::Probing {
                candidates: texts_view(self.candidates),
                next: self.next as int,
            },
            Phase::Done => ResolverState::Done { artwork: text_view(self.artwork) },
        }
    }

    /// The track whose cover is looked for.
    pub fn track(&self) -> (props: &MusicProps)
        ensures
            props@ == self.props(),
    {
        &self.props
    }

    /// Begins the search for the cover of `props`. The first request is due:
    /// [`ArtworkResolver::pending`] gives it.
    pub fn new(props: MusicProps) -> (resolver: Self)
        ensures
            resolver.props() == props@,
            resolver.state() == ResolverState::AskingSongs,
    {
        ArtworkResolver {
            props,
            phase: Phase::AskingSongs,
            candidates: Vec::new(),
            next: 0,
            artwork: None,
        }
    }

    /// What is to be done now.
    pub fn pending(&self) -> (action: ResolverAction)
        ensures
            action@ == action_in(self.props(), self.state()),
    {
        proof {
            use_type_invariant(self);
        }
        match self.phase {
            Phase::AskingSongs => ResolverAction::AskSongs {
                url: itunes_search_url(&self.props),
                user_agent: String::from_str("discord-rich-presence"),
            },
            Phase::AskingReleases => ResolverAction::AskReleases {
                url: musicbrainz_search_url(&self.props),
                user_agent: String::from_str("rust/apple-music-discord-rs"),
            },
            Phase::Probing => ResolverAction::ProbeCover { url: self.candidates[self.next].clone() },
            Phase::Done => ResolverAction::Finish {
                artwork: match &self.artwork {
                    Some(url) => Some(url.clone()),
                    None => None,
                },
            },
        }
    }

    /// Takes in what came back from the request that was due, and says what is
    /// to be done next.
    pub fn step(&mut self, event: ResolverEvent) -> (action: ResolverAction)
        ensures
            final(self).props() == old(self).props(),
            final(self).state() == next_state(old(self).props(), old(self).state(), event@),
            action@ == action_in(final(self).props(), final(self).state()),
    {
        proof {
            use_type_invariant(&*self);
        }
        match self.phase {
            Phase::Done => {},
            Phase::AskingSongs => {
                let found = match event {
                    ResolverEvent::SongsAnswered(Some(response)) => {
                        self.phase = Phase::AskingReleases;
                        get_artwork_itunes(&response, &self.props)
                    },
                    ResolverEvent::SongsAnswered(None) => {
                        self.phase = Phase::AskingReleases;
                        None
                    },
                    _ => {
                        self.phase = Phase::Done;
                        None
                    },
                };
                if found.is_some() {
                    self.phase = Phase::Done;
                }
                self.artwork = found;
            },
            Phase::AskingReleases => {
                self.phase = Phase::Done;
                match event {
                    ResolverEvent::ReleasesAnswered(Some(response)) => {
                        if response.releases.len() > 0 {
                            self.candidates = get_artwork_musicbrainz(&response);
                            self.next = 0;
                            self.phase = Phase::Probing;
                        }
                    },
                    _ => {},
                }
            },
            Phase::Probing => {
                match event {
                    ResolverEvent::CoverProbed(Some(status)) => {
                        if status_is_success(status) {
                            let url = self.candidates[self.next].clone();
                            self.phase = Phase::Done;
                            self.artwork = Some(url);
                        } else if self.next + 1 < self.candidates.len() {
                            self.next = self.next + 1;
                        } else {
                            self.phase = Phase::Done;
                        }
                    },
                    _ => {
                        self.phase = Phase::Done;
                    },
                }
            },
        }
        self.pending()
    }
}

/// The state of a search that was in `state` and then took in `events`, one
/// after the other.
pub open spec fn state_after(
    props: MusicPropsView,
    state: ResolverState,
    events: Seq<ResolverEventView>,
) -> ResolverState
    decreases events.len(),
{
    if events.len() == 0 {
        state
    } else {
        state_after(props, next_state(props, state, events.first()), events.drop_first())
    }
}

/// The first of the addresses from `candidates[next]` on that the cover archive
/// has, where `statuses[i]` is what a probe of `candidates[i]` comes back with. A
/// probe that fails ends the search.
pub open spec fn cover_from(
    candidates: Seq<Seq<char>>,
    statuses: Seq<Option<u16>>,
    next: int,
) -> Option<Seq<char>>
    decreases candidates.len() - next,
{
    if next < 0 || next >= candidates.len() || next >= statuses.len() {
        None
    } else {
        match statuses[next] {
            None => None,
            Some(status) => if is_success(status) {
                Some(candidates[next])
            } else {
                cover_from(candidates, statuses, next + 1)
            },
        }
    }
}

/// The cover that a whole search gives: that of the song catalogue's answer if
/// it has one, else the first that the cover archive has for a release of the
/// release catalogue's answer.
pub open spec fn resolved_artwork(
    props: MusicPropsView,
    songs: Option<ArtworkITunesSearchResponseView>,
    releases: Option<Seq<Seq<char>>>,
    statuses: Seq<Option<u16>>,
) -> Option<Seq<char>> {
    let from_songs = match songs {
        Some(response) => artwork_in(response, props),
        None => None,
    };
    match (from_songs, releases) {
        (Some(url), _) => Some(url),
        (None, Some(ids)) => cover_from(cover_addresses_of(ids), statuses, 0),
        (None, None) => None,
    }
}

/// The events in which the probes' results come in.
pub open spec fn probe_events(statuses: Seq<Option<u16>>) -> Seq<ResolverEventView> {
    statuses.map_values(|status: Option<u16>| ResolverEventView::CoverProbed(status))
}

/// A cover in the song catalogue's answer ends the search at once: the next
/// thing to do is to finish with that cover, and the release catalogue is not
/// asked.
pub proof fn lemma_song_cover_ends_search(
    props: MusicPropsView,
    response: ArtworkITunesSearchResponseView,
)
    requires
        artwork_in(response, props) is Some,
    ensures
        next_state(
            props,
            ResolverState::AskingSongs,
            ResolverEventView::SongsAnswered(Some(response)),
        ) == (ResolverState::Done { artwork: artwork_in(response, props) }),
        action_in(
            props,
            next_state(
                props,
                ResolverState::AskingSongs,
                ResolverEventView::SongsAnswered(Some(response)),
            ),
        ) == (ResolverActionView::Finish { artwork: artwork_in(response, props) }),
{
}

/// A search that is over stays over, with the cover that it found, whatever
/// comes in.
pub proof fn lemma_done_is_final(
    props: MusicPropsView,
    artwork: Option<Seq<char>>,
    events: Seq<ResolverEventView>,
)
    ensures
        state_after(props, ResolverState::Done { artwork }, events) == (ResolverState::Done {
            artwork,
        }),
    decreases events.len(),
{
    if events.len() > 0 {
        lemma_done_is_final(props, artwork, events.drop_first());
    }
}

/// Probing goes through the candidates in order and stops at the first that
/// exists, or at the first probe that fails.
pub proof fn lemma_probing_finds_first_cover(
    props: MusicPropsView,
    candidates: Seq<Seq<char>>,
    statuses: Seq<Option<u16>>,
    next: int,
)
    requires
        0 <= next < candidates.len(),
        candidates.len() <= statuses.len(),
    ensures
        state_after(
            props,
            ResolverState::Probing { candidates, next },
            probe_events(statuses.skip(next)),
        ) == (ResolverState::Done { artwork: cover_from(candidates, statuses, next) }),
    decreases candidates.len() - next,
{
    let events = probe_events(statuses.skip(next));
    let state = ResolverState::Probing { candidates, next };
    assert(events.first() == ResolverEventView::CoverProbed(statuses[next]));
    assert(events.drop_first() =~= probe_events(statuses.skip(next + 1)));
    let found = cover_from(candidates, statuses, next);
    let carries_on = statuses[next] matches Some(status) && !is_success(status);
    if carries_on && next + 1 < candidates.len() {
        lemma_probing_finds_first_cover(props, candidates, statuses, next + 1);
    } else {
        if carries_on {
            assert(cover_from(candidates, statuses, next + 1) is None);
        }
        assert(next_state(props, state, events.first()) == ResolverState::Done { artwork: found });
        lemma_done_is_final(props, found, events.drop_first());
    }
}

/// The search is the chain that it is meant to be. Told the song catalogue's
/// answer, then the release catalogue's, then the results of the probes, it ends
/// with the cover of the song catalogue's answer if there is one, and else with
/// the first cover that the cover archive has for a release, in the order of the
/// release catalogue's answer.
pub proof fn lemma_search_resolves(
    props: MusicPropsView,
    songs: Option<ArtworkITunesSearchResponseView>,
    releases: Option<Seq<Seq<char>>>,
    statuses: Seq<Option<u16>>,
)
    requires
        releases matches Some(ids) ==> ids.len() <= statuses.len(),
    ensures
        state_after(
            props,
            ResolverState::AskingSongs,
            seq![
                ResolverEventView::SongsAnswered(songs),
                ResolverEventView::ReleasesAnswered(releases),
            ] + probe_events(statuses),
        ) == (ResolverState::Done {
            artwork: resolved_artwork(props, songs, releases, statuses),
        }),
{
    let answers = seq![
        ResolverEventView::SongsAnswered(songs),
        ResolverEventView::ReleasesAnswered(releases),
    ];
    let events = answers + probe_events(statuses);
    let rest = seq![ResolverEventView::ReleasesAnswered(releases)] + probe_events(statuses);
    assert(events.first() == ResolverEventView::SongsAnswered(songs));
    assert(events.drop_first() =~= rest);
    assert(rest.first() == ResolverEventView::ReleasesAnswered(releases));
    assert(rest.drop_first() =~= probe_events(statuses));
    let first = next_state(props, ResolverState::AskingSongs, events.first());
    let artwork = resolved_artwork(props, songs, releases, statuses);
    if first is Done {
        lemma_done_is_final(props, artwork, rest);
    } else {
        assert(first == ResolverState::AskingReleases);
        let second = next_state(props, first, rest.first());
        assert(state_after(props, first, rest) == state_after(
            props,
            second,
            probe_events(statuses),
        ));
        if second is Done {
            lemma_done_is_final(props, artwork, probe_events(statuses));
        } else {
            let candidates = cover_addresses_of(releases->0);
            assert(statuses.skip(0) =~= statuses);
            lemma_probing_finds_first_cover(props, candidates, statuses, 0);
        }
    }
}

} // verus!
