//! Where the cover of a track is looked for: the addresses that are asked, and
//! what is taken from the answers.
//!
//! Two catalogues are asked. The song catalogue takes one line of free text and
//! answers with songs, each with the address of its cover. The release catalogue
//! takes a query of fields and answers with releases; whether a release has a
//! cover is then asked of the cover archive, release by release.

use vstd::prelude::*;
use vstd::string::StringExecFns;
use crate::chars::contains;
use crate::chars::is_substring;
use crate::chars::lowercase;
use crate::chars::remove_char;
use crate::chars::to_lowercase;
use crate::chars::without_char;
use crate::models::text_view;
use crate::models::texts_view;
use crate::models::ArtworkITunesSearchResponse;
use crate::models::ArtworkITunesSearchResponseView;
use crate::models::ArtworkITunesSearchResultView;
use crate::models::ArtworkMusicBrainzResponse;
use crate::models::MusicProps;
use crate::models::MusicPropsView;
use crate::text::escaped;
use crate::text::lucene_escape;
use crate::text::remove_parentheses_content;
use crate::text::without_parentheses;

verus! {

/// The text that `url::form_urlencoded::Serializer` makes of a list of pairs of
/// a name and a value: the query part of an address, in the syntax of HTML forms.
pub uninterp spec fn form_urlencoded(pairs: Seq<(Seq<char>, Seq<char>)>) -> Seq<char>;

/// Three pairs of a name and a value as the query part of an address.
///
/// Calls `url::form_urlencoded::Serializer`: `new` on an empty string,
/// `append_pair` once for each pair, in the order given, and `finish`. The result
/// is named, not spelled out: it depends on the six texts alone.
#[verifier::external_body]
fn serialize_pairs(
    name1: &str,
    value1: &str,
    name2: &str,
    value2: &str,
    name3: &str,
    value3: &str,
) -> (query: String)
    ensures
        query@ == form_urlencoded(seq![(name1@, value1@), (name2@, value2@), (name3@, value3@)]),
{
    url::form_urlencoded::Serializer::new(String::new())
        .append_pair(name1, value1)
        .append_pair(name2, value2)
        .append_pair(name3, value3)
        .finish()
}

/// The address that asks `endpoint` the question `query`.
pub open spec fn address_of(endpoint: Seq<char>, query: Seq<char>) -> Seq<char> {
    endpoint + seq!['?'] + query
}

/// The address that asks `endpoint` the question `query`: the two with a
/// question mark between them.
pub fn search_address(endpoint: &str, query: &str) -> (address: String)
    ensures
        address@ == address_of(endpoint@, query@),
{
    proof {
        reveal_strlit("?");
        assert("?"@ =~= seq!['?']);
    }
    String::from_str(endpoint).concat("?").concat(query)
}

/// The free text by which the song catalogue is searched for a track: title,
/// artist and album with a space between them, without any asterisk, which the
/// catalogue would read as a wildcard.
pub open spec fn itunes_term_of(props: MusicPropsView) -> Seq<char> {
    without_char(props.name + seq![' '] + props.artist + seq![' '] + props.album, '*')
}

/// The free text by which the song catalogue is searched for `props`.
pub fn itunes_search_term(props: &MusicProps) -> (term: String)
    ensures
        term@ == itunes_term_of(props@),
{
    proof {
        reveal_strlit(" ");
        assert(" "@ =~= seq![' ']);
    }
    let line = String::from_str(props.name.as_str()).concat(" ").concat(
        props.artist.as_str(),
    ).concat(" ").concat(props.album.as_str());
    remove_char(line.as_str(), '*')
}

/// The address of a search of the song catalogue for a track.
pub open spec fn itunes_address_of(props: MusicPropsView) -> Seq<char> {
    address_of(
        "https://itunes.apple.com/search"@,
        form_urlencoded(
            seq![
                ("media"@, "music"@),
                ("entity"@, "song"@),
                ("term"@, itunes_term_of(props)),
            ],
        ),
    )
}

/// The address of a search of the song catalogue for `props`.
pub fn itunes_search_url(props: &MusicProps) -> (address: String)
    ensures
        address@ == itunes_address_of(props@),
{
    let term = itunes_search_term(props);
    let query = serialize_pairs("media", "music", "entity", "song", "term", term.as_str());
    search_address("https://itunes.apple.com/search", query.as_str())
}

/// Whether a song of the catalogue is the track that is looked for, told from
/// the lower-case forms of four texts: the song's album and title hold the
/// track's album and title.
pub open spec fn is_same_track(
    collection_lower: Seq<char>,
    track_lower: Seq<char>,
    album_lower: Seq<char>,
    name_lower: Seq<char>,
) -> bool {
    is_substring(collection_lower, album_lower) && is_substring(track_lower, name_lower)
}

/// Whether `result` is the track `props`, without regard to upper and lower case.
pub open spec fn result_matches(result: ArtworkITunesSearchResultView, props: MusicPropsView) -> bool {
    is_same_track(
        lowercase(result.collection_name),
        lowercase(result.track_name),
        lowercase(props.album),
        lowercase(props.name),
    )
}

/// The cover of the first of `results` that is the track `props`, if there is one.
pub open spec fn first_matching_artwork(
    results: Seq<ArtworkITunesSearchResultView>,
    props: MusicPropsView,
) -> Option<Seq<char>>
    decreases results.len(),
{
    if results.len() == 0 {
        None
    } else if result_matches(results.first(), props) {
        Some(results.first().artwork_url100)
    } else {
        first_matching_artwork(results.drop_first(), props)
    }
}

/// The cover that an answer of the song catalogue gives for the track `props`.
///
/// An answer that counts one song is believed: the cover is that of its first
/// song. From an answer that counts more, the first song that is the track is
/// taken. An answer that counts none gives no cover, nor does one that counts one
/// song and holds none.
pub open spec fn artwork_in(
    response: ArtworkITunesSearchResponseView,
    props: MusicPropsView,
) -> Option<Seq<char>> {
    if response.result_count == 1 {
        if response.results.len() > 0 {
            Some(response.results.first().artwork_url100)
        } else {
            None
        }
    } else if response.result_count > 1 {
        first_matching_artwork(response.results, props)
    } else {
        None
    }
}

/// Whether a song is the track that is looked for, given the lower-case forms
/// of the song's album and title and of the track's album and title.
pub fn same_track(collection_lower: &str, track_lower: &str, album_lower: &str, name_lower: &str) -> (same: bool)
    ensures
        same == is_same_track(collection_lower@, track_lower@, album_lower@, name_lower@),
{
    contains(collection_lower, album_lower) && contains(track_lower, name_lower)
}

/// Picks the cover of the track `props` from an answer of the song catalogue.
pub fn get_artwork_itunes(response: &ArtworkITunesSearchResponse, props: &MusicProps) -> (artwork:
    Option<String>)
    ensures
        text_view(artwork) == artwork_in(response@, props@),
{
    if response.result_count == 1 {
        if response.results.len() > 0 {
            Some(response.results[0].artwork_url100.clone())
        } else {
            None
        }
    } else if response.result_count > 1 {
        let album_lower = to_lowercase(props.album.as_str());
        let name_lower = to_lowercase(props.name.as_str());
        let mut i: usize = 0;
        proof {
            assert(response@.results.skip(0) =~= response@.results);
        }
        while i < response.results.len()
            invariant
                response.result_count > 1,
                i <= response.results.len(),
                album_lower@ == lowercase(props@.album),
                name_lower@ == lowercase(props@.name),
                first_matching_artwork(response@.results, props@) == first_matching_artwork(
                    response@.results.skip(i as int),
                    props@,
                ),
            decreases response.results.len() - i,
        {
            let result = &response.results[i];
            let collection_lower = to_lowercase(result.collection_name.as_str());
            let track_lower = to_lowercase(result.track_name.as_str());
            proof {
                let rest = response@.results.skip(i as int);
                assert(rest.len() > 0);
                assert(rest.first() == result@);
                assert(rest.drop_first() =~= response@.results.skip(i + 1));
                assert(result_matches(result@, props@) ==> first_matching_artwork(rest, props@)
                    == Some(result@.artwork_url100));
            }
            if same_track(
                collection_lower.as_str(),
                track_lower.as_str(),
                album_lower.as_str(),
                name_lower.as_str(),
            ) {
                return Some(result.artwork_url100.clone());
            }
            i += 1;
        }
        None
    } else {
        None
    }
}

/// Whether `text` names no artist or album of its own: it holds one of the
/// words by which compilations and singles are marked.
pub open spec fn is_excluded(text: Seq<char>) -> bool {
    is_substring(text, "Various Artist"@) || is_substring(text, "Single"@)
}

/// One clause of a query of the release catalogue: the field, a colon, and the
/// value between double quotes.
pub open spec fn clause_of(field: Seq<char>, value: Seq<char>) -> Seq<char> {
    field + seq![':', '"'] + value + seq!['"']
}

/// The clause that names the artist: the artist without bracketed remarks. It
/// is not escaped.
pub open spec fn artist_clause_of(props: MusicPropsView) -> Seq<char> {
    clause_of("artist"@, without_parentheses(props.artist))
}

/// The clause that names the release by its album, or, where the album has no
/// name of its own, the recording by its title. Either text is escaped, and
/// keeps its bracketed remarks.
pub open spec fn title_clause_of(props: MusicPropsView) -> Seq<char> {
    if is_excluded(props.album) {
        clause_of("recording"@, escaped(props.name))
    } else {
        clause_of("release"@, escaped(props.album))
    }
}

/// The query by which the release catalogue is searched for a track: the
/// artist's clause, unless the artist is a marker and no name, then a space and
/// the title's clause.
pub open spec fn musicbrainz_query_of(props: MusicPropsView) -> Seq<char> {
    if is_excluded(props.artist) {
        title_clause_of(props)
    } else {
        artist_clause_of(props) + seq![' '] + title_clause_of(props)
    }
}

/// The address of a search of the release catalogue for a track.
pub open spec fn musicbrainz_address_of(props: MusicPropsView) -> Seq<char> {
    address_of(
        "https://musicbrainz.org/ws/2/release"@,
        form_urlencoded(
            seq![
                ("fmt"@, "json"@),
                ("limit"@, "10"@),
                ("query"@, musicbrainz_query_of(props)),
            ],
        ),
    )
}

/// The address at which the cover archive holds the front cover of a release.
pub open spec fn cover_address_of(release_id: Seq<char>) -> Seq<char> {
    "https://coverartarchive.org/release/"@ + release_id + "/front"@
}

/// The addresses at which the cover archive holds the front covers of
/// `releases`, in the same order.
pub open spec fn cover_addresses_of(releases: Seq<Seq<char>>) -> Seq<Seq<char>> {
    releases.map_values(|id: Seq<char>| cover_address_of(id))
}

/// Whether `text` holds one of the markers of compilations and singles.
pub fn is_excluded_name(text: &str) -> (excluded: bool)
    ensures
        excluded == is_excluded(text@),
{
    contains(text, "Various Artist") || contains(text, "Single")
}

/// One clause of a query of the release catalogue.
pub fn query_clause(field: &str, value: &str) -> (clause: String)
    ensures
        clause@ == clause_of(field@, value@),
{
    proof {
        reveal_strlit(":\"");
        reveal_strlit("\"");
        assert(":\""@ =~= seq![':', '"']);
        assert("\""@ =~= seq!['"']);
    }
    String::from_str(field).concat(":\"").concat(value).concat("\"")
}

/// The query by which the release catalogue is searched for `props`.
pub fn musicbrainz_query(props: &MusicProps) -> (query: String)
    ensures
        query@ == musicbrainz_query_of(props@),
{
    let title_clause = if is_excluded_name(props.album.as_str()) {
        query_clause("recording", lucene_escape(props.name.as_str()).as_str())
    } else {
        query_clause("release", lucene_escape(props.album.as_str()).as_str())
    };
    if is_excluded_name(props.artist.as_str()) {
        title_clause
    } else {
        let artist = remove_parentheses_content(props.artist.as_str());
        let artist_clause = query_clause("artist", artist.as_str());
        proof {
            reveal_strlit(" ");
            assert(" "@ =~= seq![' ']);
        }
        artist_clause.concat(" ").concat(title_clause.as_str())
    }
}

/// The address of a search of the release catalogue for `props`.
pub fn musicbrainz_search_url(props: &MusicProps) -> (address: String)
    ensures
        address@ == musicbrainz_address_of(props@),
{
    let query = musicbrainz_query(props);
    let pairs = serialize_pairs("fmt", "json", "limit", "10", "query", query.as_str());
    search_address("https://musicbrainz.org/ws/2/release", pairs.as_str())
}

/// The address at which the cover archive holds the front cover of the release
/// `release_id`.
pub fn cover_art_url(release_id: &str) -> (address: String)
    ensures
        address@ == cover_address_of(release_id@),
{
    String::from_str("https://coverartarchive.org/release/").concat(release_id).concat("/front")
}

/// Lists where the covers of the releases in an answer of the release
/// catalogue would be, in the order of the answer. Whether a cover is there is
/// for the cover archive to say.
pub fn get_artwork_musicbrainz(response: &ArtworkMusicBrainzResponse) -> (candidates: Vec<String>)
    ensures
        texts_view(candidates) == cover_addresses_of(response@),
        candidates.len() == response.releases.len(),
{
    let mut candidates: Vec<String> = Vec::new();
    let mut i: usize = 0;
    while i < response.releases.len()
        invariant
            i <= response.releases.len(),
            candidates.len() == i,
            texts_view(candidates) == cover_addresses_of(response@.take(i as int)),
        decreases response.releases.len() - i,
    {
        let address = cover_art_url(response.releases[i].id.as_str());
        proof {
            let before = texts_view(candidates);
            assert(cover_addresses_of(response@.take(i + 1)) =~= before.push(address@));
            assert(candidates@.push(address).map_values(|t: String| t@) =~= before.push(address@));
        }
        candidates.push(address);
        i += 1;
    }
    proof {
        assert(response@.take(response@.len() as int) =~= response@);
    }
    candidates
}

} // verus!
