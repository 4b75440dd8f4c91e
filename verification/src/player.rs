//! From what the player reports to a track that can be shown.

use vstd::prelude::*;
use vstd::string::StringExecFns;
use crate::error::AppError;
use crate::error::AppErrorView;
use crate::models::MusicProps;
use crate::models::MusicPropsView;
use crate::models::NowPlayingItem;
use crate::models::NowPlayingItemView;

verus! {

/// The view of what the player reports, where it may report nothing.
pub open spec fn item_view(item: Option<&NowPlayingItem>) -> Option<NowPlayingItemView> {
    match item {
        Some(i) => Some(i@),
        None => None,
    }
}

/// The view of a track or of the reason why there is none.
pub open spec fn props_view(props: Result<MusicProps, AppError>) -> Result<
    MusicPropsView,
    AppErrorView,
> {
    match props {
        Ok(p) => Ok(p@),
        Err(e) => Err(e@),
    }
}

/// The track that the player's report describes.
///
/// No report means that nothing plays. A report without title, artist or album
/// is an error that names the first of these that is missing.
pub open spec fn music_props_of(item: Option<NowPlayingItemView>) -> Result<
    MusicPropsView,
    AppErrorView,
> {
    match item {
        None => Err(AppErrorView::NoSongPlaying),
        Some(i) => if i.title is None {
            Err(AppErrorView::MusicPropertyError("title"@))
        } else if i.artist is None {
            Err(AppErrorView::MusicPropertyError("artist"@))
        } else if i.album_title is None {
            Err(AppErrorView::MusicPropertyError("album"@))
        } else {
            Ok(
                MusicPropsView {
                    name: i.title->0,
                    artist: i.artist->0,
                    album: i.album_title->0,
                    duration: i.playback_duration,
                    player_position: i.playback_position,
                },
            )
        },
    }
}

/// Makes a track of what the player reports, or says why there is none.
pub fn get_music_props(item: Option<&NowPlayingItem>) -> (props: Result<MusicProps, AppError>)
    ensures
        props_view(props) == music_props_of(item_view(item)),
{
    match item {
        None => Err(AppError::NoSongPlaying),
        Some(i) => {
            let name = match &i.title {
                Some(title) => title.clone(),
                None => {
                    return Err(AppError::MusicPropertyError(String::from_str("title")));
                },
            };
            let artist = match &i.artist {
                Some(artist) => artist.clone(),
                None => {
                    return Err(AppError::MusicPropertyError(String::from_str("artist")));
                },
            };
            let album = match &i.album_title {
                Some(album) => album.clone(),
                None => {
                    return Err(AppError::MusicPropertyError(String::from_str("album")));
                },
            };
            Ok(
                MusicProps {
                    name,
                    artist,
                    album,
                    duration: i.playback_duration,
                    player_position: i.playback_position,
                },
            )
        },
    }
}

} // verus!
