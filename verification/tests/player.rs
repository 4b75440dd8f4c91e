use apple_music_discord_rs::error::AppError;
use apple_music_discord_rs::models::MusicProps;
use apple_music_discord_rs::models::NowPlayingItem;
use apple_music_discord_rs::player::get_music_props;

fn item() -> NowPlayingItem {
    NowPlayingItem {
        persistent_id: 77,
        title: Some("Thriller".to_string()),
        artist: Some("Michael Jackson".to_string()),
        album_title: Some("Thriller (Album)".to_string()),
        playback_duration: 357,
        playback_position: 30,
    }
}

#[test]
fn report_with_all_properties_is_a_track() {
    assert_eq!(
        get_music_props(Some(&item())),
        Ok(MusicProps {
            name: "Thriller".to_string(),
            artist: "Michael Jackson".to_string(),
            album: "Thriller (Album)".to_string(),
            duration: 357,
            player_position: 30,
        })
    );
}

#[test]
fn no_report_means_that_nothing_plays() {
    assert_eq!(get_music_props(None), Err(AppError::NoSongPlaying));
}

#[test]
fn missing_title_is_named() {
    let report = NowPlayingItem { title: None, ..item() };
    assert_eq!(get_music_props(Some(&report)), Err(AppError::MusicPropertyError("title".to_string())));
}

#[test]
fn missing_artist_is_named() {
    let report = NowPlayingItem { artist: None, ..item() };
    assert_eq!(get_music_props(Some(&report)), Err(AppError::MusicPropertyError("artist".to_string())));
}

#[test]
fn missing_album_is_named() {
    let report = NowPlayingItem { album_title: None, ..item() };
    assert_eq!(get_music_props(Some(&report)), Err(AppError::MusicPropertyError("album".to_string())));
}

#[test]
fn first_missing_property_is_named() {
    let report = NowPlayingItem { title: None, artist: None, album_title: None, ..item() };
    assert_eq!(get_music_props(Some(&report)), Err(AppError::MusicPropertyError("title".to_string())));
    let report = NowPlayingItem { artist: None, album_title: None, ..item() };
    assert_eq!(get_music_props(Some(&report)), Err(AppError::MusicPropertyError("artist".to_string())));
}

#[test]
fn empty_texts_are_properties_too() {
    let report = NowPlayingItem {
        title: Some(String::new()),
        artist: Some(String::new()),
        album_title: Some(String::new()),
        ..item()
    };
    assert_eq!(
        get_music_props(Some(&report)),
        Ok(MusicProps {
            name: String::new(),
            artist: String::new(),
            album: String::new(),
            duration: 357,
            player_position: 30,
        })
    );
}
