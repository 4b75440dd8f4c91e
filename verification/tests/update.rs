use apple_music_discord_rs::error::AppError;
use apple_music_discord_rs::models::MusicProps;
use apple_music_discord_rs::models::NowPlayingItem;
use apple_music_discord_rs::update::pause_after;
use apple_music_discord_rs::update::update_discord_activity;
use apple_music_discord_rs::update::Pause;
use apple_music_discord_rs::update::UpdateAction;
use apple_music_discord_rs::update::UpdateOrchestrator;

fn item(persistent_id: u64, title: &str) -> NowPlayingItem {
    NowPlayingItem {
        persistent_id,
        title: Some(title.to_string()),
        artist: Some("Michael Jackson".to_string()),
        album_title: Some("Thriller".to_string()),
        playback_duration: 357,
        playback_position: 0,
    }
}

fn props(title: &str) -> MusicProps {
    MusicProps {
        name: title.to_string(),
        artist: "Michael Jackson".to_string(),
        album: "Thriller".to_string(),
        duration: 357,
        player_position: 0,
    }
}

#[test]
fn playing_track_is_presented() {
    assert_eq!(update_discord_activity(Some(&item(1, "Thriller"))), Ok(UpdateAction::Present(props("Thriller"))));
}

#[test]
fn silence_clears_the_status() {
    assert_eq!(update_discord_activity(None), Ok(UpdateAction::ClearActivity));
}

#[test]
fn incomplete_track_is_an_error() {
    let report = NowPlayingItem { artist: None, ..item(1, "Thriller") };
    assert_eq!(
        update_discord_activity(Some(&report)),
        Err(AppError::MusicPropertyError("artist".to_string()))
    );
}

#[test]
fn repeated_observation_is_skipped() {
    let mut orchestrator = UpdateOrchestrator::new();
    let thriller = item(1, "Thriller");
    assert_eq!(orchestrator.observe(Some(&thriller)), Ok(UpdateAction::Present(props("Thriller"))));
    assert_eq!(orchestrator.observe(Some(&thriller)), Ok(UpdateAction::Skip));
    assert_eq!(orchestrator.observe(Some(&thriller)), Ok(UpdateAction::Skip));
}

#[test]
fn identity_decides_not_the_texts() {
    let mut orchestrator = UpdateOrchestrator::new();
    assert_eq!(orchestrator.observe(Some(&item(1, "Thriller"))), Ok(UpdateAction::Present(props("Thriller"))));
    assert_eq!(orchestrator.observe(Some(&item(1, "Beat It"))), Ok(UpdateAction::Skip));
    assert_eq!(orchestrator.observe(Some(&item(2, "Beat It"))), Ok(UpdateAction::Present(props("Beat It"))));
}

#[test]
fn silence_after_a_track_clears_once() {
    let mut orchestrator = UpdateOrchestrator::new();
    let thriller = item(1, "Thriller");
    assert_eq!(orchestrator.observe(Some(&thriller)), Ok(UpdateAction::Present(props("Thriller"))));
    assert_eq!(orchestrator.observe(None), Ok(UpdateAction::ClearActivity));
    assert_eq!(orchestrator.observe(None), Ok(UpdateAction::Skip));
    assert_eq!(orchestrator.observe(Some(&thriller)), Ok(UpdateAction::Present(props("Thriller"))));
}

#[test]
fn silence_at_the_start_is_skipped() {
    let mut orchestrator = UpdateOrchestrator::new();
    assert_eq!(orchestrator.observe(None), Ok(UpdateAction::Skip));
}

#[test]
fn failed_observation_is_recorded() {
    let mut orchestrator = UpdateOrchestrator::new();
    let report = NowPlayingItem { title: None, ..item(5, "") };
    assert_eq!(orchestrator.observe(Some(&report)), Err(AppError::MusicPropertyError("title".to_string())));
    assert_eq!(orchestrator.observe(Some(&report)), Ok(UpdateAction::Skip));
}

#[test]
fn failure_asks_for_the_longer_wait() {
    assert_eq!(pause_after(&Ok(())), Pause::Short);
    assert_eq!(pause_after(&Err(AppError::DiscordError("pipe closed".to_string()))), Pause::Cooldown);
    assert_eq!(pause_after(&Err(AppError::NoSongPlaying)), Pause::Cooldown);
}
