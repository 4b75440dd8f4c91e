use apple_music_discord_rs::models::MusicProps;
use apple_music_discord_rs::presence::can_render;
use apple_music_discord_rs::presence::render_presence;
use apple_music_discord_rs::presence::ActivityKind;

fn track(duration: u64, player_position: u64) -> MusicProps {
    MusicProps {
        name: "Thriller".to_string(),
        artist: "Michael Jackson".to_string(),
        album: "Thriller".to_string(),
        duration,
        player_position,
    }
}

#[test]
fn status_shows_the_track() {
    let payload = render_presence(&track(357, 30), Some("http://img/1.jpg".to_string()), 1000);
    assert_eq!(payload.activity_kind, ActivityKind::Listening);
    assert_eq!(payload.state_text, "Michael Jackson");
    assert_eq!(payload.details_text, "Thriller");
    assert_eq!(payload.large_image, "http://img/1.jpg");
    assert_eq!(payload.large_text, "Thriller");
    assert_eq!(payload.start_epoch_seconds, 970);
    assert_eq!(payload.end_epoch_seconds, 1327);
    assert_eq!(payload.action_label, "Open Apple Music");
    assert_eq!(payload.action_url, "https://music.apple.com");
}

#[test]
fn start_saturates_at_the_epoch() {
    let payload = render_presence(&track(300, 1200), None, 1000);
    assert_eq!(payload.start_epoch_seconds, 0);
    assert_eq!(payload.end_epoch_seconds, 300);
}

#[test]
fn start_is_the_epoch_when_elapsed_equals_now() {
    let payload = render_presence(&track(10, 1000), None, 1000);
    assert_eq!(payload.start_epoch_seconds, 0);
    assert_eq!(payload.end_epoch_seconds, 10);
}

#[test]
fn status_without_cover_shows_the_stand_in() {
    let payload = render_presence(&track(357, 0), None, 1000);
    assert_eq!(payload.large_image, "appicon");
    assert_eq!(payload.start_epoch_seconds, 1000);
    assert_eq!(payload.end_epoch_seconds, 1357);
}

#[test]
fn status_shortens_artist_and_title_only() {
    let long = "x".repeat(200);
    let props = MusicProps {
        name: long.clone(),
        artist: long.clone(),
        album: long.clone(),
        duration: 1,
        player_position: 0,
    };
    let payload = render_presence(&props, None, 5);
    let cut = format!("{}...", "x".repeat(125));
    assert_eq!(payload.state_text, cut);
    assert_eq!(payload.details_text, cut);
    assert_eq!(payload.large_text, long);
}

#[test]
fn track_of_no_length_ends_when_it_begins() {
    let payload = render_presence(&track(0, 5), None, 100);
    assert_eq!(payload.start_epoch_seconds, 95);
    assert_eq!(payload.end_epoch_seconds, 95);
}

#[test]
fn end_may_be_the_last_second_of_all() {
    assert!(can_render(&track(u64::MAX - 100, 0), 100));
    let payload = render_presence(&track(u64::MAX - 100, 0), None, 100);
    assert_eq!(payload.start_epoch_seconds, 100);
    assert_eq!(payload.end_epoch_seconds, u64::MAX);
}

#[test]
fn end_beyond_the_last_second_cannot_be_rendered() {
    assert!(!can_render(&track(u64::MAX - 99, 0), 100));
    assert!(!can_render(&track(u64::MAX, 0), 1));
    assert!(can_render(&track(u64::MAX, 1), 1));
    assert!(can_render(&track(u64::MAX, 7), 1));
    assert!(can_render(&track(357, 30), 1_700_000_000));
}
