//! The status that is shown for a track.

use vstd::prelude::*;
use vstd::string::StringExecFns;
use crate::models::text_view;
use crate::models::MusicProps;
use crate::models::MusicPropsView;
use crate::text::truncate_string;
use crate::text::truncated;
use crate::text::MAX_TEXT_LEN;

verus! {

/// What the status says that its owner does.
#[derive(Clone, Copy, Debug, PartialEq, Eq, Structural)]
pub enum ActivityKind {
    Listening,
}

/// A status, ready to be handed to the presence client.
#[derive(Clone, Debug, PartialEq, Eq)]
pub struct PresencePayload {
    pub activity_kind: ActivityKind,
    /// The second line of the status: the artist, shortened.
    pub state_text: String,
    /// The first line of the status: the title, shortened.
    pub details_text: String,
    /// The address of the cover, or the name of the image that stands in for it.
    pub large_image: String,
    /// The text that belongs to the image: the album.
    pub large_text: String,
    /// When the track began, in seconds since the epoch.
    pub start_epoch_seconds: u64,
    /// When the track will end, in seconds since the epoch.
    pub end_epoch_seconds: u64,
    /// The label of the status's button.
    pub action_label: String,
    /// The address that the button opens.
    pub action_url: String,
}

/// A [`PresencePayload`] with its texts as sequences of characters.
pub struct PresencePayloadView {
    pub activity_kind: ActivityKind,
    pub state_text: Seq<char>,
    pub details_text: Seq<char>,
    pub large_image: Seq<char>,
    pub large_text: Seq<char>,
    pub start_epoch_seconds: u64,
    pub end_epoch_seconds: u64,
    pub action_label: Seq<char>,
    pub action_url: Seq<char>,
}

impl View for PresencePayload {
    type V = PresencePayloadView;

    open spec fn view(&self) -> PresencePayloadView {
        PresencePayloadView {
            activity_kind: self.activity_kind,
            state_text: self.state_text@,
            details_text: self.details_text@,
            large_image: self.large_image@,
            large_text: self.large_text@,
            start_epoch_seconds: self.start_epoch_seconds,
            end_epoch_seconds: self.end_epoch_seconds,
            action_label: self.action_label@,
            action_url: self.action_url@,
        }
    }
}

impl PresencePayloadView {
    /// What holds of every status that is made here: it does not end before it
    /// begins, and its two lines are short enough to be shown.
    pub open spec fn is_valid(self) -> bool {
        &&& self.start_epoch_seconds <= self.end_epoch_seconds
        &&& self.state_text.len() <= MAX_TEXT_LEN
        &&& self.details_text.len() <= MAX_TEXT_LEN
    }
}

/// When a track began that is `elapsed` seconds in at the time `now`: that many
/// seconds before `now`, but not before the epoch.
pub open spec fn start_of(now: u64, elapsed: u64) -> int {
    if elapsed >= now {
        0
    } else {
        now - elapsed
    }
}

/// When the track `props` ends if it is observed at the time `now`.
pub open spec fn end_of(props: MusicPropsView, now: u64) -> int {
    start_of(now, props.player_position) + props.duration
}

/// The status for the track `props` with the cover `artwork`, observed at the
/// time `now`. It is meant for a track whose end fits into 64 bits.
pub open spec fn payload_of(
    props: MusicPropsView,
    artwork: Option<Seq<char>>,
    now: u64,
) -> PresencePayloadView {
    PresencePayloadView {
        activity_kind: ActivityKind::Listening,
        state_text: truncated(props.artist),
        details_text: truncated(props.name),
        large_image: match artwork {
            Some(url) => url,
            None => "appicon"@,
        },
        large_text: props.album,
        start_epoch_seconds: start_of(now, props.player_position) as u64,
        end_epoch_seconds: end_of(props, now) as u64,
        action_label: "Open Apple Music"@,
        action_url: "https://music.apple.com"@,
    }
}

/// Whether the end of the track `props`, observed at the time `now`, is a time
/// that fits into 64 bits, so that a status can be made for it.
pub fn can_render(props: &MusicProps, now: u64) -> (fits: bool)
    ensures
        fits == (end_of(props@, now) <= u64::MAX),
{
    let start = now.saturating_sub(props.player_position);
    start.checked_add(props.duration).is_some()
}

/// Makes the status for the track `props` with the cover `artwork`, observed
/// at the time `now`, in seconds since the epoch.
///
/// The track began `player_position` seconds before `now`, or at the epoch if
/// that would be earlier, and ends `duration` seconds after it began. Artist and
/// title are shortened; the album is not. Without a cover the image is the one
/// named `appicon`.
pub fn render_presence(props: &MusicProps, artwork: Option<String>, now: u64) -> (payload:
    PresencePayload)
    requires
        end_of(props@, now) <= u64::MAX,
    ensures
        payload@ == payload_of(props@, text_view(artwork), now),
        payload@.is_valid(),
        payload.start_epoch_seconds == start_of(now, props.player_position),
        payload.end_epoch_seconds - payload.start_epoch_seconds == props.duration,
{
    let start = now.saturating_sub(props.player_position);
    let end = start + props.duration;
    PresencePayload {
        activity_kind: ActivityKind::Listening,
        state_text: truncate_string(props.artist.as_str()),
        details_text: truncate_string(props.name.as_str()),
        large_image: match artwork {
            Some(url) => url,
            None => String::from_str("appicon"),
        },
        large_text: props.album.clone(),
        start_epoch_seconds: start,
        end_epoch_seconds: end,
        action_label: String::from_str("Open Apple Music"),
        action_url: String::from_str("https://music.apple.com"),
    }
}

} // verus!
