//! What can go wrong while a status is brought up to date.

use vstd::prelude::*;
use vstd::string::StringExecFns;

verus! {

/// The ways in which an update can fail.
///
/// `NoSongPlaying` is no failure of the update: it is how the player says that
/// it is silent, and it leads to the status being cleared.
#[derive(Clone, Debug, PartialEq, Eq)]
pub enum AppError {
    /// The player plays nothing.
    NoSongPlaying,
    /// The playing track lacks the property that is named.
    MusicPropertyError(String),
    /// A request to a catalogue failed; the text says how.
    NetworkError(String),
    /// The presence client refused a call; the text says how.
    DiscordError(String),
    /// Anything else; the text says what.
    Other(String),
}

/// An [`AppError`] with its texts as sequences of characters.
pub enum AppErrorView {
    NoSongPlaying,
    MusicPropertyError(Seq<char>),
    NetworkError(Seq<char>),
    DiscordError(Seq<char>),
    Other(Seq<char>),
}

impl View for AppError {
    type V = AppErrorView;

    open spec fn view(&self) -> AppErrorView {
        match self {
            AppError::NoSongPlaying => AppErrorView::NoSongPlaying,
            AppError::MusicPropertyError(name) => AppErrorView::MusicPropertyError(name@),
            AppError::NetworkError(cause) => AppErrorView::NetworkError(cause@),
            AppError::DiscordError(cause) => AppErrorView::DiscordError(cause@),
            AppError::Other(cause) => AppErrorView::Other(cause@),
        }
    }
}

/// The sentence that describes `error`.
pub open spec fn message_of(error: AppErrorView) -> Seq<char> {
    match error {
        AppErrorView::NoSongPlaying => "Music app is not playing any song"@,
        AppErrorView::MusicPropertyError(name) => "Failed to get music property: "@ + name,
        AppErrorView::NetworkError(cause) => "Network error: "@ + cause,
        AppErrorView::DiscordError(cause) => "Discord RPC error: "@ + cause,
        AppErrorView::Other(cause) => "Other error: "@ + cause,
    }
}

impl AppError {
    /// The sentence that describes this error, for a log or a terminal.
    pub fn message(&self) -> (text: String)
        ensures
            text@ == message_of(self@),
    {
        match self {
            AppError::NoSongPlaying => String::from_str("Music app is not playing any song"),
            AppError::MusicPropertyError(name) => String::from_str(
                "Failed to get music property: ",
            ).concat(name.as_str()),
            AppError::NetworkError(cause) => String::from_str("Network error: ").concat(
                cause.as_str(),
            ),
            AppError::DiscordError(cause) => String::from_str("Discord RPC error: ").concat(
                cause.as_str(),
            ),
            AppError::Other(cause) => String::from_str("Other error: ").concat(cause.as_str()),
        }
    }
}

} // verus!
