//! Mirrors the track that a media player is playing into a rich-presence status.
//!
//! The crate holds the decisions of that job and proves them: when a new status
//! is due, how the cover art is looked up in two catalogues one after the other,
//! and what the status that is shown holds. Talking to the player, to the
//! catalogues and to the presence client is left to the caller, which performs
//! the requests that the library asks for and hands their answers back.

pub mod artwork;
pub mod chars;
pub mod detector;
pub mod error;
pub mod models;
pub mod player;
pub mod presence;
pub mod resolver;
pub mod text;
pub mod update;
