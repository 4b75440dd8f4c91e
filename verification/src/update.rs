//! What an observation of the player leads to.

use vstd::prelude::*;
use crate::detector::is_change;
use crate::detector::ChangeDetector;
use crate::error::AppError;
use crate::error::AppErrorView;
use crate::models::MusicProps;
use crate::models::MusicPropsView;
use crate::models::NowPlayingItem;
use crate::models::NowPlayingItemView;
use crate::player::get_music_props;
use crate::player::item_view;
use crate::player::music_props_of;

verus! {

/// What is to be done with the status after an observation.
#[derive(Clone, Debug, PartialEq, Eq)]
pub enum UpdateAction {
    /// Nothing: the status already shows what is playing.
    Skip,
    /// Nothing plays: take the status down.
    ClearActivity,
    /// A track plays: look for its cover and show it.
    Present(MusicProps),
}

/// An [`UpdateAction`] with its track as a view.
pub enum UpdateActionView {
    Skip,
    ClearActivity,
    Present(MusicPropsView),
}

impl View for UpdateAction {
    type V = UpdateActionView;

    open spec fn view(&self) -> UpdateActionView {
        match self {
            UpdateAction::Skip => UpdateActionView::Skip,
            UpdateAction::ClearActivity => UpdateActionView::ClearActivity,
            UpdateAction::Present(props) => UpdateActionView::Present(props@),
        }
    }
}

/// The view of a decision or of the error that stands in its place.
pub open spec fn decision_view(decision: Result<UpdateAction, AppError>) -> Result<
    UpdateActionView,
    AppErrorView,
> {
    match decision {
        Ok(action) => Ok(action@),
        Err(error) => Err(error@),
    }
}

/// The identity of what plays: the persistent number of the track, or `None`
/// if nothing plays.
pub open spec fn identity_of(item: Option<NowPlayingItemView>) -> Option<u64> {
    match item {
        Some(i) => Some(i.persistent_id),
        None => None,
    }
}

/// What the player's report asks for: silence takes the status down, a track
/// is shown, and a track that lacks a property is an error.
pub open spec fn update_for(item: Option<NowPlayingItemView>) -> Result<
    UpdateActionView,
    AppErrorView,
> {
    match music_props_of(item) {
        Ok(props) => Ok(UpdateActionView::Present(props)),
        Err(AppErrorView::NoSongPlaying) => Ok(UpdateActionView::ClearActivity),
        Err(error) => Err(error),
    }
}

/// What an observation leads to for a detector that saw `last` before: nothing
/// if the identity is the same, else what the report asks for.
pub open spec fn gated_update_for(last: Option<u64>, item: Option<NowPlayingItemView>) -> Result<
    UpdateActionView,
    AppErrorView,
> {
    if is_change(last, identity_of(item)) {
        update_for(item)
    } else {
        Ok(UpdateActionView::Skip)
    }
}

/// Decides what is to be done with the status when the player reports `item`.
///
/// That nothing plays is no error here: it asks for the status to be taken
/// down. Any other error is handed on.
pub fn update_discord_activity(item: Option<&NowPlayingItem>) -> (decision: Result<
    UpdateAction,
    AppError,
>)
    ensures
        decision_view(decision) == update_for(item_view(item)),
        !(decision matches Ok(UpdateAction::Skip)),
{
    match get_music_props(item) {
        Ok(props) => Ok(UpdateAction::Present(props)),
        Err(AppError::NoSongPlaying) => Ok(UpdateAction::ClearActivity),
        Err(error) => Err(error),
    }
}

/// Keeps the status in step with the player: decides for every observation
/// whether it asks for anything, and for what.
pub struct UpdateOrchestrator {
    detector: ChangeDetector,
}

impl UpdateOrchestrator {
    /// The identity that was observed last.
    pub closed spec fn last_seen(&self) -> Option<u64> {
        self.detector.last_seen()
    }

    /// An orchestrator that has observed nothing yet.
    pub fn new() -> (orchestrator: Self)
        ensures
            orchestrator.last_seen() is None,
    {
        UpdateOrchestrator { detector: ChangeDetector::new() }
    }

    /// Takes in one observation of the player and decides what it asks for.
    ///
    /// An observation of the identity that was observed last asks for nothing,
    /// whatever else it holds: no cover is looked for and no status is made. Any
    /// other observation is recorded, also where it ends in an error.
    pub fn observe(&mut self, item: Option<&NowPlayingItem>) -> (decision: Result<
        UpdateAction,
        AppError,
    >)
        ensures
            final(self).last_seen() == identity_of(item_view(item)),
            decision_view(decision) == gated_update_for(old(self).last_seen(), item_view(item)),
    {
        let identity = match item {
            Some(i) => Some(i.persistent_id),
            None => None,
        };
        if self.detector.should_update(identity) {
            update_discord_activity(item)
        } else {
            Ok(UpdateAction::Skip)
        }
    }
}

/// How long to wait before the player is looked at again.
#[derive(Clone, Copy, Debug, PartialEq, Eq, Structural)]
pub enum Pause {
    /// The usual, short wait.
    Short,
    /// The longer wait after a failure.
    Cooldown,
}

/// Whether an update ended in an error.
pub open spec fn is_failure(outcome: Result<(), AppError>) -> bool {
    outcome is Err
}

/// Chooses the wait after an update: the longer one after a failure, the short
/// one otherwise.
pub fn pause_after(outcome: &Result<(), AppError>) -> (pause: Pause)
    ensures
        pause == (if is_failure(*outcome) {
            Pause::Cooldown
        } else {
            Pause::Short
        }),
{
    match outcome {
        Ok(_) => Pause::Short,
        Err(_) => Pause::Cooldown,
    }
}

} // verus!
