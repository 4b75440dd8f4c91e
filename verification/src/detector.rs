//! Tells a change of track from a repeated notification.

use vstd::prelude::*;

verus! {

/// Remembers the identity of the track that was seen last.
///
/// An identity is the player's persistent number of a track; `None` stands for
/// "nothing is playing". A detector starts out with `None`.
pub struct ChangeDetector {
    last_seen: Option<u64>,
}

/// Whether an observation of `current` is a change for a detector that saw `last` before.
pub open spec fn is_change(last: Option<u64>, current: Option<u64>) -> bool {
    last != current
}

/// The answers that a detector which saw `last` before gives to the observations
/// `seen`, one after the other.
pub open spec fn changes(last: Option<u64>, seen: Seq<Option<u64>>) -> Seq<bool>
    decreases seen.len(),
{
    if seen.len() == 0 {
        Seq::empty()
    } else {
        seq![is_change(last, seen[0])] + changes(seen[0], seen.drop_first())
    }
}

impl ChangeDetector {
    /// The identity that the detector saw last.
    pub closed spec fn last_seen(&self) -> Option<u64> {
        self.last_seen
    }

    /// A detector that has seen nothing yet.
    pub fn new() -> (detector: Self)
        ensures
            detector.last_seen() is None,
    {
        ChangeDetector { last_seen: None }
    }

    /// Records `current` and says whether it differs from what was seen last.
    ///
    /// Going from a track to silence and from silence to a track are changes too.
    pub fn should_update(&mut self, current: Option<u64>) -> (changed: bool)
        ensures
            changed == is_change(old(self).last_seen(), current),
            final(self).last_seen() == current,
    {
        let same = match (self.last_seen, current) {
            (Some(a), Some(b)) => a == b,
            (None, None) => true,
            _ => false,
        };
        if !same {
            self.last_seen = current;
        }
        !same
    }
}

/// The same identity observed twice in a row never counts twice: whatever the
/// detector saw before, the second observation is no change.
pub proof fn lemma_repeat_is_no_change(last: Option<u64>, id: Option<u64>)
    ensures
        changes(last, seq![id, id]) =~= seq![is_change(last, id), false],
{
    let seen = seq![id, id];
    assert(seen.drop_first() =~= seq![id]);
    assert(seq![id].drop_first() =~= Seq::<Option<u64>>::empty());
    reveal_with_fuel(changes, 3);
}

/// A run of one identity that differs from what the detector saw before is
/// answered by one `true` and then by `false` only.
pub proof fn lemma_identical_run(last: Option<u64>, id: Option<u64>, seen: Seq<Option<u64>>)
    requires
        last != id,
        seen.len() > 0,
        forall|i: int| 0 <= i < seen.len() ==> seen[i] == id,
    ensures
        changes(last, seen).len() == seen.len(),
        changes(last, seen)[0],
        forall|i: int| 1 <= i < seen.len() ==> !changes(last, seen)[i],
{
    lemma_quiet_run(id, seen.drop_first());
}

/// A detector that saw `id` answers `false` to every further observation of `id`.
pub proof fn lemma_quiet_run(id: Option<u64>, seen: Seq<Option<u64>>)
    requires
        forall|i: int| 0 <= i < seen.len() ==> seen[i] == id,
    ensures
        changes(id, seen).len() == seen.len(),
        forall|i: int| 0 <= i < seen.len() ==> !changes(id, seen)[i],
    decreases seen.len(),
{
    if seen.len() > 0 {
        lemma_quiet_run(id, seen.drop_first());
    }
}

/// Silence between two plays of one track is not skipped over: after `Some(x)`,
/// `None` is a change, and `Some(x)` after it is a change again.
pub proof fn lemma_gap_is_not_deduplicated(x: u64)
    ensures
        changes(Some(x), seq![None, Some(x)]) =~= seq![true, true],
{
    let seen = seq![None, Some(x)];
    assert(seen.drop_first() =~= seq![Some(x)]);
    assert(seq![Some(x)].drop_first() =~= Seq::<Option<u64>>::empty());
    reveal_with_fuel(changes, 3);
}

} // verus!
