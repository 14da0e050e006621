//! When `repos sync` saves: a state machine over what the discovery found,
//! the selections asked per provider (GitHub, then Railway, then Vercel,
//! each only when something was found there), the proposed correlations
//! and the final confirmation. The caller performs each action and hands
//! back its outcome; the configuration is saved only after a "yes".

use vstd::prelude::*;
use crate::domain::PlatformKind;

verus! {

/// Where a sync stands.
#[derive(Debug, Clone, Copy, PartialEq, Eq)]
pub enum SyncState {
    /// The discovery is running.
    Discovering,
    /// Asking which resources of a provider to track; the counts of what
    /// was found at Railway and Vercel decide which selections follow.
    Selecting { platform: PlatformKind, railway: usize, vercel: usize },
    /// Proposing correlations from the selections.
    Proposing,
    /// Asking to accept the proposed correlations.
    Reviewing,
    /// Saving the configuration.
    Saving,
    /// The sync is over.
    Done,
}

/// How a sync ended.
#[derive(Debug, Clone, Copy, PartialEq, Eq)]
pub enum SyncEnd {
    /// Nothing was found at any provider.
    NothingDiscovered,
    /// A selection prompt was cancelled.
    Cancelled,
    /// The selections give no correlation.
    NothingSelected,
    /// The proposed correlations were declined.
    Declined,
    /// The configuration was saved.
    Saved,
    /// An outcome that does not fit the state.
    OutOfOrder,
}

/// What the caller is to do next.
#[derive(Debug, Clone, Copy, PartialEq, Eq)]
pub enum SyncAction {
    /// Ask which resources of this provider to track.
    AskSelection { platform: PlatformKind },
    /// Build the proposed correlations from the selections.
    Propose,
    /// Ask to accept the proposed correlations.
    AskConfirm,
    /// Save the merged configuration.
    Save,
    /// The sync is over.
    Finish { end: SyncEnd },
}

/// What came of the last action.
#[derive(Debug, Clone, Copy, PartialEq, Eq)]
pub enum SyncEvent {
    /// How many active resources each provider has.
    Discovered { github: usize, railway: usize, vercel: usize },
    /// A selection was answered (`false` when cancelled).
    Selected { answered: bool },
    /// How many correlations are proposed.
    Proposed { count: usize },
    /// The answer to accepting them (`false` also when cancelled).
    Confirmed { accepted: bool },
    /// The configuration was saved.
    Saved,
}

/// The next selection after GitHub's, or the proposal when none is left.
pub open spec fn after_github(railway: usize, vercel: usize) -> (SyncState, SyncAction) {
    if railway > 0 {
        (
            SyncState::Selecting { platform: PlatformKind::Railway, railway, vercel },
            SyncAction::AskSelection { platform: PlatformKind::Railway },
        )
    } else {
        after_railway(railway, vercel)
    }
}

/// The next selection after Railway's, or the proposal when none is left.
pub open spec fn after_railway(railway: usize, vercel: usize) -> (SyncState, SyncAction) {
    if vercel > 0 {
        (
            SyncState::Selecting { platform: PlatformKind::Vercel, railway, vercel },
            SyncAction::AskSelection { platform: PlatformKind::Vercel },
        )
    } else {
        (SyncState::Proposing, SyncAction::Propose)
    }
}

/// The sync ends with `end`.
pub open spec fn ends(end: SyncEnd) -> (SyncState, SyncAction) {
    (SyncState::Done, SyncAction::Finish { end })
}

/// What a sync does next, given where it stands and what came of the last
/// action.
pub open spec fn sync_next(s: SyncState, e: SyncEvent) -> (SyncState, SyncAction) {
    match (s, e) {
        (SyncState::Discovering, SyncEvent::Discovered { github, railway, vercel }) => if github == 0 && railway == 0
            && vercel == 0 {
            ends(SyncEnd::NothingDiscovered)
        } else if github > 0 {
            (
                SyncState::Selecting { platform: PlatformKind::GitHub, railway, vercel },
                SyncAction::AskSelection { platform: PlatformKind::GitHub },
            )
        } else {
            after_github(railway, vercel)
        },
        (SyncState::Selecting { platform, railway, vercel }, SyncEvent::Selected { answered }) => if !answered {
            ends(SyncEnd::Cancelled)
        } else {
            match platform {
                PlatformKind::GitHub => after_github(railway, vercel),
                PlatformKind::Railway => after_railway(railway, vercel),
                PlatformKind::Vercel => (SyncState::Proposing, SyncAction::Propose),
            }
        },
        (SyncState::Proposing, SyncEvent::Proposed { count }) => if count == 0 {
            ends(SyncEnd::NothingSelected)
        } else {
            (SyncState::Reviewing, SyncAction::AskConfirm)
        },
        (SyncState::Reviewing, SyncEvent::Confirmed { accepted }) => if accepted {
            (SyncState::Saving, SyncAction::Save)
        } else {
            ends(SyncEnd::Declined)
        },
        (SyncState::Saving, SyncEvent::Saved) => ends(SyncEnd::Saved),
        _ => ends(SyncEnd::OutOfOrder),
    }
}

fn next_after_github(railway: usize, vercel: usize) -> (r: (SyncState, SyncAction))
    ensures
        r == after_github(railway, vercel),
{
    if railway > 0 {
        (
            SyncState::Selecting { platform: PlatformKind::Railway, railway, vercel },
            SyncAction::AskSelection { platform: PlatformKind::Railway },
        )
    } else {
        next_after_railway(railway, vercel)
    }
}

fn next_after_railway(railway: usize, vercel: usize) -> (r: (SyncState, SyncAction))
    ensures
        r == after_railway(railway, vercel),
{
    if vercel > 0 {
        (
            SyncState::Selecting { platform: PlatformKind::Vercel, railway, vercel },
            SyncAction::AskSelection { platform: PlatformKind::Vercel },
        )
    } else {
        (SyncState::Proposing, SyncAction::Propose)
    }
}

/// One step of a sync: where it goes and what the caller is to do.
pub fn sync_step(s: SyncState, e: SyncEvent) -> (r: (SyncState, SyncAction))
    ensures
        r == sync_next(s, e),
{
    match (s, e) {
        (SyncState::Discovering, SyncEvent::Discovered { github, railway, vercel }) => if github == 0 && railway
            == 0 && vercel == 0 {
            (SyncState::Done, SyncAction::Finish { end: SyncEnd::NothingDiscovered })
        } else if github > 0 {
            (
                SyncState::Selecting { platform: PlatformKind::GitHub, railway, vercel },
                SyncAction::AskSelection { platform: PlatformKind::GitHub },
            )
        } else {
            next_after_github(railway, vercel)
        },
        (SyncState::Selecting { platform, railway, vercel }, SyncEvent::Selected { answered }) => if !answered {
            (SyncState::Done, SyncAction::Finish { end: SyncEnd::Cancelled })
        } else {
            match platform {
                PlatformKind::GitHub => next_after_github(railway, vercel),
                PlatformKind::Railway => next_after_railway(railway, vercel),
                PlatformKind::Vercel => (SyncState::Proposing, SyncAction::Propose),
            }
        },
        (SyncState::Proposing, SyncEvent::Proposed { count }) => if count == 0 {
            (SyncState::Done, SyncAction::Finish { end: SyncEnd::NothingSelected })
        } else {
            (SyncState::Reviewing, SyncAction::AskConfirm)
        },
        (SyncState::Reviewing, SyncEvent::Confirmed { accepted }) => if accepted {
            (SyncState::Saving, SyncAction::Save)
        } else {
            (SyncState::Done, SyncAction::Finish { end: SyncEnd::Declined })
        },
        (SyncState::Saving, SyncEvent::Saved) => (SyncState::Done, SyncAction::Finish { end: SyncEnd::Saved }),
        _ => (SyncState::Done, SyncAction::Finish { end: SyncEnd::OutOfOrder }),
    }
}

/// The configuration is saved only after the proposed correlations were
/// accepted: the one step that asks to save is a "yes" in review.
pub proof fn save_only_after_yes(s: SyncState, e: SyncEvent)
    requires
        sync_next(s, e).1 == SyncAction::Save,
    ensures
        s == SyncState::Reviewing,
        e == (SyncEvent::Confirmed { accepted: true }),
{
}

/// Review is reached only from a proposal of at least one correlation.
pub proof fn review_needs_a_proposal(s: SyncState, e: SyncEvent)
    requires
        sync_next(s, e).0 == SyncState::Reviewing,
    ensures
        s == SyncState::Proposing,
        e matches SyncEvent::Proposed { count } && count > 0,
{
}

/// A provider's selection is asked only when something was found there.
pub proof fn selection_only_for_found(s: SyncState, e: SyncEvent, p: PlatformKind)
    requires
        sync_next(s, e).1 == (SyncAction::AskSelection { platform: p }),
    ensures
        sync_next(s, e).0 matches SyncState::Selecting { platform, railway, vercel } && platform == p && (p
            == PlatformKind::Railway ==> railway > 0) && (p == PlatformKind::Vercel ==> vercel > 0),
        p == PlatformKind::GitHub ==> (e matches SyncEvent::Discovered { github, .. } && github > 0),
{
}

/// The text printed when a sync ends without saving, if any.
pub open spec fn end_text(end: SyncEnd) -> Option<Seq<char>> {
    match end {
        SyncEnd::NothingDiscovered => Some(
            "No resources discovered. Make sure you are authenticated with at least one platform."@,
        ),
        SyncEnd::NothingSelected => Some("No resources selected."@),
        SyncEnd::Declined => Some("Sync cancelled."@),
        SyncEnd::OutOfOrder => Some("sync flow out of order"@),
        SyncEnd::Cancelled | SyncEnd::Saved => None,
    }
}

/// The text printed when a sync ends without saving, if any.
pub fn end_message(end: SyncEnd) -> (r: Option<String>)
    ensures
        match r {
            Some(t) => end_text(end) == Some(t@),
            None => end_text(end) is None,
        },
{
    match end {
        SyncEnd::NothingDiscovered => Some(
            crate::text::owned("No resources discovered. Make sure you are authenticated with at least one platform."),
        ),
        SyncEnd::NothingSelected => Some(crate::text::owned("No resources selected.")),
        SyncEnd::Declined => Some(crate::text::owned("Sync cancelled.")),
        SyncEnd::OutOfOrder => Some(crate::text::owned("sync flow out of order")),
        SyncEnd::Cancelled | SyncEnd::Saved => None,
    }
}

} // verus!
