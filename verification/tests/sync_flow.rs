use pulsos::domain::PlatformKind;
use pulsos::sync_flow::{end_message, sync_step, SyncAction, SyncEnd, SyncEvent, SyncState};

#[test]
fn sync_asks_only_where_something_was_found_then_saves_after_yes() {
    let (s, a) = sync_step(SyncState::Discovering, SyncEvent::Discovered { github: 0, railway: 2, vercel: 1 });
    assert_eq!(a, SyncAction::AskSelection { platform: PlatformKind::Railway });
    let (s, a) = sync_step(s, SyncEvent::Selected { answered: true });
    assert_eq!(a, SyncAction::AskSelection { platform: PlatformKind::Vercel });
    let (s, a) = sync_step(s, SyncEvent::Selected { answered: true });
    assert_eq!(a, SyncAction::Propose);
    let (s, a) = sync_step(s, SyncEvent::Proposed { count: 2 });
    assert_eq!(a, SyncAction::AskConfirm);
    let (s, a) = sync_step(s, SyncEvent::Confirmed { accepted: true });
    assert_eq!(a, SyncAction::Save);
    let (s, a) = sync_step(s, SyncEvent::Saved);
    assert_eq!((s, a), (SyncState::Done, SyncAction::Finish { end: SyncEnd::Saved }));
}

#[test]
fn sync_ends_without_saving() {
    let (_, a) = sync_step(SyncState::Discovering, SyncEvent::Discovered { github: 0, railway: 0, vercel: 0 });
    assert_eq!(a, SyncAction::Finish { end: SyncEnd::NothingDiscovered });
    let (s, a) = sync_step(SyncState::Discovering, SyncEvent::Discovered { github: 3, railway: 0, vercel: 0 });
    assert_eq!(a, SyncAction::AskSelection { platform: PlatformKind::GitHub });
    let (_, a) = sync_step(s, SyncEvent::Selected { answered: false });
    assert_eq!(a, SyncAction::Finish { end: SyncEnd::Cancelled });
    let (_, a) = sync_step(SyncState::Proposing, SyncEvent::Proposed { count: 0 });
    assert_eq!(a, SyncAction::Finish { end: SyncEnd::NothingSelected });
    let (_, a) = sync_step(SyncState::Reviewing, SyncEvent::Confirmed { accepted: false });
    assert_eq!(a, SyncAction::Finish { end: SyncEnd::Declined });
    let (_, a) = sync_step(SyncState::Reviewing, SyncEvent::Saved);
    assert_eq!(a, SyncAction::Finish { end: SyncEnd::OutOfOrder });
}

#[test]
fn sync_end_messages() {
    assert_eq!(end_message(SyncEnd::NothingSelected).as_deref(), Some("No resources selected."));
    assert_eq!(end_message(SyncEnd::Declined).as_deref(), Some("Sync cancelled."));
    assert_eq!(
        end_message(SyncEnd::NothingDiscovered).as_deref(),
        Some("No resources discovered. Make sure you are authenticated with at least one platform.")
    );
    assert_eq!(end_message(SyncEnd::Cancelled), None);
    assert_eq!(end_message(SyncEnd::Saved), None);
}
