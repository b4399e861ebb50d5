//! What a watcher of the configuration source does with each notification.

use vstd::prelude::*;

verus! {

/// Seconds without a further write after which a burst of writes to the
/// configuration source counts as settled, and is reported once.
pub const QUIET_PERIOD_SECS: u64 = 2;

/// A notification about the configuration source, after the burst it belongs
/// to has settled.
#[derive(Clone, Copy, Debug, PartialEq, Eq, Structural)]
pub enum SourceEvent {
    /// A write has begun.
    NoticeWrite,
    /// A removal has begun.
    NoticeRemove,
    /// The source was created.
    Create,
    /// The source was written, and the writes have come to rest.
    Write,
    /// The attributes of the source changed.
    Chmod,
    /// The source was removed.
    Remove,
    /// The source was renamed.
    Rename,
    /// Notifications were lost; what is on disk may be anything.
    Rescan,
    /// The notifier itself failed.
    Error,
}

/// What the watcher does next.
#[derive(Clone, Copy, Debug, PartialEq, Eq, Structural)]
pub enum WatchAction {
    /// Read the whole source again, parse it, and end with
    /// [`crate::config::ConfigStore::reload`].
    Reload,
    /// Nothing: go on waiting.
    Wait,
}

/// Whether `event` calls for a reload: a settled write does, nothing else.
pub open spec fn calls_for_reload(event: SourceEvent) -> bool {
    event is Write
}

/// Decides what follows a notification.
pub fn on_source_event(event: SourceEvent) -> (action: WatchAction)
    ensures
        action == (if calls_for_reload(event) {
            WatchAction::Reload
        } else {
            WatchAction::Wait
        }),
{
    match event {
        SourceEvent::Write => WatchAction::Reload,
        _ => WatchAction::Wait,
    }
}

} // verus!
