use device_upgrade::watcher::{on_source_event, SourceEvent, WatchAction, QUIET_PERIOD_SECS};

#[test]
fn quiet_period_is_two_seconds() {
    assert_eq!(QUIET_PERIOD_SECS, 2);
}

#[test]
fn a_settled_write_calls_for_a_reload() {
    assert_eq!(on_source_event(SourceEvent::Write), WatchAction::Reload);
}

#[test]
fn no_other_notification_calls_for_a_reload() {
    let others = [
        SourceEvent::NoticeWrite,
        SourceEvent::NoticeRemove,
        SourceEvent::Create,
        SourceEvent::Chmod,
        SourceEvent::Remove,
        SourceEvent::Rename,
        SourceEvent::Rescan,
        SourceEvent::Error,
    ];
    for event in others {
        assert_eq!(on_source_event(event), WatchAction::Wait);
    }
}
