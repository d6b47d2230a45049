use niri_ipc::WindowLayout;
use waysted::niri::{NiriReply, SessionPhase};
use waysted::{CompositorEvent, FocusError, Niri, WindowInfo, WindowRecord};

fn layout() -> WindowLayout {
    WindowLayout {
        pos_in_scrolling_layout: None,
        tile_size: (100.0, 50.0),
        window_size: (100, 50),
        tile_pos_in_workspace_view: None,
        window_offset_in_tile: (0.0, 0.0),
    }
}

fn record(id: u64, title: &str, app: &str, focused: bool) -> WindowRecord {
    WindowRecord {
        id,
        title: Some(title.to_string()),
        app_id: Some(app.to_string()),
        is_focused: focused,
        is_urgent: false,
        layout: layout(),
    }
}

fn focused_count(niri: &Niri, ids: &[u64]) -> usize {
    ids.iter()
        .filter(|id| niri.window(**id).map(|w| w.is_focused).unwrap_or(false))
        .count()
}

fn signal_of(e: Option<Option<WindowInfo>>) -> Option<Option<(String, String)>> {
    e.map(|s| s.map(|w| (w.title, w.app_name)))
}

fn synced() -> Niri {
    let mut niri = Niri::new();
    niri.populate_windows(vec![
        record(1, "doc.txt - Editor", "editor", true),
        record(2, "Inbox", "mail", false),
    ]);
    niri
}

#[test]
fn snapshot_sets_cache_and_focus() {
    let niri = synced();
    assert_eq!(niri.len(), 2);
    assert_eq!(niri.focused_window_id(), Some(1));
    assert_eq!(niri.window(2).unwrap().title.as_deref(), Some("Inbox"));
}

#[test]
fn snapshot_replaces_and_never_merges() {
    let mut niri = synced();
    let signal = niri.handle_event(CompositorEvent::WindowsChanged {
        windows: vec![record(7, "Terminal", "foot", false), record(8, "Music", "player", false)],
    });
    assert!(signal.is_none());
    assert_eq!(niri.len(), 2);
    assert!(niri.window(1).is_none());
    assert!(niri.window(2).is_none());
    assert_eq!(niri.window(7).unwrap().app_id.as_deref(), Some("foot"));
    assert_eq!(niri.window(8).unwrap().title.as_deref(), Some("Music"));
    // nothing in the new list is focused, so no id is recorded as focused
    assert_eq!(niri.focused_window_id(), None);
}

#[test]
fn empty_snapshot_empties_cache() {
    let mut niri = synced();
    niri.populate_windows(vec![]);
    assert_eq!(niri.len(), 0);
    assert_eq!(niri.focused_window_id(), None);
}

#[test]
fn focus_change_emits_new_window() {
    let mut niri = synced();
    let signal = niri.handle_event(CompositorEvent::WindowFocusChanged { id: Some(2) });
    assert_eq!(signal_of(signal), Some(Some(("Inbox".to_string(), "mail".to_string()))));
    assert!(!niri.window(1).unwrap().is_focused);
    assert!(niri.window(2).unwrap().is_focused);
    assert_eq!(niri.focused_window_id(), Some(2));
}

#[test]
fn focus_change_to_none_emits_absence() {
    let mut niri = synced();
    let signal = niri.handle_event(CompositorEvent::WindowFocusChanged { id: None });
    assert_eq!(signal_of(signal), Some(None));
    assert!(!niri.window(1).unwrap().is_focused);
    assert_eq!(niri.focused_window_id(), None);
}

#[test]
fn focus_change_to_unknown_window_is_ignored() {
    let mut niri = synced();
    let signal = niri.handle_event(CompositorEvent::WindowFocusChanged { id: Some(99) });
    assert!(signal.is_none());
    assert_eq!(niri.len(), 2);
    assert!(niri.window(99).is_none());
    // the previous focus flag is cleared, the rest is untouched
    assert!(!niri.window(1).unwrap().is_focused);
    assert_eq!(niri.window(1).unwrap().title.as_deref(), Some("doc.txt - Editor"));
    assert_eq!(niri.window(2).unwrap().title.as_deref(), Some("Inbox"));
}

#[test]
fn urgency_and_layout_for_unknown_window_are_ignored() {
    let mut niri = synced();
    assert!(niri.handle_event(CompositorEvent::WindowUrgencyChanged { id: 42, urgent: true }).is_none());
    let mut moved = layout();
    moved.window_size = (640, 480);
    assert!(niri.handle_event(CompositorEvent::WindowLayoutsChanged { changes: vec![(43, moved)] }).is_none());
    assert_eq!(niri.len(), 2);
    assert!(niri.window(1).unwrap().is_focused);
    assert!(!niri.window(1).unwrap().is_urgent);
    assert!(!niri.window(2).unwrap().is_urgent);
    assert_eq!(niri.window(1).unwrap().layout, layout());
    assert_eq!(niri.focused_window_id(), Some(1));
}

#[test]
fn urgency_and_layout_update_known_window() {
    let mut niri = synced();
    assert!(niri.handle_event(CompositorEvent::WindowUrgencyChanged { id: 2, urgent: true }).is_none());
    assert!(niri.window(2).unwrap().is_urgent);
    let mut moved = layout();
    moved.window_size = (640, 480);
    let changes = vec![(2, moved.clone()), (99, layout())];
    assert!(niri.handle_event(CompositorEvent::WindowLayoutsChanged { changes }).is_none());
    assert_eq!(niri.window(2).unwrap().layout, moved);
    assert_eq!(niri.window(1).unwrap().layout, layout());
}

#[test]
fn retitle_with_same_title_emits_nothing() {
    let mut niri = synced();
    let signal = niri.handle_event(CompositorEvent::WindowOpenedOrChanged {
        window: record(1, "doc.txt - Editor", "editor", true),
    });
    assert!(signal.is_none());
    assert_eq!(niri.len(), 2);
}

#[test]
fn retitle_of_focused_window_emits_once() {
    let mut niri = synced();
    let signal = niri.handle_event(CompositorEvent::WindowOpenedOrChanged {
        window: record(1, "report.txt - Editor", "editor", true),
    });
    assert_eq!(
        signal_of(signal),
        Some(Some(("report.txt - Editor".to_string(), "editor".to_string())))
    );
    assert_eq!(niri.window(1).unwrap().title.as_deref(), Some("report.txt - Editor"));
}

#[test]
fn retitle_of_unfocused_window_emits_nothing() {
    let mut niri = synced();
    let signal = niri.handle_event(CompositorEvent::WindowOpenedOrChanged {
        window: record(2, "Inbox (3)", "mail", false),
    });
    assert!(signal.is_none());
    assert_eq!(niri.window(2).unwrap().title.as_deref(), Some("Inbox (3)"));
}

#[test]
fn new_window_emits_nothing() {
    let mut niri = synced();
    let signal = niri.handle_event(CompositorEvent::WindowOpenedOrChanged {
        window: record(3, "Browser", "firefox", false),
    });
    assert!(signal.is_none());
    assert_eq!(niri.len(), 3);
    assert_eq!(niri.focused_window_id(), Some(1));
}

#[test]
fn new_focused_window_takes_focus_from_others() {
    let mut niri = synced();
    let signal = niri.handle_event(CompositorEvent::WindowOpenedOrChanged {
        window: record(3, "Browser", "firefox", true),
    });
    assert!(signal.is_none());
    assert_eq!(focused_count(&niri, &[1, 2, 3]), 1);
    assert!(niri.window(3).unwrap().is_focused);
    assert_eq!(niri.focused_window_id(), Some(3));
}

#[test]
fn close_removes_window_and_emits_nothing() {
    let mut niri = synced();
    assert!(niri.handle_event(CompositorEvent::WindowClosed { id: 1 }).is_none());
    assert!(niri.window(1).is_none());
    assert_eq!(niri.len(), 1);
    // focus then moves on; the missing previous window is no error
    let signal = niri.handle_event(CompositorEvent::WindowFocusChanged { id: Some(2) });
    assert_eq!(signal_of(signal), Some(Some(("Inbox".to_string(), "mail".to_string()))));
}

#[test]
fn other_events_change_nothing() {
    let mut niri = synced();
    assert!(niri.handle_event(CompositorEvent::Other).is_none());
    assert_eq!(niri.len(), 2);
    assert_eq!(niri.focused_window_id(), Some(1));
}

#[test]
fn at_most_one_window_focused_through_deltas() {
    let mut niri = synced();
    let ids = [1, 2, 3, 4];
    let events = vec![
        CompositorEvent::WindowOpenedOrChanged { window: record(3, "Browser", "firefox", true) },
        CompositorEvent::WindowFocusChanged { id: Some(2) },
        CompositorEvent::WindowOpenedOrChanged { window: record(4, "Chat", "chat", false) },
        CompositorEvent::WindowFocusChanged { id: Some(4) },
        CompositorEvent::WindowClosed { id: 4 },
        CompositorEvent::WindowFocusChanged { id: Some(1) },
        CompositorEvent::WindowOpenedOrChanged { window: record(2, "Inbox", "mail", true) },
        CompositorEvent::WindowFocusChanged { id: None },
    ];
    for event in events {
        niri.handle_event(event);
        assert!(focused_count(&niri, &ids) <= 1);
    }
    assert_eq!(focused_count(&niri, &ids), 0);
}

#[test]
fn absent_title_reads_as_empty() {
    let mut niri = Niri::new();
    let mut untitled = record(5, "", "viewer", false);
    untitled.title = None;
    niri.populate_windows(vec![untitled]);
    let signal = niri.handle_event(CompositorEvent::WindowFocusChanged { id: Some(5) });
    assert_eq!(signal_of(signal), Some(Some((String::new(), "viewer".to_string()))));
}

#[test]
fn focused_reply_gives_window() {
    let mut niri = Niri::new();
    let reply = Ok(NiriReply::FocusedWindow(Some(record(9, "Notes", "notes", true))));
    let info = niri.get_focused_window(reply).unwrap();
    assert_eq!(info.title, "Notes");
    assert_eq!(info.app_name, "notes");
    assert_eq!(niri.focused_window_id(), Some(9));
}

#[test]
fn focused_reply_without_window_is_no_focus() {
    let mut niri = Niri::new();
    let r = niri.get_focused_window(Ok(NiriReply::FocusedWindow(None)));
    assert!(matches!(r, Err(FocusError::NoFocus)));
}

#[test]
fn focused_request_rejects_other_replies() {
    let mut niri = Niri::new();
    let r = niri.get_focused_window(Ok(NiriReply::Windows(vec![record(1, "a", "b", true)])));
    assert!(matches!(r, Err(FocusError::ProtocolError(_))));
    assert_eq!(niri.focused_window_id(), None);
    let r = niri.get_focused_window(Err("no such request".to_string()));
    assert!(matches!(r, Err(FocusError::ProtocolError(m)) if m == "no such request"));
}

#[test]
fn window_list_reply_syncs_cache() {
    let mut niri = Niri::new();
    assert!(niri.sync_windows(Ok(NiriReply::Windows(vec![record(1, "a", "b", true)]))).is_ok());
    assert_eq!(niri.len(), 1);
    assert_eq!(niri.focused_window_id(), Some(1));
    let r = niri.sync_windows(Ok(NiriReply::FocusedWindow(None)));
    assert!(matches!(r, Err(FocusError::ProtocolError(_))));
    assert_eq!(niri.len(), 1);
    assert_eq!(niri.focused_window_id(), Some(1));
}

#[test]
fn event_stream_needs_handled_reply() {
    let mut niri = Niri::new();
    assert!(niri.sync_windows(Ok(NiriReply::Windows(vec![]))).is_ok());
    assert_eq!(niri.session_phase(), SessionPhase::Synced);
    assert!(niri.confirm_event_stream(Ok(NiriReply::Handled)).is_ok());
    assert_eq!(niri.session_phase(), SessionPhase::Streaming);

    let mut niri = Niri::new();
    let r = niri.confirm_event_stream(Ok(NiriReply::Other));
    assert!(matches!(r, Err(FocusError::ProtocolError(_))));
    assert_eq!(niri.session_phase(), SessionPhase::Closed);

    let mut niri = Niri::new();
    let r = niri.confirm_event_stream(Err("refused".to_string()));
    assert!(matches!(r, Err(FocusError::ProtocolError(m)) if m == "refused"));
    assert_eq!(niri.session_phase(), SessionPhase::Closed);
}

#[test]
fn session_phases_follow_the_session() {
    let mut niri = Niri::new();
    assert_eq!(niri.session_phase(), SessionPhase::Uninitialized);
    assert!(niri.sync_windows(Ok(NiriReply::Windows(vec![record(1, "a", "b", true)]))).is_ok());
    assert_eq!(niri.session_phase(), SessionPhase::Synced);
    assert!(niri.confirm_event_stream(Ok(NiriReply::Handled)).is_ok());
    niri.handle_event(CompositorEvent::WindowFocusChanged { id: None });
    assert_eq!(niri.session_phase(), SessionPhase::Streaming);
    niri.close();
    assert_eq!(niri.session_phase(), SessionPhase::Closed);
    assert_eq!(niri.len(), 1);
}

#[test]
fn failed_window_list_closes_session() {
    let mut niri = Niri::new();
    assert!(niri.sync_windows(Err("socket error".to_string())).is_err());
    assert_eq!(niri.session_phase(), SessionPhase::Closed);
}
