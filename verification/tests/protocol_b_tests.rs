use swirly::CompositorEvent;
use swirly::protocol_b::Classification;
use swirly::protocol_b::ProtocolError;
use swirly::protocol_b::RawMessage;
use swirly::protocol_b::ViewRecord;
use swirly::protocol_b::classify;
use swirly::protocol_b::snapshot_from_views;

fn message(event: Option<&str>, id: Option<i64>, app: Option<&str>, x: Option<i64>) -> RawMessage {
    RawMessage {
        event: event.map(|s| s.to_owned()),
        view_id: id,
        view_app_id: app.map(|s| s.to_owned()),
        workspace_x: x,
    }
}

#[test]
fn workspace_coordinate_is_normalized_plus_one() {
    let msg = message(Some("wset-workspace-changed"), None, None, Some(2));
    match classify(&msg) {
        Classification::Apply(CompositorEvent::WorkspaceChanged { index }) => {
            assert_eq!(index, 3);
        }
        _ => panic!("expected a workspace change"),
    }
}

#[test]
fn mapped_becomes_new_unfocused() {
    let msg = message(Some("view-mapped"), Some(7), Some("term"), None);
    match classify(&msg) {
        Classification::Apply(CompositorEvent::New { id, raw_name, focused }) => {
            assert_eq!(id, 7);
            assert_eq!(raw_name, "term");
            assert!(!focused);
        }
        _ => panic!("expected a new-window event"),
    }
}

#[test]
fn unmapped_becomes_closed() {
    let msg = message(Some("view-unmapped"), Some(7), Some("term"), None);
    match classify(&msg) {
        Classification::Apply(CompositorEvent::Closed { id }) => assert_eq!(id, 7),
        _ => panic!("expected a close event"),
    }
}

#[test]
fn focused_becomes_focused() {
    let msg = message(Some("view-focused"), Some(9), Some("term"), None);
    match classify(&msg) {
        Classification::Apply(CompositorEvent::Focused { id }) => assert_eq!(id, 9),
        _ => panic!("expected a focus event"),
    }
}

#[test]
fn missing_event_field_is_skipped() {
    let msg = message(None, Some(1), Some("term"), None);
    match classify(&msg) {
        Classification::Skip(err) => assert_eq!(err, ProtocolError::MissingEventField),
        _ => panic!("expected a skip"),
    }
}

#[test]
fn missing_view_id_is_skipped() {
    let msg = message(Some("view-mapped"), None, Some("term"), None);
    match classify(&msg) {
        Classification::Skip(err) => assert_eq!(err, ProtocolError::MissingViewId),
        _ => panic!("expected a skip"),
    }
}

#[test]
fn missing_app_id_is_skipped() {
    let msg = message(Some("view-unmapped"), Some(1), None, None);
    match classify(&msg) {
        Classification::Skip(err) => assert_eq!(err, ProtocolError::MissingAppId),
        _ => panic!("expected a skip"),
    }
}

#[test]
fn missing_workspace_coordinate_is_skipped() {
    let msg = message(Some("wset-workspace-changed"), None, None, None);
    match classify(&msg) {
        Classification::Skip(err) => assert_eq!(err, ProtocolError::MissingWorkspaceIndex),
        _ => panic!("expected a skip"),
    }
}

#[test]
fn workspace_coordinate_out_of_range_is_skipped() {
    let msg = message(Some("wset-workspace-changed"), None, None, Some(i64::MAX));
    match classify(&msg) {
        Classification::Skip(err) => assert_eq!(err, ProtocolError::WorkspaceIndexOutOfRange),
        _ => panic!("expected a skip"),
    }
}

#[test]
fn unknown_tag_is_skipped() {
    let msg = message(Some("view-tiled"), Some(1), Some("term"), None);
    match classify(&msg) {
        Classification::Skip(err) => assert_eq!(err, ProtocolError::UnknownEventTag),
        _ => panic!("expected a skip"),
    }
}

#[test]
fn layer_shell_surface_is_ignored() {
    let msg = message(Some("view-mapped"), Some(1), Some("gtk4-layer-shell"), None);
    assert!(matches!(classify(&msg), Classification::Ignore));
    let msg = message(Some("view-focused"), Some(1), Some("gtk4-layer-shell"), None);
    assert!(matches!(classify(&msg), Classification::Ignore));
}

#[test]
fn snapshot_keeps_only_workspace_layer() {
    let views = vec![
        ViewRecord { id: 1, app_id: "term".to_owned(), layer: "workspace".to_owned() },
        ViewRecord { id: 2, app_id: "panel".to_owned(), layer: "top".to_owned() },
        ViewRecord { id: 3, app_id: "browser".to_owned(), layer: "workspace".to_owned() },
    ];
    let items = snapshot_from_views(&views);
    let got: Vec<(i64, String, bool)> =
        items.iter().map(|i| (i.id, i.raw_name.clone(), i.focused)).collect();
    assert_eq!(
        got,
        vec![(1, "term".to_owned(), false), (3, "browser".to_owned(), false)]
    );
}
