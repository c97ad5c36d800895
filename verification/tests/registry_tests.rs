use swirly::CompositorEvent;
use swirly::OverrideTable;
use swirly::Registry;
use swirly::SnapshotItem;

fn empty_registry() -> Registry {
    Registry::new(OverrideTable::empty())
}

fn entry_tuples(reg: &Registry) -> Vec<(i64, String, bool)> {
    reg.entries()
        .iter()
        .map(|e| (e.id, e.display_name.clone(), e.focused))
        .collect()
}

fn focused_count(reg: &Registry) -> usize {
    reg.entries().iter().filter(|e| e.focused).count()
}

#[test]
fn end_to_end_scenario() {
    let mut reg = empty_registry();
    reg.apply(&CompositorEvent::New { id: 1, raw_name: "term".to_owned(), focused: false });
    reg.apply(&CompositorEvent::New { id: 2, raw_name: "browser".to_owned(), focused: false });
    reg.apply(&CompositorEvent::Focused { id: 2 });
    assert_eq!(
        entry_tuples(&reg),
        vec![(1, "term".to_owned(), false), (2, "browser".to_owned(), true)]
    );
    reg.apply(&CompositorEvent::Closed { id: 1 });
    assert_eq!(entry_tuples(&reg), vec![(2, "browser".to_owned(), true)]);
}

#[test]
fn new_registry_is_empty_on_workspace_one() {
    let reg = empty_registry();
    assert_eq!(reg.len(), 0);
    assert_eq!(reg.workspace_index(), 1);
}

#[test]
fn at_most_one_focus_after_every_event() {
    let mut reg = empty_registry();
    let events = vec![
        CompositorEvent::New { id: 1, raw_name: "a".to_owned(), focused: false },
        CompositorEvent::New { id: 2, raw_name: "b".to_owned(), focused: true },
        CompositorEvent::Focused { id: 1 },
        CompositorEvent::New { id: 3, raw_name: "c".to_owned(), focused: true },
        CompositorEvent::Focused { id: 2 },
        CompositorEvent::Closed { id: 2 },
        CompositorEvent::Focused { id: 3 },
        CompositorEvent::WorkspaceChanged { index: 5 },
        CompositorEvent::Focused { id: 1 },
    ];
    for event in &events {
        reg.apply(event);
        assert!(focused_count(&reg) <= 1);
    }
}

#[test]
fn focus_preserves_order() {
    let mut reg = empty_registry();
    reg.apply(&CompositorEvent::New { id: 10, raw_name: "a".to_owned(), focused: false });
    reg.apply(&CompositorEvent::New { id: 20, raw_name: "b".to_owned(), focused: false });
    reg.apply(&CompositorEvent::New { id: 30, raw_name: "c".to_owned(), focused: false });
    reg.apply(&CompositorEvent::Focused { id: 20 });
    let ids: Vec<i64> = reg.entries().iter().map(|e| e.id).collect();
    assert_eq!(ids, vec![10, 20, 30]);
    assert_eq!(reg.find_index(20), Some(1));
    reg.apply(&CompositorEvent::Focused { id: 30 });
    let ids: Vec<i64> = reg.entries().iter().map(|e| e.id).collect();
    assert_eq!(ids, vec![10, 20, 30]);
    assert!(!reg.entry(1).focused);
    assert!(reg.entry(2).focused);
}

#[test]
fn unknown_id_close_is_no_op() {
    let mut reg = empty_registry();
    reg.apply(&CompositorEvent::New { id: 1, raw_name: "a".to_owned(), focused: false });
    reg.apply(&CompositorEvent::WorkspaceChanged { index: 7 });
    let before = entry_tuples(&reg);
    reg.apply(&CompositorEvent::Closed { id: 99 });
    assert_eq!(entry_tuples(&reg), before);
    assert_eq!(reg.workspace_index(), 7);
}

#[test]
fn unknown_id_focus_is_no_op() {
    let mut reg = empty_registry();
    reg.apply(&CompositorEvent::New { id: 1, raw_name: "a".to_owned(), focused: true });
    let before = entry_tuples(&reg);
    reg.apply(&CompositorEvent::Focused { id: 99 });
    assert_eq!(entry_tuples(&reg), before);
    assert_eq!(reg.workspace_index(), 1);
}

#[test]
fn duplicate_close_is_idempotent() {
    let mut reg = empty_registry();
    reg.apply(&CompositorEvent::New { id: 1, raw_name: "a".to_owned(), focused: false });
    reg.apply(&CompositorEvent::New { id: 2, raw_name: "b".to_owned(), focused: false });
    reg.apply(&CompositorEvent::Closed { id: 1 });
    assert_eq!(reg.len(), 1);
    reg.apply(&CompositorEvent::Closed { id: 1 });
    assert_eq!(reg.len(), 1);
    assert_eq!(reg.entry(0).id, 2);
}

#[test]
fn duplicate_new_updates_in_place() {
    let mut reg = empty_registry();
    reg.apply(&CompositorEvent::New { id: 1, raw_name: "a".to_owned(), focused: false });
    reg.apply(&CompositorEvent::New { id: 2, raw_name: "b".to_owned(), focused: false });
    reg.apply(&CompositorEvent::New { id: 1, raw_name: "renamed".to_owned(), focused: false });
    assert_eq!(
        entry_tuples(&reg),
        vec![(1, "renamed".to_owned(), false), (2, "b".to_owned(), false)]
    );
}

#[test]
fn focused_new_unfocuses_others() {
    let mut reg = empty_registry();
    reg.apply(&CompositorEvent::New { id: 1, raw_name: "a".to_owned(), focused: false });
    reg.apply(&CompositorEvent::Focused { id: 1 });
    reg.apply(&CompositorEvent::New { id: 2, raw_name: "b".to_owned(), focused: true });
    assert_eq!(
        entry_tuples(&reg),
        vec![(1, "a".to_owned(), false), (2, "b".to_owned(), true)]
    );
}

#[test]
fn workspace_changed_sets_index_unconditionally() {
    let mut reg = empty_registry();
    reg.apply(&CompositorEvent::WorkspaceChanged { index: 4 });
    assert_eq!(reg.workspace_index(), 4);
    reg.apply(&CompositorEvent::WorkspaceChanged { index: -2 });
    assert_eq!(reg.workspace_index(), -2);
}

#[test]
fn snapshot_rebuild_discards_state_and_clears_focus() {
    let table = OverrideTable::new(
        vec!["firefox".to_owned()],
        vec!["Web Browser".to_owned()],
    );
    let mut reg = Registry::new(table);
    reg.apply(&CompositorEvent::New { id: 9, raw_name: "stale".to_owned(), focused: true });
    reg.apply(&CompositorEvent::WorkspaceChanged { index: 6 });
    let snapshot = vec![
        SnapshotItem { id: 1, raw_name: "firefox".to_owned(), focused: true },
        SnapshotItem { id: 2, raw_name: "term".to_owned(), focused: false },
    ];
    reg.init_from_snapshot(&snapshot);
    assert_eq!(
        entry_tuples(&reg),
        vec![(1, "Web Browser".to_owned(), false), (2, "term".to_owned(), false)]
    );
    // the workspace index is event-driven; a rebuild leaves it alone
    assert_eq!(reg.workspace_index(), 6);
}

#[test]
fn snapshot_rebuild_twice_is_idempotent() {
    let mut reg = empty_registry();
    reg.apply(&CompositorEvent::New { id: 9, raw_name: "stale".to_owned(), focused: true });
    let snapshot = vec![
        SnapshotItem { id: 3, raw_name: "c".to_owned(), focused: false },
        SnapshotItem { id: 1, raw_name: "a".to_owned(), focused: false },
        SnapshotItem { id: 2, raw_name: "b".to_owned(), focused: false },
    ];
    reg.init_from_snapshot(&snapshot);
    let first = entry_tuples(&reg);
    reg.init_from_snapshot(&snapshot);
    assert_eq!(entry_tuples(&reg), first);
    let ids: Vec<i64> = reg.entries().iter().map(|e| e.id).collect();
    assert_eq!(ids, vec![3, 1, 2]);
    assert!(reg.entries().iter().all(|e| !e.focused));
}

#[test]
fn contains_id_and_find_index() {
    let mut reg = empty_registry();
    reg.apply(&CompositorEvent::New { id: 5, raw_name: "a".to_owned(), focused: false });
    assert!(reg.contains_id(5));
    assert!(!reg.contains_id(6));
    assert_eq!(reg.find_index(5), Some(0));
    assert_eq!(reg.find_index(6), None);
}
