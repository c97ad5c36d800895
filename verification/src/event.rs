//! The canonical compositor event, produced by both transport adapters.

use vstd::prelude::*;

verus! {

/// Ghost model of a [`CompositorEvent`].
#[verifier::ext_equal]
pub enum EventModel {
    New { id: int, raw_name: Seq<char>, focused: bool },
    Closed { id: int },
    Focused { id: int },
    WorkspaceChanged { index: int },
}

/// One event in the canonical taxonomy shared by both compositor protocols.
///
/// `New` announces a window: `raw_name` is the raw identity label, still
/// subject to override resolution. `WorkspaceChanged` carries the active
/// workspace number after protocol-specific normalization.
pub enum CompositorEvent {
    New { id: i64, raw_name: String, focused: bool },
    Closed { id: i64 },
    Focused { id: i64 },
    WorkspaceChanged { index: i64 },
}

impl View for CompositorEvent {
    type V = EventModel;

    open spec fn view(&self) -> EventModel {
        match self {
            CompositorEvent::New { id, raw_name, focused } => EventModel::New {
                id: *id as int,
                raw_name: raw_name@,
                focused: *focused,
            },
            CompositorEvent::Closed { id } => EventModel::Closed { id: *id as int },
            CompositorEvent::Focused { id } => EventModel::Focused { id: *id as int },
            CompositorEvent::WorkspaceChanged { index } => EventModel::WorkspaceChanged {
                index: *index as int,
            },
        }
    }
}

/// Ghost model of a [`SnapshotItem`].
#[verifier::ext_equal]
pub struct ItemModel {
    pub id: int,
    pub raw_name: Seq<char>,
    pub focused: bool,
}

/// One window as reported by a full-state snapshot query, in traversal order.
pub struct SnapshotItem {
    pub id: i64,
    pub raw_name: String,
    pub focused: bool,
}

impl View for SnapshotItem {
    type V = ItemModel;

    open spec fn view(&self) -> ItemModel {
        ItemModel { id: self.id as int, raw_name: self.raw_name@, focused: self.focused }
    }
}

impl DeepView for SnapshotItem {
    type V = ItemModel;

    open spec fn deep_view(&self) -> ItemModel {
        self.view()
    }
}

/// String equality against a literal.
pub(crate) fn str_eq(a: &String, b: &str) -> (r: bool)
    ensures
        r == (a@ == b@),
{
    let owned = b.to_owned();
    *a == owned
}

} // verus!
