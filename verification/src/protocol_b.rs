//! The JSON-RPC-style compositor protocol: classification of watched event
//! messages and snapshot normalization.
//!
//! Each incoming message is a generic object; the fields the registry needs
//! are carried over as plain optional values. Classification is defensive: a
//! missing expected field or an unknown event tag drops that single message,
//! never the stream. A message originating from the shell's own layer-shell
//! surfaces is deliberately ignored. The workspace-changed payload reports a
//! zero-based coordinate that is normalized by adding one.

use vstd::prelude::*;

use crate::event::CompositorEvent;
use crate::event::EventModel;
use crate::event::ItemModel;
use crate::event::SnapshotItem;
use crate::event::str_eq;
use crate::registry::lemma_vec_deep_view;

verus! {

/// Why one incoming message was dropped. Each variant is logged and the
/// stream continues; none is fatal.
#[derive(Clone, Copy, PartialEq, Eq, Structural, Debug)]
pub enum ProtocolError {
    /// The message has no event tag.
    MissingEventField,
    /// A view event carries no view id.
    MissingViewId,
    /// A view event carries no application id.
    MissingAppId,
    /// A workspace-changed message carries no workspace coordinate.
    MissingWorkspaceIndex,
    /// The workspace coordinate is too large to normalize.
    WorkspaceIndexOutOfRange,
    /// The event tag is none of the subscribed ones.
    UnknownEventTag,
}

/// Ghost model of a [`RawMessage`].
#[verifier::ext_equal]
pub struct RawMessageModel {
    pub event: Option<Seq<char>>,
    pub view_id: Option<int>,
    pub view_app_id: Option<Seq<char>>,
    pub workspace_x: Option<int>,
}

/// The fields of one watched message that classification reads, extracted as
/// plain values: the event tag, the view's id and application id, and the
/// workspace's horizontal coordinate. Absent fields stay absent.
pub struct RawMessage {
    pub event: Option<String>,
    pub view_id: Option<i64>,
    pub view_app_id: Option<String>,
    pub workspace_x: Option<i64>,
}

impl View for RawMessage {
    type V = RawMessageModel;

    open spec fn view(&self) -> RawMessageModel {
        RawMessageModel {
            event: match &self.event {
                Some(s) => Some(s@),
                None => None,
            },
            view_id: match self.view_id {
                Some(id) => Some(id as int),
                None => None,
            },
            view_app_id: match &self.view_app_id {
                Some(s) => Some(s@),
                None => None,
            },
            workspace_x: match self.workspace_x {
                Some(x) => Some(x as int),
                None => None,
            },
        }
    }
}

/// Ghost model of a [`Classification`].
#[verifier::ext_equal]
pub enum ClassificationModel {
    Apply(EventModel),
    Ignore,
    Skip(ProtocolError),
}

/// What to do with one incoming message: apply the canonical event it maps
/// to, ignore it deliberately, or skip it with a warning.
pub enum Classification {
    Apply(CompositorEvent),
    Ignore,
    Skip(ProtocolError),
}

impl View for Classification {
    type V = ClassificationModel;

    open spec fn view(&self) -> ClassificationModel {
        match self {
            Classification::Apply(e) => ClassificationModel::Apply(e@),
            Classification::Ignore => ClassificationModel::Ignore,
            Classification::Skip(err) => ClassificationModel::Skip(*err),
        }
    }
}

/// How one watched message is classified.
///
/// A `wset-workspace-changed` tag needs the workspace coordinate, which is
/// reported zero-based and normalized by adding one; a coordinate whose
/// successor does not fit the index type is skipped as out of range. The
/// three view tags need the view id and application id; a message from the
/// shell's own layer-shell surfaces is ignored. `view-mapped` becomes a new,
/// unfocused window, `view-unmapped` a close, `view-focused` a focus. Any
/// other tag is skipped as unknown.
pub open spec fn classify_message(m: RawMessageModel) -> ClassificationModel {
    match m.event {
        None => ClassificationModel::Skip(ProtocolError::MissingEventField),
        Some(tag) => if tag == "wset-workspace-changed"@ {
            match m.workspace_x {
                None => ClassificationModel::Skip(ProtocolError::MissingWorkspaceIndex),
                Some(x) => if x == i64::MAX as int {
                    ClassificationModel::Skip(ProtocolError::WorkspaceIndexOutOfRange)
                } else {
                    ClassificationModel::Apply(EventModel::WorkspaceChanged { index: x + 1 })
                },
            }
        } else if tag == "view-mapped"@ || tag == "view-unmapped"@ || tag == "view-focused"@ {
            match m.view_id {
                None => ClassificationModel::Skip(ProtocolError::MissingViewId),
                Some(id) => match m.view_app_id {
                    None => ClassificationModel::Skip(ProtocolError::MissingAppId),
                    Some(app) => if app == "gtk4-layer-shell"@ {
                        ClassificationModel::Ignore
                    } else if tag == "view-mapped"@ {
                        ClassificationModel::Apply(
                            EventModel::New { id, raw_name: app, focused: false },
                        )
                    } else if tag == "view-unmapped"@ {
                        ClassificationModel::Apply(EventModel::Closed { id })
                    } else {
                        ClassificationModel::Apply(EventModel::Focused { id })
                    },
                },
            }
        } else {
            ClassificationModel::Skip(ProtocolError::UnknownEventTag)
        },
    }
}

/// Classifies one watched message into the canonical event taxonomy.
pub fn classify(msg: &RawMessage) -> (r: Classification)
    ensures
        r@ == classify_message(msg@),
{
    let tag = match &msg.event {
        Some(t) => t,
        None => {
            return Classification::Skip(ProtocolError::MissingEventField);
        },
    };
    if str_eq(tag, "wset-workspace-changed") {
        match msg.workspace_x {
            None => Classification::Skip(ProtocolError::MissingWorkspaceIndex),
            Some(x) => {
                if x == i64::MAX {
                    Classification::Skip(ProtocolError::WorkspaceIndexOutOfRange)
                } else {
                    Classification::Apply(CompositorEvent::WorkspaceChanged { index: x + 1 })
                }
            },
        }
    } else if str_eq(tag, "view-mapped") || str_eq(tag, "view-unmapped") || str_eq(
        tag,
        "view-focused",
    ) {
        let id = match msg.view_id {
            Some(id) => id,
            None => {
                return Classification::Skip(ProtocolError::MissingViewId);
            },
        };
        let app = match &msg.view_app_id {
            Some(a) => a,
            None => {
                return Classification::Skip(ProtocolError::MissingAppId);
            },
        };
        if str_eq(app, "gtk4-layer-shell") {
            Classification::Ignore
        } else if str_eq(tag, "view-mapped") {
            Classification::Apply(
                CompositorEvent::New { id, raw_name: app.clone(), focused: false },
            )
        } else if str_eq(tag, "view-unmapped") {
            Classification::Apply(CompositorEvent::Closed { id })
        } else {
            Classification::Apply(CompositorEvent::Focused { id })
        }
    } else {
        Classification::Skip(ProtocolError::UnknownEventTag)
    }
}

/// Ghost model of a [`ViewRecord`].
#[verifier::ext_equal]
pub struct ViewRecordModel {
    pub id: int,
    pub app_id: Seq<char>,
    pub layer: Seq<char>,
}

/// One view as reported by the snapshot (list-views) call: its id, its
/// application id, and the layer it sits on.
pub struct ViewRecord {
    pub id: i64,
    pub app_id: String,
    pub layer: String,
}

impl View for ViewRecord {
    type V = ViewRecordModel;

    open spec fn view(&self) -> ViewRecordModel {
        ViewRecordModel { id: self.id as int, app_id: self.app_id@, layer: self.layer@ }
    }
}

impl DeepView for ViewRecord {
    type V = ViewRecordModel;

    open spec fn deep_view(&self) -> ViewRecordModel {
        self.view()
    }
}

/// The snapshot a list of view records yields: the views on the managed
/// (`workspace`) layer, in the order reported, each unfocused.
pub open spec fn snapshot_of_views(vs: Seq<ViewRecordModel>) -> Seq<ItemModel>
    decreases vs.len(),
{
    if vs.len() == 0 {
        Seq::empty()
    } else {
        let rest = snapshot_of_views(vs.drop_last());
        let v = vs.last();
        if v.layer == "workspace"@ {
            rest.push(ItemModel { id: v.id, raw_name: v.app_id, focused: false })
        } else {
            rest
        }
    }
}

/// Normalizes the snapshot call's answer: keeps the views on the managed
/// layer, in order, and drops every other layer's views.
pub fn snapshot_from_views(views: &Vec<ViewRecord>) -> (r: Vec<SnapshotItem>)
    ensures
        r.deep_view() == snapshot_of_views(views.deep_view()),
{
    let ghost dv = views.deep_view();
    proof {
        lemma_vec_deep_view(*views);
    }
    let mut r: Vec<SnapshotItem> = Vec::new();
    let n = views.len();
    let mut i: usize = 0;
    while i < n
        invariant
            n == views@.len(),
            dv == views.deep_view(),
            dv.len() == n,
            forall|j: int| 0 <= j < n ==> #[trigger] dv[j] == views@[j]@,
            i <= n,
            r.deep_view() == snapshot_of_views(dv.take(i as int)),
        decreases n - i,
    {
        proof {
            assert(dv.take(i + 1).drop_last() =~= dv.take(i as int));
            assert(dv.take(i + 1).last() == dv[i as int]);
        }
        if str_eq(&views[i].layer, "workspace") {
            let ghost d0 = r.deep_view();
            proof {
                lemma_vec_deep_view(r);
            }
            let ghost v0 = r@;
            let item = SnapshotItem {
                id: views[i].id,
                raw_name: views[i].app_id.clone(),
                focused: false,
            };
            r.push(item);
            proof {
                lemma_vec_deep_view(r);
                assert(r@ == v0.push(item));
                assert(r.deep_view() =~= d0.push(item@));
            }
        }
        i = i + 1;
    }
    proof {
        assert(dv.take(n as int) =~= dv);
    }
    r
}

} // verus!
