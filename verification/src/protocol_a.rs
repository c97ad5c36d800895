//! The tree-and-subscribe compositor protocol: classification of its typed
//! window and workspace events, and snapshot extraction from its nested tree.
//!
//! The subscription delivers events already tagged with a change kind; only
//! new, close and focus changes concern the registry, the rest are ignored.
//! The snapshot is a tree of outputs, each holding workspaces, each holding
//! tiled and floating window nodes; an output literally named `__i3` (the
//! scratchpad) is skipped entirely.

use vstd::prelude::*;

use crate::event::CompositorEvent;
use crate::event::EventModel;
use crate::event::ItemModel;
use crate::event::SnapshotItem;
use crate::event::str_eq;
use crate::registry::lemma_vec_deep_view;
use crate::resolver::identity_label;
use crate::resolver::label_of;

verus! {

/// The change kinds a window event can carry; everything the registry does
/// not track maps to `Other`.
#[derive(Clone, Copy, PartialEq, Eq, Structural, Debug)]
pub enum WindowChangeKind {
    New,
    Close,
    Focus,
    Other,
}

/// Ghost model of a [`WindowInfo`].
#[verifier::ext_equal]
pub struct WindowInfoModel {
    pub id: int,
    pub app_id: Option<Seq<char>>,
    pub window_class: Option<Seq<char>>,
    pub name: Option<Seq<char>>,
    pub focused: bool,
}

/// The fields of one window node that the registry reads: the id, the three
/// optional identity fields in precedence order, and the focus flag.
pub struct WindowInfo {
    pub id: i64,
    pub app_id: Option<String>,
    pub window_class: Option<String>,
    pub name: Option<String>,
    pub focused: bool,
}

impl View for WindowInfo {
    type V = WindowInfoModel;

    open spec fn view(&self) -> WindowInfoModel {
        WindowInfoModel {
            id: self.id as int,
            app_id: self.app_id.deep_view(),
            window_class: self.window_class.deep_view(),
            name: self.name.deep_view(),
            focused: self.focused,
        }
    }
}

impl DeepView for WindowInfo {
    type V = WindowInfoModel;

    open spec fn deep_view(&self) -> WindowInfoModel {
        self.view()
    }
}

/// One delivered window event: the change kind and the affected node.
pub struct WindowEventInfo {
    pub change: WindowChangeKind,
    pub window: WindowInfo,
}

/// One delivered workspace event, reduced to the number of the workspace that
/// gained focus; absent when the event names no numbered workspace.
pub struct WorkspaceEventInfo {
    pub current_number: Option<i64>,
}

impl View for WorkspaceEventInfo {
    type V = Option<int>;

    open spec fn view(&self) -> Option<int> {
        match self.current_number {
            Some(n) => Some(n as int),
            None => None,
        }
    }
}

/// The canonical event a window event maps to: new, close and focus carry
/// over (the raw name by identity precedence), every other change kind is
/// ignored.
pub open spec fn window_event_of(change: WindowChangeKind, w: WindowInfoModel) -> Option<
    EventModel,
> {
    match change {
        WindowChangeKind::New => Some(
            EventModel::New {
                id: w.id,
                raw_name: label_of(w.app_id, w.window_class, w.name),
                focused: w.focused,
            },
        ),
        WindowChangeKind::Close => Some(EventModel::Closed { id: w.id }),
        WindowChangeKind::Focus => Some(EventModel::Focused { id: w.id }),
        WindowChangeKind::Other => None,
    }
}

/// The canonical event a workspace event maps to: the named workspace number,
/// or workspace 1 when the event names none.
pub open spec fn workspace_event_of(current: Option<int>) -> EventModel {
    EventModel::WorkspaceChanged {
        index: match current {
            Some(n) => n,
            None => 1,
        },
    }
}

/// Classifies one typed window event; `None` means the change kind is one the
/// registry ignores.
pub fn classify_window(ev: &WindowEventInfo) -> (r: Option<CompositorEvent>)
    ensures
        match r {
            Some(e) => window_event_of(ev.change, ev.window@) == Some(e@),
            None => window_event_of(ev.change, ev.window@) == None::<EventModel>,
        },
{
    match ev.change {
        WindowChangeKind::New => Some(
            CompositorEvent::New {
                id: ev.window.id,
                raw_name: identity_label(
                    &ev.window.app_id,
                    &ev.window.window_class,
                    &ev.window.name,
                ),
                focused: ev.window.focused,
            },
        ),
        WindowChangeKind::Close => Some(CompositorEvent::Closed { id: ev.window.id }),
        WindowChangeKind::Focus => Some(CompositorEvent::Focused { id: ev.window.id }),
        WindowChangeKind::Other => None,
    }
}

/// Classifies one typed workspace event.
pub fn classify_workspace(ev: &WorkspaceEventInfo) -> (r: CompositorEvent)
    ensures
        r@ == workspace_event_of(ev@),
{
    match ev.current_number {
        Some(n) => CompositorEvent::WorkspaceChanged { index: n },
        None => CompositorEvent::WorkspaceChanged { index: 1 },
    }
}

/// Ghost model of a [`WorkspaceNode`].
#[verifier::ext_equal]
pub struct WorkspaceNodeModel {
    pub windows: Seq<WindowInfoModel>,
    pub floating: Seq<WindowInfoModel>,
}

/// One workspace in the snapshot tree: its tiled and its floating windows,
/// each list in traversal order.
pub struct WorkspaceNode {
    pub windows: Vec<WindowInfo>,
    pub floating: Vec<WindowInfo>,
}

impl View for WorkspaceNode {
    type V = WorkspaceNodeModel;

    open spec fn view(&self) -> WorkspaceNodeModel {
        WorkspaceNodeModel {
            windows: self.windows.deep_view(),
            floating: self.floating.deep_view(),
        }
    }
}

impl DeepView for WorkspaceNode {
    type V = WorkspaceNodeModel;

    open spec fn deep_view(&self) -> WorkspaceNodeModel {
        self.view()
    }
}

/// Ghost model of an [`OutputNode`].
#[verifier::ext_equal]
pub struct OutputNodeModel {
    pub name: Seq<char>,
    pub workspaces: Seq<WorkspaceNodeModel>,
}

/// One output in the snapshot tree: its name and its workspaces in order.
pub struct OutputNode {
    pub name: String,
    pub workspaces: Vec<WorkspaceNode>,
}

impl View for OutputNode {
    type V = OutputNodeModel;

    open spec fn view(&self) -> OutputNodeModel {
        OutputNodeModel { name: self.name@, workspaces: self.workspaces.deep_view() }
    }
}

impl DeepView for OutputNode {
    type V = OutputNodeModel;

    open spec fn deep_view(&self) -> OutputNodeModel {
        self.view()
    }
}

/// The snapshot item one window node yields: raw name by identity precedence.
pub open spec fn item_of_window(w: WindowInfoModel) -> ItemModel {
    ItemModel {
        id: w.id,
        raw_name: label_of(w.app_id, w.window_class, w.name),
        focused: w.focused,
    }
}

/// The snapshot items of a window list, in order.
pub open spec fn items_of_windows(ws: Seq<WindowInfoModel>) -> Seq<ItemModel>
    decreases ws.len(),
{
    if ws.len() == 0 {
        Seq::empty()
    } else {
        items_of_windows(ws.drop_last()).push(item_of_window(ws.last()))
    }
}

/// The snapshot items of one workspace: tiled windows first, then floating.
pub open spec fn items_of_workspace(w: WorkspaceNodeModel) -> Seq<ItemModel> {
    items_of_windows(w.windows) + items_of_windows(w.floating)
}

/// The snapshot items of a workspace list, in order.
pub open spec fn items_of_workspaces(ws: Seq<WorkspaceNodeModel>) -> Seq<ItemModel>
    decreases ws.len(),
{
    if ws.len() == 0 {
        Seq::empty()
    } else {
        items_of_workspaces(ws.drop_last()) + items_of_workspace(ws.last())
    }
}

/// The snapshot items of the whole tree: outputs in order, each output's
/// workspaces in order, with the scratchpad output (`__i3`) skipped entirely.
pub open spec fn items_of_outputs(os: Seq<OutputNodeModel>) -> Seq<ItemModel>
    decreases os.len(),
{
    if os.len() == 0 {
        Seq::empty()
    } else {
        items_of_outputs(os.drop_last()) + if os.last().name == "__i3"@ {
            Seq::empty()
        } else {
            items_of_workspaces(os.last().workspaces)
        }
    }
}

/// Appends the snapshot items of one window list to `acc`, in order.
fn append_window_items(acc: &mut Vec<SnapshotItem>, windows: &Vec<WindowInfo>)
    ensures
        final(acc).deep_view() == old(acc).deep_view() + items_of_windows(windows.deep_view()),
{
    let ghost dw = windows.deep_view();
    let ghost base = acc.deep_view();
    proof {
        lemma_vec_deep_view(*windows);
    }
    let n = windows.len();
    let mut i: usize = 0;
    while i < n
        invariant
            n == windows@.len(),
            dw == windows.deep_view(),
            dw.len() == n,
            forall|j: int| 0 <= j < n ==> #[trigger] dw[j] == windows@[j]@,
            i <= n,
            acc.deep_view() == base + items_of_windows(dw.take(i as int)),
        decreases n - i,
    {
        proof {
            assert(dw.take(i + 1).drop_last() =~= dw.take(i as int));
            assert(dw.take(i + 1).last() == dw[i as int]);
        }
        let w = &windows[i];
        let item = SnapshotItem {
            id: w.id,
            raw_name: identity_label(&w.app_id, &w.window_class, &w.name),
            focused: w.focused,
        };
        let ghost d0 = acc.deep_view();
        proof {
            lemma_vec_deep_view(*acc);
        }
        let ghost v0 = acc@;
        acc.push(item);
        proof {
            lemma_vec_deep_view(*acc);
            assert(acc@ == v0.push(item));
            assert(item@ == item_of_window(dw[i as int]));
            assert(acc.deep_view() =~= d0.push(item@));
            assert(base + items_of_windows(dw.take(i + 1)) =~= d0.push(item@));
        }
        i = i + 1;
    }
    proof {
        assert(dw.take(n as int) =~= dw);
    }
}

/// Extracts the snapshot from the full tree, in traversal order: per output
/// (skipping the scratchpad output `__i3`), per workspace, tiled windows then
/// floating ones.
pub fn snapshot_from_tree(outputs: &Vec<OutputNode>) -> (r: Vec<SnapshotItem>)
    ensures
        r.deep_view() == items_of_outputs(outputs.deep_view()),
{
    let ghost dout = outputs.deep_view();
    proof {
        lemma_vec_deep_view(*outputs);
    }
    let mut r: Vec<SnapshotItem> = Vec::new();
    let n = outputs.len();
    let mut i: usize = 0;
    while i < n
        invariant
            n == outputs@.len(),
            dout == outputs.deep_view(),
            dout.len() == n,
            forall|j: int| 0 <= j < n ==> #[trigger] dout[j] == outputs@[j]@,
            i <= n,
            r.deep_view() == items_of_outputs(dout.take(i as int)),
        decreases n - i,
    {
        proof {
            assert(dout.take(i + 1).drop_last() =~= dout.take(i as int));
            assert(dout.take(i + 1).last() == dout[i as int]);
        }
        let out = &outputs[i];
        if !str_eq(&out.name, "__i3") {
            let ghost dws = out.workspaces.deep_view();
            let ghost base_i = r.deep_view();
            proof {
                lemma_vec_deep_view(out.workspaces);
            }
            let m = out.workspaces.len();
            let mut j: usize = 0;
            while j < m
                invariant
                    m == out.workspaces@.len(),
                    dws == out.workspaces.deep_view(),
                    dws.len() == m,
                    forall|k: int| 0 <= k < m ==> #[trigger] dws[k] == out.workspaces@[k]@,
                    j <= m,
                    r.deep_view() == base_i + items_of_workspaces(dws.take(j as int)),
                decreases m - j,
            {
                proof {
                    assert(dws.take(j + 1).drop_last() =~= dws.take(j as int));
                    assert(dws.take(j + 1).last() == dws[j as int]);
                }
                let ws = &out.workspaces[j];
                let ghost before = r.deep_view();
                append_window_items(&mut r, &ws.windows);
                append_window_items(&mut r, &ws.floating);
                proof {
                    assert(ws@ == dws[j as int]);
                    assert(r.deep_view() =~= before + items_of_workspace(dws[j as int]));
                    assert(base_i + items_of_workspaces(dws.take(j + 1)) =~= r.deep_view());
                }
                j = j + 1;
            }
            proof {
                assert(dws.take(m as int) =~= dws);
                assert(r.deep_view() =~= items_of_outputs(dout.take(i + 1)));
            }
        } else {
            proof {
                assert(r.deep_view() =~= items_of_outputs(dout.take(i + 1)));
            }
        }
        i = i + 1;
    }
    proof {
        assert(dout.take(n as int) =~= dout);
    }
    r
}

} // verus!
