//! The window registry: an ordered collection of window entries plus the
//! active workspace index, kept in sync by applying compositor events.
//!
//! The registry owns its entries exclusively; all mutation goes through
//! [`Registry::apply`] and [`Registry::init_from_snapshot`]. After every
//! applied event at most one entry is focused, entry order is insertion or
//! traversal order and is never changed by a focus event, and events naming
//! an unknown id are no-ops.

use vstd::prelude::*;

use crate::event::CompositorEvent;
use crate::event::EventModel;
use crate::event::ItemModel;
use crate::event::SnapshotItem;
use crate::resolver::OverrideTable;
use crate::resolver::TableModel;
use crate::resolver::resolved_name;

verus! {

/// Ghost model of a [`WindowEntry`].
#[verifier::ext_equal]
pub struct EntryModel {
    pub id: int,
    pub display_name: Seq<char>,
    pub focused: bool,
}

/// One managed window: compositor-assigned id, resolved display name, focus flag.
pub struct WindowEntry {
    pub id: i64,
    pub display_name: String,
    pub focused: bool,
}

impl View for WindowEntry {
    type V = EntryModel;

    open spec fn view(&self) -> EntryModel {
        EntryModel { id: self.id as int, display_name: self.display_name@, focused: self.focused }
    }
}

impl DeepView for WindowEntry {
    type V = EntryModel;

    open spec fn deep_view(&self) -> EntryModel {
        self.view()
    }
}

/// Ghost model of a [`Registry`].
#[verifier::ext_equal]
pub struct RegistryModel {
    pub entries: Seq<EntryModel>,
    pub workspace_index: int,
}

/// Position of the first entry with the given id, or -1 if no entry has it.
pub open spec fn find_id(s: Seq<EntryModel>, id: int) -> int
    decreases s.len(),
{
    if s.len() == 0 {
        -1
    } else if s[0].id == id {
        0
    } else {
        let r = find_id(s.skip(1), id);
        if r < 0 {
            -1
        } else {
            r + 1
        }
    }
}

/// Whether some entry has the given id.
pub open spec fn has_id(s: Seq<EntryModel>, id: int) -> bool {
    exists|i: int| 0 <= i < s.len() && s[i].id == id
}

/// All entries with their focus flag cleared; ids, names and order unchanged.
pub open spec fn unfocus_all(s: Seq<EntryModel>) -> Seq<EntryModel> {
    Seq::new(
        s.len(),
        |i: int| EntryModel { id: s[i].id, display_name: s[i].display_name, focused: false },
    )
}

/// Exactly the entry at position `k` focused; ids, names and order unchanged.
pub open spec fn focus_only(s: Seq<EntryModel>, k: int) -> Seq<EntryModel> {
    Seq::new(
        s.len(),
        |i: int| EntryModel { id: s[i].id, display_name: s[i].display_name, focused: i == k },
    )
}

/// Effect of a focus event: if the id is present, its first entry becomes the
/// only focused one (the unfocus broadcast); otherwise nothing changes.
pub open spec fn apply_focused(s: Seq<EntryModel>, id: int) -> Seq<EntryModel> {
    let k = find_id(s, id);
    if k < 0 {
        s
    } else {
        focus_only(s, k)
    }
}

/// Effect of a close event: the first entry with the id is removed, the order
/// of the remaining entries preserved; an unknown id is a no-op.
pub open spec fn apply_closed(s: Seq<EntryModel>, id: int) -> Seq<EntryModel> {
    let k = find_id(s, id);
    if k < 0 {
        s
    } else {
        s.remove(k)
    }
}

/// Effect of a new-window event carrying an already-resolved name. An unknown
/// id is appended at the tail; an id already present is updated in place (the
/// duplicate-new policy: no duplicate entry is ever appended). If the event
/// carries the focus, every other entry is unfocused first.
pub open spec fn apply_new(s: Seq<EntryModel>, id: int, name: Seq<char>, focused: bool) -> Seq<
    EntryModel,
> {
    let k = find_id(s, id);
    let entry = EntryModel { id, display_name: name, focused };
    let base = if focused {
        unfocus_all(s)
    } else {
        s
    };
    if k < 0 {
        base.push(entry)
    } else {
        base.update(k, entry)
    }
}

/// The registry's full transition function: how one applied event, with names
/// resolved through the override table `t`, rewrites the registry model.
pub open spec fn apply_event(m: RegistryModel, ev: EventModel, t: TableModel) -> RegistryModel {
    match ev {
        EventModel::New { id, raw_name, focused } => RegistryModel {
            entries: apply_new(m.entries, id, resolved_name(t, raw_name), focused),
            workspace_index: m.workspace_index,
        },
        EventModel::Closed { id } => RegistryModel {
            entries: apply_closed(m.entries, id),
            workspace_index: m.workspace_index,
        },
        EventModel::Focused { id } => RegistryModel {
            entries: apply_focused(m.entries, id),
            workspace_index: m.workspace_index,
        },
        EventModel::WorkspaceChanged { index } => RegistryModel {
            entries: m.entries,
            workspace_index: index,
        },
    }
}

/// The entries a snapshot rebuild produces: one entry per snapshot item, in
/// snapshot order, names resolved, every focus flag cleared.
pub open spec fn entries_of_snapshot(items: Seq<ItemModel>, t: TableModel) -> Seq<EntryModel> {
    Seq::new(
        items.len(),
        |i: int| EntryModel {
            id: items[i].id,
            display_name: resolved_name(t, items[i].raw_name),
            focused: false,
        },
    )
}

/// The registry model after a snapshot rebuild: entries come from the snapshot
/// alone; the workspace index is event-driven and left untouched.
pub open spec fn init_model(m: RegistryModel, items: Seq<ItemModel>, t: TableModel) -> RegistryModel {
    RegistryModel { entries: entries_of_snapshot(items, t), workspace_index: m.workspace_index }
}

/// No two distinct entries are focused at once.
pub open spec fn at_most_one_focused(s: Seq<EntryModel>) -> bool {
    forall|i: int, j: int|
        0 <= i < s.len() && 0 <= j < s.len() && s[i].focused && s[j].focused ==> i == j
}

/// Number of focused entries.
pub open spec fn focused_count(s: Seq<EntryModel>) -> nat
    decreases s.len(),
{
    if s.len() == 0 {
        0
    } else {
        focused_count(s.drop_last()) + if s.last().focused {
            1nat
        } else {
            0nat
        }
    }
}

proof fn lemma_none_focused_count_zero(s: Seq<EntryModel>)
    requires
        forall|i: int| 0 <= i < s.len() ==> !s[i].focused,
    ensures
        focused_count(s) == 0,
    decreases s.len(),
{
    if s.len() > 0 {
        lemma_none_focused_count_zero(s.drop_last());
    }
}

/// The quantifier form of the focus invariant bounds the focused-entry count:
/// a registry where no two distinct entries are focused has zero or one.
pub proof fn lemma_at_most_one_focused_count(s: Seq<EntryModel>)
    requires
        at_most_one_focused(s),
    ensures
        focused_count(s) <= 1,
    decreases s.len(),
{
    if s.len() > 0 {
        if s.last().focused {
            assert forall|i: int| 0 <= i < s.drop_last().len() implies !s.drop_last()[i].focused by {
                assert(s[i] == s.drop_last()[i]);
                assert(s[s.len() - 1].focused);
            }
            lemma_none_focused_count_zero(s.drop_last());
        } else {
            assert(at_most_one_focused(s.drop_last())) by {
                assert forall|i: int, j: int|
                    0 <= i < s.drop_last().len() && 0 <= j < s.drop_last().len()
                        && s.drop_last()[i].focused && s.drop_last()[j].focused implies i == j by {
                    assert(s[i] == s.drop_last()[i]);
                    assert(s[j] == s.drop_last()[j]);
                }
            }
            lemma_at_most_one_focused_count(s.drop_last());
        }
    }
}

/// `find_id` really names the first match: it is -1 exactly when the id is
/// absent, and otherwise points at an entry with the id that no earlier
/// position shares.
pub proof fn lemma_find_id(s: Seq<EntryModel>, id: int)
    ensures
        find_id(s, id) == -1 || 0 <= find_id(s, id) < s.len(),
        find_id(s, id) == -1 ==> forall|j: int| 0 <= j < s.len() ==> s[j].id != id,
        find_id(s, id) >= 0 ==> s[find_id(s, id)].id == id,
        find_id(s, id) >= 0 ==> forall|j: int| 0 <= j < find_id(s, id) ==> s[j].id != id,
    decreases s.len(),
{
    if s.len() == 0 {
    } else if s[0].id == id {
    } else {
        lemma_find_id(s.skip(1), id);
        assert forall|j: int| 0 <= j < s.len() implies s.skip(1).len() == s.len() - 1 && (1 <= j
            ==> s[j] == s.skip(1)[j - 1]) by {}
    }
}

/// The first match characterizes `find_id` uniquely.
pub proof fn lemma_find_id_unique(s: Seq<EntryModel>, id: int, k: int)
    requires
        0 <= k < s.len(),
        s[k].id == id,
        forall|j: int| 0 <= j < k ==> s[j].id != id,
    ensures
        find_id(s, id) == k,
    decreases s.len(),
{
    if k == 0 {
    } else {
        assert(s[0].id != id);
        assert(s.skip(1)[k - 1] == s[k]);
        assert forall|j: int| 0 <= j < k - 1 implies s.skip(1)[j].id != id by {
            assert(s.skip(1)[j] == s[j + 1]);
        }
        lemma_find_id_unique(s.skip(1), id, k - 1);
    }
}

/// Law: applying any single event to a registry in which at most one entry is
/// focused yields a registry in which at most one entry is focused.
pub proof fn lemma_apply_preserves_focus_invariant(
    m: RegistryModel,
    ev: EventModel,
    t: TableModel,
)
    requires
        at_most_one_focused(m.entries),
    ensures
        at_most_one_focused(apply_event(m, ev, t).entries),
{
    let s = m.entries;
    match ev {
        EventModel::New { id, raw_name, focused } => {
            let name = resolved_name(t, raw_name);
            let r = apply_new(s, id, name, focused);
            lemma_find_id(s, id);
            assert forall|i: int, j: int|
                0 <= i < r.len() && 0 <= j < r.len() && r[i].focused && r[j].focused implies i
                == j by {}
        },
        EventModel::Closed { id } => {
            let r = apply_closed(s, id);
            let k = find_id(s, id);
            lemma_find_id(s, id);
            if k >= 0 {
                assert forall|i: int, j: int|
                    0 <= i < r.len() && 0 <= j < r.len() && r[i].focused && r[j].focused implies i
                    == j by {
                    let i0 = if i < k { i } else { i + 1 };
                    let j0 = if j < k { j } else { j + 1 };
                    assert(r[i] == s[i0]);
                    assert(r[j] == s[j0]);
                }
            }
        },
        EventModel::Focused { id } => {},
        EventModel::WorkspaceChanged { index } => {},
    }
}

/// The registry model after a finite sequence of events, applied in order.
pub open spec fn apply_events(m: RegistryModel, evs: Seq<EventModel>, t: TableModel) -> RegistryModel
    decreases evs.len(),
{
    if evs.len() == 0 {
        m
    } else {
        apply_event(apply_events(m, evs.drop_last(), t), evs.last(), t)
    }
}

/// Law: for any finite sequence of applied events, starting from a registry
/// in which at most one entry is focused, the number of focused entries after
/// the sequence is zero or one. Since this holds for every sequence, it holds
/// in particular for every prefix — that is, after each single apply.
pub proof fn lemma_event_sequence_keeps_focus_invariant(
    m: RegistryModel,
    evs: Seq<EventModel>,
    t: TableModel,
)
    requires
        at_most_one_focused(m.entries),
    ensures
        at_most_one_focused(apply_events(m, evs, t).entries),
        focused_count(apply_events(m, evs, t).entries) <= 1,
    decreases evs.len(),
{
    if evs.len() == 0 {
        lemma_at_most_one_focused_count(m.entries);
    } else {
        lemma_event_sequence_keeps_focus_invariant(m, evs.drop_last(), t);
        lemma_apply_preserves_focus_invariant(apply_events(m, evs.drop_last(), t), evs.last(), t);
        lemma_at_most_one_focused_count(apply_events(m, evs, t).entries);
    }
}

/// Law: a focus event never reorders entries — every position keeps its id and
/// display name, and the focused id's position is the same before and after.
pub proof fn lemma_focus_preserves_order(s: Seq<EntryModel>, id: int)
    ensures
        apply_focused(s, id).len() == s.len(),
        forall|i: int|
            0 <= i < s.len() ==> apply_focused(s, id)[i].id == s[i].id && apply_focused(s, id)[i]
                .display_name == s[i].display_name,
        find_id(apply_focused(s, id), id) == find_id(s, id),
{
    let k = find_id(s, id);
    lemma_find_id(s, id);
    if k >= 0 {
        let r = focus_only(s, k);
        assert forall|j: int| 0 <= j < k implies r[j].id != id by {}
        lemma_find_id_unique(r, id, k);
    }
}

/// Law: a close or focus event for an id not present leaves the registry —
/// entries and workspace index alike — unchanged.
pub proof fn lemma_unknown_id_no_op(m: RegistryModel, id: int, t: TableModel)
    requires
        !has_id(m.entries, id),
    ensures
        apply_event(m, EventModel::Closed { id }, t) == m,
        apply_event(m, EventModel::Focused { id }, t) == m,
{
    lemma_find_id(m.entries, id);
    if find_id(m.entries, id) >= 0 {
        assert(has_id(m.entries, id)) by {
            assert(m.entries[find_id(m.entries, id)].id == id);
        }
    }
    assert(apply_event(m, EventModel::Closed { id }, t) =~= m);
    assert(apply_event(m, EventModel::Focused { id }, t) =~= m);
}

/// Law: rebuilding from the same snapshot is idempotent — whatever the prior
/// states, the rebuilt entries are identical: same ids in snapshot order, all
/// focus flags cleared.
pub proof fn lemma_snapshot_rebuild_idempotent(
    m1: RegistryModel,
    m2: RegistryModel,
    items: Seq<ItemModel>,
    t: TableModel,
)
    ensures
        init_model(m1, items, t).entries == init_model(m2, items, t).entries,
        init_model(m1, items, t).entries.len() == items.len(),
        forall|i: int|
            0 <= i < items.len() ==> init_model(m1, items, t).entries[i].id == items[i].id
                && !init_model(m1, items, t).entries[i].focused,
{
}

/// A vector's deep view is its view mapped elementwise to models.
pub proof fn lemma_vec_deep_view<T: DeepView>(v: Vec<T>)
    ensures
        v.deep_view().len() == v@.len(),
        forall|i: int| 0 <= i < v@.len() ==> #[trigger] v.deep_view()[i] == v@[i].deep_view(),
{
}

/// The window registry. Created once, rebuilt in place by
/// [`Registry::init_from_snapshot`], and advanced one event at a time by
/// [`Registry::apply`].
pub struct Registry {
    entries: Vec<WindowEntry>,
    workspace_index: i64,
    overrides: OverrideTable,
}

impl View for Registry {
    type V = RegistryModel;

    closed spec fn view(&self) -> RegistryModel {
        RegistryModel {
            entries: self.entries.deep_view(),
            workspace_index: self.workspace_index as int,
        }
    }
}

impl Registry {
    /// The override table the registry resolves raw names through.
    pub closed spec fn table(&self) -> TableModel {
        self.overrides@
    }

    /// Well-formedness: at most one entry focused.
    pub open spec fn wf(&self) -> bool {
        at_most_one_focused(self@.entries)
    }

    /// A fresh registry: no entries, workspace 1.
    pub fn new(overrides: OverrideTable) -> (r: Registry)
        ensures
            r@.entries.len() == 0,
            r@.workspace_index == 1,
            r.table() == overrides@,
            r.wf(),
    {
        Registry { entries: Vec::new(), workspace_index: 1, overrides }
    }

    /// Number of entries.
    pub fn len(&self) -> (n: usize)
        ensures
            n == self@.entries.len(),
    {
        self.entries.len()
    }

    /// The active workspace index.
    pub fn workspace_index(&self) -> (w: i64)
        ensures
            w == self@.workspace_index,
    {
        self.workspace_index
    }

    /// The entry at position `i`.
    pub fn entry(&self, i: usize) -> (e: &WindowEntry)
        requires
            i < self@.entries.len(),
        ensures
            e@ == self@.entries[i as int],
    {
        &self.entries[i]
    }

    /// The current ordered list of entries.
    pub fn entries(&self) -> (es: &Vec<WindowEntry>)
        ensures
            es.deep_view() == self@.entries,
    {
        &self.entries
    }

    /// Position of the first entry with the given id, if any.
    pub fn find_index(&self, id: i64) -> (r: Option<usize>)
        ensures
            match r {
                Some(k) => k < self@.entries.len() && find_id(self@.entries, id as int) == k as int,
                None => find_id(self@.entries, id as int) == -1,
            },
    {
        let n = self.entries.len();
        let mut i: usize = 0;
        while i < n
            invariant
                n == self@.entries.len(),
                i <= n,
                forall|j: int| 0 <= j < i ==> self@.entries[j].id != id as int,
            decreases n - i,
        {
            if self.entries[i].id == id {
                proof {
                    lemma_find_id_unique(self@.entries, id as int, i as int);
                }
                return Some(i);
            }
            i = i + 1;
        }
        proof {
            lemma_find_id(self@.entries, id as int);
        }
        None
    }

    /// Whether an entry with the given id is present.
    pub fn contains_id(&self, id: i64) -> (b: bool)
        ensures
            b == has_id(self@.entries, id as int),
    {
        let r = self.find_index(id);
        proof {
            lemma_find_id(self@.entries, id as int);
            if find_id(self@.entries, id as int) >= 0 {
                assert(has_id(self@.entries, id as int)) by {
                    assert(self@.entries[find_id(self@.entries, id as int)].id == id as int);
                }
            }
        }
        match r {
            Some(_) => true,
            None => false,
        }
    }

    /// Clears the focus flag of every entry.
    fn unfocus_all_entries(&mut self)
        ensures
            final(self)@.entries == unfocus_all(old(self)@.entries),
            final(self)@.workspace_index == old(self)@.workspace_index,
            final(self).table() == old(self).table(),
    {
        let ghost v0 = self.entries@;
        let n = self.entries.len();
        let mut i: usize = 0;
        while i < n
            invariant
                n == v0.len(),
                i <= n,
                self.entries@.len() == n,
                v0 == old(self).entries@,
                self.overrides == old(self).overrides,
                self.workspace_index == old(self).workspace_index,
                forall|j: int|
                    #![trigger self.entries@[j]]
                    0 <= j < i ==> self.entries@[j].id == v0[j].id && self.entries@[j].display_name
                        == v0[j].display_name && !self.entries@[j].focused,
                forall|j: int| #![trigger self.entries@[j]] i <= j < n ==> self.entries@[j] == v0[j],
            decreases n - i,
        {
            let id = self.entries[i].id;
            let name = self.entries[i].display_name.clone();
            self.entries[i] = WindowEntry { id, display_name: name, focused: false };
            i = i + 1;
        }
        proof {
            lemma_vec_deep_view(self.entries);
            lemma_vec_deep_view(old(self).entries);
            assert(self@.entries =~= unfocus_all(old(self)@.entries));
        }
    }

    /// Focuses exactly the entry at position `k`, clearing every other flag.
    fn focus_at(&mut self, k: usize)
        requires
            k < old(self)@.entries.len(),
        ensures
            final(self)@.entries == focus_only(old(self)@.entries, k as int),
            final(self)@.workspace_index == old(self)@.workspace_index,
            final(self).table() == old(self).table(),
    {
        proof {
            lemma_vec_deep_view(self.entries);
        }
        let ghost v0 = self.entries@;
        let n = self.entries.len();
        let mut i: usize = 0;
        while i < n
            invariant
                n == v0.len(),
                i <= n,
                k < n,
                self.entries@.len() == n,
                v0 == old(self).entries@,
                self.overrides == old(self).overrides,
                self.workspace_index == old(self).workspace_index,
                forall|j: int|
                    #![trigger self.entries@[j]]
                    0 <= j < i ==> self.entries@[j].id == v0[j].id && self.entries@[j].display_name
                        == v0[j].display_name && self.entries@[j].focused == (j == k),
                forall|j: int| #![trigger self.entries@[j]] i <= j < n ==> self.entries@[j] == v0[j],
            decreases n - i,
        {
            let id = self.entries[i].id;
            let name = self.entries[i].display_name.clone();
            self.entries[i] = WindowEntry { id, display_name: name, focused: i == k };
            i = i + 1;
        }
        proof {
            lemma_vec_deep_view(self.entries);
            lemma_vec_deep_view(old(self).entries);
            assert(self@.entries =~= focus_only(old(self)@.entries, k as int));
        }
    }

    /// The single state-transition entry point: applies one compositor event.
    ///
    /// New windows are appended at the tail (an id already present is updated
    /// in place); a close removes its entry, order preserved; a focus performs
    /// the unfocus broadcast and sets the flag at the entry's unchanged
    /// position; a workspace change overwrites the index. Close and focus
    /// events for unknown ids are no-ops, so duplicate closes are idempotent.
    pub fn apply(&mut self, event: &CompositorEvent)
        requires
            old(self).wf(),
        ensures
            final(self)@ == apply_event(old(self)@, event@, old(self).table()),
            final(self).table() == old(self).table(),
            final(self).wf(),
    {
        proof {
            lemma_apply_preserves_focus_invariant(self@, event@, self.table());
        }
        match event {
            CompositorEvent::WorkspaceChanged { index } => {
                self.workspace_index = *index;
            },
            CompositorEvent::Focused { id } => {
                match self.find_index(*id) {
                    None => {},
                    Some(k) => {
                        self.focus_at(k);
                    },
                }
            },
            CompositorEvent::Closed { id } => {
                match self.find_index(*id) {
                    None => {},
                    Some(k) => {
                        proof {
                            lemma_vec_deep_view(self.entries);
                        }
                        let ghost v0 = self.entries@;
                        self.entries.remove(k);
                        proof {
                            lemma_vec_deep_view(self.entries);
                            assert(self.entries@ == v0.remove(k as int));
                            assert(self@.entries =~= old(self)@.entries.remove(k as int));
                        }
                    },
                }
            },
            CompositorEvent::New { id, raw_name, focused } => {
                let name = self.overrides.resolve(raw_name);
                let found = self.find_index(*id);
                if *focused {
                    self.unfocus_all_entries();
                }
                let ghost base = self@.entries;
                let entry = WindowEntry { id: *id, display_name: name, focused: *focused };
                match found {
                    None => {
                        proof {
                            lemma_vec_deep_view(self.entries);
                        }
                        let ghost v1 = self.entries@;
                        self.entries.push(entry);
                        proof {
                            lemma_vec_deep_view(self.entries);
                            assert(self.entries@ == v1.push(entry));
                            assert(self@.entries =~= base.push(entry@));
                        }
                    },
                    Some(k) => {
                        proof {
                            lemma_vec_deep_view(self.entries);
                            assert(k < self.entries@.len());
                        }
                        let ghost v1 = self.entries@;
                        self.entries[k] = entry;
                        proof {
                            lemma_vec_deep_view(self.entries);
                            assert(self.entries@ == v1.update(k as int, entry));
                            assert(self@.entries =~= base.update(k as int, entry@));
                        }
                    },
                }
                assert(self@.entries =~= apply_new(
                    old(self)@.entries,
                    *id as int,
                    resolved_name(old(self).table(), raw_name@),
                    *focused,
                ));
            },
        }
        assert(final(self)@ =~= apply_event(old(self)@, event@, old(self).table()));
    }

    /// Rebuilds the registry in place from a snapshot: the current entries are
    /// discarded and each snapshot item is appended in the order given, name
    /// resolved, focus flag cleared. The workspace index is event-driven and
    /// not touched here.
    pub fn init_from_snapshot(&mut self, items: &Vec<SnapshotItem>)
        ensures
            final(self)@ == init_model(old(self)@, items.deep_view(), old(self).table()),
            final(self).table() == old(self).table(),
            final(self).wf(),
    {
        self.entries = Vec::new();
        let n = items.len();
        let mut i: usize = 0;
        while i < n
            invariant
                n == items@.len(),
                i <= n,
                self.overrides == old(self).overrides,
                self.workspace_index == old(self).workspace_index,
                self.entries@.len() == i,
                forall|j: int|
                    #![trigger self.entries@[j]]
                    0 <= j < i ==> self.entries@[j].id == items@[j].id && self.entries@[j]
                        .display_name@ == resolved_name(old(self).table(), items@[j].raw_name@)
                        && !self.entries@[j].focused,
            decreases n - i,
        {
            let name = self.overrides.resolve(&items[i].raw_name);
            self.entries.push(WindowEntry { id: items[i].id, display_name: name, focused: false });
            i = i + 1;
        }
        proof {
            lemma_vec_deep_view(self.entries);
            lemma_vec_deep_view(*items);
            assert(self@.entries =~= entries_of_snapshot(items.deep_view(), old(self).table()));
            assert(final(self)@ =~= init_model(old(self)@, items.deep_view(), old(self).table()));
        }
    }
}

} // verus!
