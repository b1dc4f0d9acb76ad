//! Workspaces as widgets see them: the compositor's metadata joined with its
//! dynamic state, for the whole session and for each output.

use std::collections::{HashMap, HashSet};

use vstd::prelude::*;
use vstd::string::*;

use crate::callbacks::{CallbackId, Callbacks};
use crate::names;
use crate::names::NameMap;
use crate::text;

verus! {

broadcast use vstd::std_specs::hash::group_hash_axioms;

/// What the compositor says of a workspace apart from its state.
#[derive(Debug)]
pub struct WorkspaceMeta {
    pub id: i32,
    pub idx: i32,
    pub name: String,
    pub output: Option<String>,
}

/// The state of the workspaces on one output.
#[derive(Debug)]
pub struct PerOutputState {
    pub active_workspace: HashSet<i32>,
    pub occupied_workspaces: HashSet<i32>,
    pub window_counts: HashMap<i32, u32>,
}

/// The state of all workspaces.
#[derive(Debug)]
pub struct WorkspaceSnapshot {
    pub active_workspace: HashSet<i32>,
    pub occupied_workspaces: HashSet<i32>,
    pub urgent_workspaces: HashSet<i32>,
    pub window_counts: HashMap<i32, u32>,
    /// By the connector name of the output.
    pub per_output: NameMap<PerOutputState>,
}

impl Default for PerOutputState {
    fn default() -> (s: Self)
        ensures
            s.active_workspace@ == Set::<i32>::empty(),
            s.occupied_workspaces@ == Set::<i32>::empty(),
            s.window_counts@ == Map::<i32, u32>::empty(),
    {
        PerOutputState {
            active_workspace: HashSet::new(),
            occupied_workspaces: HashSet::new(),
            window_counts: HashMap::new(),
        }
    }
}

impl Default for WorkspaceSnapshot {
    fn default() -> (s: Self)
        ensures
            s.active_workspace@ == Set::<i32>::empty(),
            s.occupied_workspaces@ == Set::<i32>::empty(),
            s.urgent_workspaces@ == Set::<i32>::empty(),
            s.window_counts@ == Map::<i32, u32>::empty(),
            s.per_output.wf(),
            s.per_output@ == Map::<Seq<char>, PerOutputState>::empty(),
    {
        WorkspaceSnapshot {
            active_workspace: HashSet::new(),
            occupied_workspaces: HashSet::new(),
            urgent_workspaces: HashSet::new(),
            window_counts: HashMap::new(),
            per_output: NameMap::new(),
        }
    }
}

/// A workspace with its state.
#[derive(Debug)]
pub struct Workspace {
    /// Stable unique id, for identity and switching.
    pub id: i32,
    /// Positional display index, from 1.
    pub idx: i32,
    /// Display name.
    pub name: String,
    /// Whether this is a currently active workspace.
    pub active: bool,
    /// Whether this workspace has windows.
    pub occupied: bool,
    /// Whether this workspace is marked urgent.
    pub urgent: bool,
    /// Number of windows, where the compositor says.
    pub window_count: Option<u32>,
    /// Output this workspace belongs to; none where workspaces are global.
    pub output: Option<String>,
}

/// What a `Workspace` stands for.
pub struct WorkspaceView {
    pub id: i32,
    pub idx: i32,
    pub name: Seq<char>,
    pub active: bool,
    pub occupied: bool,
    pub urgent: bool,
    pub window_count: Option<u32>,
    pub output: Option<Seq<char>>,
}

impl View for Workspace {
    type V = WorkspaceView;

    open spec fn view(&self) -> WorkspaceView {
        WorkspaceView {
            id: self.id,
            idx: self.idx,
            name: self.name@,
            active: self.active,
            occupied: self.occupied,
            urgent: self.urgent,
            window_count: self.window_count,
            output: text::opt_string_view(self.output),
        }
    }
}

pub open spec fn count_of(counts: Map<i32, u32>, id: i32) -> Option<u32> {
    if counts.dom().contains(id) {
        Some(counts[id])
    } else {
        None
    }
}

/// `meta` with the given sets of active, occupied and urgent workspaces.
pub open spec fn enriched(
    meta: WorkspaceMeta,
    active: Set<i32>,
    occupied: Set<i32>,
    urgent: Set<i32>,
    counts: Map<i32, u32>,
) -> WorkspaceView {
    WorkspaceView {
        id: meta.id,
        idx: meta.idx,
        name: meta.name@,
        active: active.contains(meta.id),
        occupied: occupied.contains(meta.id),
        urgent: urgent.contains(meta.id),
        window_count: count_of(counts, meta.id),
        output: text::opt_string_view(meta.output),
    }
}

/// `meta` by the state of the whole session.
pub open spec fn global_workspace(meta: WorkspaceMeta, s: WorkspaceSnapshot) -> WorkspaceView {
    enriched(
        meta,
        s.active_workspace@,
        s.occupied_workspaces@,
        s.urgent_workspaces@,
        s.window_counts@,
    )
}

/// `meta` by the state of `output`, or of the whole session where the output
/// has none of its own. Urgency is always that of the session.
pub open spec fn output_workspace(
    meta: WorkspaceMeta,
    s: WorkspaceSnapshot,
    output: Seq<char>,
) -> WorkspaceView {
    if s.per_output@.dom().contains(output) {
        let o = s.per_output@[output];
        enriched(
            meta,
            o.active_workspace@,
            o.occupied_workspaces@,
            s.urgent_workspaces@,
            o.window_counts@,
        )
    } else {
        global_workspace(meta, s)
    }
}

fn window_count(counts: &HashMap<i32, u32>, id: i32) -> (r: Option<u32>)
    ensures
        r == count_of(counts@, id),
{
    match counts.get(&id) {
        Some(n) => Some(*n),
        None => None,
    }
}

impl Workspace {
    /// A workspace by the state of the whole session.
    pub fn from_meta(meta: &WorkspaceMeta, snapshot: &WorkspaceSnapshot) -> (w: Self)
        ensures
            w@ == global_workspace(*meta, *snapshot),
    {
        Workspace {
            id: meta.id,
            idx: meta.idx,
            name: meta.name.clone(),
            active: snapshot.active_workspace.contains(&meta.id),
            occupied: snapshot.occupied_workspaces.contains(&meta.id),
            urgent: snapshot.urgent_workspaces.contains(&meta.id),
            window_count: window_count(&snapshot.window_counts, meta.id),
            output: text::clone_opt(&meta.output),
        }
    }

    /// A workspace by the state of one output.
    pub fn from_meta_per_output(
        meta: &WorkspaceMeta,
        snapshot: &WorkspaceSnapshot,
        output: &str,
    ) -> (w: Self)
        ensures
            w@ == output_workspace(*meta, *snapshot, output@),
    {
        match snapshot.per_output.get(output) {
            Some(state) => Workspace {
                id: meta.id,
                idx: meta.idx,
                name: meta.name.clone(),
                active: state.active_workspace.contains(&meta.id),
                occupied: state.occupied_workspaces.contains(&meta.id),
                urgent: snapshot.urgent_workspaces.contains(&meta.id),
                window_count: window_count(&state.window_counts, meta.id),
                output: text::clone_opt(&meta.output),
            },
            None => Self::from_meta(meta, snapshot),
        }
    }
}

/// What widgets on one output are told.
#[derive(Debug)]
pub struct PerOutputWorkspaces {
    /// Active workspaces on this output. Some compositors show several at once.
    pub active_workspace: HashSet<i32>,
    /// Workspaces that concern this output, with its state.
    pub workspaces: Vec<Workspace>,
}

/// What widgets are told of the workspaces.
#[derive(Debug)]
pub struct WorkspaceServiceSnapshot {
    pub active_workspace: HashSet<i32>,
    pub occupied_workspaces: HashSet<i32>,
    pub window_counts: HashMap<i32, u32>,
    /// All workspaces with their current state.
    pub workspaces: Vec<Workspace>,
    /// By the connector name of the output.
    pub per_output: NameMap<PerOutputWorkspaces>,
}

pub open spec fn workspace_views(v: Seq<Workspace>) -> Seq<WorkspaceView> {
    v.map_values(|w: Workspace| w@)
}

/// Whether a workspace concerns `output`: it belongs there, or it is global.
pub open spec fn concerns(meta: WorkspaceMeta, output: Seq<char>) -> bool {
    match meta.output {
        Some(o) => o@ == output,
        None => true,
    }
}

/// The workspaces that concern `output`, with its state, in order.
pub open spec fn workspaces_on(
    metas: Seq<WorkspaceMeta>,
    s: WorkspaceSnapshot,
    output: Seq<char>,
) -> Seq<WorkspaceView>
    decreases metas.len(),
{
    if metas.len() == 0 {
        Seq::empty()
    } else {
        let before = workspaces_on(metas.drop_last(), s, output);
        if concerns(metas.last(), output) {
            before.push(output_workspace(metas.last(), s, output))
        } else {
            before
        }
    }
}

/// The snapshot for widgets says what the metadata and the state say.
pub open spec fn snapshot_of(
    r: WorkspaceServiceSnapshot,
    metas: Seq<WorkspaceMeta>,
    s: WorkspaceSnapshot,
) -> bool {
    &&& r.active_workspace@ == s.active_workspace@
    &&& r.occupied_workspaces@ == s.occupied_workspaces@
    &&& r.window_counts@ == s.window_counts@
    &&& workspace_views(r.workspaces@) == metas.map_values(|m: WorkspaceMeta| global_workspace(m, s))
    &&& r.per_output.wf()
    &&& r.per_output@.dom() == s.per_output@.dom()
    &&& forall|o: Seq<char>| #[trigger]
        r.per_output@.dom().contains(o) ==> {
            &&& r.per_output@[o].active_workspace@ == s.per_output@[o].active_workspace@
            &&& workspace_views(r.per_output@[o].workspaces@) == workspaces_on(metas, s, o)
        }
}

fn copy_set(s: &HashSet<i32>) -> (r: HashSet<i32>)
    ensures
        r@ == s@,
{
    let mut r: HashSet<i32> = HashSet::new();
    for x in it: s.iter()
        invariant
            r@ == it.seq().take(it.index()).unref().to_set(),
            it.seq().unref().to_set() == s@,
            it.index() == it.seq().len() ==> it.seq().take(it.index()) == it.seq(),
    {
        let ghost before = it.seq().take(it.index()).unref();
        let ghost after = it.seq().take(it.index() + 1).unref();
        r.insert(*x);
        proof {
            assert(after =~= before.push(*x));
            assert forall|y: i32| after.contains(y) == (before.contains(y) || y == *x) by {
                if before.contains(y) {
                    let k = choose|k: int| 0 <= k < before.len() && before[k] == y;
                    assert(after[k] == y);
                }
                assert(after[before.len() as int] == *x);
            }
            assert(after.to_set() =~= before.to_set().insert(*x));
            assert(it.index() + 1 == it.seq().len() ==> it.seq().take(it.index() + 1) =~= it.seq());
        }
    }
    r
}

fn workspaces_for(
    metas: &Vec<WorkspaceMeta>,
    snapshot: &WorkspaceSnapshot,
    output: &str,
) -> (r: Vec<Workspace>)
    ensures
        workspace_views(r@) == workspaces_on(metas@, *snapshot, output@),
{
    let mut out: Vec<Workspace> = Vec::new();
    let mut i: usize = 0;
    assert(workspace_views(out@) =~= workspaces_on(metas@.take(0), *snapshot, output@));
    while i < metas.len()
        invariant
            i <= metas.len(),
            workspace_views(out@) == workspaces_on(metas@.take(i as int), *snapshot, output@),
        decreases metas.len() - i,
    {
        assert(metas@.take(i + 1).drop_last() =~= metas@.take(i as int));
        let included = match &metas[i].output {
            Some(o) => text::str_eq(o.as_str(), output),
            None => true,
        };
        let ghost before = out@;
        if included {
            let w = Workspace::from_meta_per_output(&metas[i], snapshot, output);
            let ghost wv = w@;
            out.push(w);
            assert(workspace_views(out@) =~= workspace_views(before).push(wv));
        }
        i += 1;
    }
    assert(metas@.take(i as int) =~= metas@);
    out
}

/// The snapshot for widgets by the compositor's metadata and state.
pub fn build_snapshot(metas: &Vec<WorkspaceMeta>, snapshot: &WorkspaceSnapshot) -> (r:
    WorkspaceServiceSnapshot)
    requires
        snapshot.per_output.wf(),
    ensures
        snapshot_of(r, metas@, *snapshot),
{
    let mut workspaces: Vec<Workspace> = Vec::new();
    let ghost all = metas@.map_values(|m: WorkspaceMeta| global_workspace(m, *snapshot));
    let mut i: usize = 0;
    while i < metas.len()
        invariant
            i <= metas.len(),
            all == metas@.map_values(|m: WorkspaceMeta| global_workspace(m, *snapshot)),
            workspace_views(workspaces@) =~= all.take(i as int),
        decreases metas.len() - i,
    {
        let ghost before = workspaces@;
        let w = Workspace::from_meta(&metas[i], snapshot);
        let ghost wv = w@;
        workspaces.push(w);
        assert(workspace_views(workspaces@) =~= workspace_views(before).push(wv));
        i += 1;
    }
    assert(all.take(i as int) =~= all);

    let mut per_output: NameMap<PerOutputWorkspaces> = NameMap::new();
    let ghost entries = snapshot.per_output.entries@;
    let mut k: usize = 0;
    while k < snapshot.per_output.entries.len()
        invariant
            k <= entries.len(),
            entries == snapshot.per_output.entries@,
            snapshot.per_output.wf(),
            per_output.wf(),
            forall|o: Seq<char>| #[trigger]
                per_output@.dom().contains(o) <==> exists|j: int|
                    0 <= j < k && (#[trigger] entries[j]).0@ == o,
            forall|o: Seq<char>| #[trigger]
                per_output@.dom().contains(o) ==> {
                    &&& per_output@[o].active_workspace@
                        == snapshot.per_output@[o].active_workspace@
                    &&& workspace_views(per_output@[o].workspaces@) == workspaces_on(
                        metas@,
                        *snapshot,
                        o,
                    )
                },
        decreases entries.len() - k,
    {
        let name = snapshot.per_output.entries[k].0.clone();
        let ghost n = name@;
        let output_workspaces = workspaces_for(metas, snapshot, name.as_str());
        let active = copy_set(&snapshot.per_output.entries[k].1.active_workspace);
        proof {
            names::lemma_name_index(entries, n);
            let i0 = names::name_index(entries, n);
            if i0 < k {
                assert(entries[i0].0@ != entries[k as int].0@);
            }
            assert(snapshot.per_output@[n] == entries[k as int].1);
        }
        let ghost before = per_output@;
        let value = PerOutputWorkspaces { active_workspace: active, workspaces: output_workspaces };
        per_output.insert(name, value);
        assert forall|o: Seq<char>| #[trigger]
            per_output@.dom().contains(o) <==> exists|j: int|
                0 <= j < k + 1 && (#[trigger] entries[j]).0@ == o by {
            if o == n {
                assert(entries[k as int].0@ == o);
            } else if before.dom().contains(o) {
                let j = choose|j: int| 0 <= j < k && (#[trigger] entries[j]).0@ == o;
                assert(entries[j].0@ == o);
            }
        }
        k += 1;
    }
    proof {
        assert forall|o: Seq<char>|
            per_output@.dom().contains(o) == snapshot.per_output@.dom().contains(o) by {
            names::lemma_name_index(entries, o);
            if per_output@.dom().contains(o) {
                let j = choose|j: int| 0 <= j < k && (#[trigger] entries[j]).0@ == o;
                assert(entries[j].0@ == o);
            }
            if snapshot.per_output@.dom().contains(o) {
                assert(entries[names::name_index(entries, o)].0@ == o);
            }
        }
        assert(per_output@.dom() =~= snapshot.per_output@.dom());
    }
    WorkspaceServiceSnapshot {
        active_workspace: copy_set(&snapshot.active_workspace),
        occupied_workspaces: copy_set(&snapshot.occupied_workspaces),
        window_counts: snapshot.window_counts.clone(),
        workspaces,
        per_output,
    }
}

/// What the compositor is asked to do.
#[derive(Debug, Clone, Copy, PartialEq, Eq, Structural)]
pub enum CompositorRequest {
    SwitchWorkspace(i32),
}

/// Holds the workspaces and knows who listens.
pub struct WorkspaceService {
    pub snapshot: WorkspaceSnapshot,
    pub workspaces: Vec<WorkspaceMeta>,
    pub callbacks: Callbacks,
    /// Whether there has been something to tell.
    pub ready: bool,
}

impl WorkspaceService {
    pub open spec fn wf(&self) -> bool {
        self.callbacks.wf() && self.snapshot.per_output.wf()
    }

    /// A service that starts from what the compositor says now. It is ready at
    /// once.
    pub fn new(snapshot: WorkspaceSnapshot, workspaces: Vec<WorkspaceMeta>) -> (s: Self)
        requires
            snapshot.per_output.wf(),
        ensures
            s.wf(),
            s.ready,
            s.snapshot == snapshot,
            s.workspaces == workspaces,
            s.callbacks@.len() == 0,
            s.callbacks.has_room(),
            s.callbacks.next == 0,
    {
        WorkspaceService { snapshot, workspaces, callbacks: Callbacks::new(), ready: true }
    }

    /// The one service of the process: `instance` where it exists, else a new
    /// one.
    pub fn global(
        instance: Option<Self>,
        snapshot: WorkspaceSnapshot,
        workspaces: Vec<WorkspaceMeta>,
    ) -> (s: Self)
        requires
            instance matches Some(i) ==> i.wf(),
            snapshot.per_output.wf(),
        ensures
            s.wf(),
            instance matches Some(i) ==> s == i,
            instance is None ==> s.ready && s.snapshot == snapshot && s.workspaces == workspaces
                && s.callbacks@.len() == 0 && s.callbacks.has_room() && s.callbacks.next == 0,
    {
        match instance {
            Some(i) => i,
            None => Self::new(snapshot, workspaces),
        }
    }

    /// The snapshot for widgets.
    pub fn build_snapshot(&self) -> (r: WorkspaceServiceSnapshot)
        requires
            self.wf(),
        ensures
            snapshot_of(r, self.workspaces@, self.snapshot),
    {
        build_snapshot(&self.workspaces, &self.snapshot)
    }

    /// Registers a listener. What it is to be told right away, and it alone,
    /// comes with its id: the current snapshot, once the service is ready.
    pub fn connect(&mut self) -> (r: (CallbackId, Option<WorkspaceServiceSnapshot>))
        requires
            old(self).wf(),
            old(self).callbacks.has_room(),
        ensures
            final(self).wf(),
            final(self).callbacks@ == old(self).callbacks@.push(r.0),
            final(self).callbacks.next == old(self).callbacks.next + 1,
            !old(self).callbacks@.contains(r.0),
            final(self).snapshot == old(self).snapshot,
            final(self).workspaces == old(self).workspaces,
            final(self).ready == old(self).ready,
            r.1.is_some() == old(self).ready,
            r.1 matches Some(s) ==> snapshot_of(s, old(self).workspaces@, old(self).snapshot),
    {
        let id = self.callbacks.register();
        if self.ready {
            (id, Some(build_snapshot(&self.workspaces, &self.snapshot)))
        } else {
            (id, None)
        }
    }

    /// Removes a listener. Says whether there was one.
    pub fn disconnect(&mut self, id: CallbackId) -> (found: bool)
        requires
            old(self).wf(),
        ensures
            final(self).wf(),
            found == old(self).callbacks@.contains(id),
            !final(self).callbacks@.contains(id),
            final(self).callbacks.next == old(self).callbacks.next,
            !found ==> final(self).callbacks@ == old(self).callbacks@,
            found ==> exists|k: int|
                0 <= k < old(self).callbacks@.len() && old(self).callbacks@[k] == id
                    && final(self).callbacks@ == #[trigger] old(self).callbacks@.remove(k),
            final(self).snapshot == old(self).snapshot,
            final(self).workspaces == old(self).workspaces,
            final(self).ready == old(self).ready,
    {
        self.callbacks.unregister(id)
    }

    /// What to ask of the compositor in order to show a workspace.
    pub fn switch_workspace(&self, workspace_id: i32) -> (r: CompositorRequest)
        ensures
            r == CompositorRequest::SwitchWorkspace(workspace_id),
    {
        CompositorRequest::SwitchWorkspace(workspace_id)
    }

    /// Takes in a change of state together with the list of workspaces at that
    /// time. Everyone who listens is to be told.
    pub fn handle_update(
        &mut self,
        snapshot: WorkspaceSnapshot,
        workspaces: Vec<WorkspaceMeta>,
    ) -> (told: (Vec<CallbackId>, WorkspaceServiceSnapshot))
        requires
            old(self).wf(),
            snapshot.per_output.wf(),
        ensures
            final(self).wf(),
            final(self).ready,
            final(self).snapshot == snapshot,
            final(self).workspaces == workspaces,
            final(self).callbacks == old(self).callbacks,
            told.0@ == old(self).callbacks@,
            snapshot_of(told.1, workspaces@, snapshot),
    {
        self.snapshot = snapshot;
        self.workspaces = workspaces;
        self.ready = true;
        (self.callbacks.all(), build_snapshot(&self.workspaces, &self.snapshot))
    }
}

/// On an output only its own workspaces and global ones are listed.
pub proof fn law_listed_workspaces_concern_the_output(
    metas: Seq<WorkspaceMeta>,
    s: WorkspaceSnapshot,
    output: Seq<char>,
)
    ensures
        forall|i: int|
            0 <= i < workspaces_on(metas, s, output).len() ==> {
                let w = #[trigger] workspaces_on(metas, s, output)[i];
                w.output is None || w.output == Some(output)
            },
    decreases metas.len(),
{
    if metas.len() > 0 {
        law_listed_workspaces_concern_the_output(metas.drop_last(), s, output);
    }
}

/// Where workspaces are global, every output lists all of them.
pub proof fn law_global_workspaces_are_on_every_output(
    metas: Seq<WorkspaceMeta>,
    s: WorkspaceSnapshot,
    output: Seq<char>,
)
    requires
        forall|i: int| 0 <= i < metas.len() ==> (#[trigger] metas[i]).output is None,
    ensures
        workspaces_on(metas, s, output) == metas.map_values(
            |m: WorkspaceMeta| output_workspace(m, s, output),
        ),
    decreases metas.len(),
{
    let f = |m: WorkspaceMeta| output_workspace(m, s, output);
    if metas.len() > 0 {
        let shorter = metas.drop_last();
        assert forall|i: int| 0 <= i < shorter.len() implies (#[trigger] shorter[i]).output is None by {
            assert(shorter[i] == metas[i]);
        }
        law_global_workspaces_are_on_every_output(shorter, s, output);
        assert(metas.last() == metas[metas.len() - 1]);
        assert(metas.map_values(f) =~= shorter.map_values(f).push(f(metas.last())));
    } else {
        assert(metas.map_values(f) =~= Seq::<WorkspaceView>::empty());
    }
}

/// Without state of its own an output shows the state of the session.
pub proof fn law_outputs_fall_back_to_the_session(
    meta: WorkspaceMeta,
    s: WorkspaceSnapshot,
    output: Seq<char>,
)
    requires
        !s.per_output@.dom().contains(output),
    ensures
        output_workspace(meta, s, output) == global_workspace(meta, s),
{
}

/// A workspace is urgent exactly where the session says so, on every output,
/// whether or not the output has state of its own.
pub proof fn law_urgency_is_that_of_the_session(
    meta: WorkspaceMeta,
    s: WorkspaceSnapshot,
    output: Seq<char>,
)
    ensures
        output_workspace(meta, s, output).urgent == s.urgent_workspaces@.contains(meta.id),
        global_workspace(meta, s).urgent == s.urgent_workspaces@.contains(meta.id),
{
}

/// A workspace is what the compositor calls it, wherever it is shown.
pub proof fn law_workspaces_keep_their_identity(
    meta: WorkspaceMeta,
    s: WorkspaceSnapshot,
    output: Seq<char>,
)
    ensures
        ({
            let w = output_workspace(meta, s, output);
            let g = global_workspace(meta, s);
            &&& w.id == meta.id && g.id == meta.id
            &&& w.idx == meta.idx && g.idx == meta.idx
            &&& w.name == meta.name@ && g.name == meta.name@
            &&& w.output == text::opt_string_view(meta.output)
            &&& g.output == text::opt_string_view(meta.output)
        }),
{
}

/// For the whole session a workspace is active, occupied and full as the session
/// says.
pub proof fn law_session_state_is_shown(meta: WorkspaceMeta, s: WorkspaceSnapshot)
    ensures
        ({
            let g = global_workspace(meta, s);
            &&& g.active == s.active_workspace@.contains(meta.id)
            &&& g.occupied == s.occupied_workspaces@.contains(meta.id)
            &&& s.window_counts@.dom().contains(meta.id) ==> g.window_count == Some(
                s.window_counts@[meta.id],
            )
            &&& !s.window_counts@.dom().contains(meta.id) ==> g.window_count is None
        }),
{
}

/// On an output with state of its own a workspace is active, occupied and full as
/// that state says, whatever the session says.
pub proof fn law_output_state_is_shown(
    meta: WorkspaceMeta,
    s: WorkspaceSnapshot,
    output: Seq<char>,
)
    requires
        s.per_output@.dom().contains(output),
    ensures
        ({
            let w = output_workspace(meta, s, output);
            let o = s.per_output@[output];
            &&& w.active == o.active_workspace@.contains(meta.id)
            &&& w.occupied == o.occupied_workspaces@.contains(meta.id)
            &&& o.window_counts@.dom().contains(meta.id) ==> w.window_count == Some(
                o.window_counts@[meta.id],
            )
            &&& !o.window_counts@.dom().contains(meta.id) ==> w.window_count is None
        }),
{
}

/// Without state of its own an output shows what the session says, field by
/// field.
pub proof fn law_stateless_output_shows_the_session(
    meta: WorkspaceMeta,
    s: WorkspaceSnapshot,
    output: Seq<char>,
)
    requires
        !s.per_output@.dom().contains(output),
    ensures
        ({
            let w = output_workspace(meta, s, output);
            &&& w.active == s.active_workspace@.contains(meta.id)
            &&& w.occupied == s.occupied_workspaces@.contains(meta.id)
            &&& w.window_count is Some == s.window_counts@.dom().contains(meta.id)
            &&& w.window_count matches Some(n) ==> n == s.window_counts@[meta.id]
        }),
{
}

/// An output lists, in the compositor's order, the workspaces that are its own or
/// belong to no output: one more workspace adds one at the end, or none.
pub proof fn law_output_lists_its_workspaces_in_order(
    metas: Seq<WorkspaceMeta>,
    meta: WorkspaceMeta,
    s: WorkspaceSnapshot,
    output: Seq<char>,
)
    ensures
        ({
            let before = workspaces_on(metas, s, output);
            let after = workspaces_on(metas.push(meta), s, output);
            if meta.output is None || meta.output->0@ == output {
                &&& after.len() == before.len() + 1
                &&& after.drop_last() == before
                &&& after.last().id == meta.id
                &&& after.last().urgent == s.urgent_workspaces@.contains(meta.id)
            } else {
                after == before
            }
        }),
        workspaces_on(Seq::<WorkspaceMeta>::empty(), s, output).len() == 0,
{
    assert(metas.push(meta).drop_last() =~= metas);
    let before = workspaces_on(metas, s, output);
    let after = workspaces_on(metas.push(meta), s, output);
    if concerns(meta, output) {
        assert(after.drop_last() =~= before);
    }
}

/// What widgets are told holds every workspace once, in order, with the marks of
/// the session, and for every output with state its active workspaces and its
/// list.
pub proof fn law_widgets_are_told_everything(
    r: WorkspaceServiceSnapshot,
    metas: Seq<WorkspaceMeta>,
    s: WorkspaceSnapshot,
    k: int,
    output: Seq<char>,
)
    requires
        snapshot_of(r, metas, s),
        0 <= k < metas.len(),
    ensures
        r.workspaces@.len() == metas.len(),
        r.workspaces@[k].id == metas[k].id,
        r.workspaces@[k].name@ == metas[k].name@,
        r.workspaces@[k].active == s.active_workspace@.contains(metas[k].id),
        r.workspaces@[k].occupied == s.occupied_workspaces@.contains(metas[k].id),
        r.workspaces@[k].urgent == s.urgent_workspaces@.contains(metas[k].id),
        r.active_workspace@ == s.active_workspace@,
        r.occupied_workspaces@ == s.occupied_workspaces@,
        r.window_counts@ == s.window_counts@,
        r.per_output@.dom().contains(output) == s.per_output@.dom().contains(output),
        s.per_output@.dom().contains(output) ==> r.per_output@[output].active_workspace@
            == s.per_output@[output].active_workspace@,
        s.per_output@.dom().contains(output) ==> workspace_views(
            r.per_output@[output].workspaces@,
        ) == workspaces_on(metas, s, output),
{
    let all = metas.map_values(|m: WorkspaceMeta| global_workspace(m, s));
    assert(workspace_views(r.workspaces@).len() == all.len());
    assert(workspace_views(r.workspaces@)[k] == all[k]);
    assert(all[k] == global_workspace(metas[k], s));
}

} // verus!
