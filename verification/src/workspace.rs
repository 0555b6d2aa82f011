//! The workspace controller: it owns the dock area, brings it up from what
//! was stored, and hands every change of the layout to the save scheduler.

use vstd::prelude::*;
use crate::area::{
    dump_area, lemma_resolve_panels_len, resolve_area, resolve_node, resolve_panel_list,
    AreaModel, AuxDockModel, DockArea, LoadError,
};
use crate::prune::{lemma_prune_known_layout, lemma_pruned_layout_resolves, prune_layout};
use crate::round_trip::{layout_known, lemma_dump_of_load, lemma_load_fails_iff_unknown};
use crate::migration::{
    after_answer, after_load, is_stale, MigrationAction, MigrationState, EXPECTED_VERSION,
};
use crate::node::{model_wf, models_wf, panel_models, Axis, DockNode, NodeModel};
use crate::panel::{PanelRef, PanelRegistry, UnknownPanelKey};
use crate::scheduler::{
    deadline_after, decision, expired, layout_model, notify, saved, SaveDecision, SaveScheduler,
    SchedulerModel, TimerCommand,
};
use crate::state::{
    node_state_models, panel_state_models, DockState, DockStateModel, LayoutModel, LayoutState,
    NodeState, NodeStateModel, PanelState, PanelStateModel,
};

verus! {

/// The width of the left dock of the default layout, in pixels.
pub const DEFAULT_LEFT_SIZE: u32 = 350;

/// The height of the bottom dock of the default layout, in pixels.
pub const DEFAULT_BOTTOM_SIZE: u32 = 200;

/// The width of the right dock of the default layout, in pixels.
pub const DEFAULT_RIGHT_SIZE: u32 = 320;

/// The record of a panel that takes no parameters.
pub open spec fn plain_panel(key: Seq<char>) -> PanelStateModel {
    PanelStateModel { key, params: Seq::empty() }
}

/// The tabs of the root of the default layout.
pub open spec fn default_root_panels() -> Seq<PanelStateModel> {
    seq![
        plain_panel("Button"@),
        plain_panel("Input"@),
        plain_panel("Dropdown"@),
        plain_panel("Text"@),
        plain_panel("Modal"@),
        plain_panel("Popup"@),
        plain_panel("Switch"@),
        plain_panel("Progress"@),
        plain_panel("Table"@),
        plain_panel("Image"@),
        plain_panel("Icon"@),
        plain_panel("Tooltip"@),
        plain_panel("Progress"@),
        plain_panel("Calendar"@),
        plain_panel("Resizable"@),
        plain_panel("Scrollable"@),
        plain_panel("Accordion"@),
    ]
}

/// The root of the default layout: one vertical split that holds one group
/// of tabs and fixes no size.
pub open spec fn default_root_model() -> NodeStateModel {
    NodeStateModel::Split {
        axis: Axis::Vertical,
        items: seq![
            NodeStateModel::Tabs { panels: default_root_panels(), active_index: 0 },
        ],
        sizes: seq![None],
    }
}

/// The panels of the left dock of the default layout.
pub open spec fn default_left_panels() -> Seq<PanelStateModel> {
    seq![plain_panel("List"@)]
}

/// The panels of the right dock of the default layout.
pub open spec fn default_right_panels() -> Seq<PanelStateModel> {
    seq![plain_panel("Image"@)]
}

/// The panels of the bottom dock of the default layout.
pub open spec fn default_bottom_panels() -> Seq<PanelStateModel> {
    seq![plain_panel("Tooltip"@), plain_panel("Icon"@)]
}

/// The default layout, stamped with the expected version.
pub open spec fn default_layout_model() -> LayoutModel {
    LayoutModel {
        version: Some(EXPECTED_VERSION),
        root: default_root_model(),
        left: Some(
            DockStateModel { panels: default_left_panels(), size: Some(DEFAULT_LEFT_SIZE) },
        ),
        right: Some(
            DockStateModel { panels: default_right_panels(), size: Some(DEFAULT_RIGHT_SIZE) },
        ),
        bottom: Some(
            DockStateModel { panels: default_bottom_panels(), size: Some(DEFAULT_BOTTOM_SIZE) },
        ),
    }
}

/// The record of a panel of kind `key` that takes no parameters.
pub fn plain_panel_state(key: &str) -> (out: PanelState)
    ensures
        out@ == plain_panel(key@),
{
    PanelState { panel_key: key.to_owned(), params: String::new() }
}

/// The record of the root of the default layout.
pub fn default_root_state() -> (out: NodeState)
    ensures
        out@ == default_root_model(),
{
    let mut panels: Vec<PanelState> = Vec::new();
    panels.push(plain_panel_state("Button"));
    panels.push(plain_panel_state("Input"));
    panels.push(plain_panel_state("Dropdown"));
    panels.push(plain_panel_state("Text"));
    panels.push(plain_panel_state("Modal"));
    panels.push(plain_panel_state("Popup"));
    panels.push(plain_panel_state("Switch"));
    panels.push(plain_panel_state("Progress"));
    panels.push(plain_panel_state("Table"));
    panels.push(plain_panel_state("Image"));
    panels.push(plain_panel_state("Icon"));
    panels.push(plain_panel_state("Tooltip"));
    panels.push(plain_panel_state("Progress"));
    panels.push(plain_panel_state("Calendar"));
    panels.push(plain_panel_state("Resizable"));
    panels.push(plain_panel_state("Scrollable"));
    panels.push(plain_panel_state("Accordion"));
    assert(panel_state_models(panels@) =~= default_root_panels());
    let mut items: Vec<NodeState> = Vec::new();
    items.push(NodeState::Tabs { panels, active_index: 0 });
    let mut sizes: Vec<Option<u32>> = Vec::new();
    sizes.push(None);
    proof {
        assert(node_state_models(items@, 0) =~= Seq::<NodeStateModel>::empty());
        assert(node_state_models(items@, 1) =~= seq![items@[0]@]);
        assert(sizes@ =~= seq![None::<u32>]);
    }
    NodeState::Split { axis: Axis::Vertical, items, sizes }
}

/// The records of the panels of the left dock of the default layout.
pub fn default_left_state() -> (out: Vec<PanelState>)
    ensures
        panel_state_models(out@) == default_left_panels(),
{
    let mut panels: Vec<PanelState> = Vec::new();
    panels.push(plain_panel_state("List"));
    assert(panel_state_models(panels@) =~= default_left_panels());
    panels
}

/// The records of the panels of the right dock of the default layout.
pub fn default_right_state() -> (out: Vec<PanelState>)
    ensures
        panel_state_models(out@) == default_right_panels(),
{
    let mut panels: Vec<PanelState> = Vec::new();
    panels.push(plain_panel_state("Image"));
    assert(panel_state_models(panels@) =~= default_right_panels());
    panels
}

/// The records of the panels of the bottom dock of the default layout.
pub fn default_bottom_state() -> (out: Vec<PanelState>)
    ensures
        panel_state_models(out@) == default_bottom_panels(),
{
    let mut panels: Vec<PanelState> = Vec::new();
    panels.push(plain_panel_state("Tooltip"));
    panels.push(plain_panel_state("Icon"));
    assert(panel_state_models(panels@) =~= default_bottom_panels());
    panels
}

/// The snapshot of the default layout.
pub fn default_layout_state() -> (out: LayoutState)
    ensures
        out@ == default_layout_model(),
{
    LayoutState {
        version: Some(EXPECTED_VERSION),
        root: default_root_state(),
        left: Some(DockState { panels: default_left_state(), size: Some(DEFAULT_LEFT_SIZE) }),
        right: Some(DockState { panels: default_right_state(), size: Some(DEFAULT_RIGHT_SIZE) }),
        bottom: Some(
            DockState { panels: default_bottom_state(), size: Some(DEFAULT_BOTTOM_SIZE) },
        ),
    }
}

/// Whatever the registry holds, the root of the default layout obeys the
/// structural rule once it is resolved.
pub proof fn lemma_default_root_wf(reg: Map<Seq<char>, u64>)
    ensures
        resolve_node(reg, default_root_model()) matches Ok(m) ==> model_wf(m),
{
    let tabs = NodeStateModel::Tabs { panels: default_root_panels(), active_index: 0 };
    let items = seq![tabs];
    lemma_resolve_panels_len(reg, default_root_panels(), default_root_panels().len());
    assert(items[0] == tabs);
    assert(crate::area::resolve_nodes(reg, items, 0) == Ok::<Seq<NodeModel>, Seq<char>>(
        Seq::empty(),
    ));
    assert(crate::area::resolve_nodes(reg, items, 1) == match resolve_node(reg, tabs) {
        Ok(n) => Ok::<Seq<NodeModel>, Seq<char>>(Seq::<NodeModel>::empty().push(n)),
        Err(e) => Err(e),
    });
    if let Ok(m) = resolve_node(reg, default_root_model()) {
        let child = resolve_node(reg, tabs)->Ok_0;
        let children = Seq::<NodeModel>::empty().push(child);
        assert(m == NodeModel::Split { axis: Axis::Vertical, children, sizes: seq![None::<u32>] });
        assert(model_wf(child));
        assert(models_wf(children, 0));
        assert(models_wf(children, 1));
    }
}

/// The area after a reset to the default layout: the default layout where
/// the registry knows all its panels, else the area as it was.
pub open spec fn reset_area(reg: Map<Seq<char>, u64>, before: AreaModel) -> AreaModel {
    match resolve_area(reg, default_layout_model()) {
        Ok(m) => m,
        Err(_) => before,
    }
}

/// Whether a reset to the default layout takes place: the registry knows
/// every panel of the default layout.
pub open spec fn reset_takes_place(reg: Map<Seq<char>, u64>) -> bool {
    resolve_area(reg, default_layout_model()).is_ok()
}

/// The snapshot to write after a reset to the default layout, where the
/// reset took place.
pub open spec fn reset_snapshot(reg: Map<Seq<char>, u64>) -> Option<LayoutModel> {
    match resolve_area(reg, default_layout_model()) {
        Ok(_) => Some(default_layout_model()),
        Err(_) => None,
    }
}

/// The snapshot that is loaded for a stored one: the stored one itself
/// where it is of the expected version, else the stored one without the
/// panels that the registry does not know.
pub open spec fn effective_layout(reg: Map<Seq<char>, u64>, l: LayoutModel) -> LayoutModel {
    if is_stale(l.version) {
        prune_layout(reg, l)
    } else {
        l
    }
}

/// A stored layout of another version never fails to load on a panel key:
/// its unknown panels are dropped.
pub proof fn lemma_stale_layout_resolves(reg: Map<Seq<char>, u64>, l: LayoutModel)
    requires
        is_stale(l.version),
    ensures
        resolve_area(reg, effective_layout(reg, l)).is_ok(),
{
    lemma_pruned_layout_resolves(reg, l);
}

/// A stored layout all of whose panels the registry knows is loaded as it
/// was stored, whatever its version: it resolves, and the snapshot of what
/// it resolves to is the stored one, with the same shapes, keys, sizes and
/// active tabs.
pub proof fn lemma_known_layout_loads_as_stored(reg: Map<Seq<char>, u64>, l: LayoutModel)
    requires
        layout_known(reg, l),
    ensures
        effective_layout(reg, l) == l,
        resolve_area(reg, effective_layout(reg, l)) matches Ok(m) && dump_area(m) == l,
{
    lemma_prune_known_layout(reg, l);
    lemma_load_fails_iff_unknown(reg, l);
    lemma_dump_of_load(reg, l);
}

/// With a registry that knows the panels of the default layout, a reset
/// takes place whatever the area was: the area then is the default layout
/// with the expected version, nothing of what was there remains, and the
/// snapshot to write is that of the area.
pub proof fn lemma_reset_gives_default(reg: Map<Seq<char>, u64>, before: AreaModel)
    requires
        layout_known(reg, default_layout_model()),
    ensures
        reset_takes_place(reg),
        dump_area(reset_area(reg, before)) == default_layout_model(),
        reset_area(reg, before).version == Some(EXPECTED_VERSION),
        reset_snapshot(reg) == Some(default_layout_model()),
        reset_snapshot(reg) == Some(dump_area(reset_area(reg, before))),
{
    lemma_load_fails_iff_unknown(reg, default_layout_model());
    lemma_dump_of_load(reg, default_layout_model());
}

/// The area that a stored snapshot loads to, where it loads.
pub open spec fn loaded_area(reg: Map<Seq<char>, u64>, l: LayoutModel) -> Option<AreaModel> {
    match resolve_area(reg, effective_layout(reg, l)) {
        Ok(m) => if model_wf(m.root) {
            Some(m)
        } else {
            None
        },
        Err(_) => None,
    }
}

/// The area that a workspace starts from before anything is loaded.
pub open spec fn empty_area() -> AreaModel {
    AreaModel {
        version: Some(EXPECTED_VERSION),
        root: NodeModel::Tabs { panels: Seq::empty(), active_index: 0 },
        left: None,
        right: None,
        bottom: None,
    }
}

/// What loading a stored layout came to: whether the user is to be asked
/// about a reset, and whether the layout is in use.
#[derive(Debug, PartialEq, Eq)]
pub struct LoadReport {
    pub prompt: bool,
    pub result: Result<(), LoadError>,
}

/// What the caller is to do once the workspace is up: ask the user about a
/// reset, and write the snapshot of a layout that was reset.
#[derive(Debug, PartialEq, Eq)]
pub struct Startup {
    pub prompt: bool,
    pub persist: Option<LayoutState>,
}

/// What the caller is to do after the user's answer: write the snapshot of
/// a layout that was reset, at once, and replace the save timer as the
/// change of the layout calls for.
#[derive(Debug, PartialEq, Eq)]
pub struct AnswerOutcome {
    pub persist: Option<LayoutState>,
    pub timer: Option<TimerCommand>,
}

/// What a [`StoryWorkspace`] stands for in contracts.
pub ghost struct WorkspaceModel {
    pub area: AreaModel,
    pub scheduler: SchedulerModel,
    pub migration: MigrationState,
}

/// The controller of one workspace window.
#[derive(Debug)]
pub struct StoryWorkspace {
    dock_area: DockArea,
    scheduler: SaveScheduler,
    migration: MigrationState,
}

impl View for StoryWorkspace {
    type V = WorkspaceModel;

    closed spec fn view(&self) -> WorkspaceModel {
        WorkspaceModel {
            area: self.dock_area@,
            scheduler: self.scheduler@,
            migration: self.migration,
        }
    }
}

impl StoryWorkspace {
    /// Whether the tree of the workspace obeys the structural rule.
    pub open spec fn wf(&self) -> bool {
        model_wf(self@.area.root)
    }

    /// Builds the root of the default layout; fails with the first of its
    /// panels that the registry does not know.
    pub fn init_default_layout(registry: &PanelRegistry) -> (out: Result<
        DockNode,
        UnknownPanelKey,
    >)
        ensures
            match (out, resolve_node(registry@, default_root_model())) {
                (Ok(node), Ok(m)) => node@ == m && node.wf(),
                (Err(e), Err(k)) => e.key@ == k,
                _ => false,
            },
    {
        proof {
            lemma_default_root_wf(registry@);
        }
        default_root_state().resolve(registry)
    }

    /// Replaces the layout of `dock_area` by the default layout, stamped
    /// with the expected version, and hands back the snapshot to write.
    /// Where the registry does not know one of the default panels, nothing
    /// changes and the first such key is the error.
    pub fn reset_default_layout(dock_area: &mut DockArea, registry: &PanelRegistry) -> (out:
        Result<LayoutState, UnknownPanelKey>)
        ensures
            match resolve_area(registry@, default_layout_model()) {
                Ok(m) => out matches Ok(s) && s@ == default_layout_model() && final(dock_area)@
                    == m && final(dock_area).wf(),
                Err(k) => out matches Err(e) && e.key@ == k && *final(dock_area) == *old(
                    dock_area,
                ),
            },
    {
        proof {
            lemma_dump_of_load(registry@, default_layout_model());
        }
        let root = match Self::init_default_layout(registry) {
            Ok(node) => node,
            Err(e) => {
                return Err(e);
            },
        };
        let left = match resolve_panel_list(registry, &default_left_state()) {
            Ok(panels) => panels,
            Err(e) => {
                return Err(e);
            },
        };
        let right = match resolve_panel_list(registry, &default_right_state()) {
            Ok(panels) => panels,
            Err(e) => {
                return Err(e);
            },
        };
        let bottom = match resolve_panel_list(registry, &default_bottom_state()) {
            Ok(panels) => panels,
            Err(e) => {
                return Err(e);
            },
        };
        dock_area.set_version(EXPECTED_VERSION);
        dock_area.set_root(root);
        dock_area.set_left_dock(left, Some(DEFAULT_LEFT_SIZE));
        dock_area.set_bottom_dock(bottom, Some(DEFAULT_BOTTOM_SIZE));
        dock_area.set_right_dock(right, Some(DEFAULT_RIGHT_SIZE));
        Ok(dock_area.dump())
    }

    /// Loads a stored layout into `dock_area` and says whether the user is
    /// to be asked about a reset: that is so where the stored layout is of
    /// another version than expected, whether it loads or not. Of a layout
    /// of another version the panels that the registry does not know are
    /// dropped; one of the expected version loads whole or not at all.
    pub fn load_layout(dock_area: &mut DockArea, registry: &PanelRegistry, state: &LayoutState)
        -> (out: LoadReport)
        ensures
            out.prompt == is_stale(state@.version),
            match resolve_area(registry@, effective_layout(registry@, state@)) {
                Err(k) => out.result matches Err(LoadError::PanelResolution(e)) && e.key@ == k,
                Ok(m) => if model_wf(m.root) {
                    out.result.is_ok() && final(dock_area)@ == m
                } else {
                    out.result == Err::<(), LoadError>(LoadError::InvalidStructure)
                },
            },
            out.result.is_err() ==> *final(dock_area) == *old(dock_area),
            out.result.is_ok() ==> final(dock_area).wf(),
    {
        let (_, action) = MigrationState::on_loaded(state.version);
        let prompt = match action {
            MigrationAction::Prompt => true,
            _ => false,
        };
        let result = if prompt {
            let pruned = state.prune_unknown(registry);
            dock_area.load(registry, &pruned)
        } else {
            dock_area.load(registry, state)
        };
        LoadReport { prompt, result }
    }

    /// Brings a workspace up from what was stored: `stored` is the layout
    /// that was read, or nothing where none could be read. A layout that
    /// loads is used as it is; where none was read or it does not load,
    /// the default layout takes its place and is to be written at once.
    /// The user is to be asked about a reset where the stored layout is of
    /// another version. No save is pending when the workspace is up: from
    /// then on each change of the layout restarts the save timer once.
    pub fn new(registry: &PanelRegistry, stored: Option<LayoutState>) -> (out: (
        StoryWorkspace,
        Startup,
    ))
        ensures
            out.0.wf(),
            out.0@.scheduler == (SchedulerModel { pending: None, last_saved: None }),
            out.1.prompt == (stored matches Some(s) && is_stale(s@.version)),
            match layout_model(stored) {
                Some(l) if loaded_area(registry@, l).is_some() => {
                    &&& out.0@.area == loaded_area(registry@, l).unwrap()
                    &&& out.1.persist.is_none()
                    &&& out.0@.migration == after_load(l.version).0
                },
                _ => {
                    &&& out.0@.area == reset_area(registry@, empty_area())
                    &&& layout_model(out.1.persist) == reset_snapshot(registry@)
                    &&& out.0@.migration == if out.1.prompt {
                        MigrationState::AwaitingConfirmation
                    } else {
                        MigrationState::ResettingToDefault
                    }
                },
            },
    {
        let mut dock_area = DockArea::new(Some(EXPECTED_VERSION));
        let mut prompt = false;
        let mut loaded = false;
        match &stored {
            Some(state) => {
                let report = Self::load_layout(&mut dock_area, registry, state);
                prompt = report.prompt;
                loaded = report.result.is_ok();
            },
            None => {},
        }
        let mut persist: Option<LayoutState> = None;
        if !loaded {
            match Self::reset_default_layout(&mut dock_area, registry) {
                Ok(snapshot) => {
                    persist = Some(snapshot);
                },
                Err(_) => {},
            }
        }
        let migration = if prompt {
            MigrationState::AwaitingConfirmation
        } else if loaded {
            MigrationState::Loaded
        } else {
            MigrationState::ResettingToDefault
        };
        (
            StoryWorkspace { dock_area, scheduler: SaveScheduler::new(), migration },
            Startup { prompt, persist },
        )
    }

    /// The dock area of the workspace.
    pub fn dock_area(&self) -> (out: &DockArea)
        ensures
            out@ == self@.area,
    {
        &self.dock_area
    }

    /// Where the migration of the stored layout stands.
    pub fn migration(&self) -> (out: MigrationState)
        ensures
            out == self@.migration,
    {
        self.migration
    }

    /// The deadline of the save that is pending, if one is.
    pub fn pending_save(&self) -> (out: Option<u64>)
        ensures
            out == self@.scheduler.pending,
    {
        self.scheduler.pending_deadline()
    }

    /// Takes the user's answer to the prompt about a reset, given at
    /// `now`: `choice` is the index of the option chosen, or nothing where
    /// the prompt was dismissed. On a yes to an outstanding prompt the
    /// default layout replaces the stale one: its snapshot is handed back
    /// to be written at once, and the change of the layout, which counts
    /// as one, replaces the pending save like any other. On anything else,
    /// and where the registry lacks a panel of the default layout, the
    /// layout stays, nothing is written and no save is scheduled.
    pub fn on_prompt_answer(
        &mut self,
        registry: &PanelRegistry,
        choice: Option<usize>,
        now: u64,
    ) -> (out: AnswerOutcome)
        requires
            old(self).wf(),
        ensures
            final(self).wf(),
            final(self)@.migration == after_answer(old(self)@.migration, choice).0,
            if after_answer(old(self)@.migration, choice).1 == MigrationAction::ResetToDefault
                && reset_takes_place(registry@) {
                &&& final(self)@.area == reset_area(registry@, old(self)@.area)
                &&& layout_model(out.persist) == Some(default_layout_model())
                &&& final(self)@.scheduler == notify(old(self)@.scheduler, now)
                &&& out.timer == Some(
                    TimerCommand {
                        cancelled: old(self)@.scheduler.pending,
                        deadline: deadline_after(now),
                    },
                )
            } else {
                &&& final(self)@.area == old(self)@.area
                &&& final(self)@.scheduler == old(self)@.scheduler
                &&& out.persist.is_none()
                &&& out.timer.is_none()
            },
    {
        let (next, action) = self.migration.on_answer(choice);
        self.migration = next;
        match action {
            MigrationAction::ResetToDefault => {
                match Self::reset_default_layout(&mut self.dock_area, registry) {
                    Ok(snapshot) => {
                        let timer = self.scheduler.on_layout_changed(now);
                        AnswerOutcome { persist: Some(snapshot), timer: Some(timer) }
                    },
                    Err(_) => AnswerOutcome { persist: None, timer: None },
                }
            },
            _ => AnswerOutcome { persist: None, timer: None },
        }
    }

    /// Takes note that the layout changed at `now`: the save that was
    /// pending is cancelled and one is scheduled after the delay.
    pub fn save_layout(&mut self, now: u64) -> (out: TimerCommand)
        ensures
            final(self)@ == (WorkspaceModel {
                scheduler: notify(old(self)@.scheduler, now),
                ..old(self)@
            }),
            out.cancelled == old(self)@.scheduler.pending,
            out.deadline == deadline_after(now),
    {
        self.scheduler.on_layout_changed(now)
    }

    /// Replaces the whole tree by `node` at `now` and schedules the save
    /// that the change calls for.
    pub fn set_root(&mut self, node: DockNode, now: u64) -> (out: TimerCommand)
        requires
            node.wf(),
        ensures
            final(self).wf(),
            final(self)@ == (WorkspaceModel {
                area: AreaModel { root: node@, ..old(self)@.area },
                scheduler: notify(old(self)@.scheduler, now),
                ..old(self)@
            }),
            out.cancelled == old(self)@.scheduler.pending,
            out.deadline == deadline_after(now),
    {
        self.dock_area.set_root(node);
        self.scheduler.on_layout_changed(now)
    }

    /// Replaces the dock at the left edge at `now` and schedules the save
    /// that the change calls for.
    pub fn set_left_dock(&mut self, panels: Vec<PanelRef>, size: Option<u32>, now: u64) -> (out:
        TimerCommand)
        ensures
            final(self)@ == (WorkspaceModel {
                area: AreaModel {
                    left: Some(AuxDockModel { panels: panel_models(panels@), size }),
                    ..old(self)@.area
                },
                scheduler: notify(old(self)@.scheduler, now),
                ..old(self)@
            }),
            out.cancelled == old(self)@.scheduler.pending,
            out.deadline == deadline_after(now),
    {
        self.dock_area.set_left_dock(panels, size);
        self.scheduler.on_layout_changed(now)
    }

    /// Replaces the dock at the right edge at `now` and schedules the save
    /// that the change calls for.
    pub fn set_right_dock(&mut self, panels: Vec<PanelRef>, size: Option<u32>, now: u64) -> (out:
        TimerCommand)
        ensures
            final(self)@ == (WorkspaceModel {
                area: AreaModel {
                    right: Some(AuxDockModel { panels: panel_models(panels@), size }),
                    ..old(self)@.area
                },
                scheduler: notify(old(self)@.scheduler, now),
                ..old(self)@
            }),
            out.cancelled == old(self)@.scheduler.pending,
            out.deadline == deadline_after(now),
    {
        self.dock_area.set_right_dock(panels, size);
        self.scheduler.on_layout_changed(now)
    }

    /// Replaces the dock at the bottom edge at `now` and schedules the
    /// save that the change calls for.
    pub fn set_bottom_dock(&mut self, panels: Vec<PanelRef>, size: Option<u32>, now: u64) -> (out:
        TimerCommand)
        ensures
            final(self)@ == (WorkspaceModel {
                area: AreaModel {
                    bottom: Some(AuxDockModel { panels: panel_models(panels@), size }),
                    ..old(self)@.area
                },
                scheduler: notify(old(self)@.scheduler, now),
                ..old(self)@
            }),
            out.cancelled == old(self)@.scheduler.pending,
            out.deadline == deadline_after(now),
    {
        self.dock_area.set_bottom_dock(panels, size);
        self.scheduler.on_layout_changed(now)
    }

    /// Decides what to do when the save timer fires at `now`: the layout
    /// is snapshot and handed back to be written, unless no save is due or
    /// the snapshot is the one written last.
    pub fn on_save_timer(&mut self, now: u64) -> (out: SaveDecision)
        requires
            old(self).wf(),
        ensures
            out@ == decision(old(self)@.scheduler, now, dump_area(old(self)@.area)),
            final(self)@ == (WorkspaceModel {
                scheduler: expired(old(self)@.scheduler, now),
                ..old(self)@
            }),
    {
        let snapshot = self.dock_area.dump();
        self.scheduler.on_timer_expired(now, snapshot)
    }

    /// Records that `snapshot` was written.
    pub fn record_saved(&mut self, snapshot: LayoutState)
        ensures
            final(self)@ == (WorkspaceModel {
                scheduler: saved(old(self)@.scheduler, snapshot@),
                ..old(self)@
            }),
    {
        self.scheduler.record_saved(snapshot);
    }

    /// The snapshot to write before the process ends, whatever was written
    /// before; the pending save is dropped.
    pub fn on_quit(&mut self) -> (out: LayoutState)
        requires
            old(self).wf(),
        ensures
            out@ == dump_area(old(self)@.area),
            final(self)@ == (WorkspaceModel {
                scheduler: SchedulerModel { pending: None, ..old(self)@.scheduler },
                ..old(self)@
            }),
    {
        let snapshot = self.dock_area.dump();
        self.scheduler.flush(snapshot)
    }
}

} // verus!
