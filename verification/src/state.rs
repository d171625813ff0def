//! The one table that every operation works on, and the lock that guards it.

use vstd::prelude::*;
use vstd::rwlock::*;
use std::collections::HashSet;
use crate::models::checkpoint::{Checkpoint, CheckpointView};
use crate::models::repo::{RepoEntry, RepoView};
use crate::models::scripts::{ProcessView, RunningProcess};
use crate::models::workspace::{WorkspaceConfig, WorkspaceView};

verus! {

/// The table: repositories, workspaces, the ports they own, processes and checkpoints.
pub struct AppData {
    pub repos: Vec<RepoEntry>,
    pub workspaces: Vec<WorkspaceConfig>,
    pub allocated_ports: HashSet<u16>,
    pub running_processes: Vec<RunningProcess>,
    pub checkpoints: Vec<Checkpoint>,
}

/// The mathematical value of the table.
pub struct AppDataView {
    pub repos: Seq<RepoView>,
    pub workspaces: Seq<WorkspaceView>,
    pub allocated_ports: Set<u16>,
    pub running_processes: Seq<ProcessView>,
    pub checkpoints: Seq<CheckpointView>,
}

/// The repositories of a list, each by its value.
pub open spec fn repo_views(repos: Seq<RepoEntry>) -> Seq<RepoView> {
    repos.map_values(|r: RepoEntry| r@)
}

/// The workspaces of a list, each by its value.
pub open spec fn workspace_views(workspaces: Seq<WorkspaceConfig>) -> Seq<WorkspaceView> {
    workspaces.map_values(|w: WorkspaceConfig| w@)
}

/// The processes of a list, each by its value.
pub open spec fn process_views(processes: Seq<RunningProcess>) -> Seq<ProcessView> {
    processes.map_values(|p: RunningProcess| p@)
}

/// The checkpoints of a list, each by its value.
pub open spec fn checkpoint_views(checkpoints: Seq<Checkpoint>) -> Seq<CheckpointView> {
    checkpoints.map_values(|c: Checkpoint| c@)
}

impl View for AppData {
    type V = AppDataView;

    open spec fn view(&self) -> AppDataView {
        AppDataView {
            repos: repo_views(self.repos@),
            workspaces: workspace_views(self.workspaces@),
            allocated_ports: self.allocated_ports@,
            running_processes: process_views(self.running_processes@),
            checkpoints: checkpoint_views(self.checkpoints@),
        }
    }
}

/// Whether no two workspaces of a list have the same port range.
pub open spec fn ports_distinct(workspaces: Seq<WorkspaceView>) -> bool {
    forall|i: int, j: int|
        0 <= i < j < workspaces.len() ==> #[trigger] workspaces[i].port_base
            != #[trigger] workspaces[j].port_base
}

/// Whether no two workspaces of a list have the same id.
pub open spec fn ids_distinct(workspaces: Seq<WorkspaceView>) -> bool {
    forall|i: int, j: int|
        0 <= i < j < workspaces.len() ==> #[trigger] workspaces[i].id != #[trigger] workspaces[j].id
}

impl AppDataView {
    /// The table with nothing in it.
    pub open spec fn empty() -> AppDataView {
        AppDataView {
            repos: Seq::empty(),
            workspaces: Seq::empty(),
            allocated_ports: Set::empty(),
            running_processes: Seq::empty(),
            checkpoints: Seq::empty(),
        }
    }

    /// Every workspace owns its port range: the port is recorded as allocated,
    /// and no two workspaces have the same one.
    pub open spec fn ports_owned(self) -> bool {
        &&& forall|i: int|
            0 <= i < self.workspaces.len() ==> self.allocated_ports.contains(
                #[trigger] self.workspaces[i].port_base,
            )
        &&& ports_distinct(self.workspaces)
    }

    /// Every workspace is told from the others by its id.
    pub open spec fn ids_unique(self) -> bool {
        ids_distinct(self.workspaces)
    }

    /// What holds of every table that the registry has made itself: each
    /// workspace has an id and a port range of its own.
    pub open spec fn well_formed(self) -> bool {
        self.ports_owned() && self.ids_unique()
    }
}

impl AppData {
    /// The empty table.
    pub fn new() -> (data: AppData)
        ensures
            data@ == AppDataView::empty(),
            data@.well_formed(),
    {
        let data = AppData {
            repos: Vec::new(),
            workspaces: Vec::new(),
            allocated_ports: HashSet::new(),
            running_processes: Vec::new(),
            checkpoints: Vec::new(),
        };
        assert(data@.repos =~= Seq::empty());
        assert(data@.workspaces =~= Seq::empty());
        assert(data@.running_processes =~= Seq::empty());
        assert(data@.checkpoints =~= Seq::empty());
        data
    }
}

impl Default for AppData {
    fn default() -> (data: AppData)
        ensures
            data@ == AppDataView::empty(),
    {
        AppData::new()
    }
}

/// The table behind its lock. The lock takes every table: what holds of the
/// table is what the operations keep, `well_formed` among it as long as the
/// durable store hands back what was written to it.
pub struct AppState(pub RwLock<AppData, spec_fn(AppData) -> bool>);

impl AppState {
    /// Whether the lock accepts `data`.
    pub open spec fn accepts(&self, data: AppData) -> bool {
        self.0.inv(data)
    }

    /// A lock around the empty table.
    pub fn new() -> (state: AppState)
        ensures
            forall|data: AppData| #[trigger] state.accepts(data),
    {
        let ghost pred = |data: AppData| true;
        AppState(RwLock::new(AppData::new(), Ghost(pred)))
    }
}

} // verus!
