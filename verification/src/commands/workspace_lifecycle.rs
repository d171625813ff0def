//! The life of a workspace: creation with a port range and a worktree of its
//! own, archiving and restoring, and deletion that gives both back.

use vstd::prelude::*;
use vstd::string::*;
use std::collections::HashSet;
use crate::calendar::{civil_time_of, timestamp_at, unix_time_nanos, whole_seconds};
use crate::commands::worktrees::{
    main_worktree_path, not_a_repository, provisioning_started, removal_started,
    repository_missing, worktree_path, CreationStage, RemovalStage, WorktreeCreation,
    WorktreeCreationView, WorktreeRemoval, WorktreeRemovalView,
};
use crate::error::{outcome, quoted_failure, AppError, ErrorKind, ErrorView};
use crate::host::{
    git, git_command, CommandLineView, HostAction, HostActionView, HostReply, HostReplyView,
    Progress, ProgressView, RepoFacts, RepoFactsView,
};
use crate::ident::{
    fresh_id, id_after, is_fresh_step, lemma_fresh_id_found, lemma_seed_steps,
    lemma_taken_ids_are_counted, lemma_uuid_groups, seed_after, uuid_from_seed, SEEDS,
};
use crate::lookup::{
    as_position, first_position, lemma_first_position, lemma_first_position_absent,
    lemma_first_position_found,
};
use crate::models::workspace::{EnvVars, WorkspaceConfig, WorkspaceStatus, WorkspaceView};
use crate::ports::{
    allocate_port_range, first_free, lemma_first_free, no_port_available, PORT_START,
};
use crate::state::{ids_distinct, ports_distinct, workspace_views, AppData, AppDataView};
use crate::text::{decimal, decimal_string, join_path, option_text, same_text, trim_trailing};

verus! {

/// The id of each workspace of a list.
pub open spec fn workspace_ids(workspaces: Seq<WorkspaceView>) -> Seq<Seq<char>> {
    workspaces.map_values(|w: WorkspaceView| w.id)
}

/// The error of an operation on a workspace that the table does not hold.
pub open spec fn workspace_not_found(id: Seq<char>) -> ErrorView {
    quoted_failure(ErrorKind::NotFound, "Workspace '"@, id, "' not found"@)
}

fn not_found(id: &str) -> (e: AppError)
    ensures
        e@ == workspace_not_found(id@),
{
    AppError::quoting(ErrorKind::NotFound, "Workspace '", id, "' not found")
}

/// The place of the first workspace with the id `id`.
pub fn find_workspace(workspaces: &Vec<WorkspaceConfig>, id: &str) -> (found: Option<usize>)
    ensures
        as_position(found) == first_position(workspace_ids(workspace_views(workspaces@)), id@),
{
    let ghost ids = workspace_ids(workspace_views(workspaces@));
    let mut i: usize = 0;
    while i < workspaces.len()
        invariant
            i <= workspaces.len(),
            ids == workspace_ids(workspace_views(workspaces@)),
            forall|j: int| 0 <= j < i ==> ids[j] != id@,
        decreases workspaces.len() - i,
    {
        if same_text(workspaces[i].id.as_str(), id) {
            proof {
                lemma_first_position_found(ids, id@, i as int);
            }
            return Some(i);
        }
        i += 1;
    }
    proof {
        lemma_first_position_absent(ids, id@);
    }
    None
}

/// The environment of the processes of a workspace: where the workspace and
/// its repository lie, the first port of its range, and its name.
pub open spec fn workspace_env(
    worktree_path: Seq<char>,
    repo_path: Seq<char>,
    port_base: u16,
    name: Seq<char>,
) -> Map<Seq<char>, Seq<char>> {
    Map::<Seq<char>, Seq<char>>::empty().insert("WORKSPACE_PATH"@, worktree_path).insert(
        "ROOT_PATH"@,
        repo_path,
    ).insert("PORT"@, decimal(port_base as nat, 0)).insert("WORKSPACE_NAME"@, name)
}

/// Where a new workspace lies and what it is called.
pub struct Placement {
    pub repo_path: Seq<char>,
    pub name: Seq<char>,
    pub worktree_path: Seq<char>,
    pub branch: Seq<char>,
    pub is_main_worktree: bool,
}

/// The workspace that is recorded for a placement: active, with the id `id`
/// and the port range at `port_base`, created at the clock reading `now`, in
/// nanoseconds since the start of 1970.
pub open spec fn new_workspace(
    placement: Placement,
    port_base: u16,
    id: Seq<char>,
    now: u128,
) -> WorkspaceView {
    WorkspaceView {
        id,
        name: placement.name,
        repo_path: placement.repo_path,
        worktree_path: placement.worktree_path,
        branch: placement.branch,
        is_main_worktree: placement.is_main_worktree,
        env_vars: workspace_env(
            placement.worktree_path,
            placement.repo_path,
            port_base,
            placement.name,
        ),
        port_base,
        status: WorkspaceStatus::Active,
        created_at: civil_time_of(whole_seconds(now)).iso8601(),
    }
}

/// The table after a workspace was recorded, and the workspace; or the table
/// as it was, and the error, where no port range is free. The port range is the
/// lowest free one. The id is made from the clock reading `now`, or from the
/// first seed after it that gives an id which no workspace of the table has.
pub open spec fn registration(table: AppDataView, placement: Placement, busy: Set<u16>, now: u128) -> (
    AppDataView,
    Result<WorkspaceView, ErrorView>,
) {
    match first_free(table.allocated_ports, busy) {
        Some(port) => {
            let workspace = new_workspace(
                placement,
                port,
                fresh_id(workspace_ids(table.workspaces), now),
                now,
            );
            (
                AppDataView {
                    workspaces: table.workspaces.push(workspace),
                    allocated_ports: table.allocated_ports.insert(port),
                    ..table
                },
                Ok(workspace),
            )
        },
        None => (table, Err(no_port_available())),
    }
}

/// Makes the id of a new workspace from the clock reading `now`: the seed is
/// stepped until its id is none of those that the workspaces have.
pub fn fresh_workspace_id(workspaces: &Vec<WorkspaceConfig>, now: u128) -> (id: String)
    ensures
        id@ == fresh_id(workspace_ids(workspace_views(workspaces@)), now),
        !workspace_ids(workspace_views(workspaces@)).contains(id@),
        id@.len() == 36,
{
    let ghost ids = workspace_ids(workspace_views(workspaces@));
    let count = workspaces.len();
    let mut seed: u128 = now % SEEDS;
    let mut steps: usize = 0;
    let mut id = uuid_from_seed(seed);
    proof {
        lemma_seed_steps(now, 0);
    }
    while find_workspace(workspaces, id.as_str()).is_some()
        invariant
            ids == workspace_ids(workspace_views(workspaces@)),
            count == workspaces@.len(),
            steps <= count,
            seed == seed_after(now, steps as nat),
            id@ == id_after(now, steps as nat),
            forall|fewer: nat| fewer < steps ==> ids.contains(#[trigger] id_after(now, fewer)),
        decreases count - steps,
    {
        proof {
            lemma_first_position(ids, id@);
            assert(ids.contains(id_after(now, steps as nat)));
            assert forall|fewer: nat| fewer < steps + 1 implies ids.contains(
                #[trigger] id_after(now, fewer),
            ) by {}
            lemma_taken_ids_are_counted(ids, now, (steps + 1) as nat);
            lemma_seed_steps(now, steps as nat);
            assert(ids.len() == workspaces@.len());
        }
        steps += 1;
        seed = if seed >= SEEDS - 1 {
            0
        } else {
            seed + 1
        };
        id = uuid_from_seed(seed);
    }
    proof {
        lemma_first_position(ids, id@);
        assert(!ids.contains(id@)) by {
            if ids.contains(id@) {
                let k = choose|k: int| 0 <= k < ids.len() && ids[k] == id@;
                assert(ids[k] != id@);
            }
        }
        assert(is_fresh_step(ids, now, steps as nat));
        lemma_fresh_id_found(ids, now, steps as nat);
        lemma_uuid_groups(seed);
    }
    id
}

/// Records a new workspace in the table, with the lowest free port range and
/// an id that no workspace of the table has, and returns it. Where no range is
/// free the table stays as it is.
pub fn register_workspace(
    data: &mut AppData,
    repo_path: String,
    name: String,
    worktree_path: String,
    branch: String,
    is_main_worktree: bool,
    busy: &HashSet<u16>,
    now: u128,
) -> (recorded: Result<WorkspaceConfig, AppError>)
    ensures
        (final(data)@, outcome(recorded)) == registration(
            old(data)@,
            Placement {
                repo_path: repo_path@,
                name: name@,
                worktree_path: worktree_path@,
                branch: branch@,
                is_main_worktree,
            },
            busy@,
            now,
        ),
        recorded matches Ok(workspace) ==> workspace@.id.len() == 36 && !workspace_ids(
            old(data)@.workspaces,
        ).contains(workspace@.id),
        old(data)@.ports_owned() ==> final(data)@.ports_owned(),
        old(data)@.ids_unique() ==> final(data)@.ids_unique(),
{
    let port_base = match allocate_port_range(&data.allocated_ports, busy) {
        Ok(port) => port,
        Err(e) => {
            return Err(e);
        },
    };
    let mut env_vars = EnvVars::new();
    env_vars.insert(String::from_str("WORKSPACE_PATH"), worktree_path.clone());
    env_vars.insert(String::from_str("ROOT_PATH"), repo_path.clone());
    env_vars.insert(String::from_str("PORT"), decimal_string(port_base as u64, 0));
    env_vars.insert(String::from_str("WORKSPACE_NAME"), name.clone());
    let workspace = WorkspaceConfig {
        id: fresh_workspace_id(&data.workspaces, now),
        name,
        repo_path,
        worktree_path,
        branch,
        is_main_worktree,
        env_vars,
        port_base,
        status: WorkspaceStatus::Active,
        created_at: timestamp_at(now),
    };
    let copy = workspace.clone();
    let ghost before = data@;
    data.workspaces.push(workspace);
    data.allocated_ports.insert(port_base);
    proof {
        assert(data@.workspaces =~= before.workspaces.push(copy@));
        lemma_first_free(before.allocated_ports, busy@);
        if before.ids_unique() {
            let ids = workspace_ids(before.workspaces);
            assert forall|i: int, j: int| 0 <= i < j < data@.workspaces.len() implies #[trigger]
                data@.workspaces[i].id != #[trigger] data@.workspaces[j].id by {
                if j == before.workspaces.len() {
                    assert(ids[i] == before.workspaces[i].id);
                    assert(ids.contains(ids[i]));
                }
            }
        }
    }
    Ok(copy)
}

/// The workspaces of a list whose id is not `id`.
pub open spec fn without_id(workspaces: Seq<WorkspaceView>, id: Seq<char>) -> Seq<WorkspaceView> {
    workspaces.filter(|w: WorkspaceView| w.id != id)
}

/// The table after the workspace `id` was taken out: the port range of the
/// first workspace with that id is free again, and no workspace with that id
/// is left. Where the table holds no such workspace it stays as it is, with
/// the error.
pub open spec fn deregistration(table: AppDataView, id: Seq<char>) -> (AppDataView, Result<(), ErrorView>) {
    match first_position(workspace_ids(table.workspaces), id) {
        Some(i) => (
            AppDataView {
                workspaces: without_id(table.workspaces, id),
                allocated_ports: table.allocated_ports.remove(table.workspaces[i].port_base),
                ..table
            },
            Ok(()),
        ),
        None => (table, Err(workspace_not_found(id))),
    }
}

/// What is left after filtering was there before, under another id, and has
/// distinct port ranges if the list had.
proof fn lemma_without_id(workspaces: Seq<WorkspaceView>, id: Seq<char>)
    ensures
        forall|k: int|
            0 <= k < without_id(workspaces, id).len() ==> exists|j: int|
                0 <= j < workspaces.len() && workspaces[j].id != id && #[trigger] without_id(
                    workspaces,
                    id,
                )[k] == workspaces[j],
        ports_distinct(workspaces) ==> ports_distinct(without_id(workspaces, id)),
        ids_distinct(workspaces) ==> ids_distinct(without_id(workspaces, id)),
    decreases workspaces.len(),
{
    reveal(Seq::filter);
    let kept = without_id(workspaces, id);
    if workspaces.len() > 0 {
        let rest = workspaces.drop_last();
        let last = workspaces.last();
        let kept_rest = without_id(rest, id);
        lemma_without_id(rest, id);
        assert(kept == if last.id != id {
            kept_rest.push(last)
        } else {
            kept_rest
        });
        assert forall|k: int| 0 <= k < kept.len() implies exists|j: int|
            0 <= j < workspaces.len() && workspaces[j].id != id && #[trigger] kept[k]
                == workspaces[j] by {
            if k < kept_rest.len() {
                assert(kept[k] == kept_rest[k]);
                let j = choose|j: int|
                    0 <= j < rest.len() && rest[j].id != id && kept_rest[k] == rest[j];
                assert(workspaces[j] == rest[j]);
            } else {
                assert(kept[k] == workspaces[workspaces.len() - 1]);
            }
        }
        if ports_distinct(workspaces) {
            assert(ports_distinct(rest)) by {
                assert forall|i: int, j: int| 0 <= i < j < rest.len() implies #[trigger] rest[i].port_base
                    != #[trigger] rest[j].port_base by {
                    assert(workspaces[i].port_base != workspaces[j].port_base);
                }
            }
            assert forall|k: int, l: int| 0 <= k < l < kept.len() implies #[trigger] kept[k].port_base
                != #[trigger] kept[l].port_base by {
                if l < kept_rest.len() {
                    assert(kept_rest[k].port_base != kept_rest[l].port_base);
                } else {
                    let j = choose|j: int|
                        0 <= j < rest.len() && rest[j].id != id && kept_rest[k] == rest[j];
                    assert(workspaces[j].port_base != workspaces[workspaces.len() - 1].port_base);
                }
            }
        }
        if ids_distinct(workspaces) {
            assert(ids_distinct(rest)) by {
                assert forall|i: int, j: int| 0 <= i < j < rest.len() implies #[trigger] rest[i].id
                    != #[trigger] rest[j].id by {
                    assert(workspaces[i].id != workspaces[j].id);
                }
            }
            assert forall|k: int, l: int| 0 <= k < l < kept.len() implies #[trigger] kept[k].id
                != #[trigger] kept[l].id by {
                if l < kept_rest.len() {
                    assert(kept_rest[k].id != kept_rest[l].id);
                } else {
                    let j = choose|j: int|
                        0 <= j < rest.len() && rest[j].id != id && kept_rest[k] == rest[j];
                    assert(workspaces[j].id != workspaces[workspaces.len() - 1].id);
                }
            }
        }
    }
}

/// Taking a workspace out leaves the ids of the others as distinct as they were.
pub proof fn lemma_deregistration_keeps_ids_unique(table: AppDataView, id: Seq<char>)
    requires
        table.ids_unique(),
    ensures
        deregistration(table, id).0.ids_unique(),
{
    lemma_without_id(table.workspaces, id);
}

/// Taking a workspace out leaves every other workspace the owner of its port range.
pub proof fn lemma_deregistration_keeps_ports_owned(table: AppDataView, id: Seq<char>)
    requires
        table.ports_owned(),
    ensures
        deregistration(table, id).0.ports_owned(),
{
    let after = deregistration(table, id).0;
    lemma_first_position(workspace_ids(table.workspaces), id);
    lemma_without_id(table.workspaces, id);
    if first_position(workspace_ids(table.workspaces), id) is Some {
        let i = first_position(workspace_ids(table.workspaces), id)->0;
        assert(table.workspaces[i].id == id);
        assert(ports_distinct(table.workspaces));
        assert forall|k: int| 0 <= k < after.workspaces.len() implies after.allocated_ports.contains(
            #[trigger] after.workspaces[k].port_base,
        ) by {
            let j = choose|j: int|
                0 <= j < table.workspaces.len() && table.workspaces[j].id != id
                    && after.workspaces[k] == table.workspaces[j];
            assert(j != i);
            assert(table.allocated_ports.contains(table.workspaces[j].port_base));
            if j < i {
                assert(table.workspaces[j].port_base != table.workspaces[i].port_base);
            } else {
                assert(table.workspaces[i].port_base != table.workspaces[j].port_base);
            }
        }
    }
}

/// Takes the workspace `id` out of the table and frees its port range.
pub fn deregister_workspace(data: &mut AppData, id: &str) -> (done: Result<(), AppError>)
    ensures
        (final(data)@, outcome(done)) == deregistration(old(data)@, id@),
        old(data)@.ports_owned() ==> final(data)@.ports_owned(),
        old(data)@.ids_unique() ==> final(data)@.ids_unique(),
{
    let ghost before = data@;
    let found = match find_workspace(&data.workspaces, id) {
        Some(i) => i,
        None => {
            return Err(not_found(id));
        },
    };
    let port_base = data.workspaces[found].port_base;
    let mut kept: Vec<WorkspaceConfig> = Vec::new();
    let mut i: usize = 0;
    while i < data.workspaces.len()
        invariant
            i <= data.workspaces.len(),
            data@ == before,
            workspace_views(kept@) == without_id(before.workspaces.take(i as int), id@),
        decreases data.workspaces.len() - i,
    {
        let ghost seen = before.workspaces.take(i as int);
        if !same_text(data.workspaces[i].id.as_str(), id) {
            kept.push(data.workspaces[i].clone());
        }
        proof {
            let pred = |w: WorkspaceView| w.id != id@;
            seen.lemma_filter_push(before.workspaces[i as int], pred);
            assert(before.workspaces.take(i + 1) =~= seen.push(before.workspaces[i as int]));
            assert(workspace_views(kept@) =~= without_id(before.workspaces.take(i + 1), id@));
        }
        i += 1;
    }
    proof {
        assert(before.workspaces.take(i as int) =~= before.workspaces);
        if before.ports_owned() {
            lemma_deregistration_keeps_ports_owned(before, id@);
        }
        if before.ids_unique() {
            lemma_deregistration_keeps_ids_unique(before, id@);
        }
    }
    data.workspaces = kept;
    data.allocated_ports.remove(&port_base);
    Ok(())
}

/// The table after the first workspace with the id `id` got the status
/// `status`; or the table as it was, with the error, where it holds no such
/// workspace.
pub open spec fn with_status(table: AppDataView, id: Seq<char>, status: WorkspaceStatus) -> (
    AppDataView,
    Result<(), ErrorView>,
) {
    match first_position(workspace_ids(table.workspaces), id) {
        Some(i) => (
            AppDataView {
                workspaces: table.workspaces.update(
                    i,
                    WorkspaceView { status, ..table.workspaces[i] },
                ),
                ..table
            },
            Ok(()),
        ),
        None => (table, Err(workspace_not_found(id))),
    }
}

fn set_status(data: &mut AppData, workspace_id: &str, status: WorkspaceStatus) -> (done: Result<
    (),
    AppError,
>)
    ensures
        (final(data)@, outcome(done)) == with_status(old(data)@, workspace_id@, status),
        old(data)@.ports_owned() ==> final(data)@.ports_owned(),
        old(data)@.ids_unique() ==> final(data)@.ids_unique(),
{
    let ghost before = data@;
    match find_workspace(&data.workspaces, workspace_id) {
        Some(i) => {
            data.workspaces[i].status = status;
            proof {
                assert(data@.workspaces =~= before.workspaces.update(
                    i as int,
                    WorkspaceView { status, ..before.workspaces[i as int] },
                ));
            }
            Ok(())
        },
        None => Err(not_found(workspace_id)),
    }
}

/// Sets the workspace `workspace_id` aside. Nothing else in the table changes.
pub fn archive_workspace(data: &mut AppData, workspace_id: &str) -> (done: Result<(), AppError>)
    ensures
        (final(data)@, outcome(done)) == with_status(
            old(data)@,
            workspace_id@,
            WorkspaceStatus::Archived,
        ),
        old(data)@.ports_owned() ==> final(data)@.ports_owned(),
        old(data)@.ids_unique() ==> final(data)@.ids_unique(),
{
    set_status(data, workspace_id, WorkspaceStatus::Archived)
}

/// Takes the workspace `workspace_id` back into use. Nothing else in the table changes.
pub fn restore_workspace(data: &mut AppData, workspace_id: &str) -> (done: Result<(), AppError>)
    ensures
        (final(data)@, outcome(done)) == with_status(
            old(data)@,
            workspace_id@,
            WorkspaceStatus::Active,
        ),
        old(data)@.ports_owned() ==> final(data)@.ports_owned(),
        old(data)@.ids_unique() ==> final(data)@.ids_unique(),
{
    set_status(data, workspace_id, WorkspaceStatus::Active)
}

/// The environment of the first workspace with the id `id`, or the error
/// where the table holds no such workspace.
pub open spec fn env_of(table: AppDataView, id: Seq<char>) -> Result<
    Map<Seq<char>, Seq<char>>,
    ErrorView,
> {
    match first_position(workspace_ids(table.workspaces), id) {
        Some(i) => Ok(table.workspaces[i].env_vars),
        None => Err(workspace_not_found(id)),
    }
}

/// The environment that the processes of the workspace `workspace_id` get.
pub fn get_workspace_env(data: &AppData, workspace_id: &str) -> (env: Result<EnvVars, AppError>)
    ensures
        outcome(env) == env_of(data@, workspace_id@),
{
    match find_workspace(&data.workspaces, workspace_id) {
        Some(i) => Ok(data.workspaces[i].env_vars.clone()),
        None => Err(not_found(workspace_id)),
    }
}

/// A copy of a list of workspaces.
pub fn clone_workspaces(workspaces: &Vec<WorkspaceConfig>) -> (copy: Vec<WorkspaceConfig>)
    ensures
        workspace_views(copy@) == workspace_views(workspaces@),
{
    let mut copy: Vec<WorkspaceConfig> = Vec::new();
    let mut i: usize = 0;
    while i < workspaces.len()
        invariant
            i <= workspaces.len(),
            copy@.len() == i,
            forall|j: int| 0 <= j < i ==> copy@[j]@ == workspaces@[j]@,
        decreases workspaces.len() - i,
    {
        copy.push(workspaces[i].clone());
        i += 1;
    }
    assert(workspace_views(copy@) =~= workspace_views(workspaces@));
    copy
}

/// All workspaces of the table, in the order in which they were recorded.
pub fn list_workspace_configs(data: &AppData) -> (workspaces: Vec<WorkspaceConfig>)
    ensures
        workspace_views(workspaces@) == data@.workspaces,
{
    clone_workspaces(&data.workspaces)
}

/// The port ranges of the workspaces of a list.
pub open spec fn ports_of(workspaces: Seq<WorkspaceView>) -> Set<u16> {
    Set::new(|port: u16| exists|i: int| 0 <= i < workspaces.len() && workspaces[i].port_base == port)
}

/// The table after the stored workspaces were taken in: they replace the
/// workspaces of the table, and their port ranges are allocated besides
/// those that were.
pub open spec fn loaded(table: AppDataView, stored: Seq<WorkspaceView>) -> AppDataView {
    AppDataView {
        workspaces: stored,
        allocated_ports: table.allocated_ports.union(ports_of(stored)),
        ..table
    }
}

/// Takes in the workspaces that the durable store held, at startup: all of
/// them, as they are. The port range of each is allocated before anything
/// else is, so that no new workspace gets the range of a stored one. The
/// table is well formed afterwards if the stored workspaces have ids and port
/// ranges of their own, as they have when the registry wrote them.
pub fn load_workspace_configs(data: &mut AppData, stored: Vec<WorkspaceConfig>)
    ensures
        final(data)@ == loaded(old(data)@, workspace_views(stored@)),
        forall|i: int|
            0 <= i < stored@.len() ==> final(data)@.allocated_ports.contains(
                (#[trigger] stored@[i]).port_base,
            ),
        final(data)@.ports_owned() == ports_distinct(workspace_views(stored@)),
        final(data)@.ids_unique() == ids_distinct(workspace_views(stored@)),
{
    let ghost before = data@;
    let ghost views = workspace_views(stored@);
    let mut i: usize = 0;
    proof {
        assert(ports_of(views.take(0)) =~= Set::<u16>::empty());
        assert(before.allocated_ports.union(Set::<u16>::empty()) =~= before.allocated_ports);
    }
    while i < stored.len()
        invariant
            i <= stored.len(),
            views == workspace_views(stored@),
            data@ == (AppDataView {
                allocated_ports: before.allocated_ports.union(ports_of(views.take(i as int))),
                ..before
            }),
        decreases stored.len() - i,
    {
        data.allocated_ports.insert(stored[i].port_base);
        proof {
            let seen = views.take(i as int);
            let next = views.take(i + 1);
            assert(next[i as int] == views[i as int]);
            assert forall|port: u16| ports_of(next).contains(port) <==> (ports_of(seen).contains(
                port,
            ) || port == views[i as int].port_base) by {
                if ports_of(seen).contains(port) {
                    let j = choose|j: int| 0 <= j < seen.len() && seen[j].port_base == port;
                    assert(next[j].port_base == port);
                }
                if ports_of(next).contains(port) {
                    let j = choose|j: int| 0 <= j < next.len() && next[j].port_base == port;
                    if j < i {
                        assert(seen[j].port_base == port);
                    }
                }
            }
            assert(data@.allocated_ports =~= before.allocated_ports.union(ports_of(next)));
        }
        i += 1;
    }
    proof {
        assert(views.take(i as int) =~= views);
        assert forall|k: int| 0 <= k < stored@.len() implies data@.allocated_ports.contains(
            (#[trigger] stored@[k]).port_base,
        ) by {
            assert(views[k].port_base == stored@[k].port_base);
            assert(ports_of(views).contains(views[k].port_base));
        }
    }
    data.workspaces = stored;
}

/// Where the creation of a workspace stands.
#[derive(Clone, Copy, Debug, PartialEq, Eq, Structural)]
pub enum WorkspaceStage {
    /// Asked whether the repository path exists.
    CheckRepository,
    /// Asked to open the repository.
    OpenRepository,
    /// Asked whether the candidate port can be bound.
    ProbePort,
    /// The worktree is being created.
    Provision,
}

/// The creation of a workspace, under way.
#[derive(Debug)]
pub struct WorkspaceCreation {
    /// Whether the workspace is bound to the repository's own working directory.
    pub is_main_worktree: bool,
    pub stage: WorkspaceStage,
    /// The repository, the name and the branch, and how far the worktree has got.
    pub worktree: WorktreeCreation,
    /// The working directory of the repository, for the main workspace.
    pub main_path: String,
    /// The candidate ports that were found bound by another program.
    pub busy: HashSet<u16>,
    /// The candidate port that is being probed.
    pub candidate: u16,
}

/// The mathematical value of a [`WorkspaceCreation`].
pub struct WorkspaceCreationView {
    pub is_main_worktree: bool,
    pub stage: WorkspaceStage,
    pub worktree: WorktreeCreationView,
    pub main_path: Seq<char>,
    pub busy: Set<u16>,
    pub candidate: u16,
}

impl View for WorkspaceCreation {
    type V = WorkspaceCreationView;

    open spec fn view(&self) -> WorkspaceCreationView {
        WorkspaceCreationView {
            is_main_worktree: self.is_main_worktree,
            stage: self.stage,
            worktree: self.worktree@,
            main_path: self.main_path@,
            busy: self.busy@,
            candidate: self.candidate,
        }
    }
}

/// The branch of the main workspace: what `HEAD` points to, else `main`.
pub open spec fn main_branch(facts: RepoFactsView) -> Seq<char> {
    match facts.head {
        Some(head) => head,
        None => "main"@,
    }
}

impl WorkspaceCreationView {
    /// The action whose reply the creation waits for.
    pub open spec fn awaited(self) -> HostActionView {
        match self.stage {
            WorkspaceStage::CheckRepository => HostActionView::CheckPath(self.worktree.repo_path),
            WorkspaceStage::OpenRepository => HostActionView::OpenRepository(
                self.worktree.repo_path,
            ),
            WorkspaceStage::ProbePort => HostActionView::ProbePort(self.candidate),
            WorkspaceStage::Provision => self.worktree.awaited(),
        }
    }

    /// The creation at `stage`, waiting for the reply to that stage's action.
    pub open spec fn at(self, stage: WorkspaceStage) -> ProgressView<
        WorkspaceCreationView,
        WorkspaceView,
    > {
        let next = WorkspaceCreationView { stage, ..self };
        ProgressView::Continue(next, next.awaited())
    }

    /// The creation after the repository was opened: the main workspace takes
    /// its directory and its branch from the repository.
    pub open spec fn opened(self, facts: RepoFactsView) -> WorkspaceCreationView {
        if self.is_main_worktree {
            WorkspaceCreationView {
                main_path: main_worktree_path(self.worktree.repo_path, facts),
                worktree: WorktreeCreationView { branch: main_branch(facts), ..self.worktree },
                ..self
            }
        } else {
            self
        }
    }

    /// The probe of the lowest free candidate, or the end where none is free.
    pub open spec fn probe(self, allocated: Set<u16>) -> ProgressView<
        WorkspaceCreationView,
        WorkspaceView,
    > {
        match first_free(allocated, self.busy) {
            Some(port) => (WorkspaceCreationView { candidate: port, ..self }).at(
                WorkspaceStage::ProbePort,
            ),
            None => ProgressView::Done(Err(no_port_available())),
        }
    }

    /// Where the workspace lies and what it is called.
    pub open spec fn placement(self) -> Placement {
        Placement {
            repo_path: self.worktree.repo_path,
            name: self.worktree.name,
            worktree_path: if self.is_main_worktree {
                self.main_path
            } else {
                worktree_path(self.worktree.repo_path, self.worktree.name)
            },
            branch: self.worktree.branch,
            is_main_worktree: self.is_main_worktree,
        }
    }

    /// The end of the creation: the workspace is recorded in the table.
    pub open spec fn record(self, table: AppDataView, now: u128) -> (
        ProgressView<WorkspaceCreationView, WorkspaceView>,
        AppDataView,
    ) {
        let (after, recorded) = registration(table, self.placement(), self.busy, now);
        (ProgressView::Done(recorded), after)
    }

    /// What the creation does on a reply, and what becomes of the table.
    ///
    /// The repository path must exist and hold a repository. Then candidate
    /// ports are probed, lowest first, until one can be bound. Then the
    /// worktree is created, but for the main workspace, which lives in the
    /// repository's own directory. At the end the workspace is recorded with
    /// the port range that was found. Until then the table stays as it is,
    /// whatever fails. A reply of another kind than the one awaited changes
    /// nothing. `now` is the reading of the clock.
    pub open spec fn advance(self, table: AppDataView, reply: HostReplyView, now: u128) -> (
        ProgressView<WorkspaceCreationView, WorkspaceView>,
        AppDataView,
    ) {
        match (self.stage, reply) {
            (WorkspaceStage::CheckRepository, HostReplyView::PathChecked(exists)) => (
                if exists {
                    self.at(WorkspaceStage::OpenRepository)
                } else {
                    ProgressView::Done(Err(repository_missing()))
                },
                table,
            ),
            (WorkspaceStage::OpenRepository, HostReplyView::RepositoryOpened(Err(why))) => (
                ProgressView::Done(Err(not_a_repository(why))),
                table,
            ),
            (WorkspaceStage::OpenRepository, HostReplyView::RepositoryOpened(Ok(facts))) => (
                self.opened(facts).probe(table.allocated_ports),
                table,
            ),
            (WorkspaceStage::ProbePort, HostReplyView::PortProbed(free)) => if !free {
                (
                    (WorkspaceCreationView { busy: self.busy.insert(self.candidate), ..self }).probe(
                        table.allocated_ports,
                    ),
                    table,
                )
            } else if self.is_main_worktree {
                self.record(table, now)
            } else {
                (self.at(WorkspaceStage::Provision), table)
            },
            (WorkspaceStage::Provision, _) => match self.worktree.advance(reply) {
                ProgressView::Continue(worktree, action) => (
                    ProgressView::Continue(WorkspaceCreationView { worktree, ..self }, action),
                    table,
                ),
                ProgressView::Done(Err(error)) => (ProgressView::Done(Err(error)), table),
                ProgressView::Done(Ok(_)) => self.record(table, now),
            },
            _ => (ProgressView::Continue(self, self.awaited()), table),
        }
    }
}

/// The state in which the creation of a workspace with a worktree of its own starts.
pub open spec fn workspace_creation_started(
    repo_path: Seq<char>,
    name: Seq<char>,
    branch: Option<Seq<char>>,
    base_branch: Option<Seq<char>>,
) -> WorkspaceCreationView {
    WorkspaceCreationView {
        is_main_worktree: false,
        stage: WorkspaceStage::CheckRepository,
        worktree: provisioning_started(repo_path, name, branch, base_branch),
        main_path: Seq::empty(),
        busy: Set::empty(),
        candidate: PORT_START,
    }
}

/// The state in which the creation of the main workspace starts.
pub open spec fn main_creation_started(
    repo_path: Seq<char>,
    name: Seq<char>,
) -> WorkspaceCreationView {
    WorkspaceCreationView {
        is_main_worktree: true,
        stage: WorkspaceStage::OpenRepository,
        worktree: provisioning_started(repo_path, name, None, None),
        main_path: Seq::empty(),
        busy: Set::empty(),
        candidate: PORT_START,
    }
}

impl WorkspaceCreation {
    /// The action whose reply the creation waits for.
    pub fn awaited(&self) -> (action: HostAction)
        ensures
            action@ == self@.awaited(),
    {
        match self.stage {
            WorkspaceStage::CheckRepository => HostAction::CheckPath(
                self.worktree.repo_path.clone(),
            ),
            WorkspaceStage::OpenRepository => HostAction::OpenRepository(
                self.worktree.repo_path.clone(),
            ),
            WorkspaceStage::ProbePort => HostAction::ProbePort(self.candidate),
            WorkspaceStage::Provision => self.worktree.awaited(),
        }
    }

    fn at(self, stage: WorkspaceStage) -> (next: Progress<WorkspaceCreation, WorkspaceConfig>)
        ensures
            next@ == self@.at(stage),
    {
        let machine = WorkspaceCreation { stage, ..self };
        let action = machine.awaited();
        Progress::Continue(machine, action)
    }

    fn opened(self, facts: &RepoFacts) -> (next: WorkspaceCreation)
        ensures
            next@ == self@.opened(facts@),
    {
        if self.is_main_worktree {
            let path = match &facts.workdir {
                Some(dir) => trim_trailing(dir.as_str(), '/'),
                None => trim_trailing(self.worktree.repo_path.as_str(), '/'),
            };
            let branch = match &facts.head {
                Some(head) => head.clone(),
                None => String::from_str("main"),
            };
            WorkspaceCreation {
                main_path: trim_trailing(path.as_str(), '\\'),
                worktree: WorktreeCreation { branch, ..self.worktree },
                ..self
            }
        } else {
            self
        }
    }

    fn probe(self, allocated: &HashSet<u16>) -> (next: Progress<WorkspaceCreation, WorkspaceConfig>)
        ensures
            next@ == self@.probe(allocated@),
    {
        match allocate_port_range(allocated, &self.busy) {
            Ok(port) => {
                let machine = WorkspaceCreation { candidate: port, ..self };
                machine.at(WorkspaceStage::ProbePort)
            },
            Err(e) => Progress::Done(Err(e)),
        }
    }

    fn record(self, data: &mut AppData, now: u128) -> (next: Progress<
        WorkspaceCreation,
        WorkspaceConfig,
    >)
        ensures
            (next@, final(data)@) == self@.record(old(data)@, now),
            next matches Progress::Done(Ok(workspace)) ==> workspace@.id.len() == 36
                && !workspace_ids(old(data)@.workspaces).contains(workspace@.id),
            old(data)@.ports_owned() ==> final(data)@.ports_owned(),
            old(data)@.ids_unique() ==> final(data)@.ids_unique(),
    {
        let path = if self.is_main_worktree {
            self.main_path
        } else {
            let dir = join_path(self.worktree.repo_path.as_str(), ".worktrees");
            join_path(dir.as_str(), self.worktree.name.as_str())
        };
        let recorded = register_workspace(
            data,
            self.worktree.repo_path,
            self.worktree.name,
            path,
            self.worktree.branch,
            self.is_main_worktree,
            &self.busy,
            now,
        );
        Progress::Done(recorded)
    }

    /// Takes the host's reply, at the clock reading `now`, and says how the
    /// creation goes on.
    pub fn advance_at(self, data: &mut AppData, reply: &HostReply, now: u128) -> (next: Progress<
        WorkspaceCreation,
        WorkspaceConfig,
    >)
        ensures
            (next@, final(data)@) == self@.advance(old(data)@, reply@, now),
            next matches Progress::Done(Ok(workspace)) ==> workspace@.id.len() == 36
                && !workspace_ids(old(data)@.workspaces).contains(workspace@.id),
            old(data)@.ports_owned() ==> final(data)@.ports_owned(),
            old(data)@.ids_unique() ==> final(data)@.ids_unique(),
    {
        let ghost start = self@;
        match (self.stage, reply) {
            (WorkspaceStage::CheckRepository, HostReply::PathChecked(exists)) => {
                if *exists {
                    self.at(WorkspaceStage::OpenRepository)
                } else {
                    Progress::Done(
                        Err(
                            AppError::new(
                                ErrorKind::ValidationFailed,
                                "Repository path does not exist",
                            ),
                        ),
                    )
                }
            },
            (WorkspaceStage::OpenRepository, HostReply::RepositoryOpened(Err(why))) => {
                Progress::Done(
                    Err(
                        AppError::with_detail(
                            ErrorKind::ValidationFailed,
                            "Not a valid git repository: ",
                            why.as_str(),
                        ),
                    ),
                )
            },
            (WorkspaceStage::OpenRepository, HostReply::RepositoryOpened(Ok(facts))) => {
                self.opened(facts).probe(&data.allocated_ports)
            },
            (WorkspaceStage::ProbePort, HostReply::PortProbed(free)) => {
                if !*free {
                    let mut machine = self;
                    machine.busy.insert(machine.candidate);
                    machine.probe(&data.allocated_ports)
                } else if self.is_main_worktree {
                    self.record(data, now)
                } else {
                    self.at(WorkspaceStage::Provision)
                }
            },
            (WorkspaceStage::Provision, _) => {
                let WorkspaceCreation {
                    is_main_worktree,
                    stage,
                    worktree,
                    main_path,
                    busy,
                    candidate,
                } = self;
                let repo_path = worktree.repo_path.clone();
                let name = worktree.name.clone();
                let branch = worktree.branch.clone();
                match worktree.advance(reply) {
                    Progress::Continue(worktree, action) => Progress::Continue(
                        WorkspaceCreation {
                            is_main_worktree,
                            stage,
                            worktree,
                            main_path,
                            busy,
                            candidate,
                        },
                        action,
                    ),
                    Progress::Done(Err(error)) => Progress::Done(Err(error)),
                    Progress::Done(Ok(_)) => {
                        let machine = WorkspaceCreation {
                            is_main_worktree,
                            stage,
                            worktree: WorktreeCreation {
                                repo_path,
                                name,
                                branch,
                                base_branch: None,
                                stage: CreationStage::AddWorktree,
                            },
                            main_path,
                            busy,
                            candidate,
                        };
                        assert(machine@.placement() == start.placement());
                        machine.record(data, now)
                    },
                }
            },
            _ => {
                let action = self.awaited();
                Progress::Continue(self, action)
            },
        }
    }

    /// Takes the host's reply and says how the creation goes on. The id and the
    /// creation time of the workspace come from the system clock.
    pub fn advance(self, data: &mut AppData, reply: &HostReply) -> (next: Progress<
        WorkspaceCreation,
        WorkspaceConfig,
    >)
        ensures
            exists|now: u128| (next@, final(data)@) == self@.advance(old(data)@, reply@, now),
            next matches Progress::Done(Ok(workspace)) ==> workspace@.id.len() == 36
                && !workspace_ids(old(data)@.workspaces).contains(workspace@.id),
            old(data)@.ports_owned() ==> final(data)@.ports_owned(),
            old(data)@.ids_unique() ==> final(data)@.ids_unique(),
    {
        let now = unix_time_nanos();
        self.advance_at(data, reply, now)
    }
}

/// Starts the creation of the workspace `name` for the repository at
/// `repo_path`, with a worktree of its own on a new branch: `branch`, or one
/// named like the workspace, starting at `base_branch` or at the current `HEAD`.
pub fn create_workspace(
    repo_path: String,
    name: String,
    branch: Option<String>,
    base_branch: Option<String>,
) -> (started: Progress<WorkspaceCreation, WorkspaceConfig>)
    ensures
        started@ == workspace_creation_started(
            repo_path@,
            name@,
            option_text(branch),
            option_text(base_branch),
        ).at(WorkspaceStage::CheckRepository),
{
    let branch = match branch {
        Some(b) => b,
        None => name.clone(),
    };
    let machine = WorkspaceCreation {
        is_main_worktree: false,
        stage: WorkspaceStage::CheckRepository,
        worktree: WorktreeCreation {
            repo_path,
            name,
            branch,
            base_branch,
            stage: CreationStage::CheckDirectory,
        },
        main_path: String::new(),
        busy: HashSet::new(),
        candidate: PORT_START,
    };
    machine.at(WorkspaceStage::CheckRepository)
}

/// Starts the creation of the workspace `name` that is bound to the working
/// directory of the repository at `repo_path` itself, on its current branch.
pub fn create_workspace_for_main(repo_path: String, name: String) -> (started: Progress<
    WorkspaceCreation,
    WorkspaceConfig,
>)
    ensures
        started@ == main_creation_started(repo_path@, name@).at(WorkspaceStage::OpenRepository),
{
    let branch = name.clone();
    let machine = WorkspaceCreation {
        is_main_worktree: true,
        stage: WorkspaceStage::OpenRepository,
        worktree: WorktreeCreation {
            repo_path,
            name,
            branch,
            base_branch: None,
            stage: CreationStage::CheckDirectory,
        },
        main_path: String::new(),
        busy: HashSet::new(),
        candidate: PORT_START,
    };
    machine.at(WorkspaceStage::OpenRepository)
}

/// Where the deletion of a workspace stands.
#[derive(Clone, Copy, Debug, PartialEq, Eq, Structural)]
pub enum DeletionStage {
    /// The worktree is being removed.
    RemoveWorktree,
    /// Asked the backend to delete the branch.
    DeleteBranch,
}

/// The deletion of a workspace with a worktree of its own, under way.
#[derive(Debug)]
pub struct WorkspaceDeletion {
    pub workspace_id: String,
    pub branch: String,
    pub stage: DeletionStage,
    /// The repository and the worktree, and how far the removal has got.
    pub removal: WorktreeRemoval,
}

/// The mathematical value of a [`WorkspaceDeletion`].
pub struct WorkspaceDeletionView {
    pub workspace_id: Seq<char>,
    pub branch: Seq<char>,
    pub stage: DeletionStage,
    pub removal: WorktreeRemovalView,
}

impl View for WorkspaceDeletion {
    type V = WorkspaceDeletionView;

    open spec fn view(&self) -> WorkspaceDeletionView {
        WorkspaceDeletionView {
            workspace_id: self.workspace_id@,
            branch: self.branch@,
            stage: self.stage,
            removal: self.removal@,
        }
    }
}

/// The command that deletes the branch `branch`, merged or not.
pub open spec fn delete_branch_command(repo_path: Seq<char>, branch: Seq<char>) -> CommandLineView {
    git(repo_path, seq!["branch"@, "-D"@, branch])
}

impl WorkspaceDeletionView {
    /// The action whose reply the deletion waits for.
    pub open spec fn awaited(self) -> HostActionView {
        match self.stage {
            DeletionStage::RemoveWorktree => self.removal.awaited(),
            DeletionStage::DeleteBranch => HostActionView::Run(
                delete_branch_command(self.removal.repo_path, self.branch),
            ),
        }
    }

    /// What the deletion does on a reply, and what becomes of the table.
    ///
    /// The worktree is removed first; where that fails the deletion ends with
    /// the error and the table stays as it is. Then the backend is asked to
    /// delete the branch, and however that ends, the workspace is taken out of
    /// the table and its port range is free again. A reply of another kind
    /// than the one awaited changes nothing.
    pub open spec fn advance(self, table: AppDataView, reply: HostReplyView) -> (
        ProgressView<WorkspaceDeletionView, ()>,
        AppDataView,
    ) {
        match (self.stage, reply) {
            (DeletionStage::RemoveWorktree, _) => match self.removal.advance(reply) {
                ProgressView::Continue(removal, action) => (
                    ProgressView::Continue(WorkspaceDeletionView { removal, ..self }, action),
                    table,
                ),
                ProgressView::Done(Err(error)) => (ProgressView::Done(Err(error)), table),
                ProgressView::Done(Ok(())) => {
                    let next = WorkspaceDeletionView { stage: DeletionStage::DeleteBranch, ..self };
                    (ProgressView::Continue(next, next.awaited()), table)
                },
            },
            (DeletionStage::DeleteBranch, HostReplyView::Ran(_)) => {
                let (after, done) = deregistration(table, self.workspace_id);
                (ProgressView::Done(done), after)
            },
            _ => (ProgressView::Continue(self, self.awaited()), table),
        }
    }
}

/// How the deletion of the workspace `id` starts, and what becomes of the table.
///
/// Where the table holds no such workspace the deletion ends with the error.
/// The main workspace has no worktree of its own: it is taken out of the table
/// at once. For any other, the removal of its worktree starts.
pub open spec fn deletion_started(table: AppDataView, id: Seq<char>) -> (
    ProgressView<WorkspaceDeletionView, ()>,
    AppDataView,
) {
    match first_position(workspace_ids(table.workspaces), id) {
        None => (ProgressView::Done(Err(workspace_not_found(id))), table),
        Some(i) => {
            let workspace = table.workspaces[i];
            if workspace.is_main_worktree {
                let (after, done) = deregistration(table, id);
                (ProgressView::Done(done), after)
            } else {
                let machine = WorkspaceDeletionView {
                    workspace_id: id,
                    branch: workspace.branch,
                    stage: DeletionStage::RemoveWorktree,
                    removal: removal_started(workspace.repo_path, workspace.worktree_path),
                };
                (ProgressView::Continue(machine, machine.awaited()), table)
            }
        },
    }
}

impl WorkspaceDeletion {
    /// The action whose reply the deletion waits for.
    pub fn awaited(&self) -> (action: HostAction)
        ensures
            action@ == self@.awaited(),
    {
        match self.stage {
            DeletionStage::RemoveWorktree => self.removal.awaited(),
            DeletionStage::DeleteBranch => {
                let mut args: Vec<String> = Vec::new();
                args.push(String::from_str("branch"));
                args.push(String::from_str("-D"));
                args.push(self.branch.clone());
                let command = git_command(self.removal.repo_path.as_str(), args);
                assert(command@.args =~= delete_branch_command(
                    self@.removal.repo_path,
                    self@.branch,
                ).args);
                HostAction::Run(command)
            },
        }
    }

    /// Takes the host's reply and says how the deletion goes on.
    pub fn advance(self, data: &mut AppData, reply: &HostReply) -> (next: Progress<
        WorkspaceDeletion,
        (),
    >)
        ensures
            (next@, final(data)@) == self@.advance(old(data)@, reply@),
            old(data)@.ports_owned() ==> final(data)@.ports_owned(),
            old(data)@.ids_unique() ==> final(data)@.ids_unique(),
    {
        match (self.stage, reply) {
            (DeletionStage::RemoveWorktree, _) => {
                let WorkspaceDeletion { workspace_id, branch, stage, removal } = self;
                let repo_path = removal.repo_path.clone();
                let worktree_path = removal.worktree_path.clone();
                let removal_stage = removal.stage;
                match removal.advance(reply) {
                    Progress::Continue(removal, action) => Progress::Continue(
                        WorkspaceDeletion { workspace_id, branch, stage, removal },
                        action,
                    ),
                    Progress::Done(Err(error)) => Progress::Done(Err(error)),
                    Progress::Done(Ok(())) => {
                        let machine = WorkspaceDeletion {
                            workspace_id,
                            branch,
                            stage: DeletionStage::DeleteBranch,
                            removal: WorktreeRemoval {
                                repo_path,
                                worktree_path,
                                stage: removal_stage,
                            },
                        };
                        let action = machine.awaited();
                        Progress::Continue(machine, action)
                    },
                }
            },
            (DeletionStage::DeleteBranch, HostReply::Ran(_)) => {
                Progress::Done(deregister_workspace(data, self.workspace_id.as_str()))
            },
            _ => {
                let action = self.awaited();
                Progress::Continue(self, action)
            },
        }
    }
}

/// Starts the deletion of the workspace `workspace_id`.
pub fn delete_workspace(data: &mut AppData, workspace_id: String) -> (started: Progress<
    WorkspaceDeletion,
    (),
>)
    ensures
        (started@, final(data)@) == deletion_started(old(data)@, workspace_id@),
        old(data)@.ports_owned() ==> final(data)@.ports_owned(),
        old(data)@.ids_unique() ==> final(data)@.ids_unique(),
{
    let found = match find_workspace(&data.workspaces, workspace_id.as_str()) {
        Some(i) => i,
        None => {
            return Progress::Done(Err(not_found(workspace_id.as_str())));
        },
    };
    if data.workspaces[found].is_main_worktree {
        return Progress::Done(deregister_workspace(data, workspace_id.as_str()));
    }
    let machine = WorkspaceDeletion {
        workspace_id,
        branch: data.workspaces[found].branch.clone(),
        stage: DeletionStage::RemoveWorktree,
        removal: WorktreeRemoval {
            repo_path: data.workspaces[found].repo_path.clone(),
            worktree_path: data.workspaces[found].worktree_path.clone(),
            stage: RemovalStage::ForceRemove,
        },
    };
    let action = machine.awaited();
    Progress::Continue(machine, action)
}

/// The key under which the notes of a workspace are stored.
pub open spec fn notes_key_of(workspace_id: Seq<char>) -> Seq<char> {
    "workspace_notes_"@ + workspace_id
}

/// Builds the key under which the notes of the workspace `workspace_id` are stored.
pub fn notes_key(workspace_id: &str) -> (key: String)
    ensures
        key@ == notes_key_of(workspace_id@),
{
    String::from_str("workspace_notes_").concat(workspace_id)
}

} // verus!
