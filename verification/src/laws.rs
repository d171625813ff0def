//! What holds across the operations of the registry.

use vstd::prelude::*;
use crate::commands::scripts::{only_running, stopped, swept};
use crate::commands::workspace_lifecycle::{
    deletion_started, deregistration, lemma_deregistration_keeps_ids_unique,
    lemma_deregistration_keeps_ports_owned, new_workspace, registration, with_status,
    without_id, workspace_creation_started, workspace_ids, Placement, WorkspaceCreationView,
    WorkspaceDeletionView,
};
use crate::commands::worktrees::{
    branch_or_name, worktree_path, CreationStage, RemovalStage, WorktreeCreationView,
    WorktreeRemovalView,
};
use crate::error::ErrorView;
use crate::host::{
    answers, CommandOutcomeView, HostActionView, HostReplyView, ProgressView, RepoFactsView,
};
use crate::ident::{
    fresh_id, is_fresh_step, lemma_fresh_id_found, lemma_fresh_id_is_new, lemma_uuid_groups,
    seed_after, SEEDS,
};
use crate::lookup::{
    first_position, is_first_at, lemma_first_position, lemma_first_position_found,
};
use crate::models::scripts::{ProcessStatus, ProcessView};
use crate::models::workspace::{WorkspaceStatus, WorkspaceView};
use crate::ports::{
    first_free, is_candidate, is_first_free, is_free, lemma_first_free, lemma_first_free_found,
    lemma_some_port_is_first,
};
use crate::state::{ids_distinct, AppDataView};
use crate::text::has_suffix;

verus! {

/// Whether `after` is `before` with the workspace `created` recorded.
pub open spec fn records(before: AppDataView, after: AppDataView, created: WorkspaceView) -> bool {
    exists|placement: Placement, busy: Set<u16>, now: u128|
        registration(before, placement, busy, now) == (after, Ok::<WorkspaceView, ErrorView>(created))
}

/// Whether `tables` is a run of tables in which each step either records the
/// workspace that `created` names for it, or does something else that frees no
/// port range.
pub open spec fn is_history_without_deletion(
    tables: Seq<AppDataView>,
    created: Seq<Option<WorkspaceView>>,
) -> bool {
    &&& tables.len() == created.len() + 1
    &&& forall|k: int|
        0 <= k < created.len() ==> match #[trigger] created[k] {
            Some(workspace) => records(tables[k], tables[k + 1], workspace),
            None => tables[k].allocated_ports.subset_of(tables[k + 1].allocated_ports),
        }
}

/// A recorded workspace has a port range that was free, and that is allocated
/// from then on.
pub proof fn lemma_recorded_port_was_free(
    before: AppDataView,
    after: AppDataView,
    created: WorkspaceView,
)
    requires
        records(before, after, created),
    ensures
        is_candidate(created.port_base as int),
        !before.allocated_ports.contains(created.port_base),
        after.allocated_ports == before.allocated_ports.insert(created.port_base),
{
    let (placement, busy, now) = choose|placement: Placement, busy: Set<u16>, now: u128|
        registration(before, placement, busy, now) == (after, Ok::<WorkspaceView, ErrorView>(created));
    lemma_first_free(before.allocated_ports, busy);
}

/// In a run of tables without deletion, what is allocated stays allocated.
proof fn lemma_ports_stay_allocated(
    tables: Seq<AppDataView>,
    created: Seq<Option<WorkspaceView>>,
    from: int,
    to: int,
    port: u16,
)
    requires
        is_history_without_deletion(tables, created),
        0 <= from <= to < tables.len(),
        tables[from].allocated_ports.contains(port),
    ensures
        tables[to].allocated_ports.contains(port),
    decreases to - from,
{
    if from < to {
        lemma_ports_stay_allocated(tables, created, from, to - 1, port);
        match created[to - 1] {
            Some(workspace) => {
                lemma_recorded_port_was_free(tables[to - 1], tables[to], workspace);
            },
            None => {},
        }
    }
}

/// As long as no workspace is deleted, no two workspaces that are created get
/// the same port range.
pub proof fn lemma_created_ports_are_distinct(
    tables: Seq<AppDataView>,
    created: Seq<Option<WorkspaceView>>,
    i: int,
    j: int,
)
    requires
        is_history_without_deletion(tables, created),
        0 <= i < j < created.len(),
        created[i] is Some,
        created[j] is Some,
    ensures
        created[i]->0.port_base != created[j]->0.port_base,
{
    let first = created[i]->0;
    let second = created[j]->0;
    lemma_recorded_port_was_free(tables[i], tables[i + 1], first);
    lemma_recorded_port_was_free(tables[j], tables[j + 1], second);
    lemma_ports_stay_allocated(tables, created, i + 1, j, first.port_base);
}

/// Where the creation of a workspace ends well, the workspace was recorded in
/// the table, with the lowest port range that was free.
pub proof fn lemma_creation_records(
    machine: WorkspaceCreationView,
    before: AppDataView,
    reply: HostReplyView,
    now: u128,
)
    ensures
        match machine.advance(before, reply, now) {
            (ProgressView::Done(Ok(created)), after) => records(before, after, created)
                && first_free(before.allocated_ports, machine.busy) == Some(created.port_base),
            (ProgressView::Done(Err(_)), after) => after == before,
            (ProgressView::Continue(_, _), after) => after == before,
        },
{
    match machine.advance(before, reply, now) {
        (ProgressView::Done(Ok(created)), after) => {
            assert(registration(before, machine.placement(), machine.busy, now) == (
                after,
                Ok::<WorkspaceView, ErrorView>(created),
            ));
        },
        _ => {},
    }
}

/// A recorded workspace has an id of 36 characters that no workspace of the
/// table had, also where another workspace was recorded at the same reading
/// of the clock.
pub proof fn lemma_recorded_id_is_new(
    before: AppDataView,
    after: AppDataView,
    created: WorkspaceView,
)
    requires
        records(before, after, created),
        before.workspaces.len() < SEEDS,
    ensures
        created.id.len() == 36,
        forall|i: int|
            0 <= i < before.workspaces.len() ==> (#[trigger] before.workspaces[i]).id != created.id,
        before.ids_unique() ==> after.ids_unique(),
{
    let (placement, busy, now) = choose|placement: Placement, busy: Set<u16>, now: u128|
        registration(before, placement, busy, now) == (after, Ok::<WorkspaceView, ErrorView>(created));
    let ids = workspace_ids(before.workspaces);
    lemma_fresh_id_is_new(ids, now);
    let steps = choose|steps: nat| steps <= ids.len() && is_fresh_step(ids, now, steps);
    lemma_fresh_id_found(ids, now, steps);
    lemma_uuid_groups(seed_after(now, steps));
    assert forall|i: int| 0 <= i < before.workspaces.len() implies (#[trigger] before.workspaces[i]).id
        != created.id by {
        assert(ids[i] == before.workspaces[i].id);
    }
    if before.ids_unique() {
        assert forall|i: int, j: int| 0 <= i < j < after.workspaces.len() implies #[trigger]
            after.workspaces[i].id != #[trigger] after.workspaces[j].id by {
            if j == before.workspaces.len() {
                assert(before.workspaces[i].id != created.id);
            }
        }
    }
}

/// A workspace that is recorded gets an id that no workspace of the table
/// has, and a port range that none owns: a well-formed table stays so.
pub proof fn lemma_registration_keeps_well_formed(
    table: AppDataView,
    placement: Placement,
    busy: Set<u16>,
    now: u128,
)
    requires
        table.well_formed(),
        table.workspaces.len() < SEEDS,
    ensures
        registration(table, placement, busy, now).0.well_formed(),
        match registration(table, placement, busy, now).1 {
            Ok(created) => !workspace_ids(table.workspaces).contains(created.id)
                && !table.allocated_ports.contains(created.port_base),
            Err(_) => registration(table, placement, busy, now).0 == table,
        },
{
    lemma_first_free(table.allocated_ports, busy);
    lemma_fresh_id_is_new(workspace_ids(table.workspaces), now);
    match registration(table, placement, busy, now).1 {
        Ok(created) => {
            let after = registration(table, placement, busy, now).0;
            let ids = workspace_ids(table.workspaces);
            assert forall|i: int, j: int| 0 <= i < j < after.workspaces.len() implies #[trigger]
                after.workspaces[i].id != #[trigger] after.workspaces[j].id by {
                if j == table.workspaces.len() {
                    assert(ids[i] == table.workspaces[i].id);
                }
            }
            assert forall|i: int, j: int| 0 <= i < j < after.workspaces.len() implies #[trigger]
                after.workspaces[i].port_base != #[trigger] after.workspaces[j].port_base by {
                if j == table.workspaces.len() {
                    assert(table.allocated_ports.contains(table.workspaces[i].port_base));
                }
            }
        },
        Err(_) => {},
    }
}

/// In a well-formed table the filter by id takes out one workspace, the one
/// with the id, and leaves the others in their places.
pub proof fn lemma_one_workspace_has_the_id(workspaces: Seq<WorkspaceView>, i: int)
    requires
        ids_distinct(workspaces),
        0 <= i < workspaces.len(),
    ensures
        first_position(workspace_ids(workspaces), workspaces[i].id) == Some(i),
        without_id(workspaces, workspaces[i].id) == workspaces.remove(i),
    decreases workspaces.len(),
{
    reveal(Seq::filter);
    let id = workspaces[i].id;
    let ids = workspace_ids(workspaces);
    assert(is_first_at(ids, id, i)) by {
        assert forall|j: int| 0 <= j < i implies ids[j] != id by {
            assert(workspaces[j].id != workspaces[i].id);
        }
    }
    lemma_first_position_found(ids, id, i);
    let rest = workspaces.drop_last();
    let last = workspaces.last();
    if i == workspaces.len() - 1 {
        lemma_others_stay(rest, id);
        assert(workspaces.remove(i) =~= rest);
    } else {
        assert(ids_distinct(rest)) by {
            assert forall|k: int, l: int| 0 <= k < l < rest.len() implies #[trigger] rest[k].id
                != #[trigger] rest[l].id by {
                assert(workspaces[k].id != workspaces[l].id);
            }
        }
        assert(rest[i] == workspaces[i]);
        lemma_one_workspace_has_the_id(rest, i);
        assert(workspaces[i].id != workspaces[workspaces.len() - 1].id);
        assert(rest.remove(i).push(last) =~= workspaces.remove(i));
    }
}

proof fn lemma_others_stay(workspaces: Seq<WorkspaceView>, id: Seq<char>)
    requires
        forall|j: int| 0 <= j < workspaces.len() ==> (#[trigger] workspaces[j]).id != id,
    ensures
        without_id(workspaces, id) == workspaces,
    decreases workspaces.len(),
{
    reveal(Seq::filter);
    if workspaces.len() > 0 {
        lemma_others_stay(workspaces.drop_last(), id);
        assert(workspaces.drop_last().push(workspaces.last()) =~= workspaces);
    }
}

/// Deleting a workspace of a well-formed table takes that workspace out and
/// no other, and frees its port range and no other. The table stays well
/// formed, no workspace with the id is left, and a later creation may get the
/// port range again, or a lower one.
pub proof fn lemma_deleted_port_is_free_again(table: AppDataView, i: int, busy: Set<u16>)
    requires
        table.well_formed(),
        0 <= i < table.workspaces.len(),
    ensures
        ({
            let deleted = table.workspaces[i];
            let port = deleted.port_base;
            let after = deregistration(table, deleted.id).0;
            &&& deregistration(table, deleted.id).1 is Ok
            &&& after.workspaces == table.workspaces.remove(i)
            &&& after.allocated_ports == table.allocated_ports.remove(port)
            &&& !after.allocated_ports.contains(port)
            &&& !workspace_ids(after.workspaces).contains(deleted.id)
            &&& after.well_formed()
            &&& is_candidate(port as int) && !busy.contains(port) ==> {
                &&& is_free(port, after.allocated_ports, busy)
                &&& first_free(after.allocated_ports, busy) is Some
                &&& first_free(after.allocated_ports, busy)->0 <= port
            }
        }),
{
    let deleted = table.workspaces[i];
    let id = deleted.id;
    let port = deleted.port_base;
    lemma_one_workspace_has_the_id(table.workspaces, i);
    let after = deregistration(table, id).0;
    lemma_deregistration_keeps_ports_owned(table, id);
    lemma_deregistration_keeps_ids_unique(table, id);
    assert(!workspace_ids(after.workspaces).contains(id)) by {
        let ids = workspace_ids(after.workspaces);
        if ids.contains(id) {
            let k = choose|k: int| 0 <= k < ids.len() && ids[k] == id;
            if k < i {
                assert(table.workspaces[k].id != table.workspaces[i].id);
            } else {
                assert(table.workspaces[i].id != table.workspaces[k + 1].id);
            }
        }
    }
    if is_candidate(port as int) && !busy.contains(port) {
        lemma_some_port_is_first(port, after.allocated_ports, busy);
        let first = choose|first: u16|
            first <= port && is_first_free(first, after.allocated_ports, busy);
        lemma_first_free_found(first, after.allocated_ports, busy);
    }
}

/// Archiving a workspace and restoring it leaves the table as it was, but for
/// the status of that workspace, which is active.
pub proof fn lemma_archive_then_restore(table: AppDataView, id: Seq<char>)
    ensures
        ({
            let archived = with_status(table, id, WorkspaceStatus::Archived);
            let restored = with_status(archived.0, id, WorkspaceStatus::Active);
            match first_position(workspace_ids(table.workspaces), id) {
                Some(i) => {
                    &&& archived.1 is Ok
                    &&& restored.1 is Ok
                    &&& restored.0 == (AppDataView {
                        workspaces: table.workspaces.update(
                            i,
                            WorkspaceView {
                                status: WorkspaceStatus::Active,
                                ..table.workspaces[i]
                            },
                        ),
                        ..table
                    })
                    &&& table.workspaces[i].status == WorkspaceStatus::Active ==> restored.0
                        == table
                },
                None => archived.1 is Err && restored.1 is Err && restored.0 == table,
            }
        }),
{
    let ids = workspace_ids(table.workspaces);
    lemma_first_position(ids, id);
    match first_position(ids, id) {
        Some(i) => {
            let archived = with_status(table, id, WorkspaceStatus::Archived);
            let ids_after = workspace_ids(archived.0.workspaces);
            assert(ids_after =~= ids);
            let restored = with_status(archived.0, id, WorkspaceStatus::Active);
            assert(restored.0.workspaces =~= table.workspaces.update(
                i,
                WorkspaceView { status: WorkspaceStatus::Active, ..table.workspaces[i] },
            ));
            if table.workspaces[i].status == WorkspaceStatus::Active {
                assert(restored.0.workspaces =~= table.workspaces);
            }
        },
        None => {},
    }
}

/// After a cleanup every process that is left counts as running, and every
/// process that counted as running is left.
pub proof fn lemma_cleanup_keeps_the_running(processes: Seq<ProcessView>)
    ensures
        forall|i: int|
            0 <= i < only_running(processes).len() ==> (#[trigger] only_running(
                processes,
            )[i]).status == ProcessStatus::Running,
        forall|i: int|
            0 <= i < processes.len() && (#[trigger] processes[i]).status == ProcessStatus::Running
                ==> only_running(processes).contains(processes[i]),
        only_running(only_running(processes)) == only_running(processes),
{
    broadcast use vstd::seq_lib::group_filter_ensures;

    lemma_filter_is_idempotent(processes);
}

proof fn lemma_filter_is_idempotent(processes: Seq<ProcessView>)
    ensures
        only_running(only_running(processes)) == only_running(processes),
    decreases processes.len(),
{
    reveal(Seq::filter);
    let running = |p: ProcessView| p.status == ProcessStatus::Running;
    if processes.len() > 0 {
        let rest = processes.drop_last();
        lemma_filter_is_idempotent(rest);
        if running(processes.last()) {
            only_running(rest).lemma_filter_push(processes.last(), running);
        }
    }
}

/// A cleanup after a stop takes the stopped process out of the table,
/// whatever else the table holds.
pub proof fn lemma_stopped_process_is_cleaned_up(processes: Seq<ProcessView>, id: Seq<char>)
    ensures
        forall|i: int|
            0 <= i < only_running(stopped(processes, id)).len() ==> (#[trigger] only_running(
                stopped(processes, id),
            )[i]).id != id,
{
    broadcast use vstd::seq_lib::group_filter_ensures;

    let after = stopped(processes, id);
    assert forall|i: int| 0 <= i < only_running(after).len() implies (#[trigger] only_running(
        after,
    )[i]).id != id by {
        let p = only_running(after)[i];
        assert(only_running(after).contains(p));
        after.lemma_filter_contains_rev(|p: ProcessView| p.status == ProcessStatus::Running, p);
        assert(after.contains(p));
        let j = choose|j: int| 0 <= j < after.len() && after[j] == p;
        assert(p.status == ProcessStatus::Running);
    }
}

/// The removal of a worktree fails only where the backend cannot be run at
/// all, or where the host refuses to delete the directory. It does not fail
/// because the backend refuses, nor because the directory is gone already.
pub proof fn lemma_removal_fails_only_when_refused(
    machine: WorktreeRemovalView,
    reply: HostReplyView,
)
    ensures
        machine.advance(reply) matches ProgressView::Done(Err(_)) ==> {
            ||| machine.stage == RemovalStage::ForceRemove && reply matches HostReplyView::Ran(
                CommandOutcomeView::NotStarted(_),
            )
            ||| reply matches HostReplyView::DirectoryRemoved(Err(_))
        },
{
}

/// The removal of a worktree asks to delete the directory only after it was
/// told that the directory is there.
pub proof fn lemma_removal_deletes_only_what_is_there(
    machine: WorktreeRemovalView,
    reply: HostReplyView,
)
    requires
        machine.stage != RemovalStage::DeleteLeftover,
        machine.stage != RemovalStage::FinalDelete,
    ensures
        machine.advance(reply) matches ProgressView::Continue(next, _) && (next.stage
            == RemovalStage::DeleteLeftover || next.stage == RemovalStage::FinalDelete) ==> reply
            == HostReplyView::PathChecked(true),
{
}

/// How far the removal of a worktree has got: the stages in their order.
pub open spec fn removal_rank(stage: RemovalStage) -> nat {
    match stage {
        RemovalStage::ForceRemove => 0,
        RemovalStage::FirstPrune => 1,
        RemovalStage::CheckLeftover => 2,
        RemovalStage::DeleteLeftover => 3,
        RemovalStage::SecondPrune => 4,
        RemovalStage::FinalCheck => 5,
        RemovalStage::FinalDelete => 6,
    }
}

/// The removal of a worktree comes to an end: each reply that answers what
/// was asked ends it or takes it to a later stage, of which there are seven.
/// Any other reply leaves it where it is, asking the same again.
pub proof fn lemma_removal_makes_progress(machine: WorktreeRemovalView, reply: HostReplyView)
    ensures
        match machine.advance(reply) {
            ProgressView::Continue(next, action) => if answers(reply, machine.awaited()) {
                removal_rank(next.stage) > removal_rank(machine.stage) && action == next.awaited()
            } else {
                next == machine && action == machine.awaited()
            },
            ProgressView::Done(_) => answers(reply, machine.awaited()),
        },
{
}

/// How far the creation of a worktree has got: the stages in their order.
pub open spec fn creation_rank(stage: CreationStage) -> nat {
    match stage {
        CreationStage::CheckRepository => 0,
        CreationStage::OpenRepository => 1,
        CreationStage::CheckDirectory => 2,
        CreationStage::MakeDirectory => 3,
        CreationStage::AddWorktree => 4,
    }
}

/// The creation of a worktree comes to an end: each reply that answers what
/// was asked ends it or takes it to a later stage, of which there are five.
/// Any other reply leaves it where it is, asking the same again.
pub proof fn lemma_creation_makes_progress(machine: WorktreeCreationView, reply: HostReplyView)
    ensures
        match machine.advance(reply) {
            ProgressView::Continue(next, action) => if answers(reply, machine.awaited()) {
                creation_rank(next.stage) > creation_rank(machine.stage) && action
                    == next.awaited()
            } else {
                next == machine && action == machine.awaited()
            },
            ProgressView::Done(_) => answers(reply, machine.awaited()),
        },
{
}

/// The backend adds a worktree only once the directory for worktrees is
/// known to be there: it was found, or it was made.
pub proof fn lemma_worktree_is_added_into_a_directory(
    machine: WorktreeCreationView,
    reply: HostReplyView,
)
    requires
        machine.stage != CreationStage::AddWorktree,
    ensures
        machine.advance(reply) matches ProgressView::Continue(next, _) && next.stage
            == CreationStage::AddWorktree ==> {
            ||| reply == HostReplyView::PathChecked(true)
            ||| reply matches HostReplyView::DirectoryCreated(Ok(_))
        },
{
}

/// The worktree of a workspace lies in the directory `.worktrees` of its
/// repository, under the name of the workspace, as long as that name is not an
/// absolute path.
pub proof fn lemma_worktree_lies_under_the_repository(repo_path: Seq<char>, name: Seq<char>)
    requires
        repo_path.len() > 0,
        name.len() == 0 || name[0] != '/',
    ensures
        has_suffix(
            worktree_path(repo_path, name),
            "/.worktrees/"@ + name,
        ),
        worktree_path(repo_path, name) == if repo_path.last() == '/' {
            repo_path + ".worktrees/"@ + name
        } else {
            repo_path + "/.worktrees/"@ + name
        },
{
    reveal_strlit(".worktrees");
    reveal_strlit(".worktrees/");
    reveal_strlit("/.worktrees/");
    let dir = crate::commands::worktrees::worktrees_dir(repo_path);
    let path = worktree_path(repo_path, name);
    let tail = "/.worktrees/"@ + name;
    assert(".worktrees"@[0] == '.');
    if repo_path.last() == '/' {
        assert(dir =~= repo_path + ".worktrees"@);
        assert(dir.last() == 's');
        assert(path =~= repo_path + ".worktrees/"@ + name);
        assert(path.skip(path.len() - tail.len()) =~= tail);
    } else {
        assert(dir =~= repo_path + seq!['/'] + ".worktrees"@);
        assert(dir.last() == 's');
        assert(path =~= repo_path + "/.worktrees/"@ + name);
        assert(path.skip(path.len() - tail.len()) =~= tail);
    }
}

/// No process comes back to life: a stop and a liveness sweep keep every
/// process in its place and leave a process that did not count as running
/// as it was.
pub proof fn lemma_no_process_returns_to_running(
    processes: Seq<ProcessView>,
    id: Seq<char>,
    gone: Seq<u32>,
)
    ensures
        stopped(processes, id).len() == processes.len(),
        swept(processes, gone).len() == processes.len(),
        forall|i: int|
            0 <= i < processes.len() && (#[trigger] processes[i]).status != ProcessStatus::Running
                ==> stopped(processes, id)[i].status != ProcessStatus::Running && swept(
                processes,
                gone,
            )[i] == processes[i],
        forall|i: int|
            0 <= i < processes.len() ==> (#[trigger] swept(processes, gone)[i]).pid
                == processes[i].pid && (swept(processes, gone)[i].status == ProcessStatus::Running
                ==> !gone.contains(processes[i].pid)),
{
}

/// The creation of a workspace probes no port but the lowest candidate that
/// no workspace owns and that no earlier probe found taken.
pub proof fn lemma_probed_port_is_lowest_free(
    machine: WorkspaceCreationView,
    table: AppDataView,
    reply: HostReplyView,
    now: u128,
)
    requires
        !(machine.awaited() is ProbePort),
    ensures
        match machine.advance(table, reply, now).0 {
            ProgressView::Continue(next, HostActionView::ProbePort(port)) => first_free(
                table.allocated_ports,
                next.busy,
            ) == Some(port) && next.busy == machine.busy,
            _ => true,
        },
{
}

/// A candidate port that a probe found taken is not probed again, nor given
/// to the workspace.
pub proof fn lemma_taken_port_is_skipped(
    machine: WorkspaceCreationView,
    table: AppDataView,
    now: u128,
)
    requires
        machine.awaited() == HostActionView::ProbePort(machine.candidate),
    ensures
        match machine.advance(table, HostReplyView::PortProbed(false), now).0 {
            ProgressView::Continue(next, action) => {
                &&& next.busy == machine.busy.insert(machine.candidate)
                &&& action == HostActionView::ProbePort(next.candidate)
                &&& next.candidate != machine.candidate
                &&& first_free(table.allocated_ports, next.busy) == Some(next.candidate)
            },
            ProgressView::Done(done) => done == Err::<WorkspaceView, ErrorView>(
                crate::ports::no_port_available(),
            ) && first_free(table.allocated_ports, machine.busy.insert(machine.candidate))
                is None,
        },
{
    lemma_first_free(table.allocated_ports, machine.busy.insert(machine.candidate));
}

/// Where the host finds the repository, can bind the first port that it is
/// asked to probe, and the backend adds the worktree, the creation of a
/// workspace ends after five replies: the workspace is recorded as active,
/// not as the main one, with the lowest free port range, and its worktree
/// lies in the directory for worktrees under its name.
pub proof fn lemma_creation_runs_to_its_end(
    table: AppDataView,
    repo_path: Seq<char>,
    name: Seq<char>,
    branch: Option<Seq<char>>,
    base_branch: Option<Seq<char>>,
    facts: RepoFactsView,
    directory_exists: bool,
    printed: (Seq<char>, Seq<char>),
    now: u128,
)
    requires
        first_free(table.allocated_ports, Set::empty()) is Some,
    ensures
        ({
            let port = first_free(table.allocated_ports, Set::empty())->0;
            let start = workspace_creation_started(repo_path, name, branch, base_branch);
            let checked = start.advance(table, HostReplyView::PathChecked(true), now).0->Continue_0;
            let opened = checked.advance(
                table,
                HostReplyView::RepositoryOpened(Ok(facts)),
                now,
            ).0->Continue_0;
            let probed = opened.advance(table, HostReplyView::PortProbed(true), now).0->Continue_0;
            let ready = if directory_exists {
                probed.advance(table, HostReplyView::PathChecked(true), now).0->Continue_0
            } else {
                probed.advance(
                    table,
                    HostReplyView::PathChecked(false),
                    now,
                ).0->Continue_0.advance(
                    table,
                    HostReplyView::DirectoryCreated(Ok(())),
                    now,
                ).0->Continue_0
            };
            let end = ready.advance(
                table,
                HostReplyView::Ran(
                    CommandOutcomeView::Exited { success: true, stdout: printed.0, stderr: printed.1 },
                ),
                now,
            );
            let created = new_workspace(
                Placement {
                    repo_path,
                    name,
                    worktree_path: worktree_path(repo_path, name),
                    branch: branch_or_name(branch, name),
                    is_main_worktree: false,
                },
                port,
                fresh_id(workspace_ids(table.workspaces), now),
                now,
            );
            &&& opened.awaited() == HostActionView::ProbePort(port)
            &&& end.0 == ProgressView::<WorkspaceCreationView, WorkspaceView>::Done(Ok(created))
            &&& end.1.workspaces == table.workspaces.push(created)
            &&& end.1.allocated_ports == table.allocated_ports.insert(port)
            &&& created.status == WorkspaceStatus::Active
            &&& !created.is_main_worktree
            &&& table.workspaces.len() < SEEDS ==> !workspace_ids(table.workspaces).contains(
                created.id,
            )
            &&& table.well_formed() && table.workspaces.len() < SEEDS ==> end.1.well_formed()
        }),
{
    lemma_first_free(table.allocated_ports, Set::empty());
    if table.workspaces.len() < SEEDS {
        lemma_fresh_id_is_new(workspace_ids(table.workspaces), now);
        let port = first_free(table.allocated_ports, Set::empty())->0;
        let id = fresh_id(workspace_ids(table.workspaces), now);
        let after = registration(
            table,
            Placement {
                repo_path,
                name,
                worktree_path: worktree_path(repo_path, name),
                branch: branch_or_name(branch, name),
                is_main_worktree: false,
            },
            Set::empty(),
            now,
        ).0;
        if table.well_formed() {
            lemma_registration_keeps_well_formed(
                table,
                Placement {
                    repo_path,
                    name,
                    worktree_path: worktree_path(repo_path, name),
                    branch: branch_or_name(branch, name),
                    is_main_worktree: false,
                },
                Set::empty(),
                now,
            );
        }
    }
}

/// The deletion of a workspace whose worktree is gone already, from the disk
/// and from the backend's records, succeeds: the backend refuses to remove
/// the worktree, no directory is found, and the workspace leaves the table
/// with its port range, whatever the backend says to the pruning and to the
/// deletion of the branch. No workspace with the id is left, no other
/// workspace and no other port range is touched, and a later creation may get
/// the port range again, or a lower one.
pub proof fn lemma_deletion_succeeds_when_the_worktree_is_gone(
    table: AppDataView,
    i: int,
    refusal: (Seq<char>, Seq<char>),
    first_pruning: CommandOutcomeView,
    second_pruning: CommandOutcomeView,
    branch_deletion: CommandOutcomeView,
    busy: Set<u16>,
)
    requires
        table.well_formed(),
        0 <= i < table.workspaces.len(),
        !table.workspaces[i].is_main_worktree,
    ensures
        ({
            let deleted = table.workspaces[i];
            let id = deleted.id;
            let port = deleted.port_base;
            let refused = HostReplyView::Ran(
                CommandOutcomeView::Exited { success: false, stdout: refusal.0, stderr: refusal.1 },
            );
            let absent = HostReplyView::PathChecked(false);
            let started = deletion_started(table, id).0->Continue_0;
            let pruning = started.advance(table, refused).0->Continue_0;
            let checking = pruning.advance(table, HostReplyView::Ran(first_pruning)).0->Continue_0;
            let pruning_again = checking.advance(table, absent).0->Continue_0;
            let checking_again = pruning_again.advance(
                table,
                HostReplyView::Ran(second_pruning),
            ).0->Continue_0;
            let deleting_branch = checking_again.advance(table, absent).0->Continue_0;
            let end = deleting_branch.advance(table, HostReplyView::Ran(branch_deletion));
            &&& deletion_started(table, id).1 == table
            &&& end.0 == ProgressView::<WorkspaceDeletionView, ()>::Done(Ok(()))
            &&& end.1.workspaces == table.workspaces.remove(i)
            &&& end.1.allocated_ports == table.allocated_ports.remove(port)
            &&& !end.1.allocated_ports.contains(port)
            &&& !workspace_ids(end.1.workspaces).contains(id)
            &&& end.1.well_formed()
            &&& is_candidate(port as int) && !busy.contains(port) ==> first_free(
                end.1.allocated_ports,
                busy,
            ) is Some && first_free(end.1.allocated_ports, busy)->0 <= port
        }),
{
    lemma_deleted_port_is_free_again(table, i, busy);
}

} // verus!
