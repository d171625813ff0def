//! Scripts of a workspace: starting them as background processes, stopping
//! them, and keeping the table of processes up to date.

use vstd::prelude::*;
use vstd::string::*;
use crate::error::{failure, quoted_failure, AppError, ErrorKind, ErrorView};
use crate::host::{
    CommandLine, CommandLineView, HostAction, HostActionView, HostReply, HostReplyView, Progress,
    ProgressView,
};
use crate::lookup::{
    as_position, first_position, lemma_first_position_absent, lemma_first_position_found,
};
use crate::models::scripts::{ProcessStatus, ProcessView, RunningProcess, ScriptDef, ScriptView};
use crate::models::workspace::EnvVars;
use crate::state::{process_views, AppData, AppDataView};
use crate::text::{
    clone_texts, decimal, decimal_string, join_path, joined, option_text, same_text, texts,
};

verus! {

/// The command and the arguments of a script on a host: those for Windows
/// where the host is one and the script has them, else the general ones.
pub open spec fn platform_command(script: ScriptView, windows: bool) -> (
    Seq<char>,
    Seq<Seq<char>>,
) {
    (
        match script.command_windows {
            Some(command) if windows => command,
            _ => script.command,
        },
        match script.args_windows {
            Some(args) if windows => args,
            _ => script.args,
        },
    )
}

/// Picks the command and the arguments of `script` for the host, which is a
/// Windows one if `windows` says so.
pub fn resolve_platform_command(script: &ScriptDef, windows: bool) -> (resolved: (
    String,
    Vec<String>,
))
    ensures
        (resolved.0@, texts(resolved.1@)) == platform_command(script@, windows),
{
    let command = match &script.command_windows {
        Some(command) if windows => command.clone(),
        _ => script.command.clone(),
    };
    let args = match &script.args_windows {
        Some(args) if windows => clone_texts(args),
        _ => clone_texts(&script.args),
    };
    (command, args)
}

/// The directory that a script runs in: the one it names, under the root of
/// the worktree, else the root itself.
pub open spec fn working_dir(worktree_path: Seq<char>, cwd: Option<Seq<char>>) -> Seq<char> {
    match cwd {
        Some(dir) => joined(worktree_path, dir),
        None => worktree_path,
    }
}

/// The id under which a process is tracked: the id of its workspace, a hyphen,
/// and its process id in decimal.
pub open spec fn process_id(workspace_id: Seq<char>, pid: u32) -> Seq<char> {
    workspace_id + seq!['-'] + decimal(pid as nat, 0)
}

/// Where the launch of a script stands.
#[derive(Clone, Copy, Debug, PartialEq, Eq, Structural)]
pub enum LaunchStage {
    /// Asked whether the working directory exists.
    CheckDirectory,
    /// Asked to start the process.
    Spawn,
}

/// The launch of a script, under way.
#[derive(Debug)]
pub struct ScriptLaunch {
    pub workspace_id: String,
    pub script_name: String,
    pub command: CommandLine,
    pub env: EnvVars,
    pub stage: LaunchStage,
}

/// The mathematical value of a [`ScriptLaunch`].
pub struct ScriptLaunchView {
    pub workspace_id: Seq<char>,
    pub script_name: Seq<char>,
    pub command: CommandLineView,
    pub env: Map<Seq<char>, Seq<char>>,
    pub stage: LaunchStage,
}

impl View for ScriptLaunch {
    type V = ScriptLaunchView;

    open spec fn view(&self) -> ScriptLaunchView {
        ScriptLaunchView {
            workspace_id: self.workspace_id@,
            script_name: self.script_name@,
            command: self.command@,
            env: self.env@,
            stage: self.stage,
        }
    }
}

impl ScriptLaunchView {
    /// The action whose reply the launch waits for.
    pub open spec fn awaited(self) -> HostActionView {
        match self.stage {
            LaunchStage::CheckDirectory => HostActionView::CheckPath(self.command.cwd),
            LaunchStage::Spawn => HostActionView::Spawn(self.command, self.env),
        }
    }

    /// The process that is tracked once the script runs as `pid`.
    pub open spec fn started(self, pid: u32) -> ProcessView {
        ProcessView {
            id: process_id(self.workspace_id, pid),
            workspace_id: self.workspace_id,
            script_name: self.script_name,
            pid,
            status: ProcessStatus::Running,
        }
    }

    /// What the launch does on a reply, and what becomes of the table.
    ///
    /// The working directory must exist. Then the process is started, and once
    /// it runs it is added to the table of processes; the launch does not wait
    /// for it to end. A reply of another kind than the one awaited changes
    /// nothing.
    pub open spec fn advance(self, table: AppDataView, reply: HostReplyView) -> (
        ProgressView<ScriptLaunchView, ProcessView>,
        AppDataView,
    ) {
        match (self.stage, reply) {
            (LaunchStage::CheckDirectory, HostReplyView::PathChecked(exists)) => if exists {
                let next = ScriptLaunchView { stage: LaunchStage::Spawn, ..self };
                (ProgressView::Continue(next, next.awaited()), table)
            } else {
                (
                    ProgressView::Done(
                        Err(
                            failure(
                                ErrorKind::ValidationFailed,
                                "Working directory does not exist: "@,
                                self.command.cwd,
                            ),
                        ),
                    ),
                    table,
                )
            },
            (LaunchStage::Spawn, HostReplyView::Spawned(Err(why))) => (
                ProgressView::Done(
                    Err(
                        quoted_failure(
                            ErrorKind::IoFailure,
                            "Failed to spawn '"@,
                            self.command.program,
                            "': "@ + why,
                        ),
                    ),
                ),
                table,
            ),
            (LaunchStage::Spawn, HostReplyView::Spawned(Ok(pid))) => (
                ProgressView::Done(Ok(self.started(pid))),
                AppDataView {
                    running_processes: table.running_processes.push(self.started(pid)),
                    ..table
                },
            ),
            _ => (ProgressView::Continue(self, self.awaited()), table),
        }
    }
}

/// The state in which the launch of a script starts.
pub open spec fn launch_started(
    workspace_id: Seq<char>,
    script: ScriptView,
    worktree_path: Seq<char>,
    extra_env: Map<Seq<char>, Seq<char>>,
    windows: bool,
) -> ScriptLaunchView {
    ScriptLaunchView {
        workspace_id,
        script_name: script.name,
        command: CommandLineView {
            program: platform_command(script, windows).0,
            args: platform_command(script, windows).1,
            cwd: working_dir(worktree_path, script.cwd),
        },
        env: extra_env,
        stage: LaunchStage::CheckDirectory,
    }
}

impl ScriptLaunch {
    /// The action whose reply the launch waits for.
    pub fn awaited(&self) -> (action: HostAction)
        ensures
            action@ == self@.awaited(),
    {
        match self.stage {
            LaunchStage::CheckDirectory => HostAction::CheckPath(self.command.cwd.clone()),
            LaunchStage::Spawn => HostAction::Spawn(self.command.clone(), self.env.clone()),
        }
    }

    /// Takes the host's reply and says how the launch goes on.
    pub fn advance(self, data: &mut AppData, reply: &HostReply) -> (next: Progress<
        ScriptLaunch,
        RunningProcess,
    >)
        ensures
            (next@, final(data)@) == self@.advance(old(data)@, reply@),
            old(data)@.ports_owned() ==> final(data)@.ports_owned(),
            old(data)@.ids_unique() ==> final(data)@.ids_unique(),
    {
        match (self.stage, reply) {
            (LaunchStage::CheckDirectory, HostReply::PathChecked(exists)) => {
                if *exists {
                    let machine = ScriptLaunch { stage: LaunchStage::Spawn, ..self };
                    let action = machine.awaited();
                    Progress::Continue(machine, action)
                } else {
                    Progress::Done(
                        Err(
                            AppError::with_detail(
                                ErrorKind::ValidationFailed,
                                "Working directory does not exist: ",
                                self.command.cwd.as_str(),
                            ),
                        ),
                    )
                }
            },
            (LaunchStage::Spawn, HostReply::Spawned(Err(why))) => {
                let mut tail = String::from_str("': ");
                tail.append(why.as_str());
                Progress::Done(
                    Err(
                        AppError::quoting(
                            ErrorKind::IoFailure,
                            "Failed to spawn '",
                            self.command.program.as_str(),
                            tail.as_str(),
                        ),
                    ),
                )
            },
            (LaunchStage::Spawn, HostReply::Spawned(Ok(pid))) => {
                proof {
                    reveal_strlit("-");
                }
                let mut id = self.workspace_id.clone();
                id.append("-");
                id.append(decimal_string(*pid as u64, 0).as_str());
                assert("-"@ =~= seq!['-']);
                let process = RunningProcess {
                    id,
                    workspace_id: self.workspace_id,
                    script_name: self.script_name,
                    pid: *pid,
                    status: ProcessStatus::Running,
                };
                let copy = process.clone();
                let ghost before = data@;
                data.running_processes.push(process);
                assert(data@.running_processes =~= before.running_processes.push(copy@));
                Progress::Done(Ok(copy))
            },
            _ => {
                let action = self.awaited();
                Progress::Continue(self, action)
            },
        }
    }
}

/// Starts the launch of `script` for the workspace `workspace_id`, whose
/// worktree lies at `worktree_path`, with `extra_env` added to the environment
/// of the process. `windows` says whether the host is a Windows one.
pub fn run_script(
    workspace_id: String,
    script: ScriptDef,
    worktree_path: String,
    extra_env: EnvVars,
    windows: bool,
) -> (started: Progress<ScriptLaunch, RunningProcess>)
    ensures
        started@ == ProgressView::<ScriptLaunchView, ProcessView>::Continue(
            launch_started(workspace_id@, script@, worktree_path@, extra_env@, windows),
            launch_started(workspace_id@, script@, worktree_path@, extra_env@, windows).awaited(),
        ),
{
    let (program, args) = resolve_platform_command(&script, windows);
    let cwd = match &script.cwd {
        Some(dir) => join_path(worktree_path.as_str(), dir.as_str()),
        None => worktree_path,
    };
    let machine = ScriptLaunch {
        workspace_id,
        script_name: script.name,
        command: CommandLine { program, args, cwd },
        env: extra_env,
        stage: LaunchStage::CheckDirectory,
    };
    let action = machine.awaited();
    Progress::Continue(machine, action)
}

/// The id of each process of a list.
pub open spec fn process_ids(processes: Seq<ProcessView>) -> Seq<Seq<char>> {
    processes.map_values(|p: ProcessView| p.id)
}

/// The error of a stop that names a process which the table does not hold.
pub open spec fn process_not_found(id: Seq<char>) -> ErrorView {
    quoted_failure(ErrorKind::ProcessNotFound, "Process '"@, id, "' not found"@)
}

/// The error of a process group that could not be signalled.
pub open spec fn not_terminated(pid: u32, why: Seq<char>) -> ErrorView {
    quoted_failure(
        ErrorKind::IoFailure,
        "Failed to kill process "@,
        decimal(pid as nat, 0),
        ": "@ + why,
    )
}

/// The processes of a list, those with the id `id` marked as exited.
pub open spec fn stopped(processes: Seq<ProcessView>, id: Seq<char>) -> Seq<ProcessView> {
    processes.map_values(
        |p: ProcessView|
            if p.id == id {
                ProcessView { status: ProcessStatus::Exited, ..p }
            } else {
                p
            },
    )
}

/// The stop of a process, under way: the process group is being terminated.
#[derive(Debug)]
pub struct ProcessStop {
    pub process_id: String,
    pub pid: u32,
}

/// The mathematical value of a [`ProcessStop`].
pub struct ProcessStopView {
    pub process_id: Seq<char>,
    pub pid: u32,
}

impl View for ProcessStop {
    type V = ProcessStopView;

    open spec fn view(&self) -> ProcessStopView {
        ProcessStopView { process_id: self.process_id@, pid: self.pid }
    }
}

impl ProcessStopView {
    /// What the stop does on a reply, and what becomes of the table.
    ///
    /// Once the process group was signalled, the processes with the id are
    /// marked as exited, whether or not the process was still running. Where
    /// the signal could not be sent the table stays as it is. A reply of
    /// another kind than the one awaited changes nothing.
    pub open spec fn advance(self, table: AppDataView, reply: HostReplyView) -> (
        ProgressView<ProcessStopView, ()>,
        AppDataView,
    ) {
        match reply {
            HostReplyView::Terminated(Ok(())) => (
                ProgressView::Done(Ok(())),
                AppDataView {
                    running_processes: stopped(table.running_processes, self.process_id),
                    ..table
                },
            ),
            HostReplyView::Terminated(Err(why)) => (
                ProgressView::Done(Err(not_terminated(self.pid, why))),
                table,
            ),
            _ => (ProgressView::Continue(self, HostActionView::Terminate(self.pid)), table),
        }
    }
}

/// How the stop of the process `id` starts: with the error where the table
/// does not hold it, else with the termination of the process group of the
/// first process with that id.
pub open spec fn stop_started(table: AppDataView, id: Seq<char>) -> ProgressView<
    ProcessStopView,
    (),
> {
    match first_position(process_ids(table.running_processes), id) {
        None => ProgressView::Done(Err(process_not_found(id))),
        Some(i) => ProgressView::Continue(
            ProcessStopView { process_id: id, pid: table.running_processes[i].pid },
            HostActionView::Terminate(table.running_processes[i].pid),
        ),
    }
}

/// The place of the first process with the id `id`.
pub fn find_process(processes: &Vec<RunningProcess>, id: &str) -> (found: Option<usize>)
    ensures
        as_position(found) == first_position(process_ids(process_views(processes@)), id@),
{
    let ghost ids = process_ids(process_views(processes@));
    let mut i: usize = 0;
    while i < processes.len()
        invariant
            i <= processes.len(),
            ids == process_ids(process_views(processes@)),
            forall|j: int| 0 <= j < i ==> ids[j] != id@,
        decreases processes.len() - i,
    {
        if same_text(processes[i].id.as_str(), id) {
            proof {
                lemma_first_position_found(ids, id@, i as int);
            }
            return Some(i);
        }
        i += 1;
    }
    proof {
        lemma_first_position_absent(ids, id@);
    }
    None
}

impl ProcessStop {
    /// Takes the host's reply and says how the stop goes on.
    pub fn advance(self, data: &mut AppData, reply: &HostReply) -> (next: Progress<ProcessStop, ()>)
        ensures
            (next@, final(data)@) == self@.advance(old(data)@, reply@),
            old(data)@.ports_owned() ==> final(data)@.ports_owned(),
            old(data)@.ids_unique() ==> final(data)@.ids_unique(),
    {
        match reply {
            HostReply::Terminated(Ok(())) => {
                let ghost before = data@;
                let mut i: usize = 0;
                while i < data.running_processes.len()
                    invariant
                        i <= data.running_processes.len(),
                        data@.running_processes.len() == before.running_processes.len(),
                        data@ == (AppDataView { running_processes: data@.running_processes, ..before }),
                        forall|j: int|
                            0 <= j < i ==> data@.running_processes[j] == stopped(
                                before.running_processes,
                                self.process_id@,
                            )[j],
                        forall|j: int|
                            i <= j < data@.running_processes.len() ==> data@.running_processes[j]
                                == before.running_processes[j],
                    decreases data.running_processes.len() - i,
                {
                    let ghost seen = data@.running_processes;
                    if same_text(
                        data.running_processes[i].id.as_str(),
                        self.process_id.as_str(),
                    ) {
                        data.running_processes[i].status = ProcessStatus::Exited;
                        assert(data@.running_processes =~= seen.update(
                            i as int,
                            ProcessView { status: ProcessStatus::Exited, ..seen[i as int] },
                        ));
                    }
                    i += 1;
                }
                assert(data@.running_processes =~= stopped(
                    before.running_processes,
                    self.process_id@,
                ));
                Progress::Done(Ok(()))
            },
            HostReply::Terminated(Err(why)) => {
                let mut tail = String::from_str(": ");
                tail.append(why.as_str());
                Progress::Done(
                    Err(
                        AppError::quoting(
                            ErrorKind::IoFailure,
                            "Failed to kill process ",
                            decimal_string(self.pid as u64, 0).as_str(),
                            tail.as_str(),
                        ),
                    ),
                )
            },
            _ => {
                let action = HostAction::Terminate(self.pid);
                Progress::Continue(self, action)
            },
        }
    }
}

/// Starts the stop of the process `process_id`. The table is only read: a
/// stop of a process that it does not hold changes nothing.
pub fn stop_process(data: &AppData, process_id: String) -> (started: Progress<ProcessStop, ()>)
    ensures
        started@ == stop_started(data@, process_id@),
{
    match find_process(&data.running_processes, process_id.as_str()) {
        Some(i) => {
            let pid = data.running_processes[i].pid;
            Progress::Continue(ProcessStop { process_id, pid }, HostAction::Terminate(pid))
        },
        None => Progress::Done(
            Err(
                AppError::quoting(
                    ErrorKind::ProcessNotFound,
                    "Process '",
                    process_id.as_str(),
                    "' not found",
                ),
            ),
        ),
    }
}

/// The processes of a list that count as running.
pub open spec fn only_running(processes: Seq<ProcessView>) -> Seq<ProcessView> {
    processes.filter(|p: ProcessView| p.status == ProcessStatus::Running)
}

/// The process ids of the processes of a list that count as running.
pub open spec fn pids_of_running(processes: Seq<ProcessView>) -> Seq<u32> {
    only_running(processes).map_values(|p: ProcessView| p.pid)
}

/// The processes whose liveness a listing needs: those that count as running.
pub fn running_pids(data: &AppData) -> (pids: Vec<u32>)
    ensures
        pids@ == pids_of_running(data@.running_processes),
{
    let ghost all = data@.running_processes;
    let ghost running = |p: ProcessView| p.status == ProcessStatus::Running;
    let mut pids: Vec<u32> = Vec::new();
    let mut i: usize = 0;
    proof {
        reveal(Seq::filter);
        assert(pids@ =~= pids_of_running(all.take(0)));
    }
    while i < data.running_processes.len()
        invariant
            i <= data.running_processes.len(),
            all == data@.running_processes,
            running == |p: ProcessView| p.status == ProcessStatus::Running,
            pids@ == pids_of_running(all.take(i as int)),
        decreases data.running_processes.len() - i,
    {
        proof {
            all.take(i as int).lemma_filter_push(all[i as int], running);
            assert(all.take(i + 1) =~= all.take(i as int).push(all[i as int]));
        }
        if data.running_processes[i].status == ProcessStatus::Running {
            pids.push(data.running_processes[i].pid);
        }
        i += 1;
        assert(pids@ =~= pids_of_running(all.take(i as int)));
    }
    assert(all.take(i as int) =~= all);
    pids
}

/// The processes of a list after a liveness sweep: those that counted as
/// running and whose process is in `gone` are marked as exited.
pub open spec fn swept(processes: Seq<ProcessView>, gone: Seq<u32>) -> Seq<ProcessView> {
    processes.map_values(
        |p: ProcessView|
            if p.status == ProcessStatus::Running && gone.contains(p.pid) {
                ProcessView { status: ProcessStatus::Exited, ..p }
            } else {
                p
            },
    )
}

/// The processes of a list that belong to the workspace, or all of them where
/// no workspace is named.
pub open spec fn of_workspace(
    processes: Seq<ProcessView>,
    workspace_id: Option<Seq<char>>,
) -> Seq<ProcessView> {
    match workspace_id {
        Some(id) => processes.filter(|p: ProcessView| p.workspace_id == id),
        None => processes,
    }
}

fn is_gone(gone: &Vec<u32>, pid: u32) -> (found: bool)
    ensures
        found == gone@.contains(pid),
{
    let mut i: usize = 0;
    while i < gone.len()
        invariant
            i <= gone.len(),
            forall|j: int| 0 <= j < i ==> gone@[j] != pid,
        decreases gone.len() - i,
    {
        if gone[i] == pid {
            return true;
        }
        i += 1;
    }
    false
}

/// Lists the processes of the workspace `workspace_id`, or all processes, once
/// their liveness is known: `gone` holds the process ids that the host found
/// no live process for. A process that counted as running and is gone is
/// marked as exited, in the table and in the list; no process is taken out.
pub fn list_running_processes(
    data: &mut AppData,
    workspace_id: &Option<String>,
    gone: &Vec<u32>,
) -> (listed: Vec<RunningProcess>)
    ensures
        final(data)@ == (AppDataView {
            running_processes: swept(old(data)@.running_processes, gone@),
            ..old(data)@
        }),
        process_views(listed@) == of_workspace(
            final(data)@.running_processes,
            option_text(*workspace_id),
        ),
        forall|i: int|
            0 <= i < listed@.len() && listed@[i].status == ProcessStatus::Running
                ==> !gone@.contains(#[trigger] listed@[i].pid),
        old(data)@.ports_owned() ==> final(data)@.ports_owned(),
        old(data)@.ids_unique() ==> final(data)@.ids_unique(),
{
    let ghost before = data@;
    let mut i: usize = 0;
    while i < data.running_processes.len()
        invariant
            i <= data.running_processes.len(),
            data@.running_processes.len() == before.running_processes.len(),
            data@ == (AppDataView { running_processes: data@.running_processes, ..before }),
            forall|j: int|
                0 <= j < i ==> data@.running_processes[j] == swept(
                    before.running_processes,
                    gone@,
                )[j],
            forall|j: int|
                i <= j < data@.running_processes.len() ==> data@.running_processes[j]
                    == before.running_processes[j],
        decreases data.running_processes.len() - i,
    {
        let ghost seen = data@.running_processes;
        if data.running_processes[i].status == ProcessStatus::Running && is_gone(
            gone,
            data.running_processes[i].pid,
        ) {
            data.running_processes[i].status = ProcessStatus::Exited;
            assert(data@.running_processes =~= seen.update(
                i as int,
                ProcessView { status: ProcessStatus::Exited, ..seen[i as int] },
            ));
        }
        i += 1;
    }
    assert(data@.running_processes =~= swept(before.running_processes, gone@));

    let ghost all = data@.running_processes;
    let mut listed: Vec<RunningProcess> = Vec::new();
    let mut k: usize = 0;
    proof {
        reveal(Seq::filter);
        assert(process_views(listed@) =~= of_workspace(all.take(0), option_text(*workspace_id)));
    }
    while k < data.running_processes.len()
        invariant
            k <= data.running_processes.len(),
            all == data@.running_processes,
            all == swept(before.running_processes, gone@),
            all.len() == before.running_processes.len(),
            process_views(listed@) == of_workspace(all.take(k as int), option_text(*workspace_id)),
            forall|j: int|
                0 <= j < listed@.len() && listed@[j].status == ProcessStatus::Running
                    ==> !gone@.contains(#[trigger] listed@[j].pid),
        decreases data.running_processes.len() - k,
    {
        let wanted = match workspace_id {
            Some(id) => same_text(data.running_processes[k].workspace_id.as_str(), id.as_str()),
            None => true,
        };
        proof {
            assert(all.take(k + 1) =~= all.take(k as int).push(all[k as int]));
            match workspace_id {
                Some(id) => {
                    all.take(k as int).lemma_filter_push(
                        all[k as int],
                        |p: ProcessView| p.workspace_id == id@,
                    );
                },
                None => {},
            }
        }
        if wanted {
            let ghost shown = process_views(listed@);
            listed.push(data.running_processes[k].clone());
            assert(process_views(listed@) =~= shown.push(all[k as int]));
        }
        k += 1;
    }
    assert(all.take(k as int) =~= all);
    listed
}

/// Drops from the table every process that does not count as running. Those
/// that do stay as they are, in their order.
pub fn cleanup_processes(data: &mut AppData)
    ensures
        final(data)@ == (AppDataView {
            running_processes: only_running(old(data)@.running_processes),
            ..old(data)@
        }),
        old(data)@.ports_owned() ==> final(data)@.ports_owned(),
        old(data)@.ids_unique() ==> final(data)@.ids_unique(),
{
    let ghost before = data@;
    let ghost all = before.running_processes;
    let ghost running = |p: ProcessView| p.status == ProcessStatus::Running;
    let mut kept: Vec<RunningProcess> = Vec::new();
    let mut i: usize = 0;
    proof {
        reveal(Seq::filter);
        assert(process_views(kept@) =~= only_running(all.take(0)));
    }
    while i < data.running_processes.len()
        invariant
            i <= data.running_processes.len(),
            data@ == before,
            all == before.running_processes,
            running == |p: ProcessView| p.status == ProcessStatus::Running,
            process_views(kept@) == only_running(all.take(i as int)),
        decreases data.running_processes.len() - i,
    {
        proof {
            all.take(i as int).lemma_filter_push(all[i as int], running);
            assert(all.take(i + 1) =~= all.take(i as int).push(all[i as int]));
        }
        if data.running_processes[i].status == ProcessStatus::Running {
            let ghost shown = process_views(kept@);
            kept.push(data.running_processes[i].clone());
            assert(process_views(kept@) =~= shown.push(all[i as int]));
        }
        i += 1;
    }
    assert(all.take(i as int) =~= all);
    data.running_processes = kept;
}

} // verus!
