//! Checkpoints: commits that record the state of a workspace under a label.

use vstd::prelude::*;
use vstd::string::*;
use crate::calendar::{civil_time_of, timestamp_at, unix_time_nanos, whole_seconds};
use crate::error::{failure, outcome, AppError, ErrorKind, ErrorView};
use crate::host::{
    git, git_command, CommandLine, CommandLineView, CommandOutcome, CommandOutcomeView,
    HostAction, HostActionView, HostReply, HostReplyView, Progress, ProgressView,
};
use crate::models::checkpoint::{Checkpoint, CheckpointView};
use crate::state::{checkpoint_views, AppData, AppDataView};
use crate::text::{
    count_non_empty, first_chars, lines_of, non_empty, option_text, same_text, split_lines,
    take_chars, trim_text, trimmed,
};

verus! {

/// The number of files that a list of changed names counts, one name to a
/// line: the lines that are not empty, counted in 32 bits.
pub open spec fn file_count_of(names: Seq<char>) -> u32 {
    (non_empty(lines_of(names)).len() % 0x1_0000_0000) as u32
}

/// The message of the commit of a checkpoint.
pub open spec fn checkpoint_message(label: Seq<char>) -> Seq<char> {
    "[checkpoint] "@ + label
}

/// The id of the checkpoint at the commit `git_ref`: `cp-` and the first eight
/// characters of the commit's name.
pub open spec fn checkpoint_id(git_ref: Seq<char>) -> Seq<char> {
    "cp-"@ + first_chars(git_ref, 8)
}

/// Where the creation of a checkpoint stands.
#[derive(Clone, Copy, Debug, PartialEq, Eq, Structural)]
pub enum CheckpointStage {
    /// Asked the backend to stage every change.
    StageAll,
    /// Asked the backend for the names of the staged files.
    CountFiles,
    /// Asked the backend to commit.
    Commit,
    /// Asked the backend for the name of the new commit.
    ReadHead,
}

/// The creation of a checkpoint, under way.
#[derive(Debug)]
pub struct CheckpointCreation {
    pub workspace_id: String,
    pub worktree_path: String,
    pub label: String,
    pub agent_id: Option<String>,
    pub stage: CheckpointStage,
    /// The number of staged files, once it is known.
    pub file_count: u32,
}

/// The mathematical value of a [`CheckpointCreation`].
pub struct CheckpointCreationView {
    pub workspace_id: Seq<char>,
    pub worktree_path: Seq<char>,
    pub label: Seq<char>,
    pub agent_id: Option<Seq<char>>,
    pub stage: CheckpointStage,
    pub file_count: u32,
}

impl View for CheckpointCreation {
    type V = CheckpointCreationView;

    open spec fn view(&self) -> CheckpointCreationView {
        CheckpointCreationView {
            workspace_id: self.workspace_id@,
            worktree_path: self.worktree_path@,
            label: self.label@,
            agent_id: option_text(self.agent_id),
            stage: self.stage,
            file_count: self.file_count,
        }
    }
}

impl CheckpointCreationView {
    /// The action whose reply the creation waits for.
    pub open spec fn awaited(self) -> HostActionView {
        HostActionView::Run(
            git(
                self.worktree_path,
                match self.stage {
                    CheckpointStage::StageAll => seq!["add"@, "-A"@],
                    CheckpointStage::CountFiles => seq!["diff"@, "--cached"@, "--name-only"@],
                    CheckpointStage::Commit => seq![
                        "commit"@,
                        "--allow-empty"@,
                        "-m"@,
                        checkpoint_message(self.label),
                    ],
                    CheckpointStage::ReadHead => seq!["rev-parse"@, "HEAD"@],
                },
            ),
        )
    }

    /// The creation at `stage`, waiting for the reply to that stage's action.
    pub open spec fn at(self, stage: CheckpointStage) -> ProgressView<
        CheckpointCreationView,
        CheckpointView,
    > {
        let next = CheckpointCreationView { stage, ..self };
        ProgressView::Continue(next, next.awaited())
    }

    /// The checkpoint at the commit whose name the backend printed as `printed`.
    pub open spec fn made(self, printed: Seq<char>, now: u128) -> CheckpointView {
        CheckpointView {
            id: checkpoint_id(trimmed(printed)),
            workspace_id: self.workspace_id,
            label: self.label,
            git_ref: trimmed(printed),
            created_at: civil_time_of(whole_seconds(now)).iso8601(),
            file_count: self.file_count,
            agent_id: self.agent_id,
        }
    }

    /// What the creation does on a reply, and what becomes of the table.
    ///
    /// Every change is staged, however that ends. The staged files are
    /// counted. A commit is made, also where nothing changed. Its name is
    /// read, and the checkpoint is added to the table. `now` is the reading of
    /// the clock. A reply of another kind than the one awaited changes nothing.
    pub open spec fn advance(self, table: AppDataView, reply: HostReplyView, now: u128) -> (
        ProgressView<CheckpointCreationView, CheckpointView>,
        AppDataView,
    ) {
        match (self.stage, reply) {
            (CheckpointStage::StageAll, HostReplyView::Ran(_)) => (
                self.at(CheckpointStage::CountFiles),
                table,
            ),
            (
                CheckpointStage::CountFiles,
                HostReplyView::Ran(CommandOutcomeView::NotStarted(why)),
            ) => (
                ProgressView::Done(
                    Err(failure(ErrorKind::VcsOperationFailed, "Failed to run git: "@, why)),
                ),
                table,
            ),
            (
                CheckpointStage::CountFiles,
                HostReplyView::Ran(CommandOutcomeView::Exited { success, stdout, stderr }),
            ) => (
                (CheckpointCreationView { file_count: file_count_of(stdout), ..self }).at(
                    CheckpointStage::Commit,
                ),
                table,
            ),
            (CheckpointStage::Commit, HostReplyView::Ran(CommandOutcomeView::NotStarted(why))) => (
                ProgressView::Done(
                    Err(
                        failure(
                            ErrorKind::VcsOperationFailed,
                            "Failed to create checkpoint commit: "@,
                            why,
                        ),
                    ),
                ),
                table,
            ),
            (
                CheckpointStage::Commit,
                HostReplyView::Ran(CommandOutcomeView::Exited { success, stdout, stderr }),
            ) => (
                if success {
                    self.at(CheckpointStage::ReadHead)
                } else {
                    ProgressView::Done(
                        Err(
                            failure(
                                ErrorKind::VcsOperationFailed,
                                "Checkpoint commit failed: "@,
                                stderr,
                            ),
                        ),
                    )
                },
                table,
            ),
            (
                CheckpointStage::ReadHead,
                HostReplyView::Ran(CommandOutcomeView::NotStarted(why)),
            ) => (
                ProgressView::Done(
                    Err(failure(ErrorKind::VcsOperationFailed, "Failed to get HEAD: "@, why)),
                ),
                table,
            ),
            (
                CheckpointStage::ReadHead,
                HostReplyView::Ran(CommandOutcomeView::Exited { success, stdout, stderr }),
            ) => (
                ProgressView::Done(Ok(self.made(stdout, now))),
                AppDataView { checkpoints: table.checkpoints.push(self.made(stdout, now)), ..table },
            ),
            _ => (ProgressView::Continue(self, self.awaited()), table),
        }
    }
}

fn vcs_failure(prefix: &str, why: &String) -> (next: Progress<CheckpointCreation, Checkpoint>)
    ensures
        next@ == ProgressView::<CheckpointCreationView, CheckpointView>::Done(
            Err(failure(ErrorKind::VcsOperationFailed, prefix@, why@)),
        ),
{
    Progress::Done(Err(AppError::with_detail(ErrorKind::VcsOperationFailed, prefix, why.as_str())))
}

impl CheckpointCreation {
    /// The action whose reply the creation waits for.
    pub fn awaited(&self) -> (action: HostAction)
        ensures
            action@ == self@.awaited(),
    {
        let mut args: Vec<String> = Vec::new();
        match self.stage {
            CheckpointStage::StageAll => {
                args.push(String::from_str("add"));
                args.push(String::from_str("-A"));
                assert(crate::text::texts(args@) =~= seq!["add"@, "-A"@]);
            },
            CheckpointStage::CountFiles => {
                args.push(String::from_str("diff"));
                args.push(String::from_str("--cached"));
                args.push(String::from_str("--name-only"));
                assert(crate::text::texts(args@) =~= seq!["diff"@, "--cached"@, "--name-only"@]);
            },
            CheckpointStage::Commit => {
                args.push(String::from_str("commit"));
                args.push(String::from_str("--allow-empty"));
                args.push(String::from_str("-m"));
                args.push(String::from_str("[checkpoint] ").concat(self.label.as_str()));
                assert(crate::text::texts(args@) =~= seq![
                    "commit"@,
                    "--allow-empty"@,
                    "-m"@,
                    checkpoint_message(self@.label),
                ]);
            },
            CheckpointStage::ReadHead => {
                args.push(String::from_str("rev-parse"));
                args.push(String::from_str("HEAD"));
                assert(crate::text::texts(args@) =~= seq!["rev-parse"@, "HEAD"@]);
            },
        }
        HostAction::Run(git_command(self.worktree_path.as_str(), args))
    }

    fn at(self, stage: CheckpointStage) -> (next: Progress<CheckpointCreation, Checkpoint>)
        ensures
            next@ == self@.at(stage),
    {
        let machine = CheckpointCreation { stage, ..self };
        let action = machine.awaited();
        Progress::Continue(machine, action)
    }

    /// Takes the host's reply, at the clock reading `now`, and says how the
    /// creation goes on.
    pub fn advance_at(self, data: &mut AppData, reply: &HostReply, now: u128) -> (next: Progress<
        CheckpointCreation,
        Checkpoint,
    >)
        ensures
            (next@, final(data)@) == self@.advance(old(data)@, reply@, now),
            old(data)@.ports_owned() ==> final(data)@.ports_owned(),
            old(data)@.ids_unique() ==> final(data)@.ids_unique(),
    {
        match (self.stage, reply) {
            (CheckpointStage::StageAll, HostReply::Ran(_)) => self.at(CheckpointStage::CountFiles),
            (CheckpointStage::CountFiles, HostReply::Ran(CommandOutcome::NotStarted(why))) => {
                vcs_failure("Failed to run git: ", why)
            },
            (
                CheckpointStage::CountFiles,
                HostReply::Ran(CommandOutcome::Exited { success, stdout, stderr }),
            ) => {
                let count = count_non_empty(&split_lines(stdout.as_str()));
                let file_count = (count as u64 % 0x1_0000_0000) as u32;
                let machine = CheckpointCreation { file_count, ..self };
                machine.at(CheckpointStage::Commit)
            },
            (CheckpointStage::Commit, HostReply::Ran(CommandOutcome::NotStarted(why))) => {
                vcs_failure("Failed to create checkpoint commit: ", why)
            },
            (
                CheckpointStage::Commit,
                HostReply::Ran(CommandOutcome::Exited { success, stdout, stderr }),
            ) => {
                if *success {
                    self.at(CheckpointStage::ReadHead)
                } else {
                    vcs_failure("Checkpoint commit failed: ", stderr)
                }
            },
            (CheckpointStage::ReadHead, HostReply::Ran(CommandOutcome::NotStarted(why))) => {
                vcs_failure("Failed to get HEAD: ", why)
            },
            (
                CheckpointStage::ReadHead,
                HostReply::Ran(CommandOutcome::Exited { success, stdout, stderr }),
            ) => {
                let git_ref = trim_text(stdout.as_str());
                let id = String::from_str("cp-").concat(take_chars(git_ref.as_str(), 8).as_str());
                let checkpoint = Checkpoint {
                    id,
                    workspace_id: self.workspace_id,
                    label: self.label,
                    git_ref,
                    created_at: timestamp_at(now),
                    file_count: self.file_count,
                    agent_id: self.agent_id,
                };
                let copy = checkpoint.clone();
                let ghost before = data@;
                data.checkpoints.push(checkpoint);
                assert(data@.checkpoints =~= before.checkpoints.push(copy@));
                Progress::Done(Ok(copy))
            },
            _ => {
                let action = self.awaited();
                Progress::Continue(self, action)
            },
        }
    }

    /// Takes the host's reply and says how the creation goes on. The creation
    /// time of the checkpoint comes from the system clock.
    pub fn advance(self, data: &mut AppData, reply: &HostReply) -> (next: Progress<
        CheckpointCreation,
        Checkpoint,
    >)
        ensures
            exists|now: u128| (next@, final(data)@) == self@.advance(old(data)@, reply@, now),
            old(data)@.ports_owned() ==> final(data)@.ports_owned(),
            old(data)@.ids_unique() ==> final(data)@.ids_unique(),
    {
        let now = unix_time_nanos();
        self.advance_at(data, reply, now)
    }
}

/// Starts the creation of a checkpoint of the workspace `workspace_id`, whose
/// worktree lies at `worktree_path`, under the label `label`.
pub fn create_checkpoint(
    workspace_id: String,
    worktree_path: String,
    label: String,
    agent_id: Option<String>,
) -> (started: Progress<CheckpointCreation, Checkpoint>)
    ensures
        started@ == (CheckpointCreationView {
            workspace_id: workspace_id@,
            worktree_path: worktree_path@,
            label: label@,
            agent_id: option_text(agent_id),
            stage: CheckpointStage::StageAll,
            file_count: 0,
        }).at(CheckpointStage::StageAll),
{
    let machine = CheckpointCreation {
        workspace_id,
        worktree_path,
        label,
        agent_id,
        stage: CheckpointStage::StageAll,
        file_count: 0,
    };
    machine.at(CheckpointStage::StageAll)
}

/// The checkpoints of a list that belong to the workspace `workspace_id`.
pub open spec fn checkpoints_of(
    checkpoints: Seq<CheckpointView>,
    workspace_id: Seq<char>,
) -> Seq<CheckpointView> {
    checkpoints.filter(|c: CheckpointView| c.workspace_id == workspace_id)
}

/// The checkpoints of a list whose id is not `id`.
pub open spec fn without_checkpoint(
    checkpoints: Seq<CheckpointView>,
    id: Seq<char>,
) -> Seq<CheckpointView> {
    checkpoints.filter(|c: CheckpointView| c.id != id)
}

/// The checkpoints of the workspace `workspace_id`, in the order in which they
/// were made.
pub fn list_checkpoints(data: &AppData, workspace_id: &str) -> (listed: Vec<Checkpoint>)
    ensures
        checkpoint_views(listed@) == checkpoints_of(data@.checkpoints, workspace_id@),
{
    let ghost all = data@.checkpoints;
    let ghost wanted = |c: CheckpointView| c.workspace_id == workspace_id@;
    let mut listed: Vec<Checkpoint> = Vec::new();
    let mut i: usize = 0;
    proof {
        reveal(Seq::filter);
        assert(checkpoint_views(listed@) =~= checkpoints_of(all.take(0), workspace_id@));
    }
    while i < data.checkpoints.len()
        invariant
            i <= data.checkpoints.len(),
            all == data@.checkpoints,
            wanted == |c: CheckpointView| c.workspace_id == workspace_id@,
            checkpoint_views(listed@) == checkpoints_of(all.take(i as int), workspace_id@),
        decreases data.checkpoints.len() - i,
    {
        proof {
            all.take(i as int).lemma_filter_push(all[i as int], wanted);
            assert(all.take(i + 1) =~= all.take(i as int).push(all[i as int]));
        }
        if same_text(data.checkpoints[i].workspace_id.as_str(), workspace_id) {
            let ghost shown = checkpoint_views(listed@);
            listed.push(data.checkpoints[i].clone());
            assert(checkpoint_views(listed@) =~= shown.push(all[i as int]));
        }
        i += 1;
    }
    assert(all.take(i as int) =~= all);
    listed
}

/// Takes every checkpoint with the id `checkpoint_id` out of the table. The
/// commit stays where it is.
pub fn delete_checkpoint(data: &mut AppData, checkpoint_id: &str)
    ensures
        final(data)@ == (AppDataView {
            checkpoints: without_checkpoint(old(data)@.checkpoints, checkpoint_id@),
            ..old(data)@
        }),
        old(data)@.ports_owned() ==> final(data)@.ports_owned(),
        old(data)@.ids_unique() ==> final(data)@.ids_unique(),
{
    let ghost before = data@;
    let ghost all = before.checkpoints;
    let ghost wanted = |c: CheckpointView| c.id != checkpoint_id@;
    let mut kept: Vec<Checkpoint> = Vec::new();
    let mut i: usize = 0;
    proof {
        reveal(Seq::filter);
        assert(checkpoint_views(kept@) =~= without_checkpoint(all.take(0), checkpoint_id@));
    }
    while i < data.checkpoints.len()
        invariant
            i <= data.checkpoints.len(),
            data@ == before,
            all == before.checkpoints,
            wanted == |c: CheckpointView| c.id != checkpoint_id@,
            checkpoint_views(kept@) == without_checkpoint(all.take(i as int), checkpoint_id@),
        decreases data.checkpoints.len() - i,
    {
        proof {
            all.take(i as int).lemma_filter_push(all[i as int], wanted);
            assert(all.take(i + 1) =~= all.take(i as int).push(all[i as int]));
        }
        if !same_text(data.checkpoints[i].id.as_str(), checkpoint_id) {
            let ghost shown = checkpoint_views(kept@);
            kept.push(data.checkpoints[i].clone());
            assert(checkpoint_views(kept@) =~= shown.push(all[i as int]));
        }
        i += 1;
    }
    assert(all.take(i as int) =~= all);
    data.checkpoints = kept;
}

/// The command that resets the worktree at `worktree_path` to the commit `git_ref`.
pub open spec fn restore_command(worktree_path: Seq<char>, git_ref: Seq<char>) -> CommandLineView {
    git(worktree_path, seq!["reset"@, "--hard"@, git_ref])
}

/// Builds the command that resets the worktree to a checkpoint.
pub fn restore_checkpoint(worktree_path: &str, git_ref: &str) -> (command: CommandLine)
    ensures
        command@ == restore_command(worktree_path@, git_ref@),
{
    let mut args: Vec<String> = Vec::new();
    args.push(String::from_str("reset"));
    args.push(String::from_str("--hard"));
    args.push(String::from_str(git_ref));
    assert(crate::text::texts(args@) =~= seq!["reset"@, "--hard"@, git_ref@]);
    git_command(worktree_path, args)
}

/// What the run of the reset means: done, or the error that the backend gave.
pub open spec fn restored(outcome: CommandOutcomeView) -> Result<(), ErrorView> {
    match outcome {
        CommandOutcomeView::NotStarted(why) => Err(
            failure(ErrorKind::VcsOperationFailed, "Failed to restore checkpoint: "@, why),
        ),
        CommandOutcomeView::Exited { success, stdout, stderr } => if success {
            Ok(())
        } else {
            Err(failure(ErrorKind::VcsOperationFailed, "Restore failed: "@, stderr))
        },
    }
}

/// Says what the run of the reset command means.
pub fn checkpoint_restored(ran: &CommandOutcome) -> (done: Result<(), AppError>)
    ensures
        outcome(done) == restored(ran@),
{
    match ran {
        CommandOutcome::NotStarted(why) => Err(
            AppError::with_detail(
                ErrorKind::VcsOperationFailed,
                "Failed to restore checkpoint: ",
                why.as_str(),
            ),
        ),
        CommandOutcome::Exited { success, stdout, stderr } => {
            if *success {
                Ok(())
            } else {
                Err(
                    AppError::with_detail(
                        ErrorKind::VcsOperationFailed,
                        "Restore failed: ",
                        stderr.as_str(),
                    ),
                )
            }
        },
    }
}

/// The command that shows what changed from the commit `from_ref` to the
/// commit `to_ref`, or to the working directory where no second commit is named.
pub open spec fn diff_command(
    worktree_path: Seq<char>,
    from_ref: Seq<char>,
    to_ref: Option<Seq<char>>,
) -> CommandLineView {
    git(
        worktree_path,
        match to_ref {
            Some(to) => seq!["diff"@, from_ref, to],
            None => seq!["diff"@, from_ref],
        },
    )
}

/// Builds the command that shows what changed since a checkpoint.
pub fn diff_checkpoint(worktree_path: &str, from_ref: &str, to_ref: &Option<String>) -> (command:
    CommandLine)
    ensures
        command@ == diff_command(worktree_path@, from_ref@, option_text(*to_ref)),
{
    let mut args: Vec<String> = Vec::new();
    args.push(String::from_str("diff"));
    args.push(String::from_str(from_ref));
    match to_ref {
        Some(to) => {
            args.push(to.clone());
            assert(crate::text::texts(args@) =~= seq!["diff"@, from_ref@, to@]);
        },
        None => {
            assert(crate::text::texts(args@) =~= seq!["diff"@, from_ref@]);
        },
    }
    git_command(worktree_path, args)
}

/// What the run of the diff shows: what it printed, or the error where the
/// backend could not be run. How it exited does not matter.
pub fn checkpoint_diff(ran: &CommandOutcome) -> (shown: Result<String, AppError>)
    ensures
        match ran@ {
            CommandOutcomeView::NotStarted(why) => shown is Err && shown->Err_0@ == failure(
                ErrorKind::VcsOperationFailed,
                "Failed to diff: "@,
                why,
            ),
            CommandOutcomeView::Exited { success, stdout, stderr } => shown is Ok && shown->Ok_0@
                == stdout,
        },
{
    match ran {
        CommandOutcome::NotStarted(why) => Err(
            AppError::with_detail(ErrorKind::VcsOperationFailed, "Failed to diff: ", why.as_str()),
        ),
        CommandOutcome::Exited { success, stdout, stderr } => Ok(stdout.clone()),
    }
}

} // verus!
