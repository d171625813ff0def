//! Worktrees: the working directories that the version-control backend keeps
//! beside a repository, one for each workspace but the main one.

use vstd::prelude::*;
use vstd::string::*;
use crate::error::{failure, AppError, ErrorKind};
use crate::host::{
    git, git_command, CommandLineView, CommandOutcome, CommandOutcomeView, HostAction,
    HostActionView, HostReply, HostReplyView, Progress, ProgressView,
};
use crate::models::repo::{WorktreeInfo, WorktreeView};
use crate::host::{RepoFacts, RepoFactsView};
use crate::text::{
    clone_option_text, ends_with, has_suffix, join_path, joined, option_text, texts,
    trim_trailing, without_trailing,
};

verus! {

/// The directory under a repository that holds its worktrees.
pub open spec fn worktrees_dir(repo_path: Seq<char>) -> Seq<char> {
    joined(repo_path, ".worktrees"@)
}

/// The directory of the worktree called `name`.
pub open spec fn worktree_path(repo_path: Seq<char>, name: Seq<char>) -> Seq<char> {
    joined(worktrees_dir(repo_path), name)
}

/// The branch of a new worktree: the one asked for, else one named like the worktree.
pub open spec fn branch_or_name(branch: Option<Seq<char>>, name: Seq<char>) -> Seq<char> {
    match branch {
        Some(b) => b,
        None => name,
    }
}

/// The command that adds a worktree at `path` on the new branch `branch`,
/// which starts at `base` where one is given and at `HEAD` otherwise.
pub open spec fn add_command(
    repo_path: Seq<char>,
    path: Seq<char>,
    branch: Seq<char>,
    base: Option<Seq<char>>,
) -> CommandLineView {
    let head = seq!["worktree"@, "add"@, "-b"@, branch, path];
    git(
        repo_path,
        match base {
            Some(b) => head.push(b),
            None => head,
        },
    )
}

/// The command that removes the worktree at `path`, whatever state it is in.
pub open spec fn force_remove_command(repo_path: Seq<char>, path: Seq<char>) -> CommandLineView {
    git(repo_path, seq!["worktree"@, "remove"@, "--force"@, path])
}

/// The command that drops the records of worktrees whose directory is gone.
pub open spec fn prune_command(repo_path: Seq<char>) -> CommandLineView {
    git(repo_path, seq!["worktree"@, "prune"@])
}

/// Where the creation of a worktree stands.
#[derive(Clone, Copy, Debug, PartialEq, Eq, Structural)]
pub enum CreationStage {
    /// Asked whether the repository path exists.
    CheckRepository,
    /// Asked to open the repository.
    OpenRepository,
    /// Asked whether the directory for worktrees exists.
    CheckDirectory,
    /// Asked to create the directory for worktrees.
    MakeDirectory,
    /// Asked the backend to add the worktree.
    AddWorktree,
}

/// The creation of a worktree, under way.
#[derive(Debug)]
pub struct WorktreeCreation {
    pub repo_path: String,
    pub name: String,
    pub branch: String,
    pub base_branch: Option<String>,
    pub stage: CreationStage,
}

/// The mathematical value of a [`WorktreeCreation`].
pub struct WorktreeCreationView {
    pub repo_path: Seq<char>,
    pub name: Seq<char>,
    pub branch: Seq<char>,
    pub base_branch: Option<Seq<char>>,
    pub stage: CreationStage,
}

impl View for WorktreeCreation {
    type V = WorktreeCreationView;

    open spec fn view(&self) -> WorktreeCreationView {
        WorktreeCreationView {
            repo_path: self.repo_path@,
            name: self.name@,
            branch: self.branch@,
            base_branch: option_text(self.base_branch),
            stage: self.stage,
        }
    }
}

impl WorktreeCreationView {
    /// The action whose reply the creation waits for.
    pub open spec fn awaited(self) -> HostActionView {
        match self.stage {
            CreationStage::CheckRepository => HostActionView::CheckPath(self.repo_path),
            CreationStage::OpenRepository => HostActionView::OpenRepository(self.repo_path),
            CreationStage::CheckDirectory => HostActionView::CheckPath(
                worktrees_dir(self.repo_path),
            ),
            CreationStage::MakeDirectory => HostActionView::CreateDirectory(
                worktrees_dir(self.repo_path),
            ),
            CreationStage::AddWorktree => HostActionView::Run(
                add_command(
                    self.repo_path,
                    worktree_path(self.repo_path, self.name),
                    self.branch,
                    self.base_branch,
                ),
            ),
        }
    }

    /// The creation at `stage`, waiting for the reply to that stage's action.
    pub open spec fn at(self, stage: CreationStage) -> ProgressView<
        WorktreeCreationView,
        WorktreeView,
    > {
        let next = WorktreeCreationView { stage, ..self };
        ProgressView::Continue(next, next.awaited())
    }

    /// The worktree that a successful creation reports.
    pub open spec fn created(self) -> WorktreeView {
        WorktreeView {
            name: self.name,
            path: worktree_path(self.repo_path, self.name),
            branch: Some(self.branch),
            is_main: false,
        }
    }

    /// What the creation does on a reply. The repository path must exist and
    /// hold a repository. The directory for worktrees is made where it is
    /// missing, then the backend adds the worktree. A reply of another kind
    /// than the one awaited changes nothing.
    pub open spec fn advance(self, reply: HostReplyView) -> ProgressView<
        WorktreeCreationView,
        WorktreeView,
    > {
        match (self.stage, reply) {
            (CreationStage::CheckRepository, HostReplyView::PathChecked(exists)) => if exists {
                self.at(CreationStage::OpenRepository)
            } else {
                ProgressView::Done(Err(repository_missing()))
            },
            (
                CreationStage::OpenRepository,
                HostReplyView::RepositoryOpened(Err(why)),
            ) => ProgressView::Done(Err(not_a_repository(why))),
            (CreationStage::OpenRepository, HostReplyView::RepositoryOpened(Ok(_))) => self.at(
                CreationStage::CheckDirectory,
            ),
            (CreationStage::CheckDirectory, HostReplyView::PathChecked(exists)) => if exists {
                self.at(CreationStage::AddWorktree)
            } else {
                self.at(CreationStage::MakeDirectory)
            },
            (CreationStage::MakeDirectory, HostReplyView::DirectoryCreated(Ok(()))) => self.at(
                CreationStage::AddWorktree,
            ),
            (
                CreationStage::MakeDirectory,
                HostReplyView::DirectoryCreated(Err(why)),
            ) => ProgressView::Done(
                Err(
                    failure(ErrorKind::IoFailure, "Failed to create .worktrees directory: "@, why),
                ),
            ),
            (
                CreationStage::AddWorktree,
                HostReplyView::Ran(CommandOutcomeView::NotStarted(why)),
            ) => ProgressView::Done(
                Err(failure(ErrorKind::VcsOperationFailed, "Failed to run git: "@, why)),
            ),
            (
                CreationStage::AddWorktree,
                HostReplyView::Ran(CommandOutcomeView::Exited { success, stdout, stderr }),
            ) => if success {
                ProgressView::Done(Ok(self.created()))
            } else {
                ProgressView::Done(
                    Err(
                        failure(
                            ErrorKind::VcsOperationFailed,
                            "git worktree add failed: "@,
                            stderr,
                        ),
                    ),
                )
            },
            _ => ProgressView::Continue(self, self.awaited()),
        }
    }
}

/// The error of a repository path that does not exist.
pub open spec fn repository_missing() -> crate::error::ErrorView {
    crate::error::ErrorView {
        kind: ErrorKind::ValidationFailed,
        message: "Repository path does not exist"@,
    }
}

/// The error of a path that holds no repository.
pub open spec fn not_a_repository(why: Seq<char>) -> crate::error::ErrorView {
    failure(ErrorKind::ValidationFailed, "Not a valid git repository: "@, why)
}

/// The state in which the creation of a worktree starts.
pub open spec fn creation_started(
    repo_path: Seq<char>,
    name: Seq<char>,
    branch: Option<Seq<char>>,
    base_branch: Option<Seq<char>>,
) -> WorktreeCreationView {
    WorktreeCreationView {
        repo_path,
        name,
        branch: branch_or_name(branch, name),
        base_branch,
        stage: CreationStage::CheckRepository,
    }
}

/// The state in which the creation of a worktree starts for a repository that
/// is known to be one.
pub open spec fn provisioning_started(
    repo_path: Seq<char>,
    name: Seq<char>,
    branch: Option<Seq<char>>,
    base_branch: Option<Seq<char>>,
) -> WorktreeCreationView {
    WorktreeCreationView {
        stage: CreationStage::CheckDirectory,
        ..creation_started(repo_path, name, branch, base_branch)
    }
}

impl WorktreeCreation {
    /// The action whose reply the creation waits for.
    pub fn awaited(&self) -> (action: HostAction)
        ensures
            action@ == self@.awaited(),
    {
        let dir = join_path(self.repo_path.as_str(), ".worktrees");
        match self.stage {
            CreationStage::CheckRepository => HostAction::CheckPath(self.repo_path.clone()),
            CreationStage::OpenRepository => HostAction::OpenRepository(self.repo_path.clone()),
            CreationStage::CheckDirectory => HostAction::CheckPath(dir),
            CreationStage::MakeDirectory => HostAction::CreateDirectory(dir),
            CreationStage::AddWorktree => {
                let path = join_path(dir.as_str(), self.name.as_str());
                let mut args: Vec<String> = Vec::new();
                args.push(String::from_str("worktree"));
                args.push(String::from_str("add"));
                args.push(String::from_str("-b"));
                args.push(self.branch.clone());
                args.push(path);
                match &self.base_branch {
                    Some(base) => {
                        args.push(base.clone());
                    },
                    None => {},
                }
                let command = git_command(self.repo_path.as_str(), args);
                assert(command@.args =~= add_command(
                    self@.repo_path,
                    worktree_path(self@.repo_path, self@.name),
                    self@.branch,
                    self@.base_branch,
                ).args);
                HostAction::Run(command)
            },
        }
    }

    fn at(self, stage: CreationStage) -> (next: Progress<WorktreeCreation, WorktreeInfo>)
        ensures
            next@ == self@.at(stage),
    {
        let machine = WorktreeCreation { stage, ..self };
        let action = machine.awaited();
        Progress::Continue(machine, action)
    }

    /// Takes the host's reply and says how the creation goes on.
    pub fn advance(self, reply: &HostReply) -> (next: Progress<WorktreeCreation, WorktreeInfo>)
        ensures
            next@ == self@.advance(reply@),
    {
        match (self.stage, reply) {
            (CreationStage::CheckRepository, HostReply::PathChecked(exists)) => {
                if *exists {
                    self.at(CreationStage::OpenRepository)
                } else {
                    Progress::Done(
                        Err(
                            AppError::new(
                                ErrorKind::ValidationFailed,
                                "Repository path does not exist",
                            ),
                        ),
                    )
                }
            },
            (CreationStage::OpenRepository, HostReply::RepositoryOpened(Err(why))) => {
                Progress::Done(
                    Err(
                        AppError::with_detail(
                            ErrorKind::ValidationFailed,
                            "Not a valid git repository: ",
                            why.as_str(),
                        ),
                    ),
                )
            },
            (CreationStage::OpenRepository, HostReply::RepositoryOpened(Ok(_))) => {
                self.at(CreationStage::CheckDirectory)
            },
            (CreationStage::CheckDirectory, HostReply::PathChecked(exists)) => {
                if *exists {
                    self.at(CreationStage::AddWorktree)
                } else {
                    self.at(CreationStage::MakeDirectory)
                }
            },
            (CreationStage::MakeDirectory, HostReply::DirectoryCreated(Ok(()))) => {
                self.at(CreationStage::AddWorktree)
            },
            (CreationStage::MakeDirectory, HostReply::DirectoryCreated(Err(why))) => {
                Progress::Done(
                    Err(
                        AppError::with_detail(
                            ErrorKind::IoFailure,
                            "Failed to create .worktrees directory: ",
                            why.as_str(),
                        ),
                    ),
                )
            },
            (CreationStage::AddWorktree, HostReply::Ran(CommandOutcome::NotStarted(why))) => {
                Progress::Done(
                    Err(
                        AppError::with_detail(
                            ErrorKind::VcsOperationFailed,
                            "Failed to run git: ",
                            why.as_str(),
                        ),
                    ),
                )
            },
            (
                CreationStage::AddWorktree,
                HostReply::Ran(CommandOutcome::Exited { success, stdout, stderr }),
            ) => {
                if *success {
                    let dir = join_path(self.repo_path.as_str(), ".worktrees");
                    let path = join_path(dir.as_str(), self.name.as_str());
                    Progress::Done(
                        Ok(
                            WorktreeInfo {
                                name: self.name,
                                path,
                                branch: Some(self.branch),
                                is_main: false,
                            },
                        ),
                    )
                } else {
                    Progress::Done(
                        Err(
                            AppError::with_detail(
                                ErrorKind::VcsOperationFailed,
                                "git worktree add failed: ",
                                stderr.as_str(),
                            ),
                        ),
                    )
                }
            },
            _ => {
                let action = self.awaited();
                Progress::Continue(self, action)
            },
        }
    }
}

/// Starts the creation of the worktree `name` of the repository at `repo_path`,
/// on a new branch: `branch`, or one named like the worktree. The branch starts
/// at `base_branch` where one is given, else at the current `HEAD`. The
/// worktree lies under the directory `.worktrees` of the repository.
pub fn create_worktree(
    repo_path: String,
    name: String,
    branch: Option<String>,
    base_branch: Option<String>,
) -> (started: Progress<WorktreeCreation, WorktreeInfo>)
    ensures
        started@ == creation_started(
            repo_path@,
            name@,
            option_text(branch),
            option_text(base_branch),
        ).at(CreationStage::CheckRepository),
{
    let branch = match branch {
        Some(b) => b,
        None => name.clone(),
    };
    let machine = WorktreeCreation {
        repo_path,
        name,
        branch,
        base_branch,
        stage: CreationStage::CheckRepository,
    };
    machine.at(CreationStage::CheckRepository)
}

/// Where the removal of a worktree stands.
#[derive(Clone, Copy, Debug, PartialEq, Eq, Structural)]
pub enum RemovalStage {
    /// Asked the backend to remove the worktree.
    ForceRemove,
    /// The backend refused; asked it to drop stale records.
    FirstPrune,
    /// Asked whether the directory is still there after the backend refused.
    CheckLeftover,
    /// Asked to delete the directory that the backend left.
    DeleteLeftover,
    /// Asked the backend to drop stale records once more.
    SecondPrune,
    /// Asked, at the end, whether the directory is still there.
    FinalCheck,
    /// Asked to delete the directory that was still there at the end.
    FinalDelete,
}

/// The removal of a worktree, under way.
#[derive(Debug)]
pub struct WorktreeRemoval {
    pub repo_path: String,
    pub worktree_path: String,
    pub stage: RemovalStage,
}

/// The mathematical value of a [`WorktreeRemoval`].
pub struct WorktreeRemovalView {
    pub repo_path: Seq<char>,
    pub worktree_path: Seq<char>,
    pub stage: RemovalStage,
}

impl View for WorktreeRemoval {
    type V = WorktreeRemovalView;

    open spec fn view(&self) -> WorktreeRemovalView {
        WorktreeRemovalView {
            repo_path: self.repo_path@,
            worktree_path: self.worktree_path@,
            stage: self.stage,
        }
    }
}

/// The error of a directory that could not be deleted.
pub open spec fn directory_not_removed(why: Seq<char>) -> crate::error::ErrorView {
    failure(ErrorKind::IoFailure, "Failed to remove worktree directory: "@, why)
}

impl WorktreeRemovalView {
    /// The action whose reply the removal waits for.
    pub open spec fn awaited(self) -> HostActionView {
        match self.stage {
            RemovalStage::ForceRemove => HostActionView::Run(
                force_remove_command(self.repo_path, self.worktree_path),
            ),
            RemovalStage::FirstPrune | RemovalStage::SecondPrune => HostActionView::Run(
                prune_command(self.repo_path),
            ),
            RemovalStage::CheckLeftover | RemovalStage::FinalCheck => HostActionView::CheckPath(
                self.worktree_path,
            ),
            RemovalStage::DeleteLeftover
            | RemovalStage::FinalDelete => HostActionView::RemoveDirectory(self.worktree_path),
        }
    }

    /// The removal at `stage`, waiting for the reply to that stage's action.
    pub open spec fn at(self, stage: RemovalStage) -> ProgressView<WorktreeRemovalView, ()> {
        let next = WorktreeRemovalView { stage, ..self };
        ProgressView::Continue(next, next.awaited())
    }

    /// What the removal does on a reply. The backend is asked first. Where it
    /// refuses, its stale records are dropped, the directory is deleted if it
    /// is there, and the records are dropped again; how the two prunings end
    /// does not matter. At the end the directory is deleted if it is still
    /// there. A reply of another kind than the one awaited changes nothing.
    pub open spec fn advance(self, reply: HostReplyView) -> ProgressView<WorktreeRemovalView, ()> {
        match (self.stage, reply) {
            (
                RemovalStage::ForceRemove,
                HostReplyView::Ran(CommandOutcomeView::NotStarted(why)),
            ) => ProgressView::Done(
                Err(failure(ErrorKind::VcsOperationFailed, "Failed to run git: "@, why)),
            ),
            (
                RemovalStage::ForceRemove,
                HostReplyView::Ran(CommandOutcomeView::Exited { success, stdout, stderr }),
            ) => if success {
                self.at(RemovalStage::FinalCheck)
            } else {
                self.at(RemovalStage::FirstPrune)
            },
            (RemovalStage::FirstPrune, HostReplyView::Ran(_)) => self.at(
                RemovalStage::CheckLeftover,
            ),
            (RemovalStage::CheckLeftover, HostReplyView::PathChecked(exists)) => if exists {
                self.at(RemovalStage::DeleteLeftover)
            } else {
                self.at(RemovalStage::SecondPrune)
            },
            (RemovalStage::DeleteLeftover, HostReplyView::DirectoryRemoved(Ok(()))) => self.at(
                RemovalStage::SecondPrune,
            ),
            (
                RemovalStage::DeleteLeftover,
                HostReplyView::DirectoryRemoved(Err(why)),
            ) => ProgressView::Done(Err(directory_not_removed(why))),
            (RemovalStage::SecondPrune, HostReplyView::Ran(_)) => self.at(RemovalStage::FinalCheck),
            (RemovalStage::FinalCheck, HostReplyView::PathChecked(exists)) => if exists {
                self.at(RemovalStage::FinalDelete)
            } else {
                ProgressView::Done(Ok(()))
            },
            (
                RemovalStage::FinalDelete,
                HostReplyView::DirectoryRemoved(Ok(())),
            ) => ProgressView::Done(Ok(())),
            (
                RemovalStage::FinalDelete,
                HostReplyView::DirectoryRemoved(Err(why)),
            ) => ProgressView::Done(Err(directory_not_removed(why))),
            _ => ProgressView::Continue(self, self.awaited()),
        }
    }
}

/// The state in which the removal of a worktree starts.
pub open spec fn removal_started(
    repo_path: Seq<char>,
    worktree_path: Seq<char>,
) -> WorktreeRemovalView {
    WorktreeRemovalView { repo_path, worktree_path, stage: RemovalStage::ForceRemove }
}

impl WorktreeRemoval {
    /// The action whose reply the removal waits for.
    pub fn awaited(&self) -> (action: HostAction)
        ensures
            action@ == self@.awaited(),
    {
        match self.stage {
            RemovalStage::ForceRemove => {
                let mut args: Vec<String> = Vec::new();
                args.push(String::from_str("worktree"));
                args.push(String::from_str("remove"));
                args.push(String::from_str("--force"));
                args.push(self.worktree_path.clone());
                let command = git_command(self.repo_path.as_str(), args);
                assert(command@.args =~= force_remove_command(
                    self@.repo_path,
                    self@.worktree_path,
                ).args);
                HostAction::Run(command)
            },
            RemovalStage::FirstPrune | RemovalStage::SecondPrune => {
                let mut args: Vec<String> = Vec::new();
                args.push(String::from_str("worktree"));
                args.push(String::from_str("prune"));
                let command = git_command(self.repo_path.as_str(), args);
                assert(command@.args =~= prune_command(self@.repo_path).args);
                HostAction::Run(command)
            },
            RemovalStage::CheckLeftover | RemovalStage::FinalCheck => HostAction::CheckPath(
                self.worktree_path.clone(),
            ),
            RemovalStage::DeleteLeftover | RemovalStage::FinalDelete => HostAction::RemoveDirectory(
                self.worktree_path.clone(),
            ),
        }
    }

    fn at(self, stage: RemovalStage) -> (next: Progress<WorktreeRemoval, ()>)
        ensures
            next@ == self@.at(stage),
    {
        let machine = WorktreeRemoval { stage, ..self };
        let action = machine.awaited();
        Progress::Continue(machine, action)
    }

    fn not_removed(why: &String) -> (next: Progress<WorktreeRemoval, ()>)
        ensures
            next@ == ProgressView::<WorktreeRemovalView, ()>::Done(Err(directory_not_removed(why@))),
    {
        Progress::Done(
            Err(
                AppError::with_detail(
                    ErrorKind::IoFailure,
                    "Failed to remove worktree directory: ",
                    why.as_str(),
                ),
            ),
        )
    }

    /// Takes the host's reply and says how the removal goes on.
    pub fn advance(self, reply: &HostReply) -> (next: Progress<WorktreeRemoval, ()>)
        ensures
            next@ == self@.advance(reply@),
    {
        match (self.stage, reply) {
            (RemovalStage::ForceRemove, HostReply::Ran(CommandOutcome::NotStarted(why))) => {
                Progress::Done(
                    Err(
                        AppError::with_detail(
                            ErrorKind::VcsOperationFailed,
                            "Failed to run git: ",
                            why.as_str(),
                        ),
                    ),
                )
            },
            (
                RemovalStage::ForceRemove,
                HostReply::Ran(CommandOutcome::Exited { success, stdout, stderr }),
            ) => {
                if *success {
                    self.at(RemovalStage::FinalCheck)
                } else {
                    self.at(RemovalStage::FirstPrune)
                }
            },
            (RemovalStage::FirstPrune, HostReply::Ran(_)) => self.at(RemovalStage::CheckLeftover),
            (RemovalStage::CheckLeftover, HostReply::PathChecked(exists)) => {
                if *exists {
                    self.at(RemovalStage::DeleteLeftover)
                } else {
                    self.at(RemovalStage::SecondPrune)
                }
            },
            (RemovalStage::DeleteLeftover, HostReply::DirectoryRemoved(Ok(()))) => {
                self.at(RemovalStage::SecondPrune)
            },
            (RemovalStage::DeleteLeftover, HostReply::DirectoryRemoved(Err(why))) => {
                Self::not_removed(why)
            },
            (RemovalStage::SecondPrune, HostReply::Ran(_)) => self.at(RemovalStage::FinalCheck),
            (RemovalStage::FinalCheck, HostReply::PathChecked(exists)) => {
                if *exists {
                    self.at(RemovalStage::FinalDelete)
                } else {
                    Progress::Done(Ok(()))
                }
            },
            (RemovalStage::FinalDelete, HostReply::DirectoryRemoved(Ok(()))) => {
                Progress::Done(Ok(()))
            },
            (RemovalStage::FinalDelete, HostReply::DirectoryRemoved(Err(why))) => {
                Self::not_removed(why)
            },
            _ => {
                let action = self.awaited();
                Progress::Continue(self, action)
            },
        }
    }
}

/// Starts the removal of the worktree at `worktree_path` from the repository at
/// `repo_path`.
pub fn remove_worktree(repo_path: String, worktree_path: String) -> (started: Progress<
    WorktreeRemoval,
    (),
>)
    ensures
        started@ == removal_started(repo_path@, worktree_path@).at(RemovalStage::ForceRemove),
{
    let machine = WorktreeRemoval { repo_path, worktree_path, stage: RemovalStage::ForceRemove };
    machine.at(RemovalStage::ForceRemove)
}

/// A branch of a repository.
#[derive(Debug)]
pub struct BranchInfo {
    pub name: String,
    pub is_remote: bool,
    pub is_head: bool,
}

/// The mathematical value of a [`BranchInfo`].
pub struct BranchView {
    pub name: Seq<char>,
    pub is_remote: bool,
    pub is_head: bool,
}

impl View for BranchInfo {
    type V = BranchView;

    open spec fn view(&self) -> BranchView {
        BranchView { name: self.name@, is_remote: self.is_remote, is_head: self.is_head }
    }
}

impl Clone for BranchInfo {
    fn clone(&self) -> (res: Self)
        ensures
            res@ == self@,
    {
        BranchInfo { name: self.name.clone(), is_remote: self.is_remote, is_head: self.is_head }
    }
}

/// The branches of a list, each by its value.
pub open spec fn branch_views(list: Seq<BranchInfo>) -> Seq<BranchView> {
    list.map_values(|b: BranchInfo| b@)
}

/// A local branch as it is listed.
pub open spec fn local_branch(branch: (Seq<char>, bool)) -> BranchView {
    BranchView { name: branch.0, is_remote: false, is_head: branch.1 }
}

/// A remote branch as it is listed.
pub open spec fn remote_branch(name: Seq<char>) -> BranchView {
    BranchView { name, is_remote: true, is_head: false }
}

/// The name and the mark of the current branch of each local branch of a list.
pub open spec fn local_views(list: Seq<(String, bool)>) -> Seq<(Seq<char>, bool)> {
    list.map_values(|b: (String, bool)| (b.0@, b.1))
}

/// The branches of a repository as they are listed: the local ones, then the
/// remote ones, but for those that only point to the default branch of a remote.
pub open spec fn listed_branches(
    local: Seq<(Seq<char>, bool)>,
    remote: Seq<Seq<char>>,
) -> Seq<BranchView> {
    local.map_values(|b: (Seq<char>, bool)| local_branch(b)) + remote.filter(
        |name: Seq<char>| !has_suffix(name, "/HEAD"@),
    ).map_values(|name: Seq<char>| remote_branch(name))
}

/// Lists the branches of a repository, from the names of its local branches,
/// each with the mark of the current branch, and the names of its remote ones.
pub fn list_branches(local: &Vec<(String, bool)>, remote: &Vec<String>) -> (branches: Vec<
    BranchInfo,
>)
    ensures
        branch_views(branches@) == listed_branches(local_views(local@), texts(remote@)),
{
    let ghost locals = local_views(local@);
    let ghost remotes = texts(remote@);
    let ghost wanted = |name: Seq<char>| !has_suffix(name, "/HEAD"@);
    let ghost as_remote = |name: Seq<char>| remote_branch(name);
    let mut branches: Vec<BranchInfo> = Vec::new();
    let mut i: usize = 0;
    while i < local.len()
        invariant
            i <= local.len(),
            locals == local_views(local@),
            branches@.len() == i,
            forall|j: int| 0 <= j < i ==> branches@[j]@ == local_branch(locals[j]),
        decreases local.len() - i,
    {
        branches.push(
            BranchInfo { name: local[i].0.clone(), is_remote: false, is_head: local[i].1 },
        );
        i += 1;
    }
    let ghost first = locals.map_values(|b: (Seq<char>, bool)| local_branch(b));
    assert(branch_views(branches@) =~= first);
    let mut k: usize = 0;
    proof {
        reveal(Seq::filter);
        assert(remotes.take(0).filter(wanted).map_values(as_remote) =~= Seq::<BranchView>::empty());
        assert(first + Seq::<BranchView>::empty() =~= first);
    }
    while k < remote.len()
        invariant
            k <= remote.len(),
            remotes == texts(remote@),
            wanted == |name: Seq<char>| !has_suffix(name, "/HEAD"@),
            as_remote == |name: Seq<char>| remote_branch(name),
            branch_views(branches@) == first + remotes.take(k as int).filter(wanted).map_values(
                as_remote,
            ),
        decreases remote.len() - k,
    {
        proof {
            remotes.take(k as int).lemma_filter_push(remotes[k as int], wanted);
            assert(remotes.take(k + 1) =~= remotes.take(k as int).push(remotes[k as int]));
        }
        if !ends_with(remote[k].as_str(), "/HEAD") {
            let ghost before = branch_views(branches@);
            branches.push(BranchInfo { name: remote[k].clone(), is_remote: true, is_head: false });
            assert(branch_views(branches@) =~= before.push(remote_branch(remotes[k as int])));
            assert(first + remotes.take(k + 1).filter(wanted).map_values(as_remote) =~= before.push(
                remote_branch(remotes[k as int]),
            ));
        }
        k += 1;
    }
    assert(remotes.take(k as int) =~= remotes);
    branches
}

/// The branch that new work starts from: what the remote calls its default
/// branch, else `origin/main` or `origin/master` where the remote has one,
/// else the current branch, else `main`.
pub open spec fn default_branch(
    origin_head: Option<Seq<char>>,
    has_origin_main: bool,
    has_origin_master: bool,
    head: Option<Seq<char>>,
) -> Seq<char> {
    match origin_head {
        Some(name) => name,
        None => if has_origin_main {
            "origin/main"@
        } else if has_origin_master {
            "origin/master"@
        } else {
            match head {
                Some(name) => name,
                None => "main"@,
            }
        },
    }
}

/// Picks the branch that new work starts from. `origin_head` is the short
/// name of what the default branch of the remote resolves to, `head` that of
/// the current branch; the two flags say whether the remote has a branch
/// `main` and a branch `master`.
pub fn get_default_branch(
    origin_head: Option<String>,
    has_origin_main: bool,
    has_origin_master: bool,
    head: Option<String>,
) -> (branch: String)
    ensures
        branch@ == default_branch(
            option_text(origin_head),
            has_origin_main,
            has_origin_master,
            option_text(head),
        ),
{
    match origin_head {
        Some(name) => name,
        None => {
            if has_origin_main {
                String::from_str("origin/main")
            } else if has_origin_master {
                String::from_str("origin/master")
            } else {
                match head {
                    Some(name) => name,
                    None => String::from_str("main"),
                }
            }
        },
    }
}

/// The worktrees of a list, each by its value.
pub open spec fn worktree_views(list: Seq<WorktreeInfo>) -> Seq<WorktreeView> {
    list.map_values(|w: WorktreeInfo| w@)
}

/// The working directory of a repository: the one that the repository
/// names, else the repository path, without slashes and then backslashes at
/// its end.
pub open spec fn main_worktree_path(repo_path: Seq<char>, facts: RepoFactsView) -> Seq<char> {
    let path = match facts.workdir {
        Some(dir) => dir,
        None => repo_path,
    };
    without_trailing(without_trailing(path, '/'), '\\')
}

/// The repository's own working directory as a worktree: it is called `main`.
pub open spec fn main_worktree(repo_path: Seq<char>, facts: RepoFactsView) -> WorktreeView {
    WorktreeView {
        name: "main"@,
        path: main_worktree_path(repo_path, facts),
        branch: facts.head,
        is_main: true,
    }
}

/// Lists the worktrees of the repository at `repo_path`: its own working
/// directory first, then the linked ones as they are given.
pub fn list_worktrees(repo_path: &str, facts: &RepoFacts, linked: Vec<WorktreeInfo>) -> (worktrees:
    Vec<WorktreeInfo>)
    ensures
        worktree_views(worktrees@) == seq![main_worktree(repo_path@, facts@)] + worktree_views(
            linked@,
        ),
{
    let path = match &facts.workdir {
        Some(dir) => trim_trailing(dir.as_str(), '/'),
        None => trim_trailing(repo_path, '/'),
    };
    let main = WorktreeInfo {
        name: String::from_str("main"),
        path: trim_trailing(path.as_str(), '\\'),
        branch: clone_option_text(&facts.head),
        is_main: true,
    };
    let mut worktrees = linked;
    let ghost rest = worktree_views(worktrees@);
    worktrees.insert(0, main);
    assert(worktree_views(worktrees@) =~= seq![main_worktree(repo_path@, facts@)] + rest);
    worktrees
}

/// Where a linked worktree lies. The backend keeps a record of it at
/// `internal_path`, with the path of a file in the worktree; `parent` is the
/// directory above that file, where the record names one. The worktree lies
/// there, or at `internal_path` if the record names none.
pub fn linked_worktree_dir(parent: Option<String>, internal_path: &str) -> (dir: String)
    ensures
        dir@ == match option_text(parent) {
            Some(p) => p,
            None => internal_path@,
        },
{
    match parent {
        Some(p) => p,
        None => String::from_str(internal_path),
    }
}

} // verus!
