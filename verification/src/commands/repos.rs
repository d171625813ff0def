//! The repositories that the user has added.

use vstd::prelude::*;
use vstd::string::*;
use crate::commands::worktrees::not_a_repository;
use crate::error::{AppError, ErrorKind, ErrorView};
use crate::host::{HostAction, HostActionView, HostReply, HostReplyView, Progress, ProgressView};
use crate::models::repo::{RepoEntry, RepoView};
use crate::state::{repo_views, AppData, AppDataView};
use crate::text::{option_text, same_text};

verus! {

/// The path of each repository of a list.
pub open spec fn repo_paths(repos: Seq<RepoView>) -> Seq<Seq<char>> {
    repos.map_values(|r: RepoView| r.path)
}

/// The repositories of a list whose path is not `path`.
pub open spec fn without_path(repos: Seq<RepoView>, path: Seq<char>) -> Seq<RepoView> {
    repos.filter(|r: RepoView| r.path != path)
}

/// The entry of the repository at `path`: it is called like the last part of
/// its path, or like the whole path where that has no last part.
pub open spec fn repo_entry(path: Seq<char>, file_name: Option<Seq<char>>) -> RepoView {
    RepoView {
        path,
        name: match file_name {
            Some(name) => name,
            None => path,
        },
    }
}

/// The error of a path that does not exist.
pub open spec fn path_missing() -> ErrorView {
    ErrorView { kind: ErrorKind::ValidationFailed, message: "Path does not exist"@ }
}

/// The error of a repository that the table holds already.
pub open spec fn already_added() -> ErrorView {
    ErrorView { kind: ErrorKind::ValidationFailed, message: "Repository already added"@ }
}

/// Where the addition of a repository stands.
#[derive(Clone, Copy, Debug, PartialEq, Eq, Structural)]
pub enum AdditionStage {
    /// Asked whether the path exists.
    CheckPath,
    /// Asked to open the repository.
    OpenRepository,
}

/// The addition of a repository, under way.
#[derive(Debug)]
pub struct RepoAddition {
    pub path: String,
    pub stage: AdditionStage,
}

/// The mathematical value of a [`RepoAddition`].
pub struct RepoAdditionView {
    pub path: Seq<char>,
    pub stage: AdditionStage,
}

impl View for RepoAddition {
    type V = RepoAdditionView;

    open spec fn view(&self) -> RepoAdditionView {
        RepoAdditionView { path: self.path@, stage: self.stage }
    }
}

impl RepoAdditionView {
    /// The action whose reply the addition waits for.
    pub open spec fn awaited(self) -> HostActionView {
        match self.stage {
            AdditionStage::CheckPath => HostActionView::CheckPath(self.path),
            AdditionStage::OpenRepository => HostActionView::OpenRepository(self.path),
        }
    }

    /// What the addition does on a reply, and what becomes of the table.
    ///
    /// The path must exist and hold a repository, and the table must not hold
    /// a repository at that path yet. Then the repository is added at the end
    /// of the table. `file_name` is the last part of the path, as the host's
    /// rules for paths give it. A reply of another kind than the one awaited
    /// changes nothing.
    pub open spec fn advance(
        self,
        table: AppDataView,
        reply: HostReplyView,
        file_name: Option<Seq<char>>,
    ) -> (ProgressView<RepoAdditionView, RepoView>, AppDataView) {
        match (self.stage, reply) {
            (AdditionStage::CheckPath, HostReplyView::PathChecked(exists)) => (
                if exists {
                    let next = RepoAdditionView { stage: AdditionStage::OpenRepository, ..self };
                    ProgressView::Continue(next, next.awaited())
                } else {
                    ProgressView::Done(Err(path_missing()))
                },
                table,
            ),
            (AdditionStage::OpenRepository, HostReplyView::RepositoryOpened(Err(why))) => (
                ProgressView::Done(Err(not_a_repository(why))),
                table,
            ),
            (AdditionStage::OpenRepository, HostReplyView::RepositoryOpened(Ok(_))) => {
                if repo_paths(table.repos).contains(self.path) {
                    (ProgressView::Done(Err(already_added())), table)
                } else {
                    let entry = repo_entry(self.path, file_name);
                    (
                        ProgressView::Done(Ok(entry)),
                        AppDataView { repos: table.repos.push(entry), ..table },
                    )
                }
            },
            _ => (ProgressView::Continue(self, self.awaited()), table),
        }
    }
}

/// The last part of a path. Calls `std::path::Path::file_name`, whose answer
/// depends on the host's rules for paths; nothing is claimed of it.
#[verifier::external_body]
fn file_name_of(path: &str) -> (name: Option<String>) {
    std::path::Path::new(path).file_name().map(|n| n.to_string_lossy().to_string())
}

/// Whether the table holds a repository at `path`.
pub fn has_repo(repos: &Vec<RepoEntry>, path: &str) -> (found: bool)
    ensures
        found == repo_paths(repo_views(repos@)).contains(path@),
{
    let ghost paths = repo_paths(repo_views(repos@));
    let mut i: usize = 0;
    while i < repos.len()
        invariant
            i <= repos.len(),
            paths == repo_paths(repo_views(repos@)),
            forall|j: int| 0 <= j < i ==> paths[j] != path@,
        decreases repos.len() - i,
    {
        if same_text(repos[i].path.as_str(), path) {
            assert(paths[i as int] == path@);
            return true;
        }
        i += 1;
    }
    false
}

impl RepoAddition {
    /// The action whose reply the addition waits for.
    pub fn awaited(&self) -> (action: HostAction)
        ensures
            action@ == self@.awaited(),
    {
        match self.stage {
            AdditionStage::CheckPath => HostAction::CheckPath(self.path.clone()),
            AdditionStage::OpenRepository => HostAction::OpenRepository(self.path.clone()),
        }
    }

    /// Takes the host's reply and says how the addition goes on, where the last
    /// part of the path is `file_name`.
    pub fn advance_named(
        self,
        data: &mut AppData,
        reply: &HostReply,
        file_name: Option<String>,
    ) -> (next: Progress<RepoAddition, RepoEntry>)
        ensures
            (next@, final(data)@) == self@.advance(old(data)@, reply@, option_text(file_name)),
            old(data)@.ports_owned() ==> final(data)@.ports_owned(),
            old(data)@.ids_unique() ==> final(data)@.ids_unique(),
    {
        match (self.stage, reply) {
            (AdditionStage::CheckPath, HostReply::PathChecked(exists)) => {
                if *exists {
                    let machine = RepoAddition { stage: AdditionStage::OpenRepository, ..self };
                    let action = machine.awaited();
                    Progress::Continue(machine, action)
                } else {
                    Progress::Done(
                        Err(AppError::new(ErrorKind::ValidationFailed, "Path does not exist")),
                    )
                }
            },
            (AdditionStage::OpenRepository, HostReply::RepositoryOpened(Err(why))) => {
                Progress::Done(
                    Err(
                        AppError::with_detail(
                            ErrorKind::ValidationFailed,
                            "Not a valid git repository: ",
                            why.as_str(),
                        ),
                    ),
                )
            },
            (AdditionStage::OpenRepository, HostReply::RepositoryOpened(Ok(_))) => {
                if has_repo(&data.repos, self.path.as_str()) {
                    Progress::Done(
                        Err(AppError::new(ErrorKind::ValidationFailed, "Repository already added")),
                    )
                } else {
                    let name = match file_name {
                        Some(name) => name,
                        None => self.path.clone(),
                    };
                    let entry = RepoEntry { path: self.path, name };
                    let copy = entry.clone();
                    let ghost before = data@;
                    data.repos.push(entry);
                    assert(data@.repos =~= before.repos.push(copy@));
                    Progress::Done(Ok(copy))
                }
            },
            _ => {
                let action = self.awaited();
                Progress::Continue(self, action)
            },
        }
    }

    /// Takes the host's reply and says how the addition goes on. The name of
    /// the repository is the last part of its path, by the host's rules for paths.
    pub fn advance(self, data: &mut AppData, reply: &HostReply) -> (next: Progress<
        RepoAddition,
        RepoEntry,
    >)
        ensures
            exists|file_name: Option<Seq<char>>|
                (next@, final(data)@) == self@.advance(old(data)@, reply@, file_name),
            old(data)@.ports_owned() ==> final(data)@.ports_owned(),
            old(data)@.ids_unique() ==> final(data)@.ids_unique(),
    {
        let file_name = file_name_of(self.path.as_str());
        let ghost name = option_text(file_name);
        let ghost start = self@;
        let next = self.advance_named(data, reply, file_name);
        assert((next@, data@) == start.advance(old(data)@, reply@, name));
        next
    }
}

/// Starts the addition of the repository at `path`.
pub fn add_repo(path: String) -> (started: Progress<RepoAddition, RepoEntry>)
    ensures
        started@ == ProgressView::<RepoAdditionView, RepoView>::Continue(
            RepoAdditionView { path: path@, stage: AdditionStage::CheckPath },
            HostActionView::CheckPath(path@),
        ),
{
    let machine = RepoAddition { path, stage: AdditionStage::CheckPath };
    let action = machine.awaited();
    Progress::Continue(machine, action)
}

/// Takes every repository at `path` out of the table.
pub fn remove_repo(data: &mut AppData, path: &str)
    ensures
        final(data)@ == (AppDataView {
            repos: without_path(old(data)@.repos, path@),
            ..old(data)@
        }),
        old(data)@.ports_owned() ==> final(data)@.ports_owned(),
        old(data)@.ids_unique() ==> final(data)@.ids_unique(),
{
    let ghost before = data@;
    let ghost all = before.repos;
    let ghost wanted = |r: RepoView| r.path != path@;
    let mut kept: Vec<RepoEntry> = Vec::new();
    let mut i: usize = 0;
    proof {
        reveal(Seq::filter);
        assert(repo_views(kept@) =~= without_path(all.take(0), path@));
    }
    while i < data.repos.len()
        invariant
            i <= data.repos.len(),
            data@ == before,
            all == before.repos,
            wanted == |r: RepoView| r.path != path@,
            repo_views(kept@) == without_path(all.take(i as int), path@),
        decreases data.repos.len() - i,
    {
        proof {
            all.take(i as int).lemma_filter_push(all[i as int], wanted);
            assert(all.take(i + 1) =~= all.take(i as int).push(all[i as int]));
        }
        if !same_text(data.repos[i].path.as_str(), path) {
            let ghost shown = repo_views(kept@);
            kept.push(data.repos[i].clone());
            assert(repo_views(kept@) =~= shown.push(all[i as int]));
        }
        i += 1;
    }
    assert(all.take(i as int) =~= all);
    data.repos = kept;
}

/// A copy of a list of repositories.
pub fn clone_repos(repos: &Vec<RepoEntry>) -> (copy: Vec<RepoEntry>)
    ensures
        repo_views(copy@) == repo_views(repos@),
{
    let mut copy: Vec<RepoEntry> = Vec::new();
    let mut i: usize = 0;
    while i < repos.len()
        invariant
            i <= repos.len(),
            copy@.len() == i,
            forall|j: int| 0 <= j < i ==> copy@[j]@ == repos@[j]@,
        decreases repos.len() - i,
    {
        copy.push(repos[i].clone());
        i += 1;
    }
    assert(repo_views(copy@) =~= repo_views(repos@));
    copy
}

/// All repositories of the table, in the order in which they were added.
pub fn list_repos(data: &AppData) -> (repos: Vec<RepoEntry>)
    ensures
        repo_views(repos@) == data@.repos,
{
    clone_repos(&data.repos)
}

/// Takes in the repositories that the durable store held, at startup: they
/// replace those of the table.
pub fn load_repos(data: &mut AppData, stored: Vec<RepoEntry>)
    ensures
        final(data)@ == (AppDataView { repos: repo_views(stored@), ..old(data)@ }),
        old(data)@.ports_owned() ==> final(data)@.ports_owned(),
        old(data)@.ids_unique() ==> final(data)@.ids_unique(),
{
    data.repos = stored;
}

} // verus!
