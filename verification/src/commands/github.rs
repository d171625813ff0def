//! Pull requests: the command lines of the review tool, and what its answers mean.

use vstd::prelude::*;
use vstd::string::*;
use crate::error::{failure, outcome, AppError, ErrorKind, ErrorView};
use crate::host::{
    command, git, git_command, CommandLine, CommandLineView, CommandOutcome, CommandOutcomeView,
    HostAction, HostActionView, HostReply, HostReplyView, Progress, ProgressView,
};
use crate::json::{
    error_text, flag_at, flag_of, json_array, json_document, json_members, members_of_each,
    number_at, number_of, parse_array, parse_document, text_at, text_of, JsonFieldView,
};
use crate::models::github::{CheckRun, CheckView, MergeMethod, PrInfo, PrView};
use crate::text::{option_text, texts};

verus! {

fn text_or(value: Option<String>, fallback: &str) -> (text: String)
    ensures
        text@ == match option_text(value) {
            Some(t) => t,
            None => fallback@,
        },
{
    match value {
        Some(t) => t,
        None => String::from_str(fallback),
    }
}

fn number_or_zero(value: Option<u64>) -> (number: u64)
    ensures
        number == match value {
            Some(n) => n,
            None => 0,
        },
{
    match value {
        Some(n) => n,
        None => 0,
    }
}

/// The text of a member, or a fallback where the member is missing or no text.
pub open spec fn text_at_or(
    members: Map<Seq<char>, JsonFieldView>,
    key: Seq<char>,
    fallback: Seq<char>,
) -> Seq<char> {
    match text_at(members, key) {
        Some(t) => t,
        None => fallback,
    }
}

/// The number of a member, or zero where the member is missing or no whole number.
pub open spec fn number_at_or_zero(members: Map<Seq<char>, JsonFieldView>, key: Seq<char>) -> u64 {
    match number_at(members, key) {
        Some(n) => n,
        None => 0,
    }
}

/// The pull request that the members of a document describe. A member that is
/// missing, or of another kind than expected, counts as zero, as the empty
/// text, as false, and for the state as `UNKNOWN`.
pub open spec fn pr_of(members: Map<Seq<char>, JsonFieldView>) -> PrView {
    PrView {
        number: number_at_or_zero(members, "number"@),
        title: text_at_or(members, "title"@, Seq::empty()),
        state: text_at_or(members, "state"@, "UNKNOWN"@),
        url: text_at_or(members, "url"@, Seq::empty()),
        head_branch: text_at_or(members, "headRefName"@, Seq::empty()),
        base_branch: text_at_or(members, "baseRefName"@, Seq::empty()),
        draft: match flag_at(members, "isDraft"@) {
            Some(flag) => flag,
            None => false,
        },
        mergeable: text_at(members, "mergeable"@),
        additions: number_at_or_zero(members, "additions"@),
        deletions: number_at_or_zero(members, "deletions"@),
        changed_files: number_at_or_zero(members, "changedFiles"@),
    }
}

/// The pull request that a document describes.
pub fn pr_info(document: &serde_json::Value) -> (pr: PrInfo)
    ensures
        pr@ == pr_of(json_members(*document)),
{
    proof {
        reveal_strlit("");
    }
    let pr = PrInfo {
        number: number_or_zero(number_of(document, "number")),
        title: text_or(text_of(document, "title"), ""),
        state: text_or(text_of(document, "state"), "UNKNOWN"),
        url: text_or(text_of(document, "url"), ""),
        head_branch: text_or(text_of(document, "headRefName"), ""),
        base_branch: text_or(text_of(document, "baseRefName"), ""),
        draft: match flag_of(document, "isDraft") {
            Some(flag) => flag,
            None => false,
        },
        mergeable: text_of(document, "mergeable"),
        additions: number_or_zero(number_of(document, "additions")),
        deletions: number_or_zero(number_of(document, "deletions")),
        changed_files: number_or_zero(number_of(document, "changedFiles")),
    };
    assert(""@ =~= Seq::<char>::empty());
    pr
}

/// The check that the members of a document describe.
pub open spec fn check_of(members: Map<Seq<char>, JsonFieldView>) -> CheckView {
    CheckView {
        name: text_at_or(members, "name"@, Seq::empty()),
        status: text_at_or(members, "state"@, Seq::empty()),
        conclusion: text_at(members, "conclusion"@),
    }
}

/// The check that a document describes.
pub fn check_run(document: &serde_json::Value) -> (check: CheckRun)
    ensures
        check@ == check_of(json_members(*document)),
{
    proof {
        reveal_strlit("");
    }
    let check = CheckRun {
        name: text_or(text_of(document, "name"), ""),
        status: text_or(text_of(document, "state"), ""),
        conclusion: text_of(document, "conclusion"),
    };
    assert(""@ =~= Seq::<char>::empty());
    check
}

/// The command `gh` with `args`, run in `cwd`.
pub open spec fn gh(cwd: Seq<char>, args: Seq<Seq<char>>) -> CommandLineView {
    CommandLineView { program: "gh"@, args, cwd }
}

fn gh_command(cwd: &str, args: Vec<String>) -> (command: CommandLine)
    ensures
        command@ == gh(cwd@, texts(args@)),
{
    CommandLine { program: String::from_str("gh"), args, cwd: String::from_str(cwd) }
}

/// The command that tells whether the review tool is there.
pub fn gh_version_command() -> (command: CommandLine)
    ensures
        command@ == gh(Seq::empty(), seq!["--version"@]),
{
    proof {
        reveal_strlit("");
    }
    let mut args: Vec<String> = Vec::new();
    args.push(String::from_str("--version"));
    assert(texts(args@) =~= seq!["--version"@]);
    let command = gh_command("", args);
    assert(""@ =~= Seq::<char>::empty());
    command
}

/// Whether the review tool is there and works, from the run of its version command.
pub fn check_gh_available(ran: &CommandOutcome) -> (available: Result<bool, AppError>)
    ensures
        match ran@ {
            CommandOutcomeView::NotStarted(_) => available is Err && available->Err_0@ == (
            ErrorView { kind: ErrorKind::IoFailure, message: "gh CLI not found"@ }),
            CommandOutcomeView::Exited { success, stdout, stderr } => available == Ok::<
                bool,
                AppError,
            >(success),
        },
{
    match ran {
        CommandOutcome::NotStarted(_) => Err(AppError::new(ErrorKind::IoFailure, "gh CLI not found")),
        CommandOutcome::Exited { success, stdout, stderr } => Ok(*success),
    }
}

/// The members that are asked of a pull request.
pub open spec fn pr_fields() -> Seq<char> {
    "number,title,state,url,headRefName,baseRefName,isDraft,mergeable,additions,deletions,changedFiles"@
}

/// The command that describes the pull request of the current branch.
pub open spec fn pr_view_command(worktree_path: Seq<char>) -> CommandLineView {
    gh(worktree_path, seq!["pr"@, "view"@, "--json"@, pr_fields()])
}

/// Builds the command that describes the pull request of the current branch.
pub fn view_pr_command(worktree_path: &str) -> (command: CommandLine)
    ensures
        command@ == pr_view_command(worktree_path@),
{
    let mut args: Vec<String> = Vec::new();
    args.push(String::from_str("pr"));
    args.push(String::from_str("view"));
    args.push(String::from_str("--json"));
    args.push(
        String::from_str(
            "number,title,state,url,headRefName,baseRefName,isDraft,mergeable,additions,deletions,changedFiles",
        ),
    );
    assert(texts(args@) =~= seq!["pr"@, "view"@, "--json"@, pr_fields()]);
    gh_command(worktree_path, args)
}

/// Whether `pr` is what the run of the command that describes the pull request
/// means.
///
/// The review tool must have run and succeeded, and what it printed must be a
/// JSON document; the error says which of these failed, and for a text that
/// is no document, in the words of the reader of JSON.
pub open spec fn is_pr_status(ran: CommandOutcomeView, pr: Result<PrView, ErrorView>) -> bool {
    match ran {
        CommandOutcomeView::NotStarted(why) => pr == Err::<PrView, ErrorView>(
            failure(ErrorKind::VcsOperationFailed, "Failed to run gh: "@, why),
        ),
        CommandOutcomeView::Exited { success, stdout, stderr } => if !success {
            pr == Err::<PrView, ErrorView>(
                failure(ErrorKind::VcsOperationFailed, "No PR found for current branch: "@, stderr),
            )
        } else {
            match json_document(stdout) {
                Some(members) => pr == Ok::<PrView, ErrorView>(pr_of(members)),
                None => exists|why: Seq<char>|
                    pr == Err::<PrView, ErrorView>(
                        failure(
                            ErrorKind::VcsOperationFailed,
                            "Failed to parse gh output: "@,
                            why,
                        ),
                    ),
            }
        },
    }
}

/// The pull request of the current branch, from the run of the command that
/// describes it.
pub fn get_pr_status(ran: &CommandOutcome) -> (pr: Result<PrInfo, AppError>)
    ensures
        is_pr_status(ran@, outcome(pr)),
{
    match ran {
        CommandOutcome::NotStarted(why) => Err(
            AppError::with_detail(ErrorKind::VcsOperationFailed, "Failed to run gh: ", why.as_str()),
        ),
        CommandOutcome::Exited { success, stdout, stderr } => {
            if !*success {
                return Err(
                    AppError::with_detail(
                        ErrorKind::VcsOperationFailed,
                        "No PR found for current branch: ",
                        stderr.as_str(),
                    ),
                );
            }
            match parse_document(stdout.as_str()) {
                Ok(document) => Ok(pr_info(&document)),
                Err(e) => {
                    let why = error_text(&e);
                    Err(
                        AppError::with_detail(
                            ErrorKind::VcsOperationFailed,
                            "Failed to parse gh output: ",
                            why.as_str(),
                        ),
                    )
                },
            }
        },
    }
}

/// The checks of a list, each by its value.
pub open spec fn check_views(list: Seq<CheckRun>) -> Seq<CheckView> {
    list.map_values(|c: CheckRun| c@)
}

/// The command that lists the checks of the pull request of the current branch.
pub open spec fn pr_checks_command(worktree_path: Seq<char>) -> CommandLineView {
    gh(worktree_path, seq!["pr"@, "checks"@, "--json"@, "name,state,conclusion"@])
}

/// Builds the command that lists the checks of the pull request.
pub fn checks_command(worktree_path: &str) -> (command: CommandLine)
    ensures
        command@ == pr_checks_command(worktree_path@),
{
    let mut args: Vec<String> = Vec::new();
    args.push(String::from_str("pr"));
    args.push(String::from_str("checks"));
    args.push(String::from_str("--json"));
    args.push(String::from_str("name,state,conclusion"));
    assert(texts(args@) =~= seq!["pr"@, "checks"@, "--json"@, "name,state,conclusion"@]);
    gh_command(worktree_path, args)
}

/// The checks that a list of documents describes.
fn checks_of(documents: &Vec<serde_json::Value>) -> (checks: Vec<CheckRun>)
    ensures
        check_views(checks@) == members_of_each(documents@).map_values(
            |m: Map<Seq<char>, JsonFieldView>| check_of(m),
        ),
{
    let mut checks: Vec<CheckRun> = Vec::new();
    let mut i: usize = 0;
    while i < documents.len()
        invariant
            i <= documents.len(),
            checks@.len() == i,
            forall|j: int| 0 <= j < i ==> checks@[j]@ == check_of(json_members(documents@[j])),
        decreases documents.len() - i,
    {
        checks.push(check_run(&documents[i]));
        i += 1;
    }
    assert(check_views(checks@) =~= members_of_each(documents@).map_values(
        |m: Map<Seq<char>, JsonFieldView>| check_of(m),
    ));
    checks
}

/// The checks of the pull request, from the run of the command that lists
/// them: none where the review tool failed or printed no JSON array.
pub fn list_pr_checks(ran: &CommandOutcome) -> (checks: Result<Vec<CheckRun>, AppError>)
    ensures
        match ran@ {
            CommandOutcomeView::NotStarted(why) => checks is Err && checks->Err_0@ == failure(
                ErrorKind::VcsOperationFailed,
                "Failed to run gh: "@,
                why,
            ),
            CommandOutcomeView::Exited { success, stdout, stderr } => checks is Ok && check_views(
                checks->Ok_0@,
            ) == (if !success {
                Seq::<CheckView>::empty()
            } else {
                match json_array(stdout) {
                    Some(documents) => documents.map_values(
                        |m: Map<Seq<char>, JsonFieldView>| check_of(m),
                    ),
                    None => Seq::<CheckView>::empty(),
                }
            }),
        },
{
    match ran {
        CommandOutcome::NotStarted(why) => Err(
            AppError::with_detail(ErrorKind::VcsOperationFailed, "Failed to run gh: ", why.as_str()),
        ),
        CommandOutcome::Exited { success, stdout, stderr } => {
            let checks = if !*success {
                Vec::new()
            } else {
                match parse_array(stdout.as_str()) {
                    Ok(documents) => checks_of(&documents),
                    Err(_) => Vec::new(),
                }
            };
            assert(check_views(Seq::<CheckRun>::empty()) =~= Seq::<CheckView>::empty());
            Ok(checks)
        },
    }
}

/// The command that merges the pull request of the current branch.
pub open spec fn pr_merge_command(
    worktree_path: Seq<char>,
    method: MergeMethod,
    delete_branch: bool,
) -> CommandLineView {
    let args = seq!["pr"@, "merge"@, method.flag()];
    gh(
        worktree_path,
        if delete_branch {
            args.push("--delete-branch"@)
        } else {
            args
        },
    )
}

/// Builds the command that merges the pull request, by the method `method`,
/// and deletes the branch afterwards if `delete_branch` says so.
pub fn merge_command(worktree_path: &str, method: MergeMethod, delete_branch: bool) -> (command:
    CommandLine)
    ensures
        command@ == pr_merge_command(worktree_path@, method, delete_branch),
{
    let mut args: Vec<String> = Vec::new();
    args.push(String::from_str("pr"));
    args.push(String::from_str("merge"));
    args.push(String::from_str(method.as_flag()));
    if delete_branch {
        args.push(String::from_str("--delete-branch"));
    }
    assert(texts(args@) =~= pr_merge_command(worktree_path@, method, delete_branch).args);
    gh_command(worktree_path, args)
}

/// What the run of a command of the review tool means: done, or the error,
/// which starts with `refused` where the tool ran and failed.
pub open spec fn gh_done(ran: CommandOutcomeView, refused: Seq<char>) -> Result<(), ErrorView> {
    match ran {
        CommandOutcomeView::NotStarted(why) => Err(
            failure(ErrorKind::VcsOperationFailed, "Failed to run gh: "@, why),
        ),
        CommandOutcomeView::Exited { success, stdout, stderr } => if success {
            Ok(())
        } else {
            Err(failure(ErrorKind::VcsOperationFailed, refused, stderr))
        },
    }
}

fn gh_result(ran: &CommandOutcome, refused: &str) -> (done: Result<(), AppError>)
    ensures
        outcome(done) == gh_done(ran@, refused@),
{
    match ran {
        CommandOutcome::NotStarted(why) => Err(
            AppError::with_detail(ErrorKind::VcsOperationFailed, "Failed to run gh: ", why.as_str()),
        ),
        CommandOutcome::Exited { success, stdout, stderr } => {
            if *success {
                Ok(())
            } else {
                Err(AppError::with_detail(ErrorKind::VcsOperationFailed, refused, stderr.as_str()))
            }
        },
    }
}

/// Says what the run of the merge command means.
pub fn merge_pr(ran: &CommandOutcome) -> (done: Result<(), AppError>)
    ensures
        outcome(done) == gh_done(ran@, "gh pr merge failed: "@),
{
    gh_result(ran, "gh pr merge failed: ")
}

/// Where the creation of a pull request stands.
#[derive(Clone, Copy, Debug, PartialEq, Eq, Structural)]
pub enum PrStage {
    /// Asked the backend to push the branch.
    Push,
    /// Asked the review tool to create the pull request.
    Create,
    /// Asked the review tool to describe the pull request.
    View,
}

/// The creation of a pull request, under way.
#[derive(Debug)]
pub struct PrCreation {
    pub worktree_path: String,
    pub title: String,
    pub body: String,
    pub base_branch: Option<String>,
    pub draft: bool,
    pub stage: PrStage,
}

/// The mathematical value of a [`PrCreation`].
pub struct PrCreationView {
    pub worktree_path: Seq<char>,
    pub title: Seq<char>,
    pub body: Seq<char>,
    pub base_branch: Option<Seq<char>>,
    pub draft: bool,
    pub stage: PrStage,
}

impl View for PrCreation {
    type V = PrCreationView;

    open spec fn view(&self) -> PrCreationView {
        PrCreationView {
            worktree_path: self.worktree_path@,
            title: self.title@,
            body: self.body@,
            base_branch: option_text(self.base_branch),
            draft: self.draft,
            stage: self.stage,
        }
    }
}

impl PrCreationView {
    /// The command that creates the pull request: against the base branch
    /// where one is named, and as a draft where that is asked for.
    pub open spec fn create_command(self) -> CommandLineView {
        let head = seq!["pr"@, "create"@, "--title"@, self.title, "--body"@, self.body];
        let with_base = match self.base_branch {
            Some(base) => head.push("--base"@).push(base),
            None => head,
        };
        gh(
            self.worktree_path,
            if self.draft {
                with_base.push("--draft"@)
            } else {
                with_base
            },
        )
    }

    /// The action whose reply the creation waits for.
    pub open spec fn awaited(self) -> HostActionView {
        HostActionView::Run(
            match self.stage {
                PrStage::Push => git(self.worktree_path, seq!["push"@, "-u"@, "origin"@, "HEAD"@]),
                PrStage::Create => self.create_command(),
                PrStage::View => pr_view_command(self.worktree_path),
            },
        )
    }

    /// The creation at `stage`, waiting for the reply to that stage's action.
    pub open spec fn at(self, stage: PrStage) -> ProgressView<PrCreationView, PrView> {
        let next = PrCreationView { stage, ..self };
        ProgressView::Continue(next, next.awaited())
    }

    /// Whether `next` is what the creation does on a reply.
    ///
    /// The branch is pushed, the pull request is created, and the review tool
    /// is asked to describe it; the first of these that fails ends the
    /// creation with its error. A reply of another kind than the one awaited
    /// changes nothing.
    pub open spec fn advances_to(
        self,
        reply: HostReplyView,
        next: ProgressView<PrCreationView, PrView>,
    ) -> bool {
        match (self.stage, reply) {
            (PrStage::Push, HostReplyView::Ran(CommandOutcomeView::NotStarted(why))) => next
                == ProgressView::<PrCreationView, PrView>::Done(
                Err(failure(ErrorKind::VcsOperationFailed, "Failed to push: "@, why)),
            ),
            (
                PrStage::Push,
                HostReplyView::Ran(CommandOutcomeView::Exited { success, stdout, stderr }),
            ) => next == if success {
                self.at(PrStage::Create)
            } else {
                ProgressView::Done(
                    Err(failure(ErrorKind::VcsOperationFailed, "git push failed: "@, stderr)),
                )
            },
            (PrStage::Create, HostReplyView::Ran(ran)) => next == match gh_done(
                ran,
                "gh pr create failed: "@,
            ) {
                Ok(()) => self.at(PrStage::View),
                Err(error) => ProgressView::Done(Err(error)),
            },
            (PrStage::View, HostReplyView::Ran(ran)) => next matches ProgressView::Done(pr)
                && is_pr_status(ran, pr),
            _ => next == ProgressView::<PrCreationView, PrView>::Continue(self, self.awaited()),
        }
    }
}

impl PrCreation {
    /// The action whose reply the creation waits for.
    pub fn awaited(&self) -> (action: HostAction)
        ensures
            action@ == self@.awaited(),
    {
        match self.stage {
            PrStage::Push => {
                let mut args: Vec<String> = Vec::new();
                args.push(String::from_str("push"));
                args.push(String::from_str("-u"));
                args.push(String::from_str("origin"));
                args.push(String::from_str("HEAD"));
                assert(texts(args@) =~= seq!["push"@, "-u"@, "origin"@, "HEAD"@]);
                HostAction::Run(git_command(self.worktree_path.as_str(), args))
            },
            PrStage::Create => {
                let mut args: Vec<String> = Vec::new();
                args.push(String::from_str("pr"));
                args.push(String::from_str("create"));
                args.push(String::from_str("--title"));
                args.push(self.title.clone());
                args.push(String::from_str("--body"));
                args.push(self.body.clone());
                match &self.base_branch {
                    Some(base) => {
                        args.push(String::from_str("--base"));
                        args.push(base.clone());
                    },
                    None => {},
                }
                if self.draft {
                    args.push(String::from_str("--draft"));
                }
                assert(texts(args@) =~= self@.create_command().args);
                HostAction::Run(gh_command(self.worktree_path.as_str(), args))
            },
            PrStage::View => HostAction::Run(view_pr_command(self.worktree_path.as_str())),
        }
    }

    fn at(self, stage: PrStage) -> (next: Progress<PrCreation, PrInfo>)
        ensures
            next@ == self@.at(stage),
    {
        let machine = PrCreation { stage, ..self };
        let action = machine.awaited();
        Progress::Continue(machine, action)
    }

    /// Takes the host's reply and says how the creation goes on.
    pub fn advance(self, reply: &HostReply) -> (next: Progress<PrCreation, PrInfo>)
        ensures
            self@.advances_to(reply@, next@),
    {
        match (self.stage, reply) {
            (PrStage::Push, HostReply::Ran(CommandOutcome::NotStarted(why))) => {
                Progress::Done(
                    Err(
                        AppError::with_detail(
                            ErrorKind::VcsOperationFailed,
                            "Failed to push: ",
                            why.as_str(),
                        ),
                    ),
                )
            },
            (PrStage::Push, HostReply::Ran(CommandOutcome::Exited { success, stdout, stderr })) => {
                if *success {
                    self.at(PrStage::Create)
                } else {
                    Progress::Done(
                        Err(
                            AppError::with_detail(
                                ErrorKind::VcsOperationFailed,
                                "git push failed: ",
                                stderr.as_str(),
                            ),
                        ),
                    )
                }
            },
            (PrStage::Create, HostReply::Ran(ran)) => {
                match gh_result(ran, "gh pr create failed: ") {
                    Ok(()) => self.at(PrStage::View),
                    Err(error) => Progress::Done(Err(error)),
                }
            },
            (PrStage::View, HostReply::Ran(ran)) => Progress::Done(get_pr_status(ran)),
            _ => {
                let action = self.awaited();
                Progress::Continue(self, action)
            },
        }
    }
}

/// Starts the creation of a pull request for the branch of the worktree at
/// `worktree_path`.
pub fn create_pr(
    worktree_path: String,
    title: String,
    body: String,
    base_branch: Option<String>,
    draft: bool,
) -> (started: Progress<PrCreation, PrInfo>)
    ensures
        started@ == (PrCreationView {
            worktree_path: worktree_path@,
            title: title@,
            body: body@,
            base_branch: option_text(base_branch),
            draft,
            stage: PrStage::Push,
        }).at(PrStage::Push),
{
    let machine = PrCreation { worktree_path, title, body, base_branch, draft, stage: PrStage::Push };
    machine.at(PrStage::Push)
}

} // verus!
