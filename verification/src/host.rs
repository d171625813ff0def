//! The vocabulary between the registry and its host: what the registry asks the
//! host to do, and what the host reports back.
//!
//! An operation that needs the operating system is a small state machine. It
//! names the next action; the host performs it and hands the reply to the
//! machine, which names the next action or finishes with a result.

use vstd::prelude::*;
use vstd::string::*;
use crate::error::{AppError, ErrorView};
use crate::models::workspace::EnvVars;
use crate::text::{clone_option_text, clone_texts, option_text, texts};

verus! {

/// A command line and the directory to run it in. Where `cwd` is empty the
/// command runs in the directory of the host itself.
#[derive(Debug)]
pub struct CommandLine {
    pub program: String,
    pub args: Vec<String>,
    pub cwd: String,
}

/// The mathematical value of a [`CommandLine`].
pub struct CommandLineView {
    pub program: Seq<char>,
    pub args: Seq<Seq<char>>,
    pub cwd: Seq<char>,
}

impl View for CommandLine {
    type V = CommandLineView;

    open spec fn view(&self) -> CommandLineView {
        CommandLineView { program: self.program@, args: texts(self.args@), cwd: self.cwd@ }
    }
}

impl Clone for CommandLine {
    fn clone(&self) -> (res: Self)
        ensures
            res@ == self@,
    {
        CommandLine {
            program: self.program.clone(),
            args: clone_texts(&self.args),
            cwd: self.cwd.clone(),
        }
    }
}

/// How the run of a command ended.
#[derive(Debug)]
pub enum CommandOutcome {
    /// The program could not be started; the text says why.
    NotStarted(String),
    /// The program ran and exited.
    Exited { success: bool, stdout: String, stderr: String },
}

/// The mathematical value of a [`CommandOutcome`].
pub enum CommandOutcomeView {
    NotStarted(Seq<char>),
    Exited { success: bool, stdout: Seq<char>, stderr: Seq<char> },
}

impl View for CommandOutcome {
    type V = CommandOutcomeView;

    open spec fn view(&self) -> CommandOutcomeView {
        match self {
            CommandOutcome::NotStarted(why) => CommandOutcomeView::NotStarted(why@),
            CommandOutcome::Exited { success, stdout, stderr } => CommandOutcomeView::Exited {
                success: *success,
                stdout: stdout@,
                stderr: stderr@,
            },
        }
    }
}

/// What opening a repository told: its working directory and the short name of
/// what `HEAD` points to, where it has them.
#[derive(Debug)]
pub struct RepoFacts {
    pub workdir: Option<String>,
    pub head: Option<String>,
}

/// The mathematical value of [`RepoFacts`].
pub struct RepoFactsView {
    pub workdir: Option<Seq<char>>,
    pub head: Option<Seq<char>>,
}

impl View for RepoFacts {
    type V = RepoFactsView;

    open spec fn view(&self) -> RepoFactsView {
        RepoFactsView { workdir: option_text(self.workdir), head: option_text(self.head) }
    }
}

impl Clone for RepoFacts {
    fn clone(&self) -> (res: Self)
        ensures
            res@ == self@,
    {
        RepoFacts { workdir: clone_option_text(&self.workdir), head: clone_option_text(&self.head) }
    }
}

/// What the registry asks its host to do.
#[derive(Debug)]
pub enum HostAction {
    /// Report whether the path exists.
    CheckPath(String),
    /// Open the git repository at the path and report what it holds.
    OpenRepository(String),
    /// Try to bind the port on the loopback interface, and release it again.
    ProbePort(u16),
    /// Create the directory and its missing parents.
    CreateDirectory(String),
    /// Delete the directory and all that it holds.
    RemoveDirectory(String),
    /// Run the command to its end and capture what it prints.
    Run(CommandLine),
    /// Start the command in the background, as the head of a new process group,
    /// with the variables added to its environment.
    Spawn(CommandLine, EnvVars),
    /// Terminate the process group that the process heads.
    Terminate(u32),
}

/// The mathematical value of a [`HostAction`].
pub enum HostActionView {
    CheckPath(Seq<char>),
    OpenRepository(Seq<char>),
    ProbePort(u16),
    CreateDirectory(Seq<char>),
    RemoveDirectory(Seq<char>),
    Run(CommandLineView),
    Spawn(CommandLineView, Map<Seq<char>, Seq<char>>),
    Terminate(u32),
}

impl View for HostAction {
    type V = HostActionView;

    open spec fn view(&self) -> HostActionView {
        match self {
            HostAction::CheckPath(path) => HostActionView::CheckPath(path@),
            HostAction::OpenRepository(path) => HostActionView::OpenRepository(path@),
            HostAction::ProbePort(port) => HostActionView::ProbePort(*port),
            HostAction::CreateDirectory(path) => HostActionView::CreateDirectory(path@),
            HostAction::RemoveDirectory(path) => HostActionView::RemoveDirectory(path@),
            HostAction::Run(command) => HostActionView::Run(command@),
            HostAction::Spawn(command, env) => HostActionView::Spawn(command@, env@),
            HostAction::Terminate(pid) => HostActionView::Terminate(*pid),
        }
    }
}

/// What the host reports back, one kind of reply for each kind of action.
#[derive(Debug)]
pub enum HostReply {
    /// To `CheckPath`: whether the path exists.
    PathChecked(bool),
    /// To `OpenRepository`: what the repository holds, or why it could not be opened.
    RepositoryOpened(Result<RepoFacts, String>),
    /// To `ProbePort`: whether the port could be bound.
    PortProbed(bool),
    /// To `CreateDirectory`: done, or why not.
    DirectoryCreated(Result<(), String>),
    /// To `RemoveDirectory`: done, or why not.
    DirectoryRemoved(Result<(), String>),
    /// To `Run`: how the run ended.
    Ran(CommandOutcome),
    /// To `Spawn`: the process id, or why the program did not start.
    Spawned(Result<u32, String>),
    /// To `Terminate`: done, or why the signal could not be sent.
    Terminated(Result<(), String>),
}

/// The mathematical value of a [`HostReply`].
pub enum HostReplyView {
    PathChecked(bool),
    RepositoryOpened(Result<RepoFactsView, Seq<char>>),
    PortProbed(bool),
    DirectoryCreated(Result<(), Seq<char>>),
    DirectoryRemoved(Result<(), Seq<char>>),
    Ran(CommandOutcomeView),
    Spawned(Result<u32, Seq<char>>),
    Terminated(Result<(), Seq<char>>),
}

/// The value of a reply that carries nothing on success.
pub open spec fn done_or_why(result: Result<(), String>) -> Result<(), Seq<char>> {
    match result {
        Ok(()) => Ok(()),
        Err(why) => Err(why@),
    }
}

impl View for HostReply {
    type V = HostReplyView;

    open spec fn view(&self) -> HostReplyView {
        match self {
            HostReply::PathChecked(exists) => HostReplyView::PathChecked(*exists),
            HostReply::RepositoryOpened(opened) => HostReplyView::RepositoryOpened(
                match opened {
                    Ok(facts) => Ok(facts@),
                    Err(why) => Err(why@),
                },
            ),
            HostReply::PortProbed(free) => HostReplyView::PortProbed(*free),
            HostReply::DirectoryCreated(result) => HostReplyView::DirectoryCreated(
                done_or_why(*result),
            ),
            HostReply::DirectoryRemoved(result) => HostReplyView::DirectoryRemoved(
                done_or_why(*result),
            ),
            HostReply::Ran(outcome) => HostReplyView::Ran(outcome@),
            HostReply::Spawned(spawned) => HostReplyView::Spawned(
                match spawned {
                    Ok(pid) => Ok(*pid),
                    Err(why) => Err(why@),
                },
            ),
            HostReply::Terminated(result) => HostReplyView::Terminated(done_or_why(*result)),
        }
    }
}

/// What a machine says after a reply: it goes on, in a new state and awaiting
/// the reply to a new action, or it is done with a result.
#[derive(Debug)]
pub enum Progress<M, T> {
    Continue(M, HostAction),
    Done(Result<T, AppError>),
}

/// The mathematical value of a [`Progress`].
pub enum ProgressView<M, T> {
    Continue(M, HostActionView),
    Done(Result<T, ErrorView>),
}

impl<M: View, T: View> View for Progress<M, T> {
    type V = ProgressView<M::V, T::V>;

    open spec fn view(&self) -> ProgressView<M::V, T::V> {
        match self {
            Progress::Continue(machine, action) => ProgressView::Continue(machine@, action@),
            Progress::Done(Ok(value)) => ProgressView::Done(Ok(value@)),
            Progress::Done(Err(error)) => ProgressView::Done(Err(error@)),
        }
    }
}

/// The command `program` with `args`, run where the host itself runs.
pub open spec fn command(program: Seq<char>, args: Seq<Seq<char>>) -> CommandLineView {
    CommandLineView { program, args, cwd: Seq::empty() }
}

/// The command `git` with `args`, run in `cwd`.
pub open spec fn git(cwd: Seq<char>, args: Seq<Seq<char>>) -> CommandLineView {
    CommandLineView { program: "git"@, args, cwd }
}

/// Builds the command `git` with `args`, to run in `cwd`.
pub fn git_command(cwd: &str, args: Vec<String>) -> (command: CommandLine)
    ensures
        command@ == git(cwd@, texts(args@)),
{
    CommandLine { program: String::from_str("git"), args, cwd: String::from_str(cwd) }
}

/// Whether `reply` is of the kind that answers `action`.
pub open spec fn answers(reply: HostReplyView, action: HostActionView) -> bool {
    match (action, reply) {
        (HostActionView::CheckPath(_), HostReplyView::PathChecked(_)) => true,
        (HostActionView::OpenRepository(_), HostReplyView::RepositoryOpened(_)) => true,
        (HostActionView::ProbePort(_), HostReplyView::PortProbed(_)) => true,
        (HostActionView::CreateDirectory(_), HostReplyView::DirectoryCreated(_)) => true,
        (HostActionView::RemoveDirectory(_), HostReplyView::DirectoryRemoved(_)) => true,
        (HostActionView::Run(_), HostReplyView::Ran(_)) => true,
        (HostActionView::Spawn(_, _), HostReplyView::Spawned(_)) => true,
        (HostActionView::Terminate(_), HostReplyView::Terminated(_)) => true,
        _ => false,
    }
}

} // verus!
