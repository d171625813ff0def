//! Scripts of a workspace and the background processes started from them.

use vstd::prelude::*;
use vstd::string::*;
use crate::models::workspace::EnvVars;
use crate::text::{clone_option_text, clone_option_texts, clone_texts, option_text, option_texts, texts};

verus! {

/// A script: a command line, with an optional one for Windows hosts.
#[derive(Debug)]
pub struct ScriptDef {
    pub name: String,
    pub command: String,
    pub args: Vec<String>,
    /// The command on a Windows host, where it differs.
    pub command_windows: Option<String>,
    /// The arguments on a Windows host, where they differ.
    pub args_windows: Option<Vec<String>>,
    /// The working directory, relative to the root of the worktree.
    pub cwd: Option<String>,
}

/// The mathematical value of a [`ScriptDef`].
pub struct ScriptView {
    pub name: Seq<char>,
    pub command: Seq<char>,
    pub args: Seq<Seq<char>>,
    pub command_windows: Option<Seq<char>>,
    pub args_windows: Option<Seq<Seq<char>>>,
    pub cwd: Option<Seq<char>>,
}

impl View for ScriptDef {
    type V = ScriptView;

    open spec fn view(&self) -> ScriptView {
        ScriptView {
            name: self.name@,
            command: self.command@,
            args: texts(self.args@),
            command_windows: option_text(self.command_windows),
            args_windows: option_texts(self.args_windows),
            cwd: option_text(self.cwd),
        }
    }
}

impl Clone for ScriptDef {
    fn clone(&self) -> (res: Self)
        ensures
            res@ == self@,
    {
        ScriptDef {
            name: self.name.clone(),
            command: self.command.clone(),
            args: clone_texts(&self.args),
            command_windows: clone_option_text(&self.command_windows),
            args_windows: clone_option_texts(&self.args_windows),
            cwd: clone_option_text(&self.cwd),
        }
    }
}

/// The configuration file of a workspace: its scripts by phase, and extra environment.
#[derive(Debug)]
pub struct HeroiConfig {
    pub setup: Vec<ScriptDef>,
    pub run: Vec<ScriptDef>,
    pub archive: Vec<ScriptDef>,
    pub env: EnvVars,
}

/// The scripts of a list, each by its value.
pub open spec fn script_views(scripts: Seq<ScriptDef>) -> Seq<ScriptView> {
    scripts.map_values(|s: ScriptDef| s@)
}

/// The mathematical value of a [`HeroiConfig`].
pub struct HeroiConfigView {
    pub setup: Seq<ScriptView>,
    pub run: Seq<ScriptView>,
    pub archive: Seq<ScriptView>,
    pub env: Map<Seq<char>, Seq<char>>,
}

impl View for HeroiConfig {
    type V = HeroiConfigView;

    open spec fn view(&self) -> HeroiConfigView {
        HeroiConfigView {
            setup: script_views(self.setup@),
            run: script_views(self.run@),
            archive: script_views(self.archive@),
            env: self.env@,
        }
    }
}

impl Default for HeroiConfig {
    /// The configuration of a workspace that has no configuration file: nothing to run.
    fn default() -> (config: Self)
        ensures
            config@.setup.len() == 0,
            config@.run.len() == 0,
            config@.archive.len() == 0,
            config@.env == Map::<Seq<char>, Seq<char>>::empty(),
    {
        HeroiConfig { setup: Vec::new(), run: Vec::new(), archive: Vec::new(), env: EnvVars::new() }
    }
}

fn clone_scripts(scripts: &Vec<ScriptDef>) -> (copy: Vec<ScriptDef>)
    ensures
        script_views(copy@) == script_views(scripts@),
{
    let mut copy: Vec<ScriptDef> = Vec::new();
    let mut i: usize = 0;
    while i < scripts.len()
        invariant
            i <= scripts.len(),
            copy@.len() == i,
            forall|j: int| 0 <= j < i ==> copy@[j]@ == scripts@[j]@,
        decreases scripts.len() - i,
    {
        copy.push(scripts[i].clone());
        i += 1;
    }
    assert(script_views(copy@) =~= script_views(scripts@));
    copy
}

impl Clone for HeroiConfig {
    fn clone(&self) -> (res: Self)
        ensures
            res@ == self@,
    {
        HeroiConfig {
            setup: clone_scripts(&self.setup),
            run: clone_scripts(&self.run),
            archive: clone_scripts(&self.archive),
            env: self.env.clone(),
        }
    }
}

/// Where a tracked process stands.
#[derive(Clone, Copy, Debug, PartialEq, Eq, Structural)]
pub enum ProcessStatus {
    Running,
    Exited,
    Failed,
}

/// A background process started for a workspace.
#[derive(Debug)]
pub struct RunningProcess {
    pub id: String,
    pub workspace_id: String,
    pub script_name: String,
    pub pid: u32,
    pub status: ProcessStatus,
}

/// The mathematical value of a [`RunningProcess`].
pub struct ProcessView {
    pub id: Seq<char>,
    pub workspace_id: Seq<char>,
    pub script_name: Seq<char>,
    pub pid: u32,
    pub status: ProcessStatus,
}

impl View for RunningProcess {
    type V = ProcessView;

    open spec fn view(&self) -> ProcessView {
        ProcessView {
            id: self.id@,
            workspace_id: self.workspace_id@,
            script_name: self.script_name@,
            pid: self.pid,
            status: self.status,
        }
    }
}

impl Clone for RunningProcess {
    fn clone(&self) -> (res: Self)
        ensures
            res@ == self@,
    {
        RunningProcess {
            id: self.id.clone(),
            workspace_id: self.workspace_id.clone(),
            script_name: self.script_name.clone(),
            pid: self.pid,
            status: self.status,
        }
    }
}

} // verus!
