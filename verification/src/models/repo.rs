//! Repositories known to the registry, and the worktrees of one.

use vstd::prelude::*;
use vstd::string::*;
use crate::text::{clone_option_text, option_text};

verus! {

/// A repository that the user has added.
#[derive(Debug)]
pub struct RepoEntry {
    pub path: String,
    pub name: String,
}

/// The mathematical value of a [`RepoEntry`].
pub struct RepoView {
    pub path: Seq<char>,
    pub name: Seq<char>,
}

impl View for RepoEntry {
    type V = RepoView;

    open spec fn view(&self) -> RepoView {
        RepoView { path: self.path@, name: self.name@ }
    }
}

impl Clone for RepoEntry {
    fn clone(&self) -> (res: Self)
        ensures
            res@ == self@,
    {
        RepoEntry { path: self.path.clone(), name: self.name.clone() }
    }
}

/// One working directory of a repository.
#[derive(Debug)]
pub struct WorktreeInfo {
    pub name: String,
    pub path: String,
    pub branch: Option<String>,
    pub is_main: bool,
}

/// The mathematical value of a [`WorktreeInfo`].
pub struct WorktreeView {
    pub name: Seq<char>,
    pub path: Seq<char>,
    pub branch: Option<Seq<char>>,
    pub is_main: bool,
}

impl View for WorktreeInfo {
    type V = WorktreeView;

    open spec fn view(&self) -> WorktreeView {
        WorktreeView {
            name: self.name@,
            path: self.path@,
            branch: option_text(self.branch),
            is_main: self.is_main,
        }
    }
}

impl Clone for WorktreeInfo {
    fn clone(&self) -> (res: Self)
        ensures
            res@ == self@,
    {
        WorktreeInfo {
            name: self.name.clone(),
            path: self.path.clone(),
            branch: clone_option_text(&self.branch),
            is_main: self.is_main,
        }
    }
}

} // verus!
