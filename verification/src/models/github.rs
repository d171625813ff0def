//! Pull requests of the hosted review service.

use vstd::prelude::*;
use vstd::string::*;
use crate::text::{clone_option_text, option_text};

verus! {

/// A pull request.
#[derive(Debug)]
pub struct PrInfo {
    pub number: u64,
    pub title: String,
    pub state: String,
    pub url: String,
    pub head_branch: String,
    pub base_branch: String,
    pub draft: bool,
    pub mergeable: Option<String>,
    pub additions: u64,
    pub deletions: u64,
    pub changed_files: u64,
}

/// The mathematical value of a [`PrInfo`].
pub struct PrView {
    pub number: u64,
    pub title: Seq<char>,
    pub state: Seq<char>,
    pub url: Seq<char>,
    pub head_branch: Seq<char>,
    pub base_branch: Seq<char>,
    pub draft: bool,
    pub mergeable: Option<Seq<char>>,
    pub additions: u64,
    pub deletions: u64,
    pub changed_files: u64,
}

impl View for PrInfo {
    type V = PrView;

    open spec fn view(&self) -> PrView {
        PrView {
            number: self.number,
            title: self.title@,
            state: self.state@,
            url: self.url@,
            head_branch: self.head_branch@,
            base_branch: self.base_branch@,
            draft: self.draft,
            mergeable: option_text(self.mergeable),
            additions: self.additions,
            deletions: self.deletions,
            changed_files: self.changed_files,
        }
    }
}

impl Clone for PrInfo {
    fn clone(&self) -> (res: Self)
        ensures
            res@ == self@,
    {
        PrInfo {
            number: self.number,
            title: self.title.clone(),
            state: self.state.clone(),
            url: self.url.clone(),
            head_branch: self.head_branch.clone(),
            base_branch: self.base_branch.clone(),
            draft: self.draft,
            mergeable: clone_option_text(&self.mergeable),
            additions: self.additions,
            deletions: self.deletions,
            changed_files: self.changed_files,
        }
    }
}

/// One check of a pull request.
#[derive(Debug)]
pub struct CheckRun {
    pub name: String,
    pub status: String,
    pub conclusion: Option<String>,
}

/// The mathematical value of a [`CheckRun`].
pub struct CheckView {
    pub name: Seq<char>,
    pub status: Seq<char>,
    pub conclusion: Option<Seq<char>>,
}

impl View for CheckRun {
    type V = CheckView;

    open spec fn view(&self) -> CheckView {
        CheckView {
            name: self.name@,
            status: self.status@,
            conclusion: option_text(self.conclusion),
        }
    }
}

impl Clone for CheckRun {
    fn clone(&self) -> (res: Self)
        ensures
            res@ == self@,
    {
        CheckRun {
            name: self.name.clone(),
            status: self.status.clone(),
            conclusion: clone_option_text(&self.conclusion),
        }
    }
}

/// How a pull request is merged.
#[derive(Clone, Copy, Debug, PartialEq, Eq, Structural)]
pub enum MergeMethod {
    Merge,
    Squash,
    Rebase,
}

impl MergeMethod {
    /// The flag of the review tool's command line that asks for this method.
    pub open spec fn flag(self) -> Seq<char> {
        match self {
            MergeMethod::Merge => "--merge"@,
            MergeMethod::Squash => "--squash"@,
            MergeMethod::Rebase => "--rebase"@,
        }
    }

    /// The flag of the review tool's command line that asks for this method.
    pub fn as_flag(&self) -> (flag: &'static str)
        ensures
            flag@ == self.flag(),
    {
        match self {
            MergeMethod::Merge => "--merge",
            MergeMethod::Squash => "--squash",
            MergeMethod::Rebase => "--rebase",
        }
    }
}

} // verus!
