//! What the version-control backend tells of the files of a worktree.

use vstd::prelude::*;
use vstd::string::*;

verus! {

/// What happened to a file, in the index or in the working directory.
#[derive(Clone, Copy, Debug, PartialEq, Eq, Structural)]
pub enum FileState {
    Unmodified,
    Added,
    Modified,
    Deleted,
    Renamed,
    Typechange,
    Untracked,
    Conflicted,
}

/// The state of one file: what is staged of it, and what is not.
#[derive(Debug)]
pub struct GitFileStatus {
    pub path: String,
    pub staged: FileState,
    pub unstaged: FileState,
}

/// The mathematical value of a [`GitFileStatus`].
pub struct FileStatusView {
    pub path: Seq<char>,
    pub staged: FileState,
    pub unstaged: FileState,
}

impl View for GitFileStatus {
    type V = FileStatusView;

    open spec fn view(&self) -> FileStatusView {
        FileStatusView { path: self.path@, staged: self.staged, unstaged: self.unstaged }
    }
}

impl Clone for GitFileStatus {
    fn clone(&self) -> (res: Self)
        ensures
            res@ == self@,
    {
        GitFileStatus { path: self.path.clone(), staged: self.staged, unstaged: self.unstaged }
    }
}

/// The changes of one file, as a patch.
#[derive(Debug)]
pub struct DiffOutput {
    pub file_path: String,
    pub diff_text: String,
}

/// The mathematical value of a [`DiffOutput`].
pub struct DiffView {
    pub file_path: Seq<char>,
    pub diff_text: Seq<char>,
}

impl View for DiffOutput {
    type V = DiffView;

    open spec fn view(&self) -> DiffView {
        DiffView { file_path: self.file_path@, diff_text: self.diff_text@ }
    }
}

impl Clone for DiffOutput {
    fn clone(&self) -> (res: Self)
        ensures
            res@ == self@,
    {
        DiffOutput { file_path: self.file_path.clone(), diff_text: self.diff_text.clone() }
    }
}

} // verus!
