//! Checkpoints: named commits that a workspace can be reset to.

use vstd::prelude::*;
use vstd::string::*;
use crate::text::{clone_option_text, option_text};

verus! {

/// A snapshot of a workspace, kept as a commit.
#[derive(Debug)]
pub struct Checkpoint {
    pub id: String,
    pub workspace_id: String,
    pub label: String,
    pub git_ref: String,
    pub created_at: String,
    pub file_count: u32,
    pub agent_id: Option<String>,
}

/// The mathematical value of a [`Checkpoint`].
pub struct CheckpointView {
    pub id: Seq<char>,
    pub workspace_id: Seq<char>,
    pub label: Seq<char>,
    pub git_ref: Seq<char>,
    pub created_at: Seq<char>,
    pub file_count: u32,
    pub agent_id: Option<Seq<char>>,
}

impl View for Checkpoint {
    type V = CheckpointView;

    open spec fn view(&self) -> CheckpointView {
        CheckpointView {
            id: self.id@,
            workspace_id: self.workspace_id@,
            label: self.label@,
            git_ref: self.git_ref@,
            created_at: self.created_at@,
            file_count: self.file_count,
            agent_id: option_text(self.agent_id),
        }
    }
}

impl Clone for Checkpoint {
    fn clone(&self) -> (res: Self)
        ensures
            res@ == self@,
    {
        Checkpoint {
            id: self.id.clone(),
            workspace_id: self.workspace_id.clone(),
            label: self.label.clone(),
            git_ref: self.git_ref.clone(),
            created_at: self.created_at.clone(),
            file_count: self.file_count,
            agent_id: clone_option_text(&self.agent_id),
        }
    }
}

} // verus!
