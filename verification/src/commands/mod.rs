//! The operations of the registry, one module for each group.

pub mod agents;
pub mod checkpoints;
pub mod files;
pub mod git;
pub mod github;
pub mod ide;
pub mod repos;
pub mod scripts;
pub mod workspace_lifecycle;
pub mod worktrees;
