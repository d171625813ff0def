//! The data that the registry keeps and hands out.

pub mod agent;
pub mod checkpoint;
pub mod file;
pub mod git;
pub mod github;
pub mod repo;
pub mod scripts;
pub mod workspace;
