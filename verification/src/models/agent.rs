//! Coding agents that can be started in a workspace.

use vstd::prelude::*;
use vstd::string::*;
use crate::text::{clone_texts, texts};

verus! {

/// A coding agent: what it is called and how it is started.
#[derive(Debug)]
pub struct AgentDef {
    pub id: String,
    pub name: String,
    pub command: String,
    pub args: Vec<String>,
    pub description: String,
}

/// The mathematical value of an [`AgentDef`].
pub struct AgentView {
    pub id: Seq<char>,
    pub name: Seq<char>,
    pub command: Seq<char>,
    pub args: Seq<Seq<char>>,
    pub description: Seq<char>,
}

impl View for AgentDef {
    type V = AgentView;

    open spec fn view(&self) -> AgentView {
        AgentView {
            id: self.id@,
            name: self.name@,
            command: self.command@,
            args: texts(self.args@),
            description: self.description@,
        }
    }
}

impl Clone for AgentDef {
    fn clone(&self) -> (res: Self)
        ensures
            res@ == self@,
    {
        AgentDef {
            id: self.id.clone(),
            name: self.name.clone(),
            command: self.command.clone(),
            args: clone_texts(&self.args),
            description: self.description.clone(),
        }
    }
}

} // verus!
