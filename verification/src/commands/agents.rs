//! The coding agents that the tool knows how to start.

use vstd::prelude::*;
use vstd::string::*;
use crate::models::agent::{AgentDef, AgentView};

verus! {

/// An agent that is started without arguments.
pub open spec fn agent(
    id: Seq<char>,
    name: Seq<char>,
    command: Seq<char>,
    description: Seq<char>,
) -> AgentView {
    AgentView { id, name, command, args: Seq::empty(), description }
}

/// The agents on offer, in the order in which they are shown. The last one is
/// a plain shell: PowerShell on a Windows host, `bash` elsewhere.
pub open spec fn agents(windows: bool) -> Seq<AgentView> {
    seq![
        agent("codex"@, "Codex"@, "codex"@, "OpenAI Codex CLI agent"@),
        agent("gemini"@, "Gemini CLI"@, "gemini"@, "Google Gemini CLI agent"@),
        agent("aider"@, "Aider"@, "aider"@, "Aider AI pair programming tool"@),
        agent(
            "shell"@,
            "Shell"@,
            if windows {
                "powershell.exe"@
            } else {
                "bash"@
            },
            "Plain terminal shell"@,
        ),
    ]
}

/// The agents of a list, each by its value.
pub open spec fn agent_views(list: Seq<AgentDef>) -> Seq<AgentView> {
    list.map_values(|a: AgentDef| a@)
}

fn make_agent(id: &str, name: &str, command: &str, description: &str) -> (made: AgentDef)
    ensures
        made@ == agent(id@, name@, command@, description@),
{
    let made = AgentDef {
        id: String::from_str(id),
        name: String::from_str(name),
        command: String::from_str(command),
        args: Vec::new(),
        description: String::from_str(description),
    };
    assert(made@.args =~= Seq::empty());
    made
}

/// The agents on offer on this host, which is a Windows one if `windows` says so.
pub fn list_agents(windows: bool) -> (list: Vec<AgentDef>)
    ensures
        agent_views(list@) == agents(windows),
{
    let mut list: Vec<AgentDef> = Vec::new();
    list.push(make_agent("codex", "Codex", "codex", "OpenAI Codex CLI agent"));
    list.push(make_agent("gemini", "Gemini CLI", "gemini", "Google Gemini CLI agent"));
    list.push(make_agent("aider", "Aider", "aider", "Aider AI pair programming tool"));
    list.push(
        make_agent(
            "shell",
            "Shell",
            if windows {
                "powershell.exe"
            } else {
                "bash"
            },
            "Plain terminal shell",
        ),
    );
    assert(agent_views(list@) =~= agents(windows));
    list
}

} // verus!
