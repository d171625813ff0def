//! A workspace: one isolated working copy with its port range and environment.

use vstd::prelude::*;
use vstd::string::*;
use crate::text::same_text;

verus! {

/// Whether a workspace is in use or set aside.
#[derive(Clone, Copy, Debug, PartialEq, Eq, Structural)]
pub enum WorkspaceStatus {
    Active,
    Archived,
}

impl Default for WorkspaceStatus {
    fn default() -> (status: Self)
        ensures
            status == WorkspaceStatus::Active,
    {
        WorkspaceStatus::Active
    }
}

/// One environment variable.
#[derive(Debug)]
pub struct EnvVar {
    pub name: String,
    pub value: String,
}

/// Environment variables by name. A later entry overrides an earlier one of the same name.
#[derive(Debug)]
pub struct EnvVars {
    pub entries: Vec<EnvVar>,
}

/// The name and value of each entry, in order.
pub open spec fn pairs(entries: Seq<EnvVar>) -> Seq<(Seq<char>, Seq<char>)> {
    entries.map_values(|e: EnvVar| (e.name@, e.value@))
}

/// The map that a list of bindings stands for: the last binding of a name wins.
pub open spec fn bindings(pairs: Seq<(Seq<char>, Seq<char>)>) -> Map<Seq<char>, Seq<char>>
    decreases pairs.len(),
{
    if pairs.len() == 0 {
        Map::empty()
    } else {
        bindings(pairs.drop_last()).insert(pairs.last().0, pairs.last().1)
    }
}

/// A name bound at `i` and nowhere after `i` maps to the value at `i`;
/// a name bound nowhere is not in the map.
pub proof fn lemma_bindings_lookup(pairs: Seq<(Seq<char>, Seq<char>)>, name: Seq<char>, i: int)
    requires
        -1 <= i < pairs.len(),
        i >= 0 ==> pairs[i].0 == name,
        forall|j: int| i < j < pairs.len() ==> pairs[j].0 != name,
    ensures
        i >= 0 ==> bindings(pairs).contains_key(name) && bindings(pairs)[name] == pairs[i].1,
        i < 0 ==> !bindings(pairs).contains_key(name),
    decreases pairs.len(),
{
    if pairs.len() > 0 {
        if i < pairs.len() - 1 {
            lemma_bindings_lookup(pairs.drop_last(), name, i);
        }
    }
}

impl View for EnvVars {
    type V = Map<Seq<char>, Seq<char>>;

    open spec fn view(&self) -> Map<Seq<char>, Seq<char>> {
        bindings(pairs(self.entries@))
    }
}

impl EnvVars {
    /// No variables.
    pub fn new() -> (vars: EnvVars)
        ensures
            vars@ == Map::<Seq<char>, Seq<char>>::empty(),
    {
        EnvVars { entries: Vec::new() }
    }

    /// Binds `name` to `value`, replacing what `name` was bound to.
    pub fn insert(&mut self, name: String, value: String)
        ensures
            final(self)@ == old(self)@.insert(name@, value@),
    {
        let ghost before = pairs(self.entries@);
        self.entries.push(EnvVar { name, value });
        proof {
            let after = pairs(self.entries@);
            assert(after.drop_last() =~= before);
        }
    }

    /// The value bound to `name`, if any.
    pub fn get(&self, name: &str) -> (value: Option<String>)
        ensures
            match value {
                Some(v) => self@.contains_key(name@) && v@ == self@[name@],
                None => !self@.contains_key(name@),
            },
    {
        let mut i: usize = self.entries.len();
        while i > 0
            invariant
                i <= self.entries.len(),
                forall|j: int| i <= j < self.entries.len() ==> pairs(self.entries@)[j].0 != name@,
            decreases i,
        {
            i -= 1;
            if same_text(self.entries[i].name.as_str(), name) {
                proof {
                    lemma_bindings_lookup(pairs(self.entries@), name@, i as int);
                }
                return Some(self.entries[i].value.clone());
            }
        }
        proof {
            lemma_bindings_lookup(pairs(self.entries@), name@, -1);
        }
        None
    }
}

impl Clone for EnvVars {
    fn clone(&self) -> (res: Self)
        ensures
            res@ == self@,
    {
        let mut entries: Vec<EnvVar> = Vec::new();
        let mut i: usize = 0;
        while i < self.entries.len()
            invariant
                i <= self.entries.len(),
                entries@.len() == i,
                forall|j: int|
                    0 <= j < i ==> entries@[j].name@ == self.entries@[j].name@ && entries@[j].value@
                        == self.entries@[j].value@,
            decreases self.entries.len() - i,
        {
            entries.push(
                EnvVar { name: self.entries[i].name.clone(), value: self.entries[i].value.clone() },
            );
            i += 1;
        }
        assert(pairs(entries@) =~= pairs(self.entries@));
        EnvVars { entries }
    }
}

/// A workspace: a worktree (or the repository's own directory) with a private
/// port range and the environment given to its processes.
#[derive(Debug)]
pub struct WorkspaceConfig {
    pub id: String,
    pub name: String,
    pub repo_path: String,
    pub worktree_path: String,
    pub branch: String,
    pub is_main_worktree: bool,
    pub env_vars: EnvVars,
    pub port_base: u16,
    pub status: WorkspaceStatus,
    pub created_at: String,
}

/// The mathematical value of a [`WorkspaceConfig`].
pub struct WorkspaceView {
    pub id: Seq<char>,
    pub name: Seq<char>,
    pub repo_path: Seq<char>,
    pub worktree_path: Seq<char>,
    pub branch: Seq<char>,
    pub is_main_worktree: bool,
    pub env_vars: Map<Seq<char>, Seq<char>>,
    pub port_base: u16,
    pub status: WorkspaceStatus,
    pub created_at: Seq<char>,
}

impl View for WorkspaceConfig {
    type V = WorkspaceView;

    open spec fn view(&self) -> WorkspaceView {
        WorkspaceView {
            id: self.id@,
            name: self.name@,
            repo_path: self.repo_path@,
            worktree_path: self.worktree_path@,
            branch: self.branch@,
            is_main_worktree: self.is_main_worktree,
            env_vars: self.env_vars@,
            port_base: self.port_base,
            status: self.status,
            created_at: self.created_at@,
        }
    }
}

impl Clone for WorkspaceConfig {
    fn clone(&self) -> (res: Self)
        ensures
            res@ == self@,
    {
        WorkspaceConfig {
            id: self.id.clone(),
            name: self.name.clone(),
            repo_path: self.repo_path.clone(),
            worktree_path: self.worktree_path.clone(),
            branch: self.branch.clone(),
            is_main_worktree: self.is_main_worktree,
            env_vars: self.env_vars.clone(),
            port_base: self.port_base,
            status: self.status,
            created_at: self.created_at.clone(),
        }
    }
}

} // verus!
