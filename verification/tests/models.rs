use heroi::error::{AppError, ErrorKind};
use heroi::host::{CommandLine, RepoFacts};
use heroi::models::agent::AgentDef;
use heroi::models::checkpoint::Checkpoint;
use heroi::models::file::{DirEntry, FileContent, FileType};
use heroi::models::git::{DiffOutput, FileState, GitFileStatus};
use heroi::models::github::{CheckRun, PrInfo};
use heroi::models::repo::{RepoEntry, WorktreeInfo};
use heroi::models::scripts::{ProcessStatus, RunningProcess, ScriptDef};
use heroi::models::workspace::{EnvVars, WorkspaceConfig, WorkspaceStatus};
use heroi::state::AppData;
use heroi::text::{clone_option_text, clone_option_texts, clone_texts, ends_with, is_one_of, take_chars};

fn text(s: &str) -> String {
    s.to_string()
}

#[test]
fn later_binding_of_a_name_wins() {
    let mut env = EnvVars::new();
    assert!(env.get("A").is_none());
    env.insert(text("A"), text("1"));
    env.insert(text("B"), text("2"));
    env.insert(text("A"), text("3"));
    assert_eq!(env.get("A").unwrap(), "3");
    assert_eq!(env.get("B").unwrap(), "2");
    assert!(env.get("a").is_none());
    let copy = env.clone();
    assert_eq!(copy.get("A").unwrap(), "3");
    assert_eq!(copy.entries.len(), 3);
}

#[test]
fn status_defaults_to_active() {
    assert_eq!(WorkspaceStatus::default(), WorkspaceStatus::Active);
}

#[test]
fn empty_table_holds_nothing() {
    for data in [AppData::new(), AppData::default()] {
        assert!(data.repos.is_empty());
        assert!(data.workspaces.is_empty());
        assert!(data.allocated_ports.is_empty());
        assert!(data.running_processes.is_empty());
        assert!(data.checkpoints.is_empty());
    }
}

#[test]
fn copies_hold_the_same_values() {
    let mut env = EnvVars::new();
    env.insert(text("K"), text("V"));
    let ws = WorkspaceConfig {
        id: text("id"),
        name: text("n"),
        repo_path: text("/r"),
        worktree_path: text("/r/.worktrees/n"),
        branch: text("b"),
        is_main_worktree: true,
        env_vars: env,
        port_base: 3010,
        status: WorkspaceStatus::Archived,
        created_at: text("t"),
    };
    let copy = ws.clone();
    assert_eq!(
        (copy.id, copy.name, copy.repo_path, copy.worktree_path, copy.branch, copy.created_at),
        (ws.id, ws.name, ws.repo_path, ws.worktree_path, ws.branch, ws.created_at)
    );
    assert_eq!((copy.is_main_worktree, copy.port_base, copy.status), (true, 3010, WorkspaceStatus::Archived));
    assert_eq!(copy.env_vars.get("K").unwrap(), "V");

    let script = ScriptDef {
        name: text("s"),
        command: text("c"),
        args: vec![text("a1"), text("a2")],
        command_windows: Some(text("cw")),
        args_windows: Some(vec![text("w1")]),
        cwd: None,
    };
    let copy = script.clone();
    assert_eq!((copy.name, copy.command, copy.args), (script.name, script.command, script.args));
    assert_eq!((copy.command_windows, copy.args_windows, copy.cwd), (script.command_windows, script.args_windows, None));

    let process = RunningProcess {
        id: text("w-1"),
        workspace_id: text("w"),
        script_name: text("s"),
        pid: 1,
        status: ProcessStatus::Failed,
    };
    let copy = process.clone();
    assert_eq!((copy.id, copy.workspace_id, copy.script_name, copy.pid, copy.status), (text("w-1"), text("w"), text("s"), 1, ProcessStatus::Failed));

    let cp = Checkpoint {
        id: text("cp-1"),
        workspace_id: text("w"),
        label: text("l"),
        git_ref: text("r"),
        created_at: text("t"),
        file_count: 7,
        agent_id: Some(text("a")),
    };
    let copy = cp.clone();
    assert_eq!((copy.id, copy.label, copy.git_ref, copy.file_count, copy.agent_id), (text("cp-1"), text("l"), text("r"), 7, Some(text("a"))));

    let repo = RepoEntry { path: text("/p"), name: text("p") }.clone();
    assert_eq!((repo.path, repo.name), (text("/p"), text("p")));
    let wt = WorktreeInfo { name: text("n"), path: text("/p"), branch: Some(text("b")), is_main: false }.clone();
    assert_eq!((wt.name, wt.path, wt.branch, wt.is_main), (text("n"), text("/p"), Some(text("b")), false));
    let agent = AgentDef { id: text("i"), name: text("n"), command: text("c"), args: vec![text("x")], description: text("d") }.clone();
    assert_eq!((agent.id, agent.args, agent.description), (text("i"), vec![text("x")], text("d")));
    let entry = DirEntry { name: text("n"), path: text("/n"), is_dir: true, size: 2, file_type: FileType::Json }.clone();
    assert_eq!((entry.name, entry.is_dir, entry.size, entry.file_type), (text("n"), true, 2, FileType::Json));
    let content = FileContent { path: text("/n"), content: text("c"), file_type: FileType::Code, size: 1 }.clone();
    assert_eq!((content.path, content.content, content.file_type, content.size), (text("/n"), text("c"), FileType::Code, 1));
    let status = GitFileStatus { path: text("f"), staged: FileState::Added, unstaged: FileState::Deleted }.clone();
    assert_eq!((status.path, status.staged, status.unstaged), (text("f"), FileState::Added, FileState::Deleted));
    let diff = DiffOutput { file_path: text("f"), diff_text: text("d") }.clone();
    assert_eq!((diff.file_path, diff.diff_text), (text("f"), text("d")));
    let check = CheckRun { name: text("n"), status: text("s"), conclusion: None }.clone();
    assert_eq!((check.name, check.status, check.conclusion), (text("n"), text("s"), None));
    let pr = PrInfo {
        number: 1,
        title: text("t"),
        state: text("s"),
        url: text("u"),
        head_branch: text("h"),
        base_branch: text("b"),
        draft: true,
        mergeable: Some(text("m")),
        additions: 2,
        deletions: 3,
        changed_files: 4,
    }
    .clone();
    assert_eq!((pr.number, pr.title, pr.draft, pr.mergeable, pr.changed_files), (1, text("t"), true, Some(text("m")), 4));
    let command = CommandLine { program: text("p"), args: vec![text("a")], cwd: text("/c") }.clone();
    assert_eq!((command.program, command.args, command.cwd), (text("p"), vec![text("a")], text("/c")));
    let facts = RepoFacts { workdir: Some(text("/w")), head: None }.clone();
    assert_eq!((facts.workdir, facts.head), (Some(text("/w")), None));
}

#[test]
fn errors_carry_kind_and_message() {
    let e = AppError::new(ErrorKind::IoFailure, "disk full");
    assert_eq!((e.kind, e.message()), (ErrorKind::IoFailure, text("disk full")));
    let e = AppError::with_detail(ErrorKind::NotFound, "no ", "such");
    assert_eq!(e.message(), "no such");
    let e = AppError::quoting(ErrorKind::ProcessNotFound, "<", "x", ">");
    assert_eq!(e.message(), "<x>");
    let copy = e.clone();
    assert_eq!((copy.kind, copy.message), (ErrorKind::ProcessNotFound, text("<x>")));
}

#[test]
fn text_helpers() {
    assert_eq!(clone_texts(&vec![text("a"), text("b")]), vec!["a", "b"]);
    assert_eq!(clone_option_text(&Some(text("a"))), Some(text("a")));
    assert_eq!(clone_option_text(&None), None);
    assert_eq!(clone_option_texts(&Some(vec![text("a")])), Some(vec![text("a")]));
    assert_eq!(clone_option_texts(&None), None);
    assert!(ends_with("origin/HEAD", "/HEAD"));
    assert!(ends_with("/HEAD", "/HEAD"));
    assert!(!ends_with("HEAD", "/HEAD"));
    assert!(!ends_with("origin/HEADS", "/HEAD"));
    assert!(ends_with("x", ""));
    assert!(ends_with("é/HEAD", "/HEAD"));
    assert!(is_one_of("b", &vec!["a", "b"]));
    assert!(!is_one_of("c", &vec!["a", "b"]));
    assert!(!is_one_of("", &vec![]));
    assert_eq!(take_chars("abcdefghij", 8), "abcdefgh");
    assert_eq!(take_chars("abc", 8), "abc");
    assert_eq!(take_chars("éééééééééé", 8), "éééééééé");
    assert_eq!(take_chars("abc", 0), "");
}
