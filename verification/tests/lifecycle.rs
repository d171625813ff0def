use heroi::commands::workspace_lifecycle::{
    archive_workspace, create_workspace, create_workspace_for_main, delete_workspace,
    deregister_workspace, find_workspace, fresh_workspace_id, get_workspace_env,
    list_workspace_configs,
    load_workspace_configs, register_workspace, restore_workspace, WorkspaceCreation,
    WorkspaceDeletion,
};
use heroi::error::{AppError, ErrorKind};
use heroi::host::{CommandOutcome, HostAction, HostReply, Progress, RepoFacts};
use heroi::models::workspace::{WorkspaceConfig, WorkspaceStatus};
use heroi::calendar::timestamp_at;
use heroi::state::{AppData, AppState};
use std::collections::HashSet;

const NOW: u128 = 1_700_000_000_123_456_789;

fn text(s: &str) -> String {
    s.to_string()
}

fn ran(success: bool, stderr: &str) -> HostReply {
    HostReply::Ran(CommandOutcome::Exited {
        success,
        stdout: String::new(),
        stderr: stderr.to_string(),
    })
}

fn facts(workdir: Option<&str>, head: Option<&str>) -> HostReply {
    HostReply::RepositoryOpened(Ok(RepoFacts {
        workdir: workdir.map(text),
        head: head.map(text),
    }))
}

/// Feeds the replies to the creation, one after the other, and returns the
/// actions that it asked for and how it ended.
fn run_creation(
    started: Progress<WorkspaceCreation, WorkspaceConfig>,
    data: &mut AppData,
    replies: Vec<HostReply>,
) -> (Vec<HostAction>, Option<Result<WorkspaceConfig, AppError>>) {
    run_creation_at(started, data, replies, NOW)
}

fn run_creation_at(
    started: Progress<WorkspaceCreation, WorkspaceConfig>,
    data: &mut AppData,
    replies: Vec<HostReply>,
    now: u128,
) -> (Vec<HostAction>, Option<Result<WorkspaceConfig, AppError>>) {
    let mut actions = Vec::new();
    let mut progress = started;
    let mut replies = replies.into_iter();
    loop {
        match progress {
            Progress::Done(result) => return (actions, Some(result)),
            Progress::Continue(machine, action) => {
                actions.push(action);
                match replies.next() {
                    Some(reply) => progress = machine.advance_at(data, &reply, now),
                    None => return (actions, None),
                }
            }
        }
    }
}

fn run_deletion(
    started: Progress<WorkspaceDeletion, ()>,
    data: &mut AppData,
    replies: Vec<HostReply>,
) -> (Vec<HostAction>, Option<Result<(), AppError>>) {
    let mut actions = Vec::new();
    let mut progress = started;
    let mut replies = replies.into_iter();
    loop {
        match progress {
            Progress::Done(result) => return (actions, Some(result)),
            Progress::Continue(machine, action) => {
                actions.push(action);
                match replies.next() {
                    Some(reply) => progress = machine.advance(data, &reply),
                    None => return (actions, None),
                }
            }
        }
    }
}

fn happy_replies() -> Vec<HostReply> {
    vec![
        HostReply::PathChecked(true),
        facts(Some("/repo/"), Some("main")),
        HostReply::PortProbed(true),
        HostReply::PathChecked(true),
        ran(true, ""),
    ]
}

fn create_at(data: &mut AppData, name: &str, now: u128) -> WorkspaceConfig {
    let started = create_workspace(text("/repo"), text(name), None, None);
    run_creation_at(started, data, happy_replies(), now).1.unwrap().unwrap()
}

/// Creates a workspace; each one at a later moment than the one before.
fn create(data: &mut AppData, name: &str) -> WorkspaceConfig {
    let started = create_workspace(text("/repo"), text(name), None, None);
    let now = NOW + 1_000_000_007 * data.workspaces.len() as u128;
    let (_, result) = run_creation_at(started, data, happy_replies(), now);
    result.unwrap().unwrap()
}

fn command_of(action: &HostAction) -> (String, Vec<String>, String) {
    match action {
        HostAction::Run(c) => (c.program.clone(), c.args.clone(), c.cwd.clone()),
        other => panic!("not a command: {:?}", other),
    }
}

#[test]
fn fresh_workspace_gets_port_3000_and_its_own_worktree() {
    let mut data = AppData::new();
    let started = create_workspace(text("/repo"), text("feature-x"), None, None);
    let (actions, result) = run_creation(started, &mut data, happy_replies());
    let ws = result.unwrap().unwrap();
    assert_eq!(ws.port_base, 3000);
    assert!(!ws.is_main_worktree);
    assert_eq!(ws.status, WorkspaceStatus::Active);
    assert!(ws.worktree_path.ends_with("/.worktrees/feature-x"));
    assert_eq!(ws.worktree_path, "/repo/.worktrees/feature-x");
    assert_eq!(ws.name, "feature-x");
    assert_eq!(ws.branch, "feature-x");
    assert_eq!(ws.repo_path, "/repo");
    assert_eq!(ws.created_at, "2023-11-14T22:13:20Z");
    assert_eq!(ws.id, heroi::ident::uuid_from_seed(NOW));
    assert_eq!(actions.len(), 5);
    assert!(matches!(&actions[0], HostAction::CheckPath(p) if p == "/repo"));
    assert!(matches!(&actions[1], HostAction::OpenRepository(p) if p == "/repo"));
    assert!(matches!(&actions[2], HostAction::ProbePort(3000)));
    assert!(matches!(&actions[3], HostAction::CheckPath(p) if p == "/repo/.worktrees"));
    let (program, args, cwd) = command_of(&actions[4]);
    assert_eq!(program, "git");
    assert_eq!(args, vec!["worktree", "add", "-b", "feature-x", "/repo/.worktrees/feature-x"]);
    assert_eq!(cwd, "/repo");
    assert_eq!(data.workspaces.len(), 1);
    assert!(data.allocated_ports.contains(&3000));
}

#[test]
fn environment_of_a_new_workspace() {
    let mut data = AppData::new();
    let ws = create(&mut data, "feature-x");
    assert_eq!(ws.env_vars.get("WORKSPACE_PATH").unwrap(), "/repo/.worktrees/feature-x");
    assert_eq!(ws.env_vars.get("ROOT_PATH").unwrap(), "/repo");
    assert_eq!(ws.env_vars.get("PORT").unwrap(), "3000");
    assert_eq!(ws.env_vars.get("WORKSPACE_NAME").unwrap(), "feature-x");
    assert!(ws.env_vars.get("HOME").is_none());
    let env = get_workspace_env(&data, &ws.id).unwrap();
    assert_eq!(env.get("PORT").unwrap(), "3000");
    assert_eq!(env.entries.len(), 4);
}

#[test]
fn branch_and_base_are_handed_to_the_backend() {
    let mut data = AppData::new();
    let started =
        create_workspace(text("/repo"), text("ws"), Some(text("topic")), Some(text("origin/main")));
    let (actions, result) = run_creation(
        started,
        &mut data,
        vec![
            HostReply::PathChecked(true),
            facts(None, None),
            HostReply::PortProbed(true),
            HostReply::PathChecked(false),
            HostReply::DirectoryCreated(Ok(())),
            ran(true, ""),
        ],
    );
    let ws = result.unwrap().unwrap();
    assert_eq!(ws.branch, "topic");
    assert!(matches!(&actions[4], HostAction::CreateDirectory(p) if p == "/repo/.worktrees"));
    let (_, args, _) = command_of(&actions[5]);
    assert_eq!(args, vec!["worktree", "add", "-b", "topic", "/repo/.worktrees/ws", "origin/main"]);
}

#[test]
fn created_ports_are_pairwise_distinct() {
    let mut data = AppData::new();
    let mut seen = HashSet::new();
    for i in 0..25 {
        let ws = create(&mut data, &format!("ws-{}", i));
        assert!(seen.insert(ws.port_base), "port {} given twice", ws.port_base);
        assert_eq!(ws.port_base, 3000 + 10 * i);
    }
    assert_eq!(data.workspaces.len(), 25);
    assert_eq!(data.allocated_ports.len(), 25);
}

#[test]
fn busy_port_is_probed_once_and_skipped() {
    let mut data = AppData::new();
    let started = create_workspace(text("/repo"), text("a"), None, None);
    let (actions, result) = run_creation(
        started,
        &mut data,
        vec![
            HostReply::PathChecked(true),
            facts(None, None),
            HostReply::PortProbed(false),
            HostReply::PortProbed(false),
            HostReply::PortProbed(true),
            HostReply::PathChecked(true),
            ran(true, ""),
        ],
    );
    assert!(matches!(&actions[2], HostAction::ProbePort(3000)));
    assert!(matches!(&actions[3], HostAction::ProbePort(3010)));
    assert!(matches!(&actions[4], HostAction::ProbePort(3020)));
    assert_eq!(result.unwrap().unwrap().port_base, 3020);
    assert!(!data.allocated_ports.contains(&3000));
    assert!(data.allocated_ports.contains(&3020));
}

#[test]
fn missing_repository_path_is_refused() {
    let mut data = AppData::new();
    let started = create_workspace(text("/nowhere"), text("a"), None, None);
    let (actions, result) = run_creation(started, &mut data, vec![HostReply::PathChecked(false)]);
    let err = result.unwrap().unwrap_err();
    assert_eq!(err.kind, ErrorKind::ValidationFailed);
    assert_eq!(err.message(), "Repository path does not exist");
    assert_eq!(actions.len(), 1);
    assert!(data.workspaces.is_empty());
    assert!(data.allocated_ports.is_empty());
}

#[test]
fn path_without_repository_is_refused() {
    let mut data = AppData::new();
    let started = create_workspace(text("/tmp"), text("a"), None, None);
    let (_, result) = run_creation(
        started,
        &mut data,
        vec![
            HostReply::PathChecked(true),
            HostReply::RepositoryOpened(Err(text("could not find repository"))),
        ],
    );
    let err = result.unwrap().unwrap_err();
    assert_eq!(err.kind, ErrorKind::ValidationFailed);
    assert_eq!(err.message(), "Not a valid git repository: could not find repository");
    assert!(data.workspaces.is_empty());
}

#[test]
fn failed_worktree_leaves_the_table_as_it_was() {
    let mut data = AppData::new();
    create(&mut data, "first");
    let started = create_workspace(text("/repo"), text("second"), None, None);
    let mut replies = happy_replies();
    replies[4] = ran(false, "fatal: a branch named 'second' already exists\n");
    let (_, result) = run_creation(started, &mut data, replies);
    let err = result.unwrap().unwrap_err();
    assert_eq!(err.kind, ErrorKind::VcsOperationFailed);
    assert_eq!(
        err.message(),
        "git worktree add failed: fatal: a branch named 'second' already exists\n"
    );
    assert_eq!(data.workspaces.len(), 1);
    assert_eq!(data.allocated_ports.len(), 1);
    assert!(!data.allocated_ports.contains(&3010));
}

#[test]
fn backend_that_cannot_be_run_is_reported() {
    let mut data = AppData::new();
    let started = create_workspace(text("/repo"), text("a"), None, None);
    let mut replies = happy_replies();
    replies[4] = HostReply::Ran(CommandOutcome::NotStarted(text("No such file or directory")));
    let (_, result) = run_creation(started, &mut data, replies);
    let err = result.unwrap().unwrap_err();
    assert_eq!(err.kind, ErrorKind::VcsOperationFailed);
    assert_eq!(err.message(), "Failed to run git: No such file or directory");
    assert!(data.workspaces.is_empty());
}

#[test]
fn directory_that_cannot_be_made_is_reported() {
    let mut data = AppData::new();
    let started = create_workspace(text("/repo"), text("a"), None, None);
    let (_, result) = run_creation(
        started,
        &mut data,
        vec![
            HostReply::PathChecked(true),
            facts(None, None),
            HostReply::PortProbed(true),
            HostReply::PathChecked(false),
            HostReply::DirectoryCreated(Err(text("Permission denied"))),
        ],
    );
    let err = result.unwrap().unwrap_err();
    assert_eq!(err.kind, ErrorKind::IoFailure);
    assert_eq!(err.message(), "Failed to create .worktrees directory: Permission denied");
    assert!(data.allocated_ports.is_empty());
}

#[test]
fn unexpected_reply_changes_nothing() {
    let mut data = AppData::new();
    let started = create_workspace(text("/repo"), text("a"), None, None);
    let (actions, result) = run_creation(
        started,
        &mut data,
        vec![HostReply::PortProbed(true), ran(true, ""), HostReply::Spawned(Ok(1))],
    );
    assert!(result.is_none());
    assert_eq!(actions.len(), 4);
    for action in &actions {
        assert!(matches!(action, HostAction::CheckPath(p) if p == "/repo"));
    }
}

#[test]
fn main_workspace_lives_in_the_repository_itself() {
    let mut data = AppData::new();
    let started = create_workspace_for_main(text("/repo"), text("main-ws"));
    let (actions, result) = run_creation(
        started,
        &mut data,
        vec![facts(Some("/repo/"), Some("develop")), HostReply::PortProbed(true)],
    );
    let ws = result.unwrap().unwrap();
    assert!(ws.is_main_worktree);
    assert_eq!(ws.worktree_path, "/repo");
    assert_eq!(ws.branch, "develop");
    assert_eq!(ws.port_base, 3000);
    assert_eq!(ws.status, WorkspaceStatus::Active);
    assert_eq!(ws.env_vars.get("WORKSPACE_PATH").unwrap(), "/repo");
    assert_eq!(actions.len(), 2);
    assert!(matches!(&actions[0], HostAction::OpenRepository(p) if p == "/repo"));
}

#[test]
fn main_workspace_falls_back_to_the_repository_path_and_main() {
    let mut data = AppData::new();
    let started = create_workspace_for_main(text("C:\\work\\repo\\"), text("m"));
    let (_, result) =
        run_creation(started, &mut data, vec![facts(None, None), HostReply::PortProbed(true)]);
    let ws = result.unwrap().unwrap();
    assert_eq!(ws.worktree_path, "C:\\work\\repo");
    assert_eq!(ws.branch, "main");
}

#[test]
fn main_workspace_needs_a_repository() {
    let mut data = AppData::new();
    let started = create_workspace_for_main(text("/tmp"), text("m"));
    let (_, result) =
        run_creation(started, &mut data, vec![HostReply::RepositoryOpened(Err(text("nope")))]);
    let err = result.unwrap().unwrap_err();
    assert_eq!(err.kind, ErrorKind::ValidationFailed);
    assert_eq!(err.message(), "Not a valid git repository: nope");
}

#[test]
fn exhausted_ports_end_the_creation() {
    let mut data = AppData::new();
    let mut port = 3000u16;
    while port < 65000 {
        data.allocated_ports.insert(port);
        port += 10;
    }
    let started = create_workspace(text("/repo"), text("a"), None, None);
    let (actions, result) = run_creation(
        started,
        &mut data,
        vec![HostReply::PathChecked(true), facts(None, None)],
    );
    let err = result.unwrap().unwrap_err();
    assert_eq!(err.kind, ErrorKind::ResourceExhausted);
    assert_eq!(err.message(), "No available port range found");
    assert_eq!(actions.len(), 2);
}

#[test]
fn archive_then_restore_round_trips() {
    let mut data = AppData::new();
    create(&mut data, "a");
    let ws = create(&mut data, "b");
    archive_workspace(&mut data, &ws.id).unwrap();
    assert_eq!(data.workspaces[1].status, WorkspaceStatus::Archived);
    assert_eq!(data.workspaces[0].status, WorkspaceStatus::Active);
    restore_workspace(&mut data, &ws.id).unwrap();
    let back = &data.workspaces[1];
    assert_eq!(back.status, WorkspaceStatus::Active);
    assert_eq!(back.id, ws.id);
    assert_eq!(back.name, ws.name);
    assert_eq!(back.repo_path, ws.repo_path);
    assert_eq!(back.worktree_path, ws.worktree_path);
    assert_eq!(back.branch, ws.branch);
    assert_eq!(back.is_main_worktree, ws.is_main_worktree);
    assert_eq!(back.port_base, ws.port_base);
    assert_eq!(back.created_at, ws.created_at);
    assert_eq!(back.env_vars.get("PORT"), ws.env_vars.get("PORT"));
    assert_eq!(data.allocated_ports.len(), 2);
}

#[test]
fn unknown_workspace_is_not_found() {
    let mut data = AppData::new();
    create(&mut data, "a");
    for err in [
        archive_workspace(&mut data, "nope").unwrap_err(),
        restore_workspace(&mut data, "nope").unwrap_err(),
        get_workspace_env(&data, "nope").unwrap_err(),
        deregister_workspace(&mut data, "nope").unwrap_err(),
    ] {
        assert_eq!(err.kind, ErrorKind::NotFound);
        assert_eq!(err.message(), "Workspace 'nope' not found");
    }
    let (actions, result) = run_deletion(delete_workspace(&mut data, text("nope")), &mut data, vec![]);
    assert!(actions.is_empty());
    assert_eq!(result.unwrap().unwrap_err().kind, ErrorKind::NotFound);
    assert_eq!(data.workspaces.len(), 1);
    assert_eq!(data.workspaces[0].status, WorkspaceStatus::Active);
}

#[test]
fn deletion_removes_worktree_branch_and_port() {
    let mut data = AppData::new();
    let a = create(&mut data, "a");
    let b = create(&mut data, "b");
    let started = delete_workspace(&mut data, a.id.clone());
    let (actions, result) = run_deletion(
        started,
        &mut data,
        vec![ran(true, ""), HostReply::PathChecked(false), ran(true, "")],
    );
    result.unwrap().unwrap();
    let (_, args, cwd) = command_of(&actions[0]);
    assert_eq!(args, vec!["worktree", "remove", "--force", "/repo/.worktrees/a"]);
    assert_eq!(cwd, "/repo");
    assert!(matches!(&actions[1], HostAction::CheckPath(p) if p == "/repo/.worktrees/a"));
    let (_, args, _) = command_of(&actions[2]);
    assert_eq!(args, vec!["branch", "-D", "a"]);
    assert_eq!(data.workspaces.len(), 1);
    assert_eq!(data.workspaces[0].id, b.id);
    assert!(!data.allocated_ports.contains(&a.port_base));
    assert!(data.allocated_ports.contains(&b.port_base));
}

#[test]
fn deletion_succeeds_when_the_directory_is_already_gone() {
    let mut data = AppData::new();
    let ws = create(&mut data, "gone");
    let started = delete_workspace(&mut data, ws.id.clone());
    let (actions, result) = run_deletion(
        started,
        &mut data,
        vec![
            ran(false, "fatal: '/repo/.worktrees/gone' is not a working tree\n"),
            ran(true, ""),
            HostReply::PathChecked(false),
            ran(true, ""),
            HostReply::PathChecked(false),
            ran(false, "error: branch 'gone' not found.\n"),
        ],
    );
    result.unwrap().unwrap();
    assert_eq!(actions.len(), 6);
    let (_, args, _) = command_of(&actions[1]);
    assert_eq!(args, vec!["worktree", "prune"]);
    let (_, args, _) = command_of(&actions[3]);
    assert_eq!(args, vec!["worktree", "prune"]);
    assert!(actions.iter().all(|a| !matches!(a, HostAction::RemoveDirectory(_))));
    assert!(data.workspaces.is_empty());
    assert!(!data.allocated_ports.contains(&ws.port_base));
    assert!(data.allocated_ports.is_empty());
}

#[test]
fn deleted_port_is_given_out_again() {
    let mut data = AppData::new();
    let a = create(&mut data, "a");
    let _b = create(&mut data, "b");
    let started = delete_workspace(&mut data, a.id.clone());
    run_deletion(started, &mut data, vec![ran(true, ""), HostReply::PathChecked(false), ran(true, "")])
        .1
        .unwrap()
        .unwrap();
    let c = create(&mut data, "c");
    assert_eq!(c.port_base, a.port_base);
    assert_eq!(data.allocated_ports.len(), 2);
}

#[test]
fn deletion_stops_when_the_directory_cannot_be_removed() {
    let mut data = AppData::new();
    let ws = create(&mut data, "stuck");
    let started = delete_workspace(&mut data, ws.id.clone());
    let (actions, result) = run_deletion(
        started,
        &mut data,
        vec![
            ran(false, "locked"),
            ran(true, ""),
            HostReply::PathChecked(true),
            HostReply::DirectoryRemoved(Err(text("Device or resource busy"))),
        ],
    );
    let err = result.unwrap().unwrap_err();
    assert_eq!(err.kind, ErrorKind::IoFailure);
    assert_eq!(err.message(), "Failed to remove worktree directory: Device or resource busy");
    assert!(matches!(&actions[3], HostAction::RemoveDirectory(p) if p == "/repo/.worktrees/stuck"));
    assert_eq!(data.workspaces.len(), 1);
    assert!(data.allocated_ports.contains(&ws.port_base));
}

#[test]
fn main_workspace_is_deleted_without_touching_the_repository() {
    let mut data = AppData::new();
    let started = create_workspace_for_main(text("/repo"), text("m"));
    let ws = run_creation(started, &mut data, vec![facts(None, None), HostReply::PortProbed(true)])
        .1
        .unwrap()
        .unwrap();
    let (actions, result) = run_deletion(delete_workspace(&mut data, ws.id), &mut data, vec![]);
    assert!(actions.is_empty());
    result.unwrap().unwrap();
    assert!(data.workspaces.is_empty());
    assert!(data.allocated_ports.is_empty());
}

#[test]
fn listing_is_a_copy_in_order() {
    let mut data = AppData::new();
    let a = create(&mut data, "a");
    let b = create(&mut data, "b");
    let listed = list_workspace_configs(&data);
    assert_eq!(listed.len(), 2);
    assert_eq!(listed[0].id, a.id);
    assert_eq!(listed[1].id, b.id);
    assert_eq!(listed[1].port_base, 3010);
    assert_eq!(data.workspaces.len(), 2);
}

#[test]
fn find_gives_the_first_match() {
    let mut data = AppData::new();
    let a = create(&mut data, "a");
    create(&mut data, "b");
    assert_eq!(find_workspace(&data.workspaces, &a.id), Some(0));
    assert_eq!(find_workspace(&data.workspaces, "zzz"), None);
}

#[test]
fn stored_ports_are_allocated_before_anything_new() {
    let mut old = AppData::new();
    create(&mut old, "a");
    create(&mut old, "b");
    let stored = list_workspace_configs(&old);

    let mut data = AppData::new();
    load_workspace_configs(&mut data, stored);
    assert_eq!(data.workspaces.len(), 2);
    assert!(data.allocated_ports.contains(&3000));
    assert!(data.allocated_ports.contains(&3010));
    let c = create(&mut data, "c");
    assert_eq!(c.port_base, 3020);
}

#[test]
fn registering_directly_uses_the_lowest_free_range() {
    let mut data = AppData::new();
    data.allocated_ports.insert(3000);
    let mut busy = HashSet::new();
    busy.insert(3010);
    let ws = register_workspace(
        &mut data,
        text("/r"),
        text("n"),
        text("/r/.worktrees/n"),
        text("n"),
        false,
        &busy,
        0,
    )
    .unwrap();
    assert_eq!(ws.port_base, 3020);
    assert_eq!(ws.created_at, "1970-01-01T00:00:00Z");
    assert_eq!(ws.id, "00000000-0000-4000-0080-000000000000");
}

#[test]
fn clock_driven_creation_stamps_the_workspace() {
    let mut data = AppData::new();
    let mut progress = create_workspace(text("/repo"), text("a"), None, None);
    let mut replies = happy_replies().into_iter();
    let ws = loop {
        match progress {
            Progress::Done(result) => break result.unwrap(),
            Progress::Continue(machine, _) => {
                progress = machine.advance(&mut data, &replies.next().unwrap());
            }
        }
    };
    assert_eq!(ws.id.len(), 36);
    assert_eq!(ws.created_at.len(), 20);
    assert!(ws.created_at.as_str() > "2024-01-01T00:00:00Z");
}

#[test]
fn the_lock_hands_out_the_table() {
    let state = AppState::new();
    let (mut data, handle) = state.0.acquire_write();
    assert!(data.workspaces.is_empty());
    create(&mut data, "a");
    handle.release_write(data);
    let read = state.0.acquire_read();
    assert_eq!(read.borrow().workspaces.len(), 1);
    read.release_read();
}

#[test]
fn workspaces_of_one_moment_get_ids_of_their_own() {
    let mut data = AppData::new();
    let mut ids = HashSet::new();
    for i in 0..20u128 {
        let started = create_workspace(text("/repo"), format!("w{}", i), None, None);
        let ws = run_creation(started, &mut data, happy_replies()).1.unwrap().unwrap();
        assert_eq!(ws.id, heroi::ident::uuid_from_seed(NOW + i));
        assert_eq!(ws.id.len(), 36);
        assert!(ids.insert(ws.id), "id given twice");
    }
    let first = data.workspaces[0].id.clone();
    archive_workspace(&mut data, &first).unwrap();
    assert_eq!(data.workspaces[0].status, WorkspaceStatus::Archived);
    assert!(data.workspaces[1..].iter().all(|w| w.status == WorkspaceStatus::Active));
    deregister_workspace(&mut data, &first).unwrap();
    assert_eq!(data.workspaces.len(), 19);
    assert_eq!(data.allocated_ports.len(), 19);
    assert!(!data.allocated_ports.contains(&3000));
    assert!(data.workspaces.iter().all(|w| data.allocated_ports.contains(&w.port_base)));
}

#[test]
fn id_steps_past_the_ids_that_are_taken() {
    let mut data = AppData::new();
    let a = create_at(&mut data, "a", 7);
    let b = create_at(&mut data, "b", 8);
    let c = create_at(&mut data, "c", 7);
    let d = create_at(&mut data, "d", 6);
    assert_eq!(a.id, heroi::ident::uuid_from_seed(7));
    assert_eq!(b.id, heroi::ident::uuid_from_seed(8));
    assert_eq!(c.id, heroi::ident::uuid_from_seed(9));
    assert_eq!(d.id, heroi::ident::uuid_from_seed(6));
    assert_eq!(fresh_workspace_id(&data.workspaces, 6), heroi::ident::uuid_from_seed(10));
    assert_eq!(fresh_workspace_id(&data.workspaces, 5), heroi::ident::uuid_from_seed(5));
}

#[test]
fn id_shows_the_lowest_122_bits_of_the_reading() {
    let top: u128 = 1 << 122;
    let mut data = AppData::new();
    let a = create_at(&mut data, "a", top - 1);
    let b = create_at(&mut data, "b", top - 1);
    let c = create_at(&mut data, "c", top + 1);
    assert_eq!(a.id, "ffffffff-ffff-4fff-ffbf-ffffffffffff");
    assert_eq!(b.id, heroi::ident::uuid_from_seed(0));
    assert_eq!(c.id, heroi::ident::uuid_from_seed(1));
    assert_eq!(c.created_at, timestamp_at(top + 1));
}

fn shared<T: Send + Sync + 'static>(_: &T) {}

#[test]
fn the_lock_can_be_shared() {
    let state = AppState::new();
    shared(&state);
    let handle = std::sync::Arc::new(state);
    let other = handle.clone();
    let (mut data, write) = handle.0.acquire_write();
    create(&mut data, "a");
    write.release_write(data);
    let read = other.0.acquire_read();
    assert_eq!(read.borrow().workspaces.len(), 1);
    read.release_read();
}

#[test]
fn stored_workspaces_are_all_taken_in() {
    let mut old = AppData::new();
    create(&mut old, "a");
    create(&mut old, "b");
    let mut stored = list_workspace_configs(&old);
    stored[1].port_base = stored[0].port_base;
    stored[1].id = stored[0].id.clone();

    let mut data = AppData::new();
    create(&mut data, "before");
    load_workspace_configs(&mut data, stored);
    let names: Vec<&str> = data.workspaces.iter().map(|w| w.name.as_str()).collect();
    assert_eq!(names, vec!["a", "b"]);
    assert!(data.allocated_ports.contains(&3000));
    assert_eq!(data.allocated_ports.len(), 1);
    let c = create(&mut data, "c");
    assert_eq!(c.port_base, 3010);
    assert!(data.workspaces[..2].iter().all(|w| w.id != c.id));
}

#[test]
fn loading_keeps_the_ports_that_were_allocated() {
    let mut old = AppData::new();
    create(&mut old, "a");
    let stored = list_workspace_configs(&old);
    let mut data = AppData::new();
    data.allocated_ports.insert(3010);
    load_workspace_configs(&mut data, stored);
    assert!(data.allocated_ports.contains(&3000));
    assert!(data.allocated_ports.contains(&3010));
    assert_eq!(create(&mut data, "b").port_base, 3020);
    load_workspace_configs(&mut data, Vec::new());
    assert!(data.workspaces.is_empty());
    assert_eq!(data.allocated_ports.len(), 3);
}
