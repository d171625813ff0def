use heroi::commands::checkpoints::{
    checkpoint_diff, checkpoint_restored, create_checkpoint, delete_checkpoint, diff_checkpoint,
    list_checkpoints, restore_checkpoint, CheckpointCreation,
};
use heroi::commands::git::{
    changed_files, git_diff, git_diff_all, git_diff_base, git_diff_file, git_file_content,
    git_push, git_status, parse_names, push_command, render_diff, show_command, sort_diffs,
    wants_staged, DiffLine, FileChange, Patch, StatusEntry, StatusFlags,
};
use heroi::commands::github::{
    check_gh_available, checks_command, create_pr, get_pr_status, gh_version_command,
    list_pr_checks, merge_command, merge_pr, view_pr_command,
};
use heroi::commands::workspace_lifecycle::notes_key;
use heroi::commands::worktrees::{
    create_worktree, get_default_branch, linked_worktree_dir, list_branches, list_worktrees,
    remove_worktree,
};
use heroi::error::{AppError, ErrorKind};
use heroi::host::{CommandOutcome, HostAction, HostReply, Progress, RepoFacts};
use heroi::models::checkpoint::Checkpoint;
use heroi::models::git::{DiffOutput, FileState};
use heroi::models::github::MergeMethod;
use heroi::models::repo::WorktreeInfo;
use heroi::state::AppData;

fn text(s: &str) -> String {
    s.to_string()
}

fn exited(success: bool, stdout: &str, stderr: &str) -> CommandOutcome {
    CommandOutcome::Exited { success, stdout: text(stdout), stderr: text(stderr) }
}

fn ran(success: bool, stdout: &str, stderr: &str) -> HostReply {
    HostReply::Ran(exited(success, stdout, stderr))
}

fn not_started(why: &str) -> CommandOutcome {
    CommandOutcome::NotStarted(text(why))
}

fn args_of(action: &HostAction) -> Vec<String> {
    match action {
        HostAction::Run(c) => c.args.clone(),
        other => panic!("not a command: {:?}", other),
    }
}

fn clean() -> StatusFlags {
    StatusFlags {
        index_new: false,
        index_modified: false,
        index_deleted: false,
        index_renamed: false,
        index_typechange: false,
        wt_new: false,
        wt_modified: false,
        wt_deleted: false,
        wt_renamed: false,
        wt_typechange: false,
        conflicted: false,
    }
}

fn line(origin: char, content: &str) -> DiffLine {
    DiffLine { origin, content: text(content) }
}

fn patch(files_changed: usize, lines: Vec<DiffLine>) -> Patch {
    Patch { files_changed, lines }
}

#[test]
fn status_flags_map_to_states() {
    assert_eq!(clean().staged(), FileState::Unmodified);
    assert_eq!(clean().unstaged(), FileState::Unmodified);
    assert_eq!(StatusFlags { index_new: true, index_modified: true, ..clean() }.staged(), FileState::Added);
    assert_eq!(StatusFlags { index_modified: true, ..clean() }.staged(), FileState::Modified);
    assert_eq!(StatusFlags { index_deleted: true, ..clean() }.staged(), FileState::Deleted);
    assert_eq!(StatusFlags { index_renamed: true, ..clean() }.staged(), FileState::Renamed);
    assert_eq!(StatusFlags { index_typechange: true, ..clean() }.staged(), FileState::Typechange);
    assert_eq!(StatusFlags { wt_new: true, ..clean() }.unstaged(), FileState::Untracked);
    assert_eq!(StatusFlags { wt_modified: true, conflicted: true, ..clean() }.unstaged(), FileState::Modified);
    assert_eq!(StatusFlags { wt_deleted: true, ..clean() }.unstaged(), FileState::Deleted);
    assert_eq!(StatusFlags { wt_renamed: true, ..clean() }.unstaged(), FileState::Renamed);
    assert_eq!(StatusFlags { wt_typechange: true, ..clean() }.unstaged(), FileState::Typechange);
    assert_eq!(StatusFlags { conflicted: true, ..clean() }.unstaged(), FileState::Conflicted);
    assert_eq!(StatusFlags { conflicted: true, ..clean() }.staged(), FileState::Unmodified);
}

#[test]
fn status_lists_only_what_changed() {
    let entries = vec![
        StatusEntry { path: text("a.rs"), flags: StatusFlags { index_new: true, ..clean() } },
        StatusEntry { path: text("b.rs"), flags: clean() },
        StatusEntry { path: text("c.rs"), flags: StatusFlags { wt_modified: true, index_modified: true, ..clean() } },
        StatusEntry { path: text(""), flags: StatusFlags { conflicted: true, ..clean() } },
    ];
    let listed = git_status(&entries);
    let shown: Vec<(&str, FileState, FileState)> =
        listed.iter().map(|s| (s.path.as_str(), s.staged, s.unstaged)).collect();
    assert_eq!(
        shown,
        vec![
            ("a.rs", FileState::Added, FileState::Unmodified),
            ("c.rs", FileState::Modified, FileState::Modified),
            ("", FileState::Unmodified, FileState::Conflicted),
        ]
    );
}

#[test]
fn patch_lines_carry_their_marks() {
    let lines = vec![
        line('F', "diff --git a/x b/x\n"),
        line('H', "@@ -1 +1 @@\n"),
        line('-', "old\n"),
        line('+', "new\n"),
        line(' ', "same\n"),
        line('=', "no newline\n"),
    ];
    assert_eq!(
        render_diff(&lines),
        "diff --git a/x b/x\n@@ -1 +1 @@\n-old\n+new\n same\nno newline\n"
    );
    assert_eq!(render_diff(&vec![]), "");
    assert_eq!(git_diff(&patch(1, vec![line('+', "x\n")])), "+x\n");
}

#[test]
fn file_diff_prefers_unstaged_changes() {
    let unstaged = patch(1, vec![line('+', "u\n")]);
    let staged = patch(1, vec![line('+', "s\n")]);
    assert!(!wants_staged(&unstaged));
    let diff = git_diff_file(text("f"), &unstaged, &staged);
    assert_eq!(diff.file_path, "f");
    assert_eq!(diff.diff_text, "+u\n");
    let none = patch(0, vec![]);
    assert!(wants_staged(&none));
    assert_eq!(git_diff_file(text("f"), &none, &staged).diff_text, "+s\n");
    assert_eq!(git_diff_file(text("f"), &none, &patch(0, vec![])).diff_text, "");
}

#[test]
fn all_diffs_are_combined_and_sorted_by_path() {
    let changes = vec![
        FileChange { path: text("z.rs"), unstaged: patch(1, vec![line('+', "z\n")]), staged: patch(0, vec![]) },
        FileChange { path: text("b.rs"), unstaged: patch(1, vec![line('-', "b\n")]), staged: patch(1, vec![line('+', "b2\n")]) },
        FileChange { path: text("empty"), unstaged: patch(0, vec![line('+', "x")]), staged: patch(0, vec![line('+', "y")]) },
        FileChange { path: text("B.rs"), unstaged: patch(0, vec![]), staged: patch(1, vec![line('+', "st\n")]) },
        FileChange { path: text("bare"), unstaged: patch(1, vec![]), staged: patch(0, vec![]) },
    ];
    let diffs = git_diff_all(&changes);
    let shown: Vec<(&str, &str)> =
        diffs.iter().map(|d| (d.file_path.as_str(), d.diff_text.as_str())).collect();
    assert_eq!(
        shown,
        vec![
            ("B.rs", "+st\n"),
            ("b.rs", "-b\n\n--- Staged changes ---\n+b2\n"),
            ("z.rs", "+z\n"),
        ]
    );
}

#[test]
fn diffs_sort_like_the_standard_library() {
    let paths = ["src/b", "src/a", "Src/a", "a", "", "src", "é", "z"];
    let diffs: Vec<DiffOutput> =
        paths.iter().map(|p| DiffOutput { file_path: text(p), diff_text: text("x") }).collect();
    let mut expected: Vec<String> = paths.iter().map(|p| text(p)).collect();
    expected.sort();
    let sorted: Vec<String> = sort_diffs(&diffs).into_iter().map(|d| d.file_path).collect();
    assert_eq!(sorted, expected);
}

#[test]
fn changed_files_are_named_once() {
    let unstaged = vec![
        (Some(text("a")), Some(text("a"))),
        (Some(text("new")), Some(text("old"))),
        (None, Some(text("gone"))),
    ];
    let staged = vec![(Some(text("a")), None), (Some(text("b")), Some(text("old")))];
    let files = changed_files(&unstaged, &staged);
    assert_eq!(files, vec!["a", "new", "old", "gone", "b"]);
    assert!(changed_files(&vec![], &vec![]).is_empty());
}

#[test]
fn push_command_and_its_outcome() {
    let c = push_command("/wt");
    assert_eq!((c.program.as_str(), c.cwd.as_str()), ("git", "/wt"));
    assert_eq!(c.args, vec!["push"]);
    assert!(git_push(&exited(true, "", "")).is_ok());
    let err = git_push(&exited(false, "", "rejected")).unwrap_err();
    assert_eq!(err.kind, ErrorKind::VcsOperationFailed);
    assert_eq!(err.message(), "git push failed: rejected");
    assert_eq!(git_push(&not_started("no git")).unwrap_err().message(), "Failed to run git push: no git");
}

#[test]
fn file_content_at_a_commit() {
    let c = show_command("/wt", "src/a.rs", "HEAD~1");
    assert_eq!(c.args, vec!["show", "HEAD~1:src/a.rs"]);
    assert_eq!(c.cwd, "/wt");
    assert_eq!(git_file_content(&exited(true, "content", "")).unwrap(), "content");
    assert_eq!(git_file_content(&exited(false, "partial", "fatal")).unwrap(), "");
    assert_eq!(
        git_file_content(&not_started("boom")).unwrap_err().message(),
        "Failed to run git show: boom"
    );
}

#[test]
fn names_are_read_line_by_line() {
    assert_eq!(parse_names("a.rs\n  b.rs  \n\n\r\nc d.rs\n"), vec!["a.rs", "b.rs", "c d.rs"]);
    assert!(parse_names("").is_empty());
    assert!(parse_names("\n \n").is_empty());
}

#[test]
fn base_diff_asks_for_each_file() {
    let Progress::Continue(machine, action) = git_diff_base(text("/wt"), text("main")) else {
        panic!("finished at once")
    };
    assert_eq!(args_of(&action), vec!["diff", "--name-only", "main...HEAD"]);
    let Progress::Continue(machine, action) = machine.advance(&ran(true, "a.rs\nb.rs\n\nc.rs\n", ""))
    else {
        panic!("no file asked for")
    };
    assert_eq!(args_of(&action), vec!["diff", "main...HEAD", "--", "a.rs"]);
    let Progress::Continue(machine, action) = machine.advance(&ran(true, "diff a", "")) else {
        panic!("no second file asked for")
    };
    assert_eq!(args_of(&action), vec!["diff", "main...HEAD", "--", "b.rs"]);
    let Progress::Continue(machine, action) = machine.advance(&ran(true, "", "")) else {
        panic!("no third file asked for")
    };
    assert_eq!(args_of(&action), vec!["diff", "main...HEAD", "--", "c.rs"]);
    let Progress::Done(Ok(list)) = machine.advance(&ran(false, "diff c", "warning")) else {
        panic!("not finished")
    };
    let shown: Vec<(&str, &str)> =
        list.diffs.iter().map(|d| (d.file_path.as_str(), d.diff_text.as_str())).collect();
    assert_eq!(shown, vec![("a.rs", "diff a"), ("c.rs", "diff c")]);
}

#[test]
fn base_diff_failures() {
    let Progress::Continue(machine, _) = git_diff_base(text("/wt"), text("main")) else {
        panic!("finished at once")
    };
    let Progress::Done(Err(err)) = machine.advance(&ran(false, "", "bad revision")) else {
        panic!("not refused")
    };
    assert_eq!(err.message(), "git diff failed: bad revision");
    let Progress::Continue(machine, _) = git_diff_base(text("/wt"), text("main")) else {
        panic!("finished at once")
    };
    let Progress::Done(Err(err)) = machine.advance(&HostReply::Ran(not_started("no git"))) else {
        panic!("not refused")
    };
    assert_eq!(err.message(), "Failed to run git diff: no git");
    let Progress::Continue(machine, _) = git_diff_base(text("/wt"), text("main")) else {
        panic!("finished at once")
    };
    let Progress::Continue(machine, _) = machine.advance(&ran(true, "f\n", "")) else {
        panic!("no file asked for")
    };
    let Progress::Done(Err(err)) = machine.advance(&HostReply::Ran(not_started("gone"))) else {
        panic!("not refused")
    };
    assert_eq!(err.message(), "Failed to get file diff: gone");
    let Progress::Continue(machine, _) = git_diff_base(text("/wt"), text("main")) else {
        panic!("finished at once")
    };
    let Progress::Done(Ok(list)) = machine.advance(&ran(true, "", "")) else { panic!("not finished") };
    assert!(list.diffs.is_empty());
}

fn run_checkpoint(
    data: &mut AppData,
    replies: Vec<HostReply>,
) -> (Vec<Vec<String>>, Result<Checkpoint, AppError>) {
    let mut progress: Progress<CheckpointCreation, Checkpoint> =
        create_checkpoint(text("ws1"), text("/wt"), text("before refactor"), Some(text("codex")));
    let mut asked = Vec::new();
    let mut replies = replies.into_iter();
    loop {
        match progress {
            Progress::Done(result) => return (asked, result),
            Progress::Continue(machine, action) => {
                asked.push(args_of(&action));
                progress = machine.advance_at(data, &replies.next().expect("a reply"), 1_700_000_000_000_000_000);
            }
        }
    }
}

#[test]
fn checkpoint_is_a_commit_with_a_label() {
    let mut data = AppData::new();
    let (asked, result) = run_checkpoint(
        &mut data,
        vec![
            ran(false, "", "ignored"),
            ran(true, "a.rs\nb.rs\n\n", ""),
            ran(true, "", ""),
            ran(true, "0123456789abcdef0123456789abcdef01234567\n", ""),
        ],
    );
    assert_eq!(asked[0], vec!["add", "-A"]);
    assert_eq!(asked[1], vec!["diff", "--cached", "--name-only"]);
    assert_eq!(asked[2], vec!["commit", "--allow-empty", "-m", "[checkpoint] before refactor"]);
    assert_eq!(asked[3], vec!["rev-parse", "HEAD"]);
    let cp = result.unwrap();
    assert_eq!(cp.id, "cp-01234567");
    assert_eq!(cp.git_ref, "0123456789abcdef0123456789abcdef01234567");
    assert_eq!(cp.workspace_id, "ws1");
    assert_eq!(cp.label, "before refactor");
    assert_eq!(cp.file_count, 2);
    assert_eq!(cp.agent_id.as_deref(), Some("codex"));
    assert_eq!(cp.created_at, "2023-11-14T22:13:20Z");
    assert_eq!(data.checkpoints.len(), 1);
    assert_eq!(data.checkpoints[0].id, "cp-01234567");
}

#[test]
fn short_commit_name_is_taken_whole() {
    let mut data = AppData::new();
    let (_, result) = run_checkpoint(
        &mut data,
        vec![ran(true, "", ""), ran(true, "", ""), ran(true, "", ""), ran(true, " abc \n", "")],
    );
    let cp = result.unwrap();
    assert_eq!(cp.id, "cp-abc");
    assert_eq!(cp.git_ref, "abc");
    assert_eq!(cp.file_count, 0);
}

#[test]
fn checkpoint_failures() {
    let mut data = AppData::new();
    let (_, result) = run_checkpoint(&mut data, vec![ran(true, "", ""), HostReply::Ran(not_started("x"))]);
    assert_eq!(result.unwrap_err().message(), "Failed to run git: x");
    let (_, result) = run_checkpoint(
        &mut data,
        vec![ran(true, "", ""), ran(true, "", ""), HostReply::Ran(not_started("y"))],
    );
    assert_eq!(result.unwrap_err().message(), "Failed to create checkpoint commit: y");
    let (_, result) =
        run_checkpoint(&mut data, vec![ran(true, "", ""), ran(true, "", ""), ran(false, "", "nothing")]);
    let err = result.unwrap_err();
    assert_eq!(err.kind, ErrorKind::VcsOperationFailed);
    assert_eq!(err.message(), "Checkpoint commit failed: nothing");
    let (_, result) = run_checkpoint(
        &mut data,
        vec![ran(true, "", ""), ran(true, "", ""), ran(true, "", ""), HostReply::Ran(not_started("z"))],
    );
    assert_eq!(result.unwrap_err().message(), "Failed to get HEAD: z");
    assert!(data.checkpoints.is_empty());
}

fn checkpoint(id: &str, workspace: &str) -> Checkpoint {
    Checkpoint {
        id: text(id),
        workspace_id: text(workspace),
        label: text("l"),
        git_ref: text("r"),
        created_at: text("t"),
        file_count: 1,
        agent_id: None,
    }
}

#[test]
fn checkpoints_are_listed_by_workspace_and_deleted_by_id() {
    let mut data = AppData::new();
    data.checkpoints.push(checkpoint("cp-1", "ws1"));
    data.checkpoints.push(checkpoint("cp-2", "ws2"));
    data.checkpoints.push(checkpoint("cp-3", "ws1"));
    let ids: Vec<String> = list_checkpoints(&data, "ws1").into_iter().map(|c| c.id).collect();
    assert_eq!(ids, vec!["cp-1", "cp-3"]);
    assert!(list_checkpoints(&data, "ws9").is_empty());
    delete_checkpoint(&mut data, "cp-1");
    delete_checkpoint(&mut data, "cp-9");
    let ids: Vec<&str> = data.checkpoints.iter().map(|c| c.id.as_str()).collect();
    assert_eq!(ids, vec!["cp-2", "cp-3"]);
}

#[test]
fn checkpoint_restore_and_diff() {
    assert_eq!(restore_checkpoint("/wt", "abc").args, vec!["reset", "--hard", "abc"]);
    assert!(checkpoint_restored(&exited(true, "", "")).is_ok());
    assert_eq!(
        checkpoint_restored(&exited(false, "", "bad ref")).unwrap_err().message(),
        "Restore failed: bad ref"
    );
    assert_eq!(
        checkpoint_restored(&not_started("e")).unwrap_err().message(),
        "Failed to restore checkpoint: e"
    );
    assert_eq!(diff_checkpoint("/wt", "a", &None).args, vec!["diff", "a"]);
    assert_eq!(diff_checkpoint("/wt", "a", &Some(text("b"))).args, vec!["diff", "a", "b"]);
    assert_eq!(checkpoint_diff(&exited(false, "text", "warn")).unwrap(), "text");
    assert_eq!(checkpoint_diff(&not_started("e")).unwrap_err().message(), "Failed to diff: e");
}

const PR_JSON: &str = r#"{"number": 42, "title": "Add feature", "state": "OPEN",
 "url": "https://example.test/pr/42", "headRefName": "feature-x", "baseRefName": "main",
 "isDraft": true, "mergeable": "MERGEABLE", "additions": 10, "deletions": 3, "changedFiles": 2}"#;

#[test]
fn pull_request_is_read_from_json() {
    let pr = get_pr_status(&exited(true, PR_JSON, "")).unwrap();
    assert_eq!(pr.number, 42);
    assert_eq!(pr.title, "Add feature");
    assert_eq!(pr.state, "OPEN");
    assert_eq!(pr.url, "https://example.test/pr/42");
    assert_eq!(pr.head_branch, "feature-x");
    assert_eq!(pr.base_branch, "main");
    assert!(pr.draft);
    assert_eq!(pr.mergeable.as_deref(), Some("MERGEABLE"));
    assert_eq!((pr.additions, pr.deletions, pr.changed_files), (10, 3, 2));
}

#[test]
fn missing_or_odd_members_get_defaults() {
    let pr = get_pr_status(&exited(
        true,
        r#"{"number": -1, "title": 5, "isDraft": "yes", "mergeable": null, "additions": 1.5}"#,
        "",
    ))
    .unwrap();
    assert_eq!(pr.number, 0);
    assert_eq!(pr.title, "");
    assert_eq!(pr.state, "UNKNOWN");
    assert!(!pr.draft);
    assert_eq!(pr.mergeable, None);
    assert_eq!(pr.additions, 0);
    let pr = get_pr_status(&exited(true, "[1, 2]", "")).unwrap();
    assert_eq!(pr.state, "UNKNOWN");
    assert_eq!(pr.number, 0);
}

#[test]
fn pull_request_failures() {
    let err = get_pr_status(&not_started("no gh")).unwrap_err();
    assert_eq!(err.kind, ErrorKind::VcsOperationFailed);
    assert_eq!(err.message(), "Failed to run gh: no gh");
    let err = get_pr_status(&exited(false, PR_JSON, "no pull requests found")).unwrap_err();
    assert_eq!(err.message(), "No PR found for current branch: no pull requests found");
    let err = get_pr_status(&exited(true, "{not json", "")).unwrap_err();
    assert!(err.message().starts_with("Failed to parse gh output: "));
    assert!(err.message().len() > "Failed to parse gh output: ".len());
}

#[test]
fn review_tool_commands() {
    let c = gh_version_command();
    assert_eq!((c.program.as_str(), c.cwd.as_str()), ("gh", ""));
    assert_eq!(c.args, vec!["--version"]);
    let c = view_pr_command("/wt");
    assert_eq!(c.cwd, "/wt");
    assert_eq!(
        c.args,
        vec![
            "pr",
            "view",
            "--json",
            "number,title,state,url,headRefName,baseRefName,isDraft,mergeable,additions,deletions,changedFiles"
        ]
    );
    assert_eq!(checks_command("/wt").args, vec!["pr", "checks", "--json", "name,state,conclusion"]);
    assert_eq!(merge_command("/wt", MergeMethod::Squash, true).args, vec!["pr", "merge", "--squash", "--delete-branch"]);
    assert_eq!(merge_command("/wt", MergeMethod::Rebase, false).args, vec!["pr", "merge", "--rebase"]);
}

#[test]
fn review_tool_availability() {
    assert_eq!(check_gh_available(&exited(true, "gh version 2", "")).unwrap(), true);
    assert_eq!(check_gh_available(&exited(false, "", "")).unwrap(), false);
    let err = check_gh_available(&not_started("x")).unwrap_err();
    assert_eq!(err.kind, ErrorKind::IoFailure);
    assert_eq!(err.message(), "gh CLI not found");
}

#[test]
fn checks_are_read_from_a_json_array() {
    let checks = list_pr_checks(&exited(
        true,
        r#"[{"name": "build", "state": "SUCCESS", "conclusion": "success"}, {"name": "lint"}, 7]"#,
        "",
    ))
    .unwrap();
    assert_eq!(checks.len(), 3);
    assert_eq!(checks[0].name, "build");
    assert_eq!(checks[0].status, "SUCCESS");
    assert_eq!(checks[0].conclusion.as_deref(), Some("success"));
    assert_eq!(checks[1].name, "lint");
    assert_eq!(checks[1].status, "");
    assert_eq!(checks[1].conclusion, None);
    assert_eq!(checks[2].name, "");
    assert!(list_pr_checks(&exited(false, "[{}]", "")).unwrap().is_empty());
    assert!(list_pr_checks(&exited(true, "{}", "")).unwrap().is_empty());
    assert!(list_pr_checks(&exited(true, "nonsense", "")).unwrap().is_empty());
    assert_eq!(list_pr_checks(&not_started("e")).unwrap_err().message(), "Failed to run gh: e");
}

#[test]
fn merge_outcomes() {
    assert!(merge_pr(&exited(true, "", "")).is_ok());
    assert_eq!(merge_pr(&exited(false, "", "conflict")).unwrap_err().message(), "gh pr merge failed: conflict");
    assert_eq!(merge_pr(&not_started("e")).unwrap_err().message(), "Failed to run gh: e");
}

#[test]
fn pull_request_creation_pushes_creates_and_views() {
    let Progress::Continue(machine, action) =
        create_pr(text("/wt"), text("T"), text("B"), Some(text("main")), true)
    else {
        panic!("finished at once")
    };
    assert_eq!(args_of(&action), vec!["push", "-u", "origin", "HEAD"]);
    let Progress::Continue(machine, action) = machine.advance(&ran(true, "", "")) else {
        panic!("no creation asked for")
    };
    assert_eq!(
        args_of(&action),
        vec!["pr", "create", "--title", "T", "--body", "B", "--base", "main", "--draft"]
    );
    let Progress::Continue(machine, action) = machine.advance(&ran(true, "", "")) else {
        panic!("no view asked for")
    };
    assert_eq!(args_of(&action)[..2], ["pr", "view"]);
    let Progress::Done(Ok(pr)) = machine.advance(&ran(true, PR_JSON, "")) else {
        panic!("not finished")
    };
    assert_eq!(pr.number, 42);
}

#[test]
fn pull_request_creation_failures() {
    let start = || create_pr(text("/wt"), text("T"), text("B"), None, false);
    let Progress::Continue(machine, _) = start() else { panic!("finished at once") };
    let Progress::Done(Err(err)) = machine.advance(&HostReply::Ran(not_started("e"))) else {
        panic!("not refused")
    };
    assert_eq!(err.message(), "Failed to push: e");
    let Progress::Continue(machine, _) = start() else { panic!("finished at once") };
    let Progress::Done(Err(err)) = machine.advance(&ran(false, "", "denied")) else {
        panic!("not refused")
    };
    assert_eq!(err.message(), "git push failed: denied");
    let Progress::Continue(machine, _) = start() else { panic!("finished at once") };
    let Progress::Continue(machine, action) = machine.advance(&ran(true, "", "")) else {
        panic!("no creation asked for")
    };
    assert_eq!(args_of(&action), vec!["pr", "create", "--title", "T", "--body", "B"]);
    let Progress::Done(Err(err)) = machine.advance(&ran(false, "", "exists")) else {
        panic!("not refused")
    };
    assert_eq!(err.message(), "gh pr create failed: exists");
}

#[test]
fn branches_are_listed_local_first() {
    let local = vec![(text("main"), true), (text("feature"), false)];
    let remote = vec![text("origin/HEAD"), text("origin/main"), text("origin/HEADS"), text("/HEAD")];
    let listed = list_branches(&local, &remote);
    let shown: Vec<(&str, bool, bool)> =
        listed.iter().map(|b| (b.name.as_str(), b.is_remote, b.is_head)).collect();
    assert_eq!(
        shown,
        vec![
            ("main", false, true),
            ("feature", false, false),
            ("origin/main", true, false),
            ("origin/HEADS", true, false),
        ]
    );
}

#[test]
fn default_branch_falls_back_step_by_step() {
    assert_eq!(get_default_branch(Some(text("origin/dev")), true, true, Some(text("x"))), "origin/dev");
    assert_eq!(get_default_branch(None, true, true, Some(text("x"))), "origin/main");
    assert_eq!(get_default_branch(None, false, true, Some(text("x"))), "origin/master");
    assert_eq!(get_default_branch(None, false, false, Some(text("x"))), "x");
    assert_eq!(get_default_branch(None, false, false, None), "main");
}

#[test]
fn worktrees_are_listed_main_first() {
    let facts = RepoFacts { workdir: Some(text("/repo/")), head: Some(text("dev")) };
    let linked = vec![WorktreeInfo {
        name: text("a"),
        path: text("/repo/.worktrees/a"),
        branch: None,
        is_main: false,
    }];
    let listed = list_worktrees("/elsewhere", &facts, linked);
    assert_eq!(listed.len(), 2);
    assert_eq!(listed[0].name, "main");
    assert_eq!(listed[0].path, "/repo");
    assert_eq!(listed[0].branch.as_deref(), Some("dev"));
    assert!(listed[0].is_main);
    assert_eq!(listed[1].name, "a");
    let bare = RepoFacts { workdir: None, head: None };
    assert_eq!(list_worktrees("/bare.git//", &bare, vec![])[0].path, "/bare.git");
}

#[test]
fn linked_worktree_lies_where_its_record_points() {
    assert_eq!(linked_worktree_dir(Some(text("/repo/.worktrees/a")), "/repo/.git/worktrees/a"), "/repo/.worktrees/a");
    assert_eq!(linked_worktree_dir(Some(text("")), "/i"), "");
    assert_eq!(linked_worktree_dir(None, "/repo/.git/worktrees/a"), "/repo/.git/worktrees/a");
}

#[test]
fn standalone_worktree_creation_and_removal() {
    let Progress::Continue(machine, action) = create_worktree(text("/repo"), text("a"), None, Some(text("main")))
    else {
        panic!("finished at once")
    };
    assert!(matches!(&action, HostAction::CheckPath(p) if p == "/repo"));
    let Progress::Continue(machine, action) = machine.advance(&HostReply::PathChecked(true)) else {
        panic!("no open asked for")
    };
    assert!(matches!(&action, HostAction::OpenRepository(p) if p == "/repo"));
    let opened = HostReply::RepositoryOpened(Ok(RepoFacts { workdir: None, head: None }));
    let Progress::Continue(machine, action) = machine.advance(&opened) else {
        panic!("no check asked for")
    };
    assert!(matches!(&action, HostAction::CheckPath(p) if p == "/repo/.worktrees"));
    let Progress::Continue(machine, action) = machine.advance(&HostReply::PathChecked(true)) else {
        panic!("no command asked for")
    };
    assert_eq!(args_of(&action), vec!["worktree", "add", "-b", "a", "/repo/.worktrees/a", "main"]);
    let Progress::Done(Ok(info)) = machine.advance(&ran(true, "", "")) else { panic!("not created") };
    assert_eq!(info.name, "a");
    assert_eq!(info.path, "/repo/.worktrees/a");
    assert_eq!(info.branch.as_deref(), Some("a"));
    assert!(!info.is_main);

    let Progress::Continue(machine, action) = remove_worktree(text("/repo"), text("/repo/.worktrees/a"))
    else {
        panic!("finished at once")
    };
    assert_eq!(args_of(&action), vec!["worktree", "remove", "--force", "/repo/.worktrees/a"]);
    let Progress::Continue(machine, action) = machine.advance(&ran(true, "", "")) else {
        panic!("no check asked for")
    };
    assert!(matches!(&action, HostAction::CheckPath(p) if p == "/repo/.worktrees/a"));
    let Progress::Continue(machine, action) = machine.advance(&HostReply::PathChecked(true)) else {
        panic!("no deletion asked for")
    };
    assert!(matches!(&action, HostAction::RemoveDirectory(p) if p == "/repo/.worktrees/a"));
    let Progress::Done(Ok(())) = machine.advance(&HostReply::DirectoryRemoved(Ok(()))) else {
        panic!("not removed")
    };
}

#[test]
fn removal_cannot_start_without_the_backend() {
    let Progress::Continue(machine, _) = remove_worktree(text("/repo"), text("/wt")) else {
        panic!("finished at once")
    };
    let Progress::Done(Err(err)) = machine.advance(&HostReply::Ran(not_started("no git"))) else {
        panic!("not refused")
    };
    assert_eq!(err.kind, ErrorKind::VcsOperationFailed);
    assert_eq!(err.message(), "Failed to run git: no git");
}

#[test]
fn notes_are_stored_under_the_id() {
    assert_eq!(notes_key("abc-1"), "workspace_notes_abc-1");
    assert_eq!(notes_key(""), "workspace_notes_");
}

#[test]
fn standalone_worktree_needs_a_repository() {
    let Progress::Continue(machine, _) = create_worktree(text("/nowhere"), text("a"), None, None) else {
        panic!("finished at once")
    };
    let Progress::Done(Err(err)) = machine.advance(&HostReply::PathChecked(false)) else {
        panic!("not refused")
    };
    assert_eq!(err.kind, ErrorKind::ValidationFailed);
    assert_eq!(err.message(), "Repository path does not exist");
    let Progress::Continue(machine, _) = create_worktree(text("/tmp"), text("a"), None, None) else {
        panic!("finished at once")
    };
    let Progress::Continue(machine, _) = machine.advance(&HostReply::PathChecked(true)) else {
        panic!("no open asked for")
    };
    let Progress::Done(Err(err)) = machine.advance(&HostReply::RepositoryOpened(Err(text("no repo"))))
    else {
        panic!("not refused")
    };
    assert_eq!(err.message(), "Not a valid git repository: no repo");
}
