use heroi::commands::agents::list_agents;
use heroi::commands::files::{list_directory, plan_preview, read_file, sort_entries, Preview, RawEntry};
use heroi::commands::ide::{ide_opened, ide_program, open_file_in_ide, open_in_ide};
use heroi::commands::repos::{add_repo, has_repo, list_repos, load_repos, remove_repo};
use heroi::error::ErrorKind;
use heroi::host::{HostAction, HostReply, Progress, RepoFacts};
use heroi::models::file::{DirEntry, FileType};
use heroi::models::github::MergeMethod;
use heroi::models::repo::RepoEntry;
use heroi::ordering::text_at_most;
use heroi::state::AppData;

fn text(s: &str) -> String {
    s.to_string()
}

fn raw(name: &str, is_dir: bool, len: u64, extension: &str) -> RawEntry {
    RawEntry {
        name: text(name),
        path: format!("/dir/{}", name),
        is_dir,
        len,
        extension: text(extension),
    }
}

fn opened() -> HostReply {
    HostReply::RepositoryOpened(Ok(RepoFacts { workdir: None, head: None }))
}

#[test]
fn extensions_tell_the_kind_of_a_file() {
    assert_eq!(FileType::from_extension("rs"), FileType::Code);
    assert_eq!(FileType::from_extension("el"), FileType::Code);
    assert_eq!(FileType::from_extension("md"), FileType::Markdown);
    assert_eq!(FileType::from_extension("adoc"), FileType::Markdown);
    assert_eq!(FileType::from_extension("png"), FileType::Image);
    assert_eq!(FileType::from_extension("bmp"), FileType::Image);
    assert_eq!(FileType::from_extension("json"), FileType::Json);
    assert_eq!(FileType::from_extension("json5"), FileType::Json);
    assert_eq!(FileType::from_extension("toml"), FileType::Config);
    assert_eq!(FileType::from_extension("eslintrc"), FileType::Config);
    assert_eq!(FileType::from_extension("exe"), FileType::Binary);
    assert_eq!(FileType::from_extension("rar"), FileType::Binary);
    assert_eq!(FileType::from_extension("xyz"), FileType::Unknown);
    assert_eq!(FileType::from_extension(""), FileType::Unknown);
}

#[test]
fn extensions_are_compared_without_regard_to_case() {
    assert_eq!(FileType::from_extension("RS"), FileType::Code);
    assert_eq!(FileType::from_extension("Json"), FileType::Json);
    assert_eq!(FileType::from_extension("PNG"), FileType::Image);
    assert_eq!(FileType::from_extension("\u{212A}t"), FileType::Code);
    assert_eq!(FileType::from_lowercase("RS"), FileType::Unknown);
    assert_eq!(FileType::from_lowercase("rs"), FileType::Code);
}

#[test]
fn merge_methods_have_their_flags() {
    assert_eq!(MergeMethod::Merge.as_flag(), "--merge");
    assert_eq!(MergeMethod::Squash.as_flag(), "--squash");
    assert_eq!(MergeMethod::Rebase.as_flag(), "--rebase");
}

#[test]
fn texts_are_ordered_by_their_bytes() {
    assert!(text_at_most("", ""));
    assert!(text_at_most("", "a"));
    assert!(!text_at_most("a", ""));
    assert!(text_at_most("a", "a"));
    assert!(text_at_most("a", "ab"));
    assert!(!text_at_most("ab", "a"));
    assert!(text_at_most("Z", "a"));
    assert!(!text_at_most("b", "a"));
    assert!(text_at_most("z", "é"));
    for (a, b) in [("abc", "abd"), ("x", "x"), ("é", "z"), ("", "q")] {
        assert_eq!(text_at_most(a, b), a <= b);
        assert_eq!(text_at_most(b, a), b <= a);
    }
}

#[test]
fn hidden_and_noisy_entries_are_left_out() {
    let raws = vec![
        raw(".git", true, 0, ""),
        raw("node_modules", true, 0, ""),
        raw("target", true, 0, ""),
        raw("__pycache__", true, 0, ""),
        raw(".env", false, 3, "env"),
        raw("src", true, 4096, ""),
        raw("targets", true, 0, ""),
    ];
    let names: Vec<String> = list_directory(&raws).into_iter().map(|e| e.name).collect();
    assert_eq!(names, vec!["src", "targets"]);
}

#[test]
fn directories_come_first_then_names_without_case() {
    let raws = vec![
        raw("zeta.rs", false, 10, "rs"),
        raw("Alpha.md", false, 20, "md"),
        raw("beta", true, 4096, ""),
        raw("alpha.txt", false, 30, "txt"),
        raw("Docs", true, 4096, ""),
        raw("apple", true, 4096, ""),
    ];
    let listed = list_directory(&raws);
    let names: Vec<&str> = listed.iter().map(|e| e.name.as_str()).collect();
    assert_eq!(names, vec!["apple", "beta", "Docs", "Alpha.md", "alpha.txt", "zeta.rs"]);
    assert!(listed[0].is_dir);
    assert_eq!(listed[0].size, 0);
    assert_eq!(listed[0].file_type, FileType::Unknown);
    assert_eq!(listed[3].size, 20);
    assert_eq!(listed[3].file_type, FileType::Markdown);
    assert_eq!(listed[3].path, "/dir/Alpha.md");
    assert_eq!(listed[5].file_type, FileType::Code);
}

#[test]
fn entries_of_equal_rank_keep_their_order() {
    let raws = vec![
        raw("README", false, 1, ""),
        raw("readme", false, 2, ""),
        raw("Readme", false, 3, ""),
        raw("a", false, 4, ""),
    ];
    let sizes: Vec<u64> = list_directory(&raws).iter().map(|e| e.size).collect();
    assert_eq!(sizes, vec![4, 1, 2, 3]);
}

#[test]
fn sorting_agrees_with_the_standard_library() {
    let names = ["b", "A", "c", "a", "B", "Z", "aa", "", "é", "E"];
    let entries: Vec<DirEntry> = names
        .iter()
        .enumerate()
        .map(|(i, n)| DirEntry {
            name: text(n),
            path: text(n),
            is_dir: i % 3 == 0,
            size: i as u64,
            file_type: FileType::Unknown,
        })
        .collect();
    let mut expected: Vec<(bool, String, u64)> =
        entries.iter().map(|e| (e.is_dir, e.name.clone(), e.size)).collect();
    expected.sort_by(|a, b| b.0.cmp(&a.0).then_with(|| a.1.to_lowercase().cmp(&b.1.to_lowercase())));
    let sorted: Vec<(bool, String, u64)> =
        sort_entries(&entries).into_iter().map(|e| (e.is_dir, e.name, e.size)).collect();
    assert_eq!(sorted, expected);
}

#[test]
fn empty_directory_lists_nothing() {
    assert!(list_directory(&vec![]).is_empty());
}

#[test]
fn binary_and_image_files_are_not_read() {
    assert_eq!(plan_preview("exe", 10), Preview::Nothing);
    assert_eq!(plan_preview("PNG", 10), Preview::Nothing);
    let shown = read_file(text("/a/b.exe"), "exe", 10, text("ignored"));
    assert_eq!(shown.content, "");
    assert_eq!(shown.file_type, FileType::Binary);
    assert_eq!(shown.size, 10);
    assert_eq!(shown.path, "/a/b.exe");
}

#[test]
fn large_files_get_a_note() {
    assert_eq!(plan_preview("rs", 1_048_576), Preview::Whole);
    assert_eq!(plan_preview("rs", 1_048_577), Preview::TooLarge);
    let shown = read_file(text("/big.txt"), "txt", 2_000_000, String::new());
    assert_eq!(shown.content, "File too large to preview (2000000 bytes)");
    assert_eq!(shown.file_type, FileType::Markdown);
}

#[test]
fn small_text_files_are_shown_whole() {
    let shown = read_file(text("/a.rs"), "rs", 12, text("fn main() {}"));
    assert_eq!(shown.content, "fn main() {}");
    assert_eq!(shown.file_type, FileType::Code);
    let shown = read_file(text("/noext"), "", 3, text("abc"));
    assert_eq!(shown.content, "abc");
    assert_eq!(shown.file_type, FileType::Unknown);
}

#[test]
fn known_editors_have_programs() {
    assert_eq!(ide_program("vscode").unwrap(), "code");
    assert_eq!(ide_program("cursor").unwrap(), "cursor");
    assert_eq!(ide_program("zed").unwrap(), "zed");
    let err = ide_program("emacs").unwrap_err();
    assert_eq!(err.kind, ErrorKind::ValidationFailed);
    assert_eq!(err.message(), "Unknown IDE: emacs");
}

#[test]
fn editor_command_lines() {
    let launch = open_in_ide(text("/repo/.worktrees/a"), "vscode").unwrap();
    assert_eq!(launch.program, "code");
    assert_eq!(launch.args, vec!["/repo/.worktrees/a"]);
    assert_eq!(launch.cwd, "");
    let launch = open_file_in_ide("/repo/.worktrees/a", "src/main.rs", "zed").unwrap();
    assert_eq!(launch.program, "zed");
    assert_eq!(launch.args, vec!["--goto", "/repo/.worktrees/a/src/main.rs"]);
    assert_eq!(open_in_ide(text("/x"), "vim").unwrap_err().message(), "Unknown IDE: vim");
    assert_eq!(open_file_in_ide("/x", "f", "").unwrap_err().message(), "Unknown IDE: ");
}

#[test]
fn editor_that_does_not_start_is_reported() {
    assert!(ide_opened("zed", false, &Ok(77)).is_ok());
    let err = ide_opened("zed", false, &Err(text("not found"))).unwrap_err();
    assert_eq!(err.kind, ErrorKind::IoFailure);
    assert_eq!(err.message(), "Failed to open zed: not found");
    let err = ide_opened("cursor", true, &Err(text("not found"))).unwrap_err();
    assert_eq!(err.message(), "Failed to open file in cursor: not found");
}

#[test]
fn agents_on_offer() {
    let agents = list_agents(false);
    let ids: Vec<&str> = agents.iter().map(|a| a.id.as_str()).collect();
    assert_eq!(ids, vec!["codex", "gemini", "aider", "shell"]);
    assert_eq!(agents[0].name, "Codex");
    assert_eq!(agents[0].command, "codex");
    assert_eq!(agents[0].description, "OpenAI Codex CLI agent");
    assert_eq!(agents[1].name, "Gemini CLI");
    assert_eq!(agents[1].description, "Google Gemini CLI agent");
    assert_eq!(agents[2].description, "Aider AI pair programming tool");
    assert_eq!(agents[3].name, "Shell");
    assert_eq!(agents[3].command, "bash");
    assert_eq!(agents[3].description, "Plain terminal shell");
    assert!(agents.iter().all(|a| a.args.is_empty()));
    assert_eq!(list_agents(true)[3].command, "powershell.exe");
    assert_eq!(list_agents(true)[2].command, "aider");
}

fn add(data: &mut AppData, path: &str, replies: Vec<HostReply>) -> Result<RepoEntry, heroi::error::AppError> {
    let mut progress = add_repo(text(path));
    let mut replies = replies.into_iter();
    loop {
        match progress {
            Progress::Done(result) => return result,
            Progress::Continue(machine, _) => {
                progress = machine.advance(data, &replies.next().expect("a reply"));
            }
        }
    }
}

#[test]
fn repository_is_added_under_the_last_part_of_its_path() {
    let mut data = AppData::new();
    let Progress::Continue(machine, action) = add_repo(text("/home/me/project")) else {
        panic!("finished at once")
    };
    assert!(matches!(&action, HostAction::CheckPath(p) if p == "/home/me/project"));
    let Progress::Continue(machine, action) = machine.advance(&mut data, &HostReply::PathChecked(true))
    else {
        panic!("no open asked for")
    };
    assert!(matches!(&action, HostAction::OpenRepository(p) if p == "/home/me/project"));
    let Progress::Done(Ok(entry)) = machine.advance(&mut data, &opened()) else {
        panic!("not added")
    };
    assert_eq!(entry.path, "/home/me/project");
    assert_eq!(entry.name, "project");
    assert_eq!(data.repos.len(), 1);
    assert!(has_repo(&data.repos, "/home/me/project"));
    assert!(!has_repo(&data.repos, "/home/me"));
}

#[test]
fn repository_name_can_be_given() {
    let mut data = AppData::new();
    let Progress::Continue(machine, _) = add_repo(text("/")) else { panic!("finished at once") };
    let Progress::Continue(machine, _) = machine.advance(&mut data, &HostReply::PathChecked(true))
    else {
        panic!("no open asked for")
    };
    let Progress::Done(Ok(entry)) = machine.advance_named(&mut data, &opened(), None) else {
        panic!("not added")
    };
    assert_eq!(entry.name, "/");
    let Progress::Continue(machine, _) = add_repo(text("/x/y")) else { panic!("finished at once") };
    let Progress::Continue(machine, _) = machine.advance(&mut data, &HostReply::PathChecked(true))
    else {
        panic!("no open asked for")
    };
    let Progress::Done(Ok(entry)) = machine.advance_named(&mut data, &opened(), Some(text("given")))
    else {
        panic!("not added")
    };
    assert_eq!(entry.name, "given");
}

#[test]
fn repository_must_exist_and_be_one() {
    let mut data = AppData::new();
    let err = add(&mut data, "/nowhere", vec![HostReply::PathChecked(false)]).unwrap_err();
    assert_eq!(err.kind, ErrorKind::ValidationFailed);
    assert_eq!(err.message(), "Path does not exist");
    let err = add(
        &mut data,
        "/tmp",
        vec![HostReply::PathChecked(true), HostReply::RepositoryOpened(Err(text("no repo")))],
    )
    .unwrap_err();
    assert_eq!(err.message(), "Not a valid git repository: no repo");
    assert!(data.repos.is_empty());
}

#[test]
fn repository_is_added_once() {
    let mut data = AppData::new();
    add(&mut data, "/a", vec![HostReply::PathChecked(true), opened()]).unwrap();
    add(&mut data, "/b", vec![HostReply::PathChecked(true), opened()]).unwrap();
    let err = add(&mut data, "/a", vec![HostReply::PathChecked(true), opened()]).unwrap_err();
    assert_eq!(err.kind, ErrorKind::ValidationFailed);
    assert_eq!(err.message(), "Repository already added");
    assert_eq!(data.repos.len(), 2);
}

#[test]
fn repositories_are_listed_removed_and_loaded() {
    let mut data = AppData::new();
    add(&mut data, "/a", vec![HostReply::PathChecked(true), opened()]).unwrap();
    add(&mut data, "/b", vec![HostReply::PathChecked(true), opened()]).unwrap();
    add(&mut data, "/c", vec![HostReply::PathChecked(true), opened()]).unwrap();
    remove_repo(&mut data, "/b");
    remove_repo(&mut data, "/zzz");
    let paths: Vec<String> = list_repos(&data).into_iter().map(|r| r.path).collect();
    assert_eq!(paths, vec!["/a", "/c"]);
    load_repos(&mut data, vec![RepoEntry { path: text("/x"), name: text("x") }]);
    let listed = list_repos(&data);
    assert_eq!(listed.len(), 1);
    assert_eq!(listed[0].name, "x");
}
