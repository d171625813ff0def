use heroi::commands::scripts::{
    cleanup_processes, find_process, list_running_processes, resolve_platform_command, run_script,
    running_pids, stop_process,
};
use heroi::error::ErrorKind;
use heroi::host::{HostAction, HostReply, Progress};
use heroi::models::scripts::{HeroiConfig, ProcessStatus, RunningProcess, ScriptDef};
use heroi::models::workspace::EnvVars;
use heroi::state::AppData;

fn text(s: &str) -> String {
    s.to_string()
}

fn script(cwd: Option<&str>) -> ScriptDef {
    ScriptDef {
        name: text("dev"),
        command: text("npm"),
        args: vec![text("run"), text("dev")],
        command_windows: Some(text("npm.cmd")),
        args_windows: None,
        cwd: cwd.map(text),
    }
}

fn launch(data: &mut AppData, workspace: &str, pid: u32) -> RunningProcess {
    let started = run_script(text(workspace), script(None), text("/repo/.worktrees/a"), EnvVars::new(), false);
    let Progress::Continue(machine, _) = started else { panic!("finished at once") };
    let Progress::Continue(machine, _) = machine.advance(data, &HostReply::PathChecked(true)) else {
        panic!("no spawn asked for")
    };
    match machine.advance(data, &HostReply::Spawned(Ok(pid))) {
        Progress::Done(Ok(process)) => process,
        other => panic!("not started: {:?}", other),
    }
}

fn stop(data: &mut AppData, id: &str) {
    let Progress::Continue(machine, action) = stop_process(data, text(id)) else {
        panic!("process not found")
    };
    assert!(matches!(action, HostAction::Terminate(_)));
    match machine.advance(data, &HostReply::Terminated(Ok(()))) {
        Progress::Done(Ok(())) => {}
        other => panic!("not stopped: {:?}", other),
    }
}

fn statuses(data: &AppData) -> Vec<(u32, ProcessStatus)> {
    data.running_processes.iter().map(|p| (p.pid, p.status)).collect()
}

#[test]
fn general_command_on_other_hosts() {
    let (command, args) = resolve_platform_command(&script(None), false);
    assert_eq!(command, "npm");
    assert_eq!(args, vec!["run", "dev"]);
}

#[test]
fn windows_command_where_the_script_has_one() {
    let (command, args) = resolve_platform_command(&script(None), true);
    assert_eq!(command, "npm.cmd");
    assert_eq!(args, vec!["run", "dev"]);
    let mut s = script(None);
    s.command_windows = None;
    s.args_windows = Some(vec![text("/c"), text("run")]);
    let (command, args) = resolve_platform_command(&s, true);
    assert_eq!(command, "npm");
    assert_eq!(args, vec!["/c", "run"]);
    let (_, args) = resolve_platform_command(&s, false);
    assert_eq!(args, vec!["run", "dev"]);
}

#[test]
fn launch_checks_the_directory_then_spawns() {
    let mut data = AppData::new();
    let mut env = EnvVars::new();
    env.insert(text("PORT"), text("3000"));
    let started = run_script(text("ws1"), script(Some("web")), text("/repo/.worktrees/a"), env, false);
    let Progress::Continue(machine, action) = started else { panic!("finished at once") };
    assert!(matches!(&action, HostAction::CheckPath(p) if p == "/repo/.worktrees/a/web"));
    let Progress::Continue(machine, action) = machine.advance(&mut data, &HostReply::PathChecked(true))
    else {
        panic!("no spawn asked for")
    };
    match &action {
        HostAction::Spawn(command, env) => {
            assert_eq!(command.program, "npm");
            assert_eq!(command.args, vec!["run", "dev"]);
            assert_eq!(command.cwd, "/repo/.worktrees/a/web");
            assert_eq!(env.get("PORT").unwrap(), "3000");
        }
        other => panic!("not a spawn: {:?}", other),
    }
    assert!(data.running_processes.is_empty());
    let Progress::Done(Ok(process)) = machine.advance(&mut data, &HostReply::Spawned(Ok(4242))) else {
        panic!("not started")
    };
    assert_eq!(process.id, "ws1-4242");
    assert_eq!(process.workspace_id, "ws1");
    assert_eq!(process.script_name, "dev");
    assert_eq!(process.pid, 4242);
    assert_eq!(process.status, ProcessStatus::Running);
    assert_eq!(data.running_processes.len(), 1);
    assert_eq!(data.running_processes[0].id, "ws1-4242");
}

#[test]
fn launch_without_cwd_runs_in_the_worktree_root() {
    let started = run_script(text("ws1"), script(None), text("/repo/.worktrees/a"), EnvVars::new(), true);
    let Progress::Continue(machine, action) = started else { panic!("finished at once") };
    assert!(matches!(&action, HostAction::CheckPath(p) if p == "/repo/.worktrees/a"));
    assert_eq!(machine.command.program, "npm.cmd");
}

#[test]
fn missing_working_directory_is_refused() {
    let mut data = AppData::new();
    let started = run_script(text("ws1"), script(Some("web")), text("/wt"), EnvVars::new(), false);
    let Progress::Continue(machine, _) = started else { panic!("finished at once") };
    let Progress::Done(Err(err)) = machine.advance(&mut data, &HostReply::PathChecked(false)) else {
        panic!("not refused")
    };
    assert_eq!(err.kind, ErrorKind::ValidationFailed);
    assert_eq!(err.message(), "Working directory does not exist: /wt/web");
    assert!(data.running_processes.is_empty());
}

#[test]
fn spawn_failure_registers_nothing() {
    let mut data = AppData::new();
    let started = run_script(text("ws1"), script(None), text("/wt"), EnvVars::new(), false);
    let Progress::Continue(machine, _) = started else { panic!("finished at once") };
    let Progress::Continue(machine, _) = machine.advance(&mut data, &HostReply::PathChecked(true)) else {
        panic!("no spawn asked for")
    };
    let Progress::Done(Err(err)) =
        machine.advance(&mut data, &HostReply::Spawned(Err(text("No such file or directory"))))
    else {
        panic!("not refused")
    };
    assert_eq!(err.kind, ErrorKind::IoFailure);
    assert_eq!(err.message(), "Failed to spawn 'npm': No such file or directory");
    assert!(data.running_processes.is_empty());
}

#[test]
fn stop_of_an_unknown_process_is_refused_and_changes_nothing() {
    let mut data = AppData::new();
    launch(&mut data, "ws1", 10);
    let before = statuses(&data);
    let Progress::Done(Err(err)) = stop_process(&data, text("ws1-999")) else {
        panic!("not refused")
    };
    assert_eq!(err.kind, ErrorKind::ProcessNotFound);
    assert_eq!(err.message(), "Process 'ws1-999' not found");
    assert_eq!(statuses(&data), before);
}

#[test]
fn stop_terminates_the_group_and_marks_the_process() {
    let mut data = AppData::new();
    launch(&mut data, "ws1", 10);
    launch(&mut data, "ws1", 11);
    let Progress::Continue(machine, action) = stop_process(&data, text("ws1-11")) else {
        panic!("process not found")
    };
    assert!(matches!(action, HostAction::Terminate(11)));
    assert_eq!(statuses(&data), vec![(10, ProcessStatus::Running), (11, ProcessStatus::Running)]);
    let Progress::Done(Ok(())) = machine.advance(&mut data, &HostReply::Terminated(Ok(()))) else {
        panic!("not stopped")
    };
    assert_eq!(statuses(&data), vec![(10, ProcessStatus::Running), (11, ProcessStatus::Exited)]);
}

#[test]
fn stop_of_an_exited_process_succeeds() {
    let mut data = AppData::new();
    launch(&mut data, "ws1", 10);
    stop(&mut data, "ws1-10");
    stop(&mut data, "ws1-10");
    assert_eq!(statuses(&data), vec![(10, ProcessStatus::Exited)]);
}

#[test]
fn signal_that_cannot_be_sent_is_reported() {
    let mut data = AppData::new();
    launch(&mut data, "ws1", 10);
    let Progress::Continue(machine, _) = stop_process(&data, text("ws1-10")) else {
        panic!("process not found")
    };
    let Progress::Done(Err(err)) =
        machine.advance(&mut data, &HostReply::Terminated(Err(text("program not found"))))
    else {
        panic!("not refused")
    };
    assert_eq!(err.kind, ErrorKind::IoFailure);
    assert_eq!(err.message(), "Failed to kill process 10: program not found");
    assert_eq!(statuses(&data), vec![(10, ProcessStatus::Running)]);
}

#[test]
fn listing_marks_the_processes_that_are_gone() {
    let mut data = AppData::new();
    launch(&mut data, "ws1", 10);
    launch(&mut data, "ws2", 11);
    launch(&mut data, "ws1", 12);
    assert_eq!(running_pids(&data), vec![10, 11, 12]);
    let gone = vec![11, 12];
    let listed = list_running_processes(&mut data, &None, &gone);
    assert_eq!(listed.len(), 3);
    for p in &listed {
        if p.status == ProcessStatus::Running {
            assert!(!gone.contains(&p.pid));
        }
    }
    assert_eq!(
        statuses(&data),
        vec![
            (10, ProcessStatus::Running),
            (11, ProcessStatus::Exited),
            (12, ProcessStatus::Exited)
        ]
    );
    assert_eq!(running_pids(&data), vec![10]);
}

#[test]
fn listing_of_one_workspace() {
    let mut data = AppData::new();
    launch(&mut data, "ws1", 10);
    launch(&mut data, "ws2", 11);
    launch(&mut data, "ws1", 12);
    let listed = list_running_processes(&mut data, &Some(text("ws1")), &vec![12]);
    let shown: Vec<(u32, ProcessStatus)> = listed.iter().map(|p| (p.pid, p.status)).collect();
    assert_eq!(shown, vec![(10, ProcessStatus::Running), (12, ProcessStatus::Exited)]);
    assert_eq!(data.running_processes.len(), 3);
    assert!(list_running_processes(&mut data, &Some(text("ws3")), &vec![]).is_empty());
}

#[test]
fn no_process_comes_back_to_life() {
    let mut data = AppData::new();
    launch(&mut data, "ws1", 10);
    stop(&mut data, "ws1-10");
    let listed = list_running_processes(&mut data, &None, &vec![]);
    assert_eq!(listed[0].status, ProcessStatus::Exited);
    data.running_processes[0].status = ProcessStatus::Failed;
    let listed = list_running_processes(&mut data, &None, &vec![10]);
    assert_eq!(listed[0].status, ProcessStatus::Failed);
}

#[test]
fn cleanup_keeps_only_the_running() {
    let mut data = AppData::new();
    launch(&mut data, "ws1", 10);
    launch(&mut data, "ws1", 11);
    launch(&mut data, "ws2", 12);
    launch(&mut data, "ws2", 13);
    stop(&mut data, "ws1-11");
    data.running_processes[3].status = ProcessStatus::Failed;
    cleanup_processes(&mut data);
    assert_eq!(statuses(&data), vec![(10, ProcessStatus::Running), (12, ProcessStatus::Running)]);
    assert_eq!(data.running_processes[0].id, "ws1-10");
    assert_eq!(data.running_processes[1].workspace_id, "ws2");
}

#[test]
fn cleanup_before_or_after_a_stop() {
    let mut first = AppData::new();
    launch(&mut first, "ws1", 10);
    launch(&mut first, "ws1", 11);
    cleanup_processes(&mut first);
    assert_eq!(first.running_processes.len(), 2);
    stop(&mut first, "ws1-10");
    assert_eq!(first.running_processes.len(), 2);
    cleanup_processes(&mut first);
    assert_eq!(statuses(&first), vec![(11, ProcessStatus::Running)]);
    cleanup_processes(&mut first);
    assert_eq!(statuses(&first), vec![(11, ProcessStatus::Running)]);
}

#[test]
fn find_process_gives_the_first_match() {
    let mut data = AppData::new();
    launch(&mut data, "ws1", 10);
    launch(&mut data, "ws1", 10);
    assert_eq!(find_process(&data.running_processes, "ws1-10"), Some(0));
    assert_eq!(find_process(&data.running_processes, "ws1-1"), None);
    stop(&mut data, "ws1-10");
    assert_eq!(statuses(&data), vec![(10, ProcessStatus::Exited), (10, ProcessStatus::Exited)]);
}

#[test]
fn default_configuration_is_empty() {
    let config = HeroiConfig::default();
    assert!(config.setup.is_empty());
    assert!(config.run.is_empty());
    assert!(config.archive.is_empty());
    assert!(config.env.entries.is_empty());
    let copy = config.clone();
    assert!(copy.run.is_empty());
}
