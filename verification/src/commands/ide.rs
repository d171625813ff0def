//! Opening a worktree, or one file of it, in an editor.

use vstd::prelude::*;
use vstd::string::*;
use crate::error::{failure, outcome, quoted_failure, AppError, ErrorKind, ErrorView};
use crate::host::{command, CommandLine};
use crate::text::{join_path, joined, same_text};

verus! {

/// The program that starts the editor `ide`, for the editors that are known.
pub open spec fn program_of(ide: Seq<char>) -> Option<Seq<char>> {
    if ide == "vscode"@ {
        Some("code"@)
    } else if ide == "cursor"@ {
        Some("cursor"@)
    } else if ide == "zed"@ {
        Some("zed"@)
    } else {
        None
    }
}

/// The error of an editor that is not known.
pub open spec fn unknown_ide(ide: Seq<char>) -> ErrorView {
    failure(ErrorKind::ValidationFailed, "Unknown IDE: "@, ide)
}

/// The program that starts the editor `ide`.
pub fn ide_program(ide: &str) -> (program: Result<String, AppError>)
    ensures
        outcome(program) == match program_of(ide@) {
            Some(p) => Ok(p),
            None => Err(unknown_ide(ide@)),
        },
{
    if same_text(ide, "vscode") {
        Ok(String::from_str("code"))
    } else if same_text(ide, "cursor") {
        Ok(String::from_str("cursor"))
    } else if same_text(ide, "zed") {
        Ok(String::from_str("zed"))
    } else {
        Err(AppError::with_detail(ErrorKind::ValidationFailed, "Unknown IDE: ", ide))
    }
}

/// The command that opens the worktree at `worktree_path` in the editor `ide`.
pub fn open_in_ide(worktree_path: String, ide: &str) -> (launch: Result<CommandLine, AppError>)
    ensures
        outcome(launch) == match program_of(ide@) {
            Some(p) => Ok(command(p, seq![worktree_path@])),
            None => Err(unknown_ide(ide@)),
        },
{
    let program = match ide_program(ide) {
        Ok(p) => p,
        Err(e) => {
            return Err(e);
        },
    };
    let mut args: Vec<String> = Vec::new();
    args.push(worktree_path);
    let launch = CommandLine { program, args, cwd: String::new() };
    assert(launch@.args =~= seq![worktree_path@]);
    Ok(launch)
}

/// The command that opens, in the editor `ide`, the file at `file_path` under
/// the worktree at `worktree_path`.
pub fn open_file_in_ide(worktree_path: &str, file_path: &str, ide: &str) -> (launch: Result<
    CommandLine,
    AppError,
>)
    ensures
        outcome(launch) == match program_of(ide@) {
            Some(p) => Ok(command(p, seq!["--goto"@, joined(worktree_path@, file_path@)])),
            None => Err(unknown_ide(ide@)),
        },
{
    let program = match ide_program(ide) {
        Ok(p) => p,
        Err(e) => {
            return Err(e);
        },
    };
    let mut args: Vec<String> = Vec::new();
    args.push(String::from_str("--goto"));
    args.push(join_path(worktree_path, file_path));
    let launch = CommandLine { program, args, cwd: String::new() };
    assert(launch@.args =~= seq!["--goto"@, joined(worktree_path@, file_path@)]);
    Ok(launch)
}

/// The error of an editor that could not be started: opening the worktree
/// where `file` is false, a file of it where `file` is true.
pub open spec fn not_opened(ide: Seq<char>, file: bool, why: Seq<char>) -> ErrorView {
    quoted_failure(
        ErrorKind::IoFailure,
        if file {
            "Failed to open file in "@
        } else {
            "Failed to open "@
        },
        ide,
        ": "@ + why,
    )
}

/// What becomes of the start of the editor: nothing more to do where it
/// started, an error that names the editor where it did not.
pub fn ide_opened(ide: &str, file: bool, spawned: &Result<u32, String>) -> (done: Result<(), AppError>)
    ensures
        outcome(done) == match spawned {
            Ok(_) => Ok(()),
            Err(why) => Err(not_opened(ide@, file, why@)),
        },
{
    match spawned {
        Ok(_) => Ok(()),
        Err(why) => {
            let mut tail = String::from_str(": ");
            tail.append(why.as_str());
            Err(
                AppError::quoting(
                    ErrorKind::IoFailure,
                    if file {
                        "Failed to open file in "
                    } else {
                        "Failed to open "
                    },
                    ide,
                    tail.as_str(),
                ),
            )
        },
    }
}

} // verus!
