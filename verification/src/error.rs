//! The typed failures of the registry, each with its human-readable message.

use vstd::prelude::*;
use vstd::string::*;

verus! {

/// The class of a failure.
#[derive(Clone, Copy, Debug, PartialEq, Eq, Structural)]
pub enum ErrorKind {
    /// An unknown workspace id.
    NotFound,
    /// An input that cannot be worked on: a missing path, a path that holds no
    /// repository, an editor that is not known.
    ValidationFailed,
    /// No free port range is left.
    ResourceExhausted,
    /// The version-control backend or the review tool failed, or could not be run.
    VcsOperationFailed,
    /// A stop was requested for a process that is not tracked.
    ProcessNotFound,
    /// The filesystem, the start of a program or the durable store failed.
    IoFailure,
}

/// A failure: its class and the message shown to the user.
#[derive(Debug)]
pub struct AppError {
    pub kind: ErrorKind,
    pub message: String,
}

/// The mathematical value of an [`AppError`].
pub struct ErrorView {
    pub kind: ErrorKind,
    pub message: Seq<char>,
}

impl View for AppError {
    type V = ErrorView;

    open spec fn view(&self) -> ErrorView {
        ErrorView { kind: self.kind, message: self.message@ }
    }
}

impl Clone for AppError {
    fn clone(&self) -> (res: Self)
        ensures
            res@ == self@,
    {
        AppError { kind: self.kind, message: self.message.clone() }
    }
}

/// The error of class `kind` whose message is `prefix` followed by `detail`.
pub open spec fn failure(kind: ErrorKind, prefix: Seq<char>, detail: Seq<char>) -> ErrorView {
    ErrorView { kind, message: prefix + detail }
}

/// The error of class `kind` whose message is `detail` between `prefix` and `suffix`.
pub open spec fn quoted_failure(
    kind: ErrorKind,
    prefix: Seq<char>,
    detail: Seq<char>,
    suffix: Seq<char>,
) -> ErrorView {
    ErrorView { kind, message: prefix + detail + suffix }
}

impl AppError {
    /// An error with a fixed message.
    pub fn new(kind: ErrorKind, message: &str) -> (e: AppError)
        ensures
            e@ == (ErrorView { kind, message: message@ }),
    {
        AppError { kind, message: String::from_str(message) }
    }

    /// An error whose message is `prefix` followed by `detail`.
    pub fn with_detail(kind: ErrorKind, prefix: &str, detail: &str) -> (e: AppError)
        ensures
            e@ == failure(kind, prefix@, detail@),
    {
        AppError { kind, message: String::from_str(prefix).concat(detail) }
    }

    /// An error whose message is `detail` between `prefix` and `suffix`.
    pub fn quoting(kind: ErrorKind, prefix: &str, detail: &str, suffix: &str) -> (e: AppError)
        ensures
            e@ == quoted_failure(kind, prefix@, detail@, suffix@),
    {
        AppError { kind, message: String::from_str(prefix).concat(detail).concat(suffix) }
    }

    /// The message shown to the user.
    pub fn message(&self) -> (m: String)
        ensures
            m@ == self@.message,
    {
        self.message.clone()
    }
}

/// The value of a result: of what it holds, or of its error.
pub open spec fn outcome<T: View>(result: Result<T, AppError>) -> Result<T::V, ErrorView> {
    match result {
        Ok(value) => Ok(value@),
        Err(error) => Err(error@),
    }
}

} // verus!
