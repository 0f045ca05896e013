//! The closed error taxonomy and the plain report of a failed filesystem
//! query that the surrounding binary hands in.

use vstd::prelude::*;
use vstd::string::StringExecFns;

verus! {

/// Why a filesystem query failed, as the operating system reported it.
/// Every cause other than a missing path or denied access is `Other`.
#[derive(Debug)]
pub enum FsErrorKind {
    NotFound,
    PermissionDenied,
    Other,
}

/// A failed filesystem query: the reported kind together with the
/// operating system's rendered message.
#[derive(Debug)]
pub struct FsError {
    pub kind: FsErrorKind,
    pub message: String,
}

/// The closed set of failures a run can end with. Each variant that blames
/// a particular path carries that path; `Io` carries the underlying
/// operating-system message.
#[derive(Debug)]
pub enum AppError {
    InvalidArgs,
    PathNotFound(String),
    NotADirectory(String),
    PermissionDenied(String),
    Io(String),
}

/// The single line reported for an error: a fixed phrase, followed by the
/// offending path or the underlying message where the variant carries one.
pub open spec fn message_view(e: AppError) -> Seq<char> {
    match e {
        AppError::InvalidArgs => "invalid arguments"@,
        AppError::PathNotFound(p) => "path not found: "@ + p@,
        AppError::NotADirectory(p) => "not a directory: "@ + p@,
        AppError::PermissionDenied(p) => "permission denied: "@ + p@,
        AppError::Io(m) => "I/O error: "@ + m@,
    }
}

impl AppError {
    /// Renders the error as the one line the program reports on failure.
    pub fn message(&self) -> (r: String)
        ensures
            r@ == message_view(*self),
    {
        match self {
            AppError::InvalidArgs => "invalid arguments".to_owned(),
            AppError::PathNotFound(p) => "path not found: ".to_owned().concat(p.as_str()),
            AppError::NotADirectory(p) => "not a directory: ".to_owned().concat(p.as_str()),
            AppError::PermissionDenied(p) => "permission denied: ".to_owned().concat(p.as_str()),
            AppError::Io(m) => "I/O error: ".to_owned().concat(m.as_str()),
        }
    }
}

} // verus!
