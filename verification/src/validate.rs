//! The validation verdict for a path, given what a metadata query reported.

use vstd::prelude::*;

use crate::errors::AppError;
use crate::errors::FsError;
use crate::errors::FsErrorKind;

verus! {

/// How a metadata query on `path` must be judged: an accessible directory
/// passes; an existing non-directory is `NotADirectory`; a missing path is
/// `PathNotFound`; denied access is `PermissionDenied`; any other failure
/// is `Io` with the underlying message. Path-carrying variants carry
/// exactly the queried path.
pub open spec fn validates_to(
    path: Seq<char>,
    metadata: Result<bool, FsError>,
    r: Result<(), AppError>,
) -> bool {
    match metadata {
        Ok(is_dir) => if is_dir {
            r is Ok
        } else {
            r matches Err(AppError::NotADirectory(p)) && p@ == path
        },
        Err(f) => match f.kind {
            FsErrorKind::NotFound => r matches Err(AppError::PathNotFound(p)) && p@ == path,
            FsErrorKind::PermissionDenied => r matches Err(AppError::PermissionDenied(p))
                && p@ == path,
            FsErrorKind::Other => r matches Err(AppError::Io(m)) && m@ == f.message@,
        },
    }
}

/// Judges `path` from the outcome of a metadata query on it: `metadata` is
/// `Ok(is_dir)` when the query succeeded, or the reported failure. The
/// query itself is a read-only probe made by the caller; this is the whole
/// verdict, as `validates_to` states it.
pub fn validate_path(path: &str, metadata: Result<bool, FsError>) -> (r: Result<(), AppError>)
    ensures
        validates_to(path@, metadata, r),
{
    match metadata {
        Ok(is_dir) => {
            if is_dir {
                Ok(())
            } else {
                Err(AppError::NotADirectory(path.to_owned()))
            }
        },
        Err(f) => match f.kind {
            FsErrorKind::NotFound => Err(AppError::PathNotFound(path.to_owned())),
            FsErrorKind::PermissionDenied => Err(AppError::PermissionDenied(path.to_owned())),
            FsErrorKind::Other => Err(AppError::Io(f.message)),
        },
    }
}

} // verus!
