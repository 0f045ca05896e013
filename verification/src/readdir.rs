//! Collection of a directory enumeration's results, given what the read
//! stream reported entry by entry.

use vstd::prelude::*;

use crate::errors::AppError;
use crate::errors::FsError;
use crate::errors::FsErrorKind;

verus! {

/// Every entry of the stream was read successfully.
pub open spec fn entries_all_ok(entries: Seq<Result<String, String>>) -> bool {
    forall|i: int| 0 <= i < entries.len() ==> entries[i] is Ok
}

/// `names` are exactly the read names, one per entry, in enumeration
/// order: nothing synthesized, nothing duplicated, nothing dropped.
pub open spec fn names_match(entries: Seq<Result<String, String>>, names: Seq<String>) -> bool {
    names.len() == entries.len() && forall|i: int|
        #![trigger entries[i]]
        0 <= i < entries.len() ==> (entries[i] matches Ok(n) && names[i]@ == n@)
}

/// `m` is the message of the first entry whose read failed; every entry
/// before it was read successfully.
pub open spec fn first_error_message(entries: Seq<Result<String, String>>, m: Seq<char>) -> bool {
    exists|j: int|
        #![trigger entries[j]]
        0 <= j < entries.len() && (entries[j] matches Err(em) && m == em@) && (forall|i: int|
            0 <= i < j ==> entries[i] is Ok)
}

/// Some entry of the stream was read successfully as `name`.
pub open spec fn name_was_present(entries: Seq<Result<String, String>>, name: Seq<char>) -> bool {
    exists|j: int|
        #![trigger entries[j]]
        0 <= j < entries.len() && (entries[j] matches Ok(n) && name == n@)
}

/// Round trip with the filesystem: every name of a successful enumeration
/// was read from an entry that was present in the stream at enumeration
/// time — none is synthesized, and each entry is emitted once, at its own
/// position.
pub proof fn lemma_emitted_names_were_present(
    entries: Seq<Result<String, String>>,
    names: Seq<String>,
)
    requires
        names_match(entries, names),
    ensures
        names.len() == entries.len(),
        forall|i: int|
            #![trigger names[i]]
            0 <= i < names.len() ==> name_was_present(entries, names[i]@),
{
    assert forall|i: int| #![trigger names[i]] 0 <= i < names.len() implies name_was_present(
        entries,
        names[i]@,
    ) by {
        assert(entries[i] matches Ok(n) && names[i]@ == n@);
    }
}

/// What enumerating `path` must return, given what the filesystem
/// reported. A stream that could not be opened for lack of access is
/// `PermissionDenied` with the path; any other opening failure is `Io`
/// with the underlying message. An open stream yields all names in order
/// if every entry was read, and otherwise `Io` with the first failing
/// entry's message — the remaining entries are abandoned, not collected.
pub open spec fn reads_to(
    path: Seq<char>,
    listing: Result<Vec<Result<String, String>>, FsError>,
    r: Result<Vec<String>, AppError>,
) -> bool {
    match listing {
        Err(f) => match f.kind {
            FsErrorKind::PermissionDenied => r matches Err(AppError::PermissionDenied(p))
                && p@ == path,
            _ => r matches Err(AppError::Io(m)) && m@ == f.message@,
        },
        Ok(entries) => if entries_all_ok(entries@) {
            r matches Ok(names) && names_match(entries@, names@)
        } else {
            r matches Err(AppError::Io(m)) && first_error_message(entries@, m@)
        },
    }
}

/// Materializes an enumeration of `path`'s immediate children: `listing`
/// is the opened stream's entries — each a read name or the read's error
/// message — or the failure that opening reported. No filtering and no
/// ordering is imposed; the result is exactly what `reads_to` states.
pub fn read_directory(
    path: &str,
    listing: Result<Vec<Result<String, String>>, FsError>,
) -> (r: Result<Vec<String>, AppError>)
    ensures
        reads_to(path@, listing, r),
{
    match listing {
        Err(f) => match f.kind {
            FsErrorKind::PermissionDenied => Err(AppError::PermissionDenied(path.to_owned())),
            FsErrorKind::NotFound => Err(AppError::Io(f.message)),
            FsErrorKind::Other => Err(AppError::Io(f.message)),
        },
        Ok(entries) => {
            let mut names: Vec<String> = Vec::new();
            let mut idx: usize = 0;
            while idx < entries.len()
                invariant
                    listing == Ok::<Vec<Result<String, String>>, FsError>(entries),
                    idx <= entries.len(),
                    names@.len() == idx as int,
                    forall|i: int|
                        #![trigger entries@[i]]
                        0 <= i < idx ==> (entries@[i] matches Ok(n) && names@[i]@ == n@),
                decreases entries@.len() - idx,
            {
                match &entries[idx] {
                    Ok(name) => {
                        names.push(name.clone());
                    },
                    Err(m) => {
                        let msg = m.clone();
                        proof {
                            let j = idx as int;
                            assert(entries@[j] is Err);
                            assert(!entries_all_ok(entries@));
                            assert(first_error_message(entries@, msg@)) by {
                                assert(0 <= j < entries@.len() && (entries@[j] matches Err(em)
                                    && msg@ == em@) && (forall|i: int|
                                    0 <= i < j ==> entries@[i] is Ok));
                            }
                        }
                        return Err(AppError::Io(msg));
                    },
                }
                idx += 1;
            }
            Ok(names)
        },
    }
}

} // verus!
