//! Lists the immediate entries of a single directory given on the command
//! line: the path is validated as an accessible directory, its children are
//! enumerated, and every underlying filesystem failure is mapped to a small
//! closed set of user-facing errors.
//!
//! The filesystem itself is queried by the surrounding binary; this library
//! holds the decisions: argument parsing, the validation verdict for a
//! metadata query, the collection of an enumeration's results, and the
//! rendering of each error.

pub mod args;
pub mod errors;
pub mod readdir;
pub mod validate;
