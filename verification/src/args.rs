//! Arity checking of the process's argument list.

use vstd::prelude::*;

use crate::errors::AppError;

verus! {

/// Succeeds with the second element of the argument list, unmodified, if
/// and only if the list (program name included) has exactly two elements;
/// any other length is rejected with `InvalidArgs`.
pub fn parse_args(args: &Vec<String>) -> (r: Result<String, AppError>)
    ensures
        args@.len() == 2 ==> (r matches Ok(p) && p@ == args@[1]@),
        args@.len() != 2 ==> (r matches Err(e) && e is InvalidArgs),
{
    if args.len() == 2 {
        Ok(args[1].clone())
    } else {
        Err(AppError::InvalidArgs)
    }
}

} // verus!
