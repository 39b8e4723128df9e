//! Small general helpers.

use vstd::prelude::*;

verus! {

/// Turns an optional fallible value inside out: an absent value is success,
/// a present failure is failure, a present success keeps its value.
pub fn invert_option_result<T, E>(a: Option<Result<T, E>>) -> (r: Result<Option<T>, E>)
    ensures
        match a {
            Some(Ok(v)) => r matches Ok(o) && o matches Some(w) && w == v,
            Some(Err(e)) => r matches Err(e2) && e2 == e,
            None => r matches Ok(o) && o is None,
        },
{
    if let Some(inner) = a {
        match inner {
            Ok(o) => Ok(Some(o)),
            Err(e) => Err(e),
        }
    } else {
        Ok(None)
    }
}

} // verus!
