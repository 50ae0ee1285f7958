//! Views of optional and fallible values.

use vstd::prelude::*;

verus! {

/// An optional value, seen through the view of what it holds.
pub open spec fn opt_view<T: View>(o: Option<T>) -> Option<T::V> {
    match o {
        Some(t) => Some(t@),
        None => None,
    }
}

/// A result, seen through the views of its success and of its error.
pub open spec fn res_view<T: View, E: View>(r: Result<T, E>) -> Result<T::V, E::V> {
    match r {
        Ok(t) => Ok(t@),
        Err(e) => Err(e@),
    }
}

} // verus!
