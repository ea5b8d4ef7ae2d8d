//! Results, seen through the views of what they hold.

use vstd::prelude::*;

verus! {

/// A result with its value seen through its view.
pub open spec fn viewed<T: View, E>(res: Result<T, E>) -> Result<T::V, E> {
    match res {
        Ok(value) => Ok(value@),
        Err(e) => Err(e),
    }
}

/// A result with its value and its error seen through their views.
pub open spec fn viewed_both<T: View, E: View>(res: Result<T, E>) -> Result<T::V, E::V> {
    match res {
        Ok(value) => Ok(value@),
        Err(e) => Err(e@),
    }
}

} // verus!
