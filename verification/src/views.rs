//! Views of the std containers that carry the library's values across its
//! contracts.

use vstd::prelude::*;

verus! {

/// The view of a `Result`, taken on whichever side it holds.
pub open spec fn result_view<T: View, E: View>(outcome: Result<T, E>) -> Result<T::V, E::V> {
    match outcome {
        Ok(value) => Ok(value@),
        Err(failure) => Err(failure@),
    }
}

/// The view of a `Result` whose success side is a plain value.
pub open spec fn failure_view<T, E: View>(outcome: Result<T, E>) -> Result<T, E::V> {
    match outcome {
        Ok(value) => Ok(value),
        Err(failure) => Err(failure@),
    }
}

/// The view of an `Option`.
pub open spec fn option_view<T: View>(value: Option<T>) -> Option<T::V> {
    match value {
        Some(inner) => Some(inner@),
        None => None,
    }
}

} // verus!
