//! Models of the standard containers that hold modelled values.

use vstd::prelude::*;

verus! {

/// An optional value, by its model.
pub open spec fn option_view<T: View>(value: Option<T>) -> Option<T::V> {
    match value {
        Some(inner) => Some(inner@),
        None => None,
    }
}

/// A result, by the models of what it carries.
pub open spec fn result_view<T: View, E: View>(value: Result<T, E>) -> Result<T::V, E::V> {
    match value {
        Ok(inner) => Ok(inner@),
        Err(error) => Err(error@),
    }
}

} // verus!
