//! Shared helper for the builder types: extraction of mandatory fields.

use vstd::prelude::*;

verus! {

/// Take a mandatory builder field out of its `Option`. The caller must have
/// set the field; a missing mandatory field is a caller bug, not a
/// recoverable state.
pub fn unwrap_mandatory<V>(value: Option<V>) -> (v: V)
    requires
        value.is_some(),
    ensures
        value == Some(v),
{
    match value {
        Some(v) => v,
        None => vstd::pervasive::unreached(),
    }
}

} // verus!
