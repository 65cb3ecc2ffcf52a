//! The uniform conversion contract implemented by every validator.

use vstd::prelude::*;

verus! {

/// Fallible, context-aware conversion: the single entry point through
/// which every raw value becomes a validated one.
///
/// Each implementation pins its whole behaviour down in
/// [`Self::conversion_spec`]: the predicate holds of an outcome exactly
/// when that outcome is the one the validation rules demand for the given
/// raw item and context, so callers learn the precise result of
/// [`Self::try_from_with`] from the contract alone.
pub trait TryFromWith<T, C>: Sized {
    type Error;

    /// Exact characterization of the conversion: for every `item` and
    /// `context` exactly one outcome satisfies it.
    spec fn conversion_spec(item: T, context: C, outcome: Result<Self, Self::Error>) -> bool;

    /// Converts one raw `item`, consuming it, borrowing `context` for
    /// cross-referential lookups only.
    fn try_from_with(item: T, context: &C) -> (outcome: Result<Self, Self::Error>)
        ensures
            Self::conversion_spec(item, *context, outcome),
    ;
}

} // verus!
