//! Ordering classifier for collection fields of validated values.

use vstd::prelude::*;

verus! {

/// Marks a sequence as order-insignificant: consumers (equality checks,
/// deterministic serialization) may reorder its elements freely. A plain
/// `Vec` field, by contrast, is implicitly order-significant.
#[derive(Debug, PartialEq)]
pub struct UnorderedList<T>(pub Vec<T>);

} // verus!
