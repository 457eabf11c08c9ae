use vstd::prelude::*;

verus! {

/// Closes the set of slot kinds: only the types of this crate implement it.
pub trait Sealed {}

} // verus!
