use vstd::prelude::*;

verus! {

/// Keeps `ExtParseStr` to the one type that has it.
pub trait Sealed {}

impl Sealed for str {}

} // verus!
