use vstd::prelude::*;

verus! {

/// An item, by its id.
#[derive(Clone, Copy, Debug, PartialEq, Eq, Structural)]
pub struct Item(pub u32);

} // verus!
