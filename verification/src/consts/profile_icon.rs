use vstd::prelude::*;

verus! {

/// A profile icon, by its id.
#[derive(Clone, Copy, Debug, PartialEq, Eq, Structural)]
pub struct ProfileIcon(pub u16);

} // verus!
