use vstd::prelude::*;

verus! {

/// Conversion into the corresponding type of the Riot API client.
pub trait IntoRiven<T> {
    fn into_riven(self) -> T;
}

} // verus!
