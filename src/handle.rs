use vstd::prelude::*;

verus! {

/// A reference to a node of a pool: the slot index and the generation that
/// the slot had when the node was put there. Two handles name the same node
/// exactly when both numbers agree.
#[derive(Clone, Copy, Debug, PartialEq, Eq, Structural, Hash)]
pub struct Handle {
    pub index: u32,
    pub generation: u32,
}

impl Handle {
    /// The handle that refers to nothing.
    pub open spec fn none_spec() -> Handle {
        Handle { index: 0, generation: 0 }
    }

    /// The handle that refers to nothing.
    pub fn none() -> (r: Handle)
        ensures
            r == Handle::none_spec(),
    {
        Handle { index: 0, generation: 0 }
    }
}

} // verus!
