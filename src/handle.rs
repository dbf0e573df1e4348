use vstd::prelude::*;

verus! {

/// A handle into a pool of objects: a slot index and the generation of the
/// object that occupied the slot when the handle was made. Index 0 with
/// generation 0 is the "none" handle.
#[derive(Clone, Copy, Debug, PartialEq, Eq, Structural)]
pub struct Handle {
    pub index: u32,
    pub generation: u32,
}

impl Handle {
    pub open spec fn spec_is_none(&self) -> bool {
        self.index == 0 && self.generation == 0
    }

    /// The handle that refers to nothing.
    pub fn none() -> (r: Handle)
        ensures
            r.spec_is_none(),
    {
        Handle { index: 0, generation: 0 }
    }

    /// A handle to slot `index` in its `generation`.
    pub fn new(index: u32, generation: u32) -> (r: Handle)
        ensures
            r.index == index,
            r.generation == generation,
    {
        Handle { index, generation }
    }

    /// Whether this is the "none" handle.
    pub fn is_none(&self) -> (r: bool)
        ensures
            r == self.spec_is_none(),
    {
        self.index == 0 && self.generation == 0
    }

    /// Whether this handle refers to something.
    pub fn is_some(&self) -> (r: bool)
        ensures
            r == !self.spec_is_none(),
    {
        !self.is_none()
    }
}

} // verus!
