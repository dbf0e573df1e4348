use vstd::prelude::*;

verus! {

/// A 128-bit identifier, stable across builds, that names a plugin type.
#[derive(Clone, Copy, Debug, PartialEq, Eq, Structural)]
pub struct Uuid {
    pub value: u128,
}

impl Uuid {
    /// The identifier whose 128 bits are `value`.
    pub fn from_u128(value: u128) -> (r: Uuid)
        ensures
            r.value == value,
    {
        Uuid { value }
    }

    /// The 128 bits of the identifier.
    pub fn as_u128(&self) -> (r: u128)
        ensures
            r == self.value,
    {
        self.value
    }
}

} // verus!
