use vstd::prelude::*;

verus! {

/// An opaque reference to one brokered resource: its slot, the generation the
/// slot had when the resource was stored, and whether the holder owns it.
#[derive(Debug, Clone, Copy, PartialEq, Eq, Structural)]
pub struct Handle {
    pub index: u64,
    pub generation: u64,
    pub owned: bool,
}

impl Handle {
    /// A non-owning copy of this handle, which can look the resource up but
    /// never release it.
    pub fn borrowed(&self) -> (r: Handle)
        ensures
            r.index == self.index,
            r.generation == self.generation,
            !r.owned,
    {
        Handle { index: self.index, generation: self.generation, owned: false }
    }
}

} // verus!
