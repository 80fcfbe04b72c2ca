use vstd::prelude::*;

verus! {

/// An opaque handle into the renderer's table of compiled draw
/// bundles; an entity carrying one is drawable with that bundle.
#[derive(Debug, Clone, Copy, PartialEq, Eq, Structural, Hash)]
pub struct Component {
    pub id: usize,
}

impl Component {
    pub fn new(id: usize) -> (r: Component)
        ensures
            r.id == id,
    {
        Component { id }
    }
}

} // verus!
