use vstd::prelude::*;

verus! {

/// Draw layer of the wire tiles: drawn first.
pub const WIRES: u8 = 0;

/// Draw layer of the empty grid tiles.
pub const EMPTY: u8 = 1;

} // verus!
