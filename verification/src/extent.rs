//! The three-dimensional shape of a field or texture.

use vstd::prelude::*;

verus! {

/// Width, height and depth of a 3-D scalar field.  A linear workload uses
/// `depth == 1` (and `height == 1`).  Every dimension of a usable extent is
/// at least 1.
#[derive(Clone, Copy, Debug, PartialEq, Eq, Structural)]
pub struct Extent {
    pub width: u32,
    pub height: u32,
    pub depth: u32,
}

impl Extent {
    /// All dimensions are positive.
    pub open spec fn wf(self) -> bool {
        self.width >= 1 && self.height >= 1 && self.depth >= 1
    }

    /// Number of cells of the field: `width * height * depth`.
    pub open spec fn volume(self) -> int {
        self.width * self.height * self.depth
    }

    pub fn new(width: u32, height: u32, depth: u32) -> (r: Extent)
        ensures
            r == (Extent { width, height, depth }),
    {
        Extent { width, height, depth }
    }
}

} // verus!
