//! Terminal dimensions as they are handed to a pseudo-terminal.

use vstd::prelude::*;

verus! {

/// The size of a pseudo-terminal: its character grid and the pixel size of that grid.
#[derive(Clone, Copy, Debug, PartialEq, Eq, Structural)]
pub struct PtyDimensions {
    pub rows: u16,
    pub cols: u16,
    pub pixel_width: u16,
    pub pixel_height: u16,
}

/// The dimensions of a character grid of `cols` by `rows` cells whose pixel size is left
/// unspecified, which a pseudo-terminal takes as zero.
pub open spec fn grid(cols: u16, rows: u16) -> PtyDimensions {
    PtyDimensions { rows, cols, pixel_width: 0, pixel_height: 0 }
}

impl PtyDimensions {
    /// Builds the dimensions for a grid of `cols` columns and `rows` rows.
    pub fn for_grid(cols: u16, rows: u16) -> (dims: PtyDimensions)
        ensures
            dims == grid(cols, rows),
    {
        PtyDimensions { rows, cols, pixel_width: 0, pixel_height: 0 }
    }
}

} // verus!
