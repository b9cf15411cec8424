//! Error taxonomy of the rasterizer core.

use vstd::prelude::*;

verus! {

/// Contract violations the core detects.
///
/// Both are local, synchronous conditions: a build or a raster pass fails
/// immediately and leaves no other state behind.
#[derive(Clone, Copy, Debug, PartialEq, Eq, Structural)]
pub enum Error {
    /// A cuboid specification with a non-positive dimension or a zero ratio.
    InvalidSpec,
    /// A classifier returned an index not present in the palette.
    PaletteIndexOutOfRange,
}

} // verus!
