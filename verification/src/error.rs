use vstd::prelude::*;

verus! {

/// Why a level configuration was refused. A refused configuration yields no
/// level at all.
#[derive(Clone, Copy, Debug, PartialEq, Eq, Structural)]
pub enum ConfigurationError {
    /// The rows of the tile matrix do not all have the same length.
    RaggedRows,
    /// The tile matrix has more rows or columns than a coordinate can address.
    GridTooLarge,
    /// The player's start lies outside the grid.
    PlayerStartOutOfBounds,
    /// A hazard is anchored outside the grid.
    HazardOutOfBounds,
    /// A platform has no width.
    PlatformWidthZero,
    /// A platform is anchored outside the grid.
    PlatformOutOfBounds,
}

} // verus!
