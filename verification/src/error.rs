use vstd::prelude::*;

verus! {

/// The recoverable and configuration failures the tile-map core reports.
/// An out-of-range focus request is a programming-invariant violation, not an
/// error value: the scroll controller never produces one, and `set_focus`
/// excludes it by precondition.
#[derive(Clone, Copy, Debug, PartialEq, Eq, Structural)]
pub enum TileMapError {
    /// Malformed map or tileset data handed to grid population: a layer
    /// matrix that does not match the grid dimensions, a tileset atlas with a
    /// zero pixel dimension, or a tile identifier no tileset owns. Fatal to
    /// startup; the grid is left untouched.
    ConfigurationFailure,
    /// A tile write addressed a cell outside the grid. Recoverable: the
    /// write is ignored and the grid is unchanged.
    OutOfBoundsTileWrite,
}

} // verus!
