use vstd::prelude::*;

verus! {

/// One cell of the tile grid: the texture-atlas sample origin of the tile's
/// graphic in its first two components, with the last two reserved. A cell is
/// an opaque numeric record; it is only ever written whole, through
/// [`TileMapData::new`] or an explicit tile write on the owning grid.
#[derive(Clone, Copy, Debug)]
pub struct TileMapData {
    pub data: [u32; 4],
}

/// A cell whose four components are all zero: the contents of a freshly
/// allocated grid or viewport window, and the value an empty tile keeps.
pub open spec fn is_empty_cell(t: TileMapData) -> bool {
    &&& t.data@[0] == 0
    &&& t.data@[1] == 0
    &&& t.data@[2] == 0
    &&& t.data@[3] == 0
}

impl TileMapData {
    /// The all-zero cell used to initialise grid and window storage.
    pub fn new_empty() -> (r: TileMapData)
        ensures
            is_empty_cell(r),
    {
        TileMapData { data: [0, 0, 0, 0] }
    }

    /// A cell holding exactly the given components.
    pub fn new(data: [u32; 4]) -> (r: TileMapData)
        ensures
            r.data == data,
    {
        TileMapData { data: data }
    }
}

} // verus!
