use vstd::prelude::*;

use crate::data::TileMapData;
use crate::data::is_empty_cell;

verus! {

/// What the frame-sync step asks the rendering host to upload before the
/// next draw: the window's tile-data buffer, the projection uniforms, or the
/// tilemap-parameter uniforms (world size, tilesheet size, scroll offsets).
/// Uploading is write-then-clear: once a frame has been prepared, the flags
/// that produced these requests are cleared.
#[derive(Clone, Copy, Debug, PartialEq, Eq, Structural)]
pub struct BufferUpdates {
    /// Re-upload the window's tile-data buffer.
    pub update_data: bool,
    /// Re-upload the projection/view/model uniform block.
    pub update_proj: bool,
    /// Re-upload the tilemap-parameter uniform block.
    pub update_params: bool,
}

/// The CPU side of the viewport window: a fixed-size buffer of tile cells
/// mirrored from the owning grid, the per-axis sub-tile scroll offsets that
/// the shader applies, and the dirty flags deciding which uniform buffers
/// must be re-uploaded. The GPU resources themselves (vertex buffer, constant
/// buffers, sampler) belong to the rendering host.
pub struct TileMapPlane {
    /// The windowed tile cells, row-major, `charmap_width * charmap_height`
    /// entries; the owning map keeps it mirrored from the grid.
    pub data: Vec<TileMapData>,
    /// Sub-tile pixel scroll offsets, x then y, each within one tile.
    pub offsets: [u32; 2],
    /// The tilemap-parameter uniforms (offsets among them) are stale on the GPU.
    pub tm_dirty: bool,
    /// The projection uniforms are stale on the GPU.
    pub proj_dirty: bool,
}

impl TileMapPlane {
    /// A freshly allocated window: every cell zeroed, offsets zero, and both
    /// uniform blocks marked for their first upload.
    pub fn new(charmap_width: usize, charmap_height: usize) -> (r: TileMapPlane)
        requires
            charmap_width * charmap_height <= usize::MAX,
        ensures
            r.data@.len() == charmap_width * charmap_height,
            forall|i: int| 0 <= i < r.data@.len() ==> is_empty_cell(#[trigger] r.data@[i]),
            r.offsets[0] == 0,
            r.offsets[1] == 0,
            r.tm_dirty,
            r.proj_dirty,
    {
        let total: usize = charmap_width * charmap_height;
        let mut data: Vec<TileMapData> = Vec::new();
        let mut i: usize = 0;
        while i < total
            invariant
                i <= total,
                data@.len() == i,
                forall|j: int| 0 <= j < i ==> is_empty_cell(#[trigger] data@[j]),
            decreases total - i,
        {
            data.push(TileMapData::new_empty());
            i = i + 1;
        }
        TileMapPlane { data, offsets: [0, 0], tm_dirty: true, proj_dirty: true }
    }

    /// Records a new x-axis sub-tile offset and marks the parameter uniforms
    /// stale so the next frame re-uploads them.
    pub fn update_x_offset(&mut self, amt: u32)
        ensures
            final(self).offsets[0] == amt,
            final(self).offsets[1] == old(self).offsets[1],
            final(self).tm_dirty,
            final(self).data == old(self).data,
            final(self).proj_dirty == old(self).proj_dirty,
    {
        self.offsets = [amt, self.offsets[1]];
        self.tm_dirty = true;
    }

    /// Records a new y-axis sub-tile offset and marks the parameter uniforms
    /// stale so the next frame re-uploads them.
    pub fn update_y_offset(&mut self, amt: u32)
        ensures
            final(self).offsets[1] == amt,
            final(self).offsets[0] == old(self).offsets[0],
            final(self).tm_dirty,
            final(self).data == old(self).data,
            final(self).proj_dirty == old(self).proj_dirty,
    {
        self.offsets = [self.offsets[0], amt];
        self.tm_dirty = true;
    }

    /// The frame-sync decision for this window: reports which buffers are
    /// stale (the tile-data buffer staleness is handed in by the owning map)
    /// and clears the flags, since the caller uploads what was requested
    /// before drawing.
    pub fn prepare_buffers(&mut self, update_data: bool) -> (r: BufferUpdates)
        ensures
            r.update_data == update_data,
            r.update_proj == old(self).proj_dirty,
            r.update_params == old(self).tm_dirty,
            !final(self).tm_dirty,
            !final(self).proj_dirty,
            final(self).data == old(self).data,
            final(self).offsets == old(self).offsets,
    {
        let r = BufferUpdates {
            update_data,
            update_proj: self.proj_dirty,
            update_params: self.tm_dirty,
        };
        self.proj_dirty = false;
        self.tm_dirty = false;
        r
    }
}

} // verus!
