use vstd::prelude::*;

use vstd::arithmetic::div_mod::lemma_fundamental_div_mod_converse;
use vstd::pervasive::VecAdditionalExecFns;

use crate::data::TileMapData;
use crate::data::is_empty_cell;
use crate::error::TileMapError;
use crate::plane::BufferUpdates;
use crate::plane::TileMapPlane;
use crate::scroll::lemma_scroll_wrap_bounds;
use crate::scroll::scroll_wrap;
use crate::scroll::wrap_offset;

verus! {

/// The scrolling tile map: the authoritative grid of tile cells for the
/// whole map, the viewport window mirrored from it, the per-axis scroll
/// state, and the dirty flag that tells frame sync when the window's
/// tile-data buffer must be re-uploaded.
pub struct TileMap {
    /// The full grid, row-major: cell `(x, y)` sits at `y * width + x`.
    pub tiles: Vec<TileMapData>,
    /// The viewport window and its uniform-buffer state.
    pub tilemap_plane: TileMapPlane,
    /// Tile edge length in pixels; sub-tile offsets stay below it.
    pub tile_size: u32,
    /// Grid dimensions in tiles, width then height.
    pub tilemap_size: [usize; 2],
    /// Window dimensions in tiles, width then height; fixed, at most the
    /// grid dimensions.
    pub charmap_size: [usize; 2],
    /// Largest legal focus per axis: grid size minus window size.
    pub limit_coords: [usize; 2],
    /// Grid coordinate of the window's top-left tile.
    pub focus_coords: [usize; 2],
    /// The window contents changed since the last upload of the tile-data
    /// buffer.
    pub focus_dirty: bool,
}

impl TileMap {
    /// Structural soundness: the limits are derived from the dimensions, the
    /// focus is within them, the two cell buffers have exactly their stated
    /// sizes, and both scroll offsets are inside one tile. Every operation
    /// preserves this.
    pub open spec fn wf(self) -> bool {
        &&& self.tile_size >= 1
        &&& 1 <= self.charmap_size[0] <= self.tilemap_size[0]
        &&& 1 <= self.charmap_size[1] <= self.tilemap_size[1]
        &&& self.limit_coords[0] == self.tilemap_size[0] - self.charmap_size[0]
        &&& self.limit_coords[1] == self.tilemap_size[1] - self.charmap_size[1]
        &&& self.focus_coords[0] <= self.limit_coords[0]
        &&& self.focus_coords[1] <= self.limit_coords[1]
        &&& self.tiles@.len() == self.tilemap_size[0] * self.tilemap_size[1]
        &&& self.tilemap_plane.data@.len() == self.charmap_size[0] * self.charmap_size[1]
        &&& self.tilemap_plane.offsets[0] < self.tile_size
        &&& self.tilemap_plane.offsets[1] < self.tile_size
    }

    /// The grid cell at tile coordinate `(x, y)`.
    pub open spec fn grid_cell(self, x: int, y: int) -> TileMapData {
        self.tiles@[y * self.tilemap_size[0] + x]
    }

    /// The window cell at window coordinate `(cx, cy)`.
    pub open spec fn window_cell(self, cx: int, cy: int) -> TileMapData {
        self.tilemap_plane.data@[cy * self.charmap_size[0] + cx]
    }

    /// The window mirrors the grid: every window cell equals the grid cell
    /// at the focus origin plus the window coordinate. `set_focus`
    /// establishes this; it holds until the grid itself is rewritten.
    pub open spec fn window_synced(self) -> bool {
        forall|cx: int, cy: int|
            0 <= cx < self.charmap_size[0] && 0 <= cy < self.charmap_size[1]
                ==> #[trigger] self.window_cell(cx, cy) == self.grid_cell(
                self.focus_coords[0] + cx,
                self.focus_coords[1] + cy,
            )
    }

    /// Allocates a zero-filled map: every grid and window cell empty, the
    /// focus at the origin, offsets zero, and the focus limits computed from
    /// the grid and window dimensions. The window starts mirrored (all
    /// zeroes on both sides) with its uniform buffers marked for their
    /// first upload.
    pub fn new(
        width: usize,
        height: usize,
        tile_size: u32,
        charmap_width: usize,
        charmap_height: usize,
    ) -> (r: TileMap)
        requires
            tile_size >= 1,
            1 <= charmap_width <= width,
            1 <= charmap_height <= height,
            width * height <= usize::MAX,
        ensures
            r.wf(),
            r.window_synced(),
            r.tilemap_size[0] == width,
            r.tilemap_size[1] == height,
            r.charmap_size[0] == charmap_width,
            r.charmap_size[1] == charmap_height,
            r.tile_size == tile_size,
            r.limit_coords[0] == width - charmap_width,
            r.limit_coords[1] == height - charmap_height,
            r.focus_coords[0] == 0,
            r.focus_coords[1] == 0,
            r.tilemap_plane.offsets[0] == 0,
            r.tilemap_plane.offsets[1] == 0,
            forall|i: int| 0 <= i < r.tiles@.len() ==> is_empty_cell(#[trigger] r.tiles@[i]),
            forall|i: int|
                0 <= i < r.tilemap_plane.data@.len() ==> is_empty_cell(
                    #[trigger] r.tilemap_plane.data@[i],
                ),
            !r.focus_dirty,
            r.tilemap_plane.tm_dirty,
            r.tilemap_plane.proj_dirty,
    {
        let total: usize = width * height;
        let mut tiles: Vec<TileMapData> = Vec::new();
        let mut i: usize = 0;
        while i < total
            invariant
                i <= total,
                tiles@.len() == i,
                forall|j: int| 0 <= j < i ==> is_empty_cell(#[trigger] tiles@[j]),
            decreases total - i,
        {
            tiles.push(TileMapData::new_empty());
            i = i + 1;
        }
        proof {
            assert(charmap_width * charmap_height <= width * height) by (nonlinear_arith)
                requires
                    1 <= charmap_width <= width,
                    1 <= charmap_height <= height,
            ;
        }
        let r = TileMap {
            tiles,
            tilemap_plane: TileMapPlane::new(charmap_width, charmap_height),
            tile_size,
            tilemap_size: [width, height],
            charmap_size: [charmap_width, charmap_height],
            limit_coords: [width - charmap_width, height - charmap_height],
            focus_coords: [0, 0],
            focus_dirty: false,
        };
        proof {
            assert forall|cx: int, cy: int|
                0 <= cx < r.charmap_size[0] && 0 <= cy < r.charmap_size[1] implies #[trigger] r
                .window_cell(cx, cy) == r.grid_cell(
                r.focus_coords[0] + cx,
                r.focus_coords[1] + cy,
            ) by {
                assert(0 <= cy * charmap_width + cx < charmap_width * charmap_height)
                    by (nonlinear_arith)
                    requires
                        0 <= cx < charmap_width,
                        0 <= cy < charmap_height,
                ;
                assert(0 <= cy * width + cx < width * height) by (nonlinear_arith)
                    requires
                        0 <= cx < charmap_width <= width,
                        0 <= cy < charmap_height <= height,
                ;
                let a = r.window_cell(cx, cy);
                let b = r.grid_cell(cx, cy);
                assert(is_empty_cell(a));
                assert(is_empty_cell(b));
                assert(a.data =~= b.data);
                assert(a == b);
            }
        }
        r
    }

    /// Moves the viewport window so its top-left tile is `focus`, copying
    /// the windowed block of the grid into the window buffer row by row and
    /// marking the window's tile-data buffer for re-upload. The focus must
    /// be within the precomputed limits: the scroll controller never
    /// requests one beyond them, and a direct caller must not either.
    #[verifier::loop_isolation(false)]
    pub fn set_focus(&mut self, focus: [usize; 2])
        requires
            old(self).wf(),
            focus[0] <= old(self).limit_coords[0],
            focus[1] <= old(self).limit_coords[1],
        ensures
            final(self).wf(),
            final(self).window_synced(),
            final(self).focus_coords == focus,
            final(self).focus_dirty,
            final(self).tiles == old(self).tiles,
            final(self).tilemap_size == old(self).tilemap_size,
            final(self).charmap_size == old(self).charmap_size,
            final(self).limit_coords == old(self).limit_coords,
            final(self).tile_size == old(self).tile_size,
            final(self).tilemap_plane.offsets == old(self).tilemap_plane.offsets,
            final(self).tilemap_plane.tm_dirty == old(self).tilemap_plane.tm_dirty,
            final(self).tilemap_plane.proj_dirty == old(self).tilemap_plane.proj_dirty,
    {
        self.focus_coords = focus;
        let w = self.tilemap_size[0];
        let h = self.tilemap_size[1];
        let cw = self.charmap_size[0];
        let ch = self.charmap_size[1];
        let fx = focus[0];
        let fy = focus[1];
        let glen = self.tiles.len();
        let wlen = self.tilemap_plane.data.len();
        proof {
            assert(h <= glen && w <= glen) by (nonlinear_arith)
                requires
                    glen == w * h,
                    1 <= w,
                    1 <= h,
            ;
        }
        let mut charmap_ypos: usize = 0;
        while charmap_ypos < ch
            invariant
                charmap_ypos <= ch,
                self.tiles == old(self).tiles,
                self.tilemap_size == old(self).tilemap_size,
                self.charmap_size == old(self).charmap_size,
                self.limit_coords == old(self).limit_coords,
                self.tile_size == old(self).tile_size,
                self.focus_coords == focus,
                self.focus_dirty == old(self).focus_dirty,
                self.tilemap_plane.offsets == old(self).tilemap_plane.offsets,
                self.tilemap_plane.tm_dirty == old(self).tilemap_plane.tm_dirty,
                self.tilemap_plane.proj_dirty == old(self).tilemap_plane.proj_dirty,
                self.tilemap_plane.data@.len() == wlen,
                forall|k: int|
                    0 <= k < charmap_ypos * cw ==> #[trigger] self.tilemap_plane.data@[k]
                        == self.tiles@[(fy + k / (cw as int)) * w + (fx + k % (cw as int))],
            decreases ch - charmap_ypos,
        {
            let mut charmap_xpos: usize = 0;
            while charmap_xpos < cw
                invariant
                    charmap_ypos < ch,
                    charmap_xpos <= cw,
                    self.tiles == old(self).tiles,
                    self.tilemap_size == old(self).tilemap_size,
                    self.charmap_size == old(self).charmap_size,
                    self.limit_coords == old(self).limit_coords,
                    self.tile_size == old(self).tile_size,
                    self.focus_coords == focus,
                    self.focus_dirty == old(self).focus_dirty,
                    self.tilemap_plane.offsets == old(self).tilemap_plane.offsets,
                    self.tilemap_plane.tm_dirty == old(self).tilemap_plane.tm_dirty,
                    self.tilemap_plane.proj_dirty == old(self).tilemap_plane.proj_dirty,
                    self.tilemap_plane.data@.len() == wlen,
                    forall|k: int|
                        0 <= k < charmap_ypos * cw + charmap_xpos
                            ==> #[trigger] self.tilemap_plane.data@[k] == self.tiles@[(fy + k / (
                        cw as int)) * w + (fx + k % (cw as int))],
                decreases cw - charmap_xpos,
            {
                proof {
                    assert(charmap_ypos * cw + charmap_xpos < wlen) by (nonlinear_arith)
                        requires
                            0 <= charmap_ypos < ch,
                            0 <= charmap_xpos < cw,
                            wlen == cw * ch,
                    ;
                }
                let ypos = fy + charmap_ypos;
                let xpos = fx + charmap_xpos;
                proof {
                    assert(ypos * w + xpos < glen) by (nonlinear_arith)
                        requires
                            0 <= ypos < h,
                            0 <= xpos < w,
                            glen == w * h,
                    ;
                }
                let tile_idx = ypos * w + xpos;
                let charmap_idx = charmap_ypos * cw + charmap_xpos;
                let cell = self.tiles[tile_idx];
                self.tilemap_plane.data.set(charmap_idx, cell);
                proof {
                    lemma_fundamental_div_mod_converse(
                        charmap_idx as int,
                        cw as int,
                        charmap_ypos as int,
                        charmap_xpos as int,
                    );
                }
                charmap_xpos = charmap_xpos + 1;
            }
            proof {
                assert(charmap_ypos * cw + cw == (charmap_ypos + 1) * cw) by (nonlinear_arith);
            }
            charmap_ypos = charmap_ypos + 1;
        }
        self.focus_dirty = true;
        proof {
            assert forall|cx: int, cy: int|
                0 <= cx < self.charmap_size[0] && 0 <= cy < self.charmap_size[1] implies #[trigger] self
                .window_cell(cx, cy) == self.grid_cell(
                self.focus_coords[0] + cx,
                self.focus_coords[1] + cy,
            ) by {
                assert(0 <= cy * (cw as int) + cx < (ch as int) * (cw as int))
                    by (nonlinear_arith)
                    requires
                        0 <= cx < cw as int,
                        0 <= cy < ch as int,
                ;
                assert((ch as int) * (cw as int) == wlen) by (nonlinear_arith)
                    requires
                        wlen == (cw as int) * (ch as int),
                ;
                let k = cy * (cw as int) + cx;
                lemma_fundamental_div_mod_converse(k, cw as int, cy, cx);
                assert(self.tilemap_plane.data@[k] == self.tiles@[(fy + k / (cw as int)) * w + (fx
                    + k % (cw as int))]);
            }
        }
    }

    /// Applies a signed pixel delta to the x axis of the scroll state,
    /// settling focus and offset by the wrap rule of [`scroll_wrap`]. When
    /// whole tiles are crossed the window is refreshed at the new focus;
    /// either way the axis offset is recorded and the parameter uniforms are
    /// marked stale.
    pub fn apply_x_offset(&mut self, offset_amt: i32)
        requires
            old(self).wf(),
        ensures
            final(self).wf(),
            ({
                let r = scroll_wrap(
                    old(self).focus_coords[0] as int,
                    old(self).tilemap_plane.offsets[0] + offset_amt,
                    old(self).tile_size as int,
                    old(self).limit_coords[0] as int,
                );
                final(self).focus_coords[0] == r.0 && final(self).tilemap_plane.offsets[0] == r.1
            }),
            final(self).focus_coords[1] == old(self).focus_coords[1],
            final(self).tilemap_plane.offsets[1] == old(self).tilemap_plane.offsets[1],
            final(self).tiles == old(self).tiles,
            final(self).tilemap_size == old(self).tilemap_size,
            final(self).charmap_size == old(self).charmap_size,
            final(self).limit_coords == old(self).limit_coords,
            final(self).tile_size == old(self).tile_size,
            final(self).tilemap_plane.tm_dirty,
            final(self).tilemap_plane.proj_dirty == old(self).tilemap_plane.proj_dirty,
            final(self).focus_coords[0] != old(self).focus_coords[0]
                ==> final(self).window_synced() && final(self).focus_dirty,
            final(self).focus_coords[0] == old(self).focus_coords[0]
                ==> final(self).tilemap_plane.data == old(self).tilemap_plane.data
                    && final(self).focus_dirty == old(self).focus_dirty,
    {
        let (new_x, new_offset) = wrap_offset(
            self.focus_coords[0],
            self.tilemap_plane.offsets[0],
            offset_amt,
            self.tile_size,
            self.limit_coords[0],
        );
        proof {
            lemma_scroll_wrap_bounds(
                self.focus_coords[0] as int,
                self.tilemap_plane.offsets[0] + offset_amt,
                self.tile_size as int,
                self.limit_coords[0] as int,
            );
        }
        self.tilemap_plane.update_x_offset(new_offset);
        if new_x != self.focus_coords[0] {
            let fy = self.focus_coords[1];
            self.set_focus([new_x, fy]);
        }
    }

    /// Applies a signed pixel delta to the y axis of the scroll state; the
    /// exact y-axis counterpart of [`TileMap::apply_x_offset`].
    pub fn apply_y_offset(&mut self, offset_amt: i32)
        requires
            old(self).wf(),
        ensures
            final(self).wf(),
            ({
                let r = scroll_wrap(
                    old(self).focus_coords[1] as int,
                    old(self).tilemap_plane.offsets[1] + offset_amt,
                    old(self).tile_size as int,
                    old(self).limit_coords[1] as int,
                );
                final(self).focus_coords[1] == r.0 && final(self).tilemap_plane.offsets[1] == r.1
            }),
            final(self).focus_coords[0] == old(self).focus_coords[0],
            final(self).tilemap_plane.offsets[0] == old(self).tilemap_plane.offsets[0],
            final(self).tiles == old(self).tiles,
            final(self).tilemap_size == old(self).tilemap_size,
            final(self).charmap_size == old(self).charmap_size,
            final(self).limit_coords == old(self).limit_coords,
            final(self).tile_size == old(self).tile_size,
            final(self).tilemap_plane.tm_dirty,
            final(self).tilemap_plane.proj_dirty == old(self).tilemap_plane.proj_dirty,
            final(self).focus_coords[1] != old(self).focus_coords[1]
                ==> final(self).window_synced() && final(self).focus_dirty,
            final(self).focus_coords[1] == old(self).focus_coords[1]
                ==> final(self).tilemap_plane.data == old(self).tilemap_plane.data
                    && final(self).focus_dirty == old(self).focus_dirty,
    {
        let (new_y, new_offset) = wrap_offset(
            self.focus_coords[1],
            self.tilemap_plane.offsets[1],
            offset_amt,
            self.tile_size,
            self.limit_coords[1],
        );
        proof {
            lemma_scroll_wrap_bounds(
                self.focus_coords[1] as int,
                self.tilemap_plane.offsets[1] + offset_amt,
                self.tile_size as int,
                self.limit_coords[1] as int,
            );
        }
        self.tilemap_plane.update_y_offset(new_offset);
        if new_y != self.focus_coords[1] {
            let fx = self.focus_coords[0];
            self.set_focus([fx, new_y]);
        }
    }

    /// Row-major index of grid coordinate `(xpos, ypos)`.
    fn calc_idx(&self, xpos: usize, ypos: usize) -> (r: usize)
        requires
            self.wf(),
            xpos < self.tilemap_size[0],
            ypos < self.tilemap_size[1],
        ensures
            r == ypos * self.tilemap_size[0] + xpos,
            r < self.tiles@.len(),
    {
        let w = self.tilemap_size[0];
        let h = self.tilemap_size[1];
        let glen = self.tiles.len();
        proof {
            assert(ypos * w + xpos < glen) by (nonlinear_arith)
                requires
                    0 <= ypos < h,
                    0 <= xpos < w,
                    glen == w * h,
            ;
        }
        ypos * w + xpos
    }

    /// Overwrites one grid cell with the given components. A coordinate
    /// outside the grid is rejected explicitly: the write is ignored and
    /// reported, never applied to a wrong cell. The viewport window is not
    /// touched; the new contents reach it on the next focus refresh.
    pub fn set_tile(&mut self, xpos: usize, ypos: usize, data: [u32; 4]) -> (r: Result<
        (),
        TileMapError,
    >)
        requires
            old(self).wf(),
        ensures
            final(self).wf(),
            xpos < old(self).tilemap_size[0] && ypos < old(self).tilemap_size[1] ==> r == Ok::<
                (),
                TileMapError,
            >(()) && final(self).tiles@ == old(self).tiles@.update(
                ypos * old(self).tilemap_size[0] + xpos,
                (TileMapData { data }),
            ),
            !(xpos < old(self).tilemap_size[0] && ypos < old(self).tilemap_size[1]) ==> r == Err::<
                (),
                TileMapError,
            >(TileMapError::OutOfBoundsTileWrite) && final(self).tiles == old(self).tiles,
            final(self).tilemap_plane == old(self).tilemap_plane,
            final(self).tilemap_size == old(self).tilemap_size,
            final(self).charmap_size == old(self).charmap_size,
            final(self).limit_coords == old(self).limit_coords,
            final(self).tile_size == old(self).tile_size,
            final(self).focus_coords == old(self).focus_coords,
            final(self).focus_dirty == old(self).focus_dirty,
    {
        if xpos < self.tilemap_size[0] && ypos < self.tilemap_size[1] {
            let idx = self.calc_idx(xpos, ypos);
            self.tiles.set(idx, TileMapData::new(data));
            Ok(())
        } else {
            Err(TileMapError::OutOfBoundsTileWrite)
        }
    }

    /// The frame-sync step, run once before each draw: reports which GPU
    /// buffers are stale (window tile data, projection uniforms, tilemap
    /// parameter uniforms) and clears all three dirty flags, since the
    /// caller performs the requested uploads before drawing. Nothing else
    /// changes; a mirrored window stays mirrored.
    pub fn prepare_buffers(&mut self) -> (r: BufferUpdates)
        ensures
            r.update_data == old(self).focus_dirty,
            r.update_proj == old(self).tilemap_plane.proj_dirty,
            r.update_params == old(self).tilemap_plane.tm_dirty,
            !final(self).focus_dirty,
            !final(self).tilemap_plane.proj_dirty,
            !final(self).tilemap_plane.tm_dirty,
            final(self).tiles == old(self).tiles,
            final(self).tilemap_plane.data == old(self).tilemap_plane.data,
            final(self).tilemap_plane.offsets == old(self).tilemap_plane.offsets,
            final(self).focus_coords == old(self).focus_coords,
            final(self).tilemap_size == old(self).tilemap_size,
            final(self).charmap_size == old(self).charmap_size,
            final(self).limit_coords == old(self).limit_coords,
            final(self).tile_size == old(self).tile_size,
            old(self).wf() ==> final(self).wf(),
            old(self).window_synced() ==> final(self).window_synced(),
    {
        let update_data = self.focus_dirty;
        self.focus_dirty = false;
        let r = self.tilemap_plane.prepare_buffers(update_data);
        proof {
            if old(self).window_synced() {
                assert forall|cx: int, cy: int|
                    0 <= cx < self.charmap_size[0] && 0 <= cy < self.charmap_size[1] implies #[trigger] self
                    .window_cell(cx, cy) == self.grid_cell(
                    self.focus_coords[0] + cx,
                    self.focus_coords[1] + cy,
                ) by {
                    assert(old(self).window_cell(cx, cy) == old(self).grid_cell(
                        old(self).focus_coords[0] + cx,
                        old(self).focus_coords[1] + cy,
                    ));
                }
            }
        }
        r
    }
}

} // verus!
