use vstd::prelude::*;

use crate::data::TileMapData;
use crate::error::TileMapError;
use crate::tilemap::TileMap;

verus! {

/// One tileset of the map source: it owns the contiguous range of global
/// tile identifiers starting at `first_gid`, and its graphics live in a
/// single atlas image with the given pixel dimensions.
#[derive(Clone, Copy, Debug)]
pub struct Tileset {
    /// First global tile identifier this tileset owns.
    pub first_gid: u32,
    /// Number of identifiers it owns, from `first_gid` on.
    pub tile_count: u32,
    /// Atlas image width in pixels.
    pub atlas_width: u32,
    /// Atlas image height in pixels.
    pub atlas_height: u32,
}

/// The tileset owns the identifier: `gid` lies in its identifier range.
pub open spec fn owns_gid(ts: Tileset, gid: u32) -> bool {
    ts.first_gid <= gid < ts.first_gid + ts.tile_count
}

/// Index of the first tileset whose identifier range contains `gid`, or a
/// negative value when none does.
pub open spec fn owner_index(tilesets: Seq<Tileset>, gid: u32) -> int
    decreases tilesets.len(),
{
    if tilesets.len() == 0 {
        -1
    } else if owns_gid(tilesets[0], gid) {
        0
    } else {
        let rest = owner_index(tilesets.drop_first(), gid);
        if rest < 0 {
            -1
        } else {
            rest + 1
        }
    }
}

/// The atlas sample x origin of a tile identifier: row-major atlas
/// indexing, wrapping at the atlas width.
pub open spec fn sample_origin_x(gid: u32, tile_size: u32, atlas_width: u32) -> int {
    (gid * tile_size) % (atlas_width as int)
}

/// The atlas sample y origin for a tile placed on grid row `row`, wrapping
/// at the atlas height.
pub open spec fn sample_origin_y(row: int, tile_size: u32, atlas_height: u32) -> int {
    (row * tile_size) % (atlas_height as int)
}

/// The identifier a stack of layers leaves at grid cell `(x, y)`: the value
/// in the last layer holding a non-zero entry there, or zero when every
/// layer leaves the cell empty.
pub open spec fn last_gid(layers: Seq<Seq<Seq<u32>>>, x: int, y: int) -> u32
    decreases layers.len(),
{
    if layers.len() == 0 {
        0
    } else if layers.last()[y][x] != 0 {
        layers.last()[y][x]
    } else {
        last_gid(layers.drop_last(), x, y)
    }
}

/// Every layer matrix is exactly `height` rows of `width` entries.
pub open spec fn layer_dims_ok(layers: Seq<Seq<Seq<u32>>>, width: int, height: int) -> bool {
    forall|l: int|
        0 <= l < layers.len() ==> (#[trigger] layers[l]).len() == height && (forall|y: int|
            0 <= y < height ==> (#[trigger] layers[l][y]).len() == width)
}

/// Every tileset's atlas has non-zero pixel dimensions, so sample origins
/// are well defined.
pub open spec fn tilesets_ok(tilesets: Seq<Tileset>) -> bool {
    forall|i: int|
        0 <= i < tilesets.len() ==> (#[trigger] tilesets[i]).atlas_width >= 1 && tilesets[i].atlas_height
            >= 1
}

/// Every non-zero tile identifier in any layer is owned by some tileset.
pub open spec fn gids_owned(layers: Seq<Seq<Seq<u32>>>, tilesets: Seq<Tileset>) -> bool {
    forall|l: int, y: int, x: int|
        0 <= l < layers.len() && 0 <= y < layers[l].len() && 0 <= x < layers[l][y].len() && (
        #[trigger] layers[l][y][x]) != 0 ==> owner_index(tilesets, layers[l][y][x]) >= 0
}

/// The map data is well formed: layer matrices match the grid dimensions,
/// atlases have non-zero dimensions, and every used identifier has an
/// owning tileset. Grid population succeeds exactly on such data.
pub open spec fn valid_config(
    layers: Seq<Seq<Seq<u32>>>,
    tilesets: Seq<Tileset>,
    width: int,
    height: int,
) -> bool {
    &&& layer_dims_ok(layers, width, height)
    &&& tilesets_ok(tilesets)
    &&& gids_owned(layers, tilesets)
}

/// The cell components population computes for an owned identifier: the
/// atlas sample origin in the first two components, zero in the reserved
/// ones.
pub open spec fn cell_matches_sample(
    c: TileMapData,
    gid: u32,
    row: int,
    ts: Tileset,
    tile_size: u32,
) -> bool {
    &&& c.data@[0] == sample_origin_x(gid, tile_size, ts.atlas_width)
    &&& c.data@[1] == sample_origin_y(row, tile_size, ts.atlas_height)
    &&& c.data@[2] == 0
    &&& c.data@[3] == 0
}

/// No tileset owning `gid` means the search reports a negative index.
proof fn lemma_owner_index_none(tilesets: Seq<Tileset>, gid: u32)
    requires
        forall|j: int| 0 <= j < tilesets.len() ==> !owns_gid(#[trigger] tilesets[j], gid),
    ensures
        owner_index(tilesets, gid) < 0,
    decreases tilesets.len(),
{
    if tilesets.len() > 0 {
        lemma_owner_index_none(tilesets.drop_first(), gid);
    }
}

/// A first match at position `i` (with no match before it) is exactly what
/// the search reports.
proof fn lemma_owner_index_at(tilesets: Seq<Tileset>, gid: u32, i: int)
    requires
        0 <= i < tilesets.len(),
        owns_gid(tilesets[i], gid),
        forall|j: int| 0 <= j < i ==> !owns_gid(#[trigger] tilesets[j], gid),
    ensures
        owner_index(tilesets, gid) == i,
    decreases i,
{
    if i > 0 {
        lemma_owner_index_at(tilesets.drop_first(), gid, i - 1);
    }
}

/// A non-zero settled identifier was contributed by some layer at that
/// cell.
proof fn lemma_last_gid_found(layers: Seq<Seq<Seq<u32>>>, x: int, y: int)
    requires
        last_gid(layers, x, y) != 0,
    ensures
        exists|l: int|
            0 <= l < layers.len() && #[trigger] layers[l][y][x] == last_gid(layers, x, y),
    decreases layers.len(),
{
    if layers.len() > 0 {
        if layers.last()[y][x] != 0 {
            assert(layers[layers.len() - 1][y][x] == last_gid(layers, x, y));
        } else {
            lemma_last_gid_found(layers.drop_last(), x, y);
            let l = choose|l: int|
                0 <= l < layers.drop_last().len() && #[trigger] layers.drop_last()[l][y][x]
                    == last_gid(layers.drop_last(), x, y);
            assert(layers[l][y][x] == last_gid(layers, x, y));
        }
    }
}

/// Finds the first tileset owning `gid`, reporting its position, or reports
/// that none does.
fn find_owner(tilesets: &Vec<Tileset>, gid: u32) -> (r: Option<usize>)
    ensures
        match r {
            Some(i) => i < tilesets@.len() && owner_index(tilesets@, gid) == i && owns_gid(
                tilesets@[i as int],
                gid,
            ),
            None => owner_index(tilesets@, gid) < 0,
        },
{
    let mut ti: usize = 0;
    while ti < tilesets.len()
        invariant
            ti <= tilesets@.len(),
            forall|j: int| 0 <= j < ti ==> !owns_gid(#[trigger] tilesets@[j], gid),
        decreases tilesets@.len() - ti,
    {
        let ts = tilesets[ti];
        if ts.first_gid <= gid && gid - ts.first_gid < ts.tile_count {
            proof {
                lemma_owner_index_at(tilesets@, gid, ti as int);
            }
            return Some(ti);
        }
        ti = ti + 1;
    }
    proof {
        lemma_owner_index_none(tilesets@, gid);
    }
    None
}

/// Computes the atlas sample origin of tile identifier `gid` placed on grid
/// row `row`: row-major atlas indexing, wrapping each coordinate at the
/// atlas dimension.
pub fn atlas_origin(gid: u32, row: usize, tile_size: u32, atlas_width: u32, atlas_height: u32) -> (r:
    (u32, u32))
    requires
        atlas_width >= 1,
        atlas_height >= 1,
    ensures
        r.0 == sample_origin_x(gid, tile_size, atlas_width),
        r.1 == sample_origin_y(row as int, tile_size, atlas_height),
        r.0 < atlas_width,
        r.1 < atlas_height,
{
    proof {
        assert((gid as int) * (tile_size as int) <= 0xffff_ffff * 0xffff_ffff) by (nonlinear_arith)
            requires
                0 <= gid as int <= 0xffff_ffff,
                0 <= tile_size as int <= 0xffff_ffff,
        ;
        assert((row as int) * (tile_size as int) <= 0xffff_ffff_ffff_ffff * 0xffff_ffff)
            by (nonlinear_arith)
            requires
                0 <= row as int <= 0xffff_ffff_ffff_ffff,
                0 <= tile_size as int <= 0xffff_ffff,
        ;
    }
    let sx = ((gid as u64 * tile_size as u64) % (atlas_width as u64)) as u32;
    let sy = ((row as u128 * tile_size as u128) % (atlas_height as u128)) as u32;
    (sx, sy)
}

/// What population leaves at grid cell `(x, y)`: untouched when every layer
/// leaves the cell empty, otherwise the atlas sample of the settled
/// identifier, taken from its owning tileset.
pub open spec fn populated_cell_ok(
    cur: Seq<TileMapData>,
    orig: Seq<TileMapData>,
    layers: Seq<Seq<Seq<u32>>>,
    tilesets: Seq<Tileset>,
    tile_size: u32,
    width: int,
    x: int,
    y: int,
) -> bool {
    let gid = last_gid(layers, x, y);
    if gid == 0 {
        cur[y * width + x] == orig[y * width + x]
    } else {
        cell_matches_sample(
            cur[y * width + x],
            gid,
            y,
            tilesets[owner_index(tilesets, gid)],
            tile_size,
        )
    }
}

/// The identifier the layer stack settles on at cell `(x, y)`: layers are
/// scanned from the top down and the first non-zero entry wins.
#[verifier::loop_isolation(false)]
fn settled_gid(layers: &Vec<Vec<Vec<u32>>>, x: usize, y: usize) -> (g: u32)
    requires
        forall|l: int|
            0 <= l < layers@.len() ==> y < (#[trigger] layers.deep_view()[l]).len() && x
                < layers.deep_view()[l][y as int].len(),
    ensures
        g == last_gid(layers.deep_view(), x as int, y as int),
{
    let ghost lys = layers.deep_view();
    let mut li: usize = layers.len();
    proof {
        assert(lys.take(li as int) =~= lys);
    }
    while li > 0
        invariant
            li <= layers@.len(),
            last_gid(lys.take(li as int), x as int, y as int) == last_gid(
                lys,
                x as int,
                y as int,
            ),
        decreases li,
    {
        let layer: &Vec<Vec<u32>> = &layers[li - 1];
        proof {
            assert(lys[li - 1] == layer.deep_view());
            assert(lys[li - 1].len() == layer@.len());
            assert(lys[li - 1][y as int] == layer@[y as int].deep_view());
            assert(lys[li - 1][y as int].len() == layer@[y as int]@.len());
        }
        let row: &Vec<u32> = &layer[y];
        let id: u32 = row[x];
        proof {
            assert(id == lys[li - 1][y as int][x as int]);
            assert(lys.take(li as int).last() == lys[li - 1]);
            assert(lys.take(li as int).drop_last() =~= lys.take(li as int - 1));
        }
        if id != 0 {
            return id;
        }
        li = li - 1;
    }
    0
}

/// Populates the grid from the map source's layer matrices and tilesets.
/// Layers are walked in order; a zero entry means "empty, keep the cell",
/// and a non-zero entry overwrites the cell with the atlas sample origin of
/// that identifier, computed from the first tileset whose identifier range
/// contains it. Malformed data — a layer matrix that does not match the
/// grid, an atlas with a zero dimension, or an identifier no tileset owns —
/// is rejected whole: the grid is left exactly as it was.
#[verifier::loop_isolation(false)]
pub fn populate_tilemap(
    tilemap: &mut TileMap,
    layers: &Vec<Vec<Vec<u32>>>,
    tilesets: &Vec<Tileset>,
) -> (r: Result<(), TileMapError>)
    requires
        old(tilemap).wf(),
    ensures
        final(tilemap).wf(),
        r == Ok::<(), TileMapError>(()) <==> valid_config(
            layers.deep_view(),
            tilesets@,
            old(tilemap).tilemap_size[0] as int,
            old(tilemap).tilemap_size[1] as int,
        ),
        r is Err ==> r == Err::<(), TileMapError>(TileMapError::ConfigurationFailure)
            && final(tilemap).tiles == old(tilemap).tiles,
        r is Ok ==> forall|x: int, y: int|
            0 <= x < old(tilemap).tilemap_size[0] && 0 <= y < old(tilemap).tilemap_size[1]
                ==> #[trigger] populated_cell_ok(
                final(tilemap).tiles@,
                old(tilemap).tiles@,
                layers.deep_view(),
                tilesets@,
                old(tilemap).tile_size,
                old(tilemap).tilemap_size[0] as int,
                x,
                y,
            ),
        final(tilemap).tiles@.len() == old(tilemap).tiles@.len(),
        final(tilemap).tilemap_plane == old(tilemap).tilemap_plane,
        final(tilemap).tilemap_size == old(tilemap).tilemap_size,
        final(tilemap).charmap_size == old(tilemap).charmap_size,
        final(tilemap).limit_coords == old(tilemap).limit_coords,
        final(tilemap).tile_size == old(tilemap).tile_size,
        final(tilemap).focus_coords == old(tilemap).focus_coords,
        final(tilemap).focus_dirty == old(tilemap).focus_dirty,
{
    let w = tilemap.tilemap_size[0];
    let h = tilemap.tilemap_size[1];
    let tile_size = tilemap.tile_size;
    let ghost lys = layers.deep_view();
    let ghost tss = tilesets@;
    let nl = layers.len();

    // Tileset atlases must have non-zero dimensions.
    let mut ti: usize = 0;
    while ti < tilesets.len()
        invariant
            ti <= tss.len(),
            forall|j: int|
                0 <= j < ti ==> (#[trigger] tss[j]).atlas_width >= 1 && tss[j].atlas_height >= 1,
        decreases tss.len() - ti,
    {
        let ts = tilesets[ti];
        if ts.atlas_width == 0 || ts.atlas_height == 0 {
            return Err(TileMapError::ConfigurationFailure);
        }
        ti = ti + 1;
    }
    assert(tilesets_ok(tss));

    // Every layer matrix must be exactly `h` rows of `w` entries.
    let mut li: usize = 0;
    while li < nl
        invariant
            li <= nl,
            forall|l: int|
                0 <= l < li ==> (#[trigger] lys[l]).len() == h && (forall|y: int|
                    0 <= y < h ==> (#[trigger] lys[l][y]).len() == w),
        decreases nl - li,
    {
        let layer: &Vec<Vec<u32>> = &layers[li];
        proof {
            assert(lys[li as int] == layer.deep_view());
            assert(lys[li as int].len() == layer@.len());
        }
        if layer.len() != h {
            return Err(TileMapError::ConfigurationFailure);
        }
        let mut yi: usize = 0;
        while yi < h
            invariant
                yi <= h,
                li < nl,
                lys[li as int].len() == h,
                forall|y: int| 0 <= y < yi ==> (#[trigger] lys[li as int][y]).len() == w,
            decreases h - yi,
        {
            let row: &Vec<u32> = &layer[yi];
            proof {
                assert(lys[li as int][yi as int] == row.deep_view());
                assert(lys[li as int][yi as int].len() == row@.len());
            }
            if row.len() != w {
                return Err(TileMapError::ConfigurationFailure);
            }
            yi = yi + 1;
        }
        li = li + 1;
    }
    assert(layer_dims_ok(lys, w as int, h as int));

    // Every non-zero identifier in any layer must have an owning tileset.
    let mut li: usize = 0;
    while li < nl
        invariant
            li <= nl,
            forall|l: int, y: int, x: int|
                0 <= l < li && 0 <= y < lys[l].len() && 0 <= x < lys[l][y].len() && (
                #[trigger] lys[l][y][x]) != 0 ==> owner_index(tss, lys[l][y][x]) >= 0,
        decreases nl - li,
    {
        let layer: &Vec<Vec<u32>> = &layers[li];
        proof {
            assert(lys[li as int] == layer.deep_view());
            assert(lys[li as int].len() == layer@.len());
        }
        let mut yi: usize = 0;
        while yi < h
            invariant
                yi <= h,
                li < nl,
                forall|y: int, x: int|
                    0 <= y < yi && 0 <= x < lys[li as int][y].len() && (#[trigger] lys[li as int][y][x])
                        != 0 ==> owner_index(tss, lys[li as int][y][x]) >= 0,
            decreases h - yi,
        {
            let row: &Vec<u32> = &layer[yi];
            proof {
                assert(lys[li as int][yi as int] == row.deep_view());
                assert(lys[li as int][yi as int].len() == row@.len());
            }
            let mut xi: usize = 0;
            while xi < w
                invariant
                    xi <= w,
                    yi < h,
                    li < nl,
                    forall|x: int|
                        0 <= x < xi && (#[trigger] lys[li as int][yi as int][x]) != 0
                            ==> owner_index(tss, lys[li as int][yi as int][x]) >= 0,
                decreases w - xi,
            {
                let id: u32 = row[xi];
                proof {
                    assert(id == lys[li as int][yi as int][xi as int]);
                }
                if id != 0 {
                    match find_owner(tilesets, id) {
                        Some(_) => {},
                        None => {
                            return Err(TileMapError::ConfigurationFailure);
                        },
                    }
                }
                xi = xi + 1;
            }
            yi = yi + 1;
        }
        li = li + 1;
    }
    assert(gids_owned(lys, tss));

    // The data is well formed; write the settled sample origins.
    let ghost orig = tilemap.tiles@;
    let mut yi: usize = 0;
    while yi < h
        invariant
            yi <= h,
            tilemap.wf(),
            tilemap.tiles@.len() == orig.len(),
            tilemap.tilemap_plane == old(tilemap).tilemap_plane,
            tilemap.tilemap_size == old(tilemap).tilemap_size,
            tilemap.charmap_size == old(tilemap).charmap_size,
            tilemap.limit_coords == old(tilemap).limit_coords,
            tilemap.tile_size == old(tilemap).tile_size,
            tilemap.focus_coords == old(tilemap).focus_coords,
            tilemap.focus_dirty == old(tilemap).focus_dirty,
            forall|gx: int, gy: int|
                0 <= gx < w && 0 <= gy < yi ==> #[trigger] populated_cell_ok(
                    tilemap.tiles@,
                    orig,
                    lys,
                    tss,
                    tile_size,
                    w as int,
                    gx,
                    gy,
                ),
            forall|k: int|
                yi * w <= k < orig.len() ==> #[trigger] tilemap.tiles@[k] == orig[k],
        decreases h - yi,
    {
        let mut xi: usize = 0;
        while xi < w
            invariant
                xi <= w,
                yi < h,
                tilemap.wf(),
                tilemap.tiles@.len() == orig.len(),
                tilemap.tilemap_plane == old(tilemap).tilemap_plane,
                tilemap.tilemap_size == old(tilemap).tilemap_size,
                tilemap.charmap_size == old(tilemap).charmap_size,
                tilemap.limit_coords == old(tilemap).limit_coords,
                tilemap.tile_size == old(tilemap).tile_size,
                tilemap.focus_coords == old(tilemap).focus_coords,
                tilemap.focus_dirty == old(tilemap).focus_dirty,
                forall|gx: int, gy: int|
                    0 <= gx < w && 0 <= gy < h && (gy < yi || (gy == yi && gx < xi))
                        ==> #[trigger] populated_cell_ok(
                        tilemap.tiles@,
                        orig,
                        lys,
                        tss,
                        tile_size,
                        w as int,
                        gx,
                        gy,
                    ),
                forall|k: int|
                    yi * w + xi <= k < orig.len() ==> #[trigger] tilemap.tiles@[k] == orig[k],
            decreases w - xi,
        {
            proof {
                assert(yi * w + xi < orig.len()) by (nonlinear_arith)
                    requires
                        0 <= xi < w,
                        0 <= yi < h,
                        orig.len() == w * h,
                ;
            }
            let ghost before = tilemap.tiles@;
            let gid = settled_gid(layers, xi, yi);
            if gid != 0 {
                let oi: usize;
                match find_owner(tilesets, gid) {
                    Some(i) => {
                        oi = i;
                    },
                    None => {
                        proof {
                            lemma_last_gid_found(lys, xi as int, yi as int);
                            let l = choose|l: int|
                                0 <= l < lys.len() && #[trigger] lys[l][yi as int][xi as int]
                                    == last_gid(lys, xi as int, yi as int);
                            assert(lys[l].len() == h);
                            assert(lys[l][yi as int].len() == w);
                            assert(false);
                        }
                        return Err(TileMapError::ConfigurationFailure);
                    },
                }
                let ts = tilesets[oi];
                let (sx, sy) = atlas_origin(gid, yi, tile_size, ts.atlas_width, ts.atlas_height);
                let res = tilemap.set_tile(xi, yi, [sx, sy, 0, 0]);
                proof {
                    assert(res is Ok);
                    assert(tilemap.tiles@ == before.update(yi * w + xi, (TileMapData {
                        data: [sx, sy, 0u32, 0u32],
                    })));
                }
            }
            proof {
                assert(populated_cell_ok(
                    tilemap.tiles@,
                    orig,
                    lys,
                    tss,
                    tile_size,
                    w as int,
                    xi as int,
                    yi as int,
                ));
                assert forall|gx: int, gy: int|
                    0 <= gx < w && 0 <= gy < h && (gy < yi || (gy == yi && gx < xi)) implies #[trigger] populated_cell_ok(
                    tilemap.tiles@,
                    orig,
                    lys,
                    tss,
                    tile_size,
                    w as int,
                    gx,
                    gy,
                ) by {
                    assert(gy * w + gx < yi * w + xi) by (nonlinear_arith)
                        requires
                            0 <= gx < w,
                            0 <= gy,
                            gy < yi || (gy == yi && gx < xi),
                    ;
                    assert(populated_cell_ok(before, orig, lys, tss, tile_size, w as int, gx, gy));
                    assert(tilemap.tiles@[gy * (w as int) + gx] == before[gy * (w as int) + gx]);
                }
            }
            xi = xi + 1;
        }
        proof {
            assert(yi * w + w == (yi + 1) * w) by (nonlinear_arith);
        }
        yi = yi + 1;
    }
    Ok(())
}

} // verus!
