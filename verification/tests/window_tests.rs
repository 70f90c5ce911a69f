use tilescroll::TileMap;
use tilescroll::TileMapError;

/// A 4x4 map whose cell (x, y) is tagged with components [x, y, 0, 0], so
/// window copies are easy to check.
fn tagged_map() -> TileMap {
    let mut map = TileMap::new(4, 4, 32, 2, 2);
    for y in 0..4usize {
        for x in 0..4usize {
            let r = map.set_tile(x, y, [x as u32, y as u32, 0, 0]);
            assert!(r.is_ok());
        }
    }
    map
}

#[test]
fn set_focus_mirrors_the_grid_block() {
    let mut map = tagged_map();
    map.set_focus([1, 2]);
    for cy in 0..2usize {
        for cx in 0..2usize {
            let cell = map.tilemap_plane.data[cy * 2 + cx];
            assert_eq!(cell.data, [(1 + cx) as u32, (2 + cy) as u32, 0, 0]);
        }
    }
    assert!(map.focus_dirty);
}

#[test]
fn set_focus_at_limit_shows_the_far_corner() {
    let mut map = tagged_map();
    map.set_focus([2, 2]);
    assert_eq!(map.tilemap_plane.data[0].data, [2, 2, 0, 0]);
    assert_eq!(map.tilemap_plane.data[3].data, [3, 3, 0, 0]);
}

#[test]
fn whole_grid_window_has_zero_limits() {
    // A window as large as the grid leaves no room to scroll.
    let mut map = TileMap::new(3, 3, 16, 3, 3);
    assert_eq!(map.limit_coords, [0, 0]);
    map.apply_x_offset(100);
    assert_eq!(map.focus_coords, [0, 0]);
    assert_eq!(map.tilemap_plane.offsets[0], 0);
}

#[test]
fn crossing_a_tile_refreshes_the_window() {
    let mut map = tagged_map();
    map.apply_x_offset(40);
    assert_eq!(map.focus_coords, [1, 0]);
    assert_eq!(map.tilemap_plane.data[0].data, [1, 0, 0, 0]);
    assert_eq!(map.tilemap_plane.data[1].data, [2, 0, 0, 0]);
    assert_eq!(map.tilemap_plane.data[2].data, [1, 1, 0, 0]);
    assert_eq!(map.tilemap_plane.data[3].data, [2, 1, 0, 0]);
}

#[test]
fn set_tile_outside_the_grid_is_ignored() {
    let mut map = tagged_map();
    let before: Vec<[u32; 4]> = map.tiles.iter().map(|c| c.data).collect();
    let r = map.set_tile(4, 0, [9, 9, 9, 9]);
    assert_eq!(r, Err(TileMapError::OutOfBoundsTileWrite));
    let r = map.set_tile(0, 4, [9, 9, 9, 9]);
    assert_eq!(r, Err(TileMapError::OutOfBoundsTileWrite));
    let after: Vec<[u32; 4]> = map.tiles.iter().map(|c| c.data).collect();
    assert_eq!(before, after);
}

#[test]
fn set_tile_overwrites_one_cell() {
    let mut map = tagged_map();
    let r = map.set_tile(3, 1, [7, 8, 0, 0]);
    assert!(r.is_ok());
    assert_eq!(map.tiles[1 * 4 + 3].data, [7, 8, 0, 0]);
    assert_eq!(map.tiles[1 * 4 + 2].data, [2, 1, 0, 0]);
}

#[test]
fn prepare_buffers_reports_and_clears_dirty_flags() {
    let mut map = tagged_map();
    // A fresh map wants its uniforms uploaded but no window data yet.
    let ups = map.prepare_buffers();
    assert!(!ups.update_data);
    assert!(ups.update_proj);
    assert!(ups.update_params);
    // Nothing changed since: nothing to upload.
    let ups = map.prepare_buffers();
    assert!(!ups.update_data);
    assert!(!ups.update_proj);
    assert!(!ups.update_params);
    // A focus change wants the window data and the offsets re-uploaded.
    map.apply_x_offset(40);
    let ups = map.prepare_buffers();
    assert!(ups.update_data);
    assert!(!ups.update_proj);
    assert!(ups.update_params);
    // A sub-tile scroll wants only the parameter uniforms.
    map.apply_x_offset(3);
    let ups = map.prepare_buffers();
    assert!(!ups.update_data);
    assert!(!ups.update_proj);
    assert!(ups.update_params);
}
