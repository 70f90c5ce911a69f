use tilescroll::TileMap;

fn fresh_map() -> TileMap {
    // 4x4 tile grid, 32-pixel tiles, 2x2 viewport window: limits are (2, 2).
    TileMap::new(4, 4, 32, 2, 2)
}

#[test]
fn new_map_starts_at_origin() {
    let map = fresh_map();
    assert_eq!(map.focus_coords, [0, 0]);
    assert_eq!(map.limit_coords, [2, 2]);
    assert_eq!(map.tilemap_plane.offsets, [0, 0]);
    assert_eq!(map.tiles.len(), 16);
    assert_eq!(map.tilemap_plane.data.len(), 4);
}

#[test]
fn sub_tile_scroll_moves_offset_only() {
    let mut map = fresh_map();
    map.apply_x_offset(10);
    assert_eq!(map.focus_coords, [0, 0]);
    assert_eq!(map.tilemap_plane.offsets[0], 10);
    map.apply_y_offset(31);
    assert_eq!(map.focus_coords, [0, 0]);
    assert_eq!(map.tilemap_plane.offsets[1], 31);
}

#[test]
fn crossing_scenario_forward_then_back() {
    // 4x4 grid, tile_size 32, 2x2 window, focus (0,0): a delta of 40 crosses
    // one tile (focus x becomes 1, offset 40 - 32 = 8); a further delta of
    // -50 underruns twice (8 - 50 = -42, then 32 - 42 = -10) and clamps at
    // the origin.
    let mut map = fresh_map();
    map.apply_x_offset(40);
    assert_eq!(map.focus_coords, [1, 0]);
    assert_eq!(map.tilemap_plane.offsets[0], 8);
    map.apply_x_offset(-50);
    assert_eq!(map.focus_coords, [0, 0]);
    assert_eq!(map.tilemap_plane.offsets[0], 0);
}

#[test]
fn zero_delta_changes_nothing() {
    let mut map = fresh_map();
    map.apply_x_offset(40);
    let focus = map.focus_coords;
    let offsets = map.tilemap_plane.offsets;
    map.apply_x_offset(0);
    map.apply_x_offset(0);
    assert_eq!(map.focus_coords, focus);
    assert_eq!(map.tilemap_plane.offsets, offsets);
}

#[test]
fn one_tile_round_trip_restores_state() {
    let mut map = fresh_map();
    map.apply_x_offset(8);
    assert_eq!((map.focus_coords[0], map.tilemap_plane.offsets[0]), (0, 8));
    map.apply_x_offset(32);
    assert_eq!((map.focus_coords[0], map.tilemap_plane.offsets[0]), (1, 8));
    map.apply_x_offset(-32);
    assert_eq!((map.focus_coords[0], map.tilemap_plane.offsets[0]), (0, 8));
}

#[test]
fn negative_delta_at_origin_clamps() {
    let mut map = fresh_map();
    map.apply_x_offset(-1);
    assert_eq!(map.focus_coords, [0, 0]);
    assert_eq!(map.tilemap_plane.offsets[0], 0);
    map.apply_y_offset(-1000);
    assert_eq!(map.focus_coords, [0, 0]);
    assert_eq!(map.tilemap_plane.offsets[1], 0);
}

#[test]
fn positive_delta_at_far_edge_clamps() {
    let mut map = fresh_map();
    // Walk the x focus to its limit of 2.
    map.apply_x_offset(64);
    assert_eq!(map.focus_coords, [2, 0]);
    assert_eq!(map.tilemap_plane.offsets[0], 0);
    // At the far edge any further positive scroll is absorbed.
    map.apply_x_offset(10);
    assert_eq!(map.focus_coords, [2, 0]);
    assert_eq!(map.tilemap_plane.offsets[0], 0);
}

#[test]
fn large_delta_crosses_many_tiles() {
    let mut map = fresh_map();
    map.apply_x_offset(70);
    assert_eq!(map.focus_coords, [2, 0]);
    // Two whole tiles were crossed; the second carry lands exactly on the
    // limit and keeps its sub-tile remainder of 6 pixels.
    assert_eq!(map.tilemap_plane.offsets[0], 6);
    let mut tall = TileMap::new(8, 8, 32, 2, 2);
    tall.apply_y_offset(70);
    assert_eq!(tall.focus_coords, [0, 2]);
    assert_eq!(tall.tilemap_plane.offsets[1], 6);
}

#[test]
fn carry_landing_on_limit_keeps_remainder() {
    // From focus 1, offset 8 (limit 2, tile 32), a delta of 30 crosses one
    // tile and lands the focus exactly on the limit: the 6 remaining pixels
    // stay as the offset. Only a further scroll finds the axis at the far
    // edge and is absorbed.
    let mut map = fresh_map();
    map.apply_x_offset(40);
    assert_eq!((map.focus_coords[0], map.tilemap_plane.offsets[0]), (1, 8));
    map.apply_x_offset(30);
    assert_eq!((map.focus_coords[0], map.tilemap_plane.offsets[0]), (2, 6));
    map.apply_x_offset(40);
    assert_eq!((map.focus_coords[0], map.tilemap_plane.offsets[0]), (2, 0));
}

#[test]
fn round_trip_across_the_last_tile_boundary() {
    // A one-tile round trip restores the state even when the forward step
    // lands on the limit: the remainder is kept, so the way back exists.
    let mut map = fresh_map();
    map.apply_x_offset(40);
    assert_eq!((map.focus_coords[0], map.tilemap_plane.offsets[0]), (1, 8));
    map.apply_x_offset(32);
    assert_eq!((map.focus_coords[0], map.tilemap_plane.offsets[0]), (2, 8));
    map.apply_x_offset(-32);
    assert_eq!((map.focus_coords[0], map.tilemap_plane.offsets[0]), (1, 8));
}

#[test]
fn unit_tile_size_scrolls_whole_tiles() {
    let mut map = TileMap::new(16, 16, 1, 4, 4);
    map.apply_x_offset(5);
    assert_eq!(map.focus_coords, [5, 0]);
    assert_eq!(map.tilemap_plane.offsets[0], 0);
    map.apply_x_offset(-3);
    assert_eq!(map.focus_coords, [2, 0]);
    assert_eq!(map.tilemap_plane.offsets[0], 0);
}

#[test]
fn axes_scroll_independently() {
    let mut map = fresh_map();
    map.apply_x_offset(40);
    map.apply_y_offset(33);
    assert_eq!(map.focus_coords, [1, 1]);
    assert_eq!(map.tilemap_plane.offsets, [8, 1]);
}

#[test]
fn extreme_deltas_stay_in_bounds() {
    let mut map = fresh_map();
    map.apply_x_offset(i32::MAX);
    assert_eq!(map.focus_coords[0], 2);
    assert_eq!(map.tilemap_plane.offsets[0], 0);
    map.apply_x_offset(i32::MIN);
    assert_eq!(map.focus_coords[0], 0);
    assert_eq!(map.tilemap_plane.offsets[0], 0);
}
