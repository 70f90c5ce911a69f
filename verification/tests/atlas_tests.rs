use tilescroll::TileMap;
use tilescroll::TileMapError;
use tilescroll::Tileset;
use tilescroll::atlas_origin;
use tilescroll::populate_tilemap;

fn one_tileset() -> Vec<Tileset> {
    vec![Tileset { first_gid: 1, tile_count: 64, atlas_width: 64, atlas_height: 64 }]
}

#[test]
fn atlas_origin_wraps_at_the_atlas_width() {
    // Tile index 5 with 16-pixel tiles in a 64-pixel-wide atlas samples at
    // x = (5 * 16) mod 64 = 16.
    let (sx, sy) = atlas_origin(5, 0, 16, 64, 64);
    assert_eq!(sx, 16);
    assert_eq!(sy, 0);
}

#[test]
fn atlas_origin_wraps_the_row_at_the_atlas_height() {
    let (sx, sy) = atlas_origin(4, 5, 16, 64, 64);
    assert_eq!(sx, 0);
    assert_eq!(sy, 16);
}

#[test]
fn atlas_origin_stays_inside_the_atlas() {
    let (sx, sy) = atlas_origin(u32::MAX, usize::MAX, u32::MAX, 640, 480);
    assert!(sx < 640);
    assert!(sy < 480);
}

#[test]
fn populate_writes_sample_origins() {
    let mut map = TileMap::new(2, 2, 16, 1, 1);
    let layers = vec![vec![vec![1, 5], vec![0, 2]]];
    let r = populate_tilemap(&mut map, &layers, &one_tileset());
    assert_eq!(r, Ok(()));
    // gid 1 at (0, 0): x = 16 mod 64, y = 0.
    assert_eq!(map.tiles[0].data, [16, 0, 0, 0]);
    // gid 5 at (1, 0): x = 80 mod 64 = 16.
    assert_eq!(map.tiles[1].data, [16, 0, 0, 0]);
    // zero at (0, 1): untouched, still empty.
    assert_eq!(map.tiles[2].data, [0, 0, 0, 0]);
    // gid 2 at (1, 1), row 1: x = 32, y = 16.
    assert_eq!(map.tiles[3].data, [32, 16, 0, 0]);
}

#[test]
fn populate_keeps_cells_whose_layers_are_empty() {
    let mut map = TileMap::new(2, 1, 16, 1, 1);
    let r = map.set_tile(0, 0, [7, 7, 7, 7]);
    assert!(r.is_ok());
    let layers = vec![vec![vec![0, 1]]];
    let r = populate_tilemap(&mut map, &layers, &one_tileset());
    assert_eq!(r, Ok(()));
    assert_eq!(map.tiles[0].data, [7, 7, 7, 7]);
    assert_eq!(map.tiles[1].data, [16, 0, 0, 0]);
}

#[test]
fn populate_lets_later_layers_overwrite() {
    let mut map = TileMap::new(1, 1, 16, 1, 1);
    let layers = vec![vec![vec![1]], vec![vec![2]], vec![vec![0]]];
    let r = populate_tilemap(&mut map, &layers, &one_tileset());
    assert_eq!(r, Ok(()));
    // The last non-zero entry (gid 2) wins; the empty top layer is skipped.
    assert_eq!(map.tiles[0].data, [32, 0, 0, 0]);
}

#[test]
fn populate_picks_the_owning_tileset() {
    let tilesets = vec![
        Tileset { first_gid: 1, tile_count: 4, atlas_width: 64, atlas_height: 64 },
        Tileset { first_gid: 5, tile_count: 4, atlas_width: 32, atlas_height: 16 },
    ];
    let mut map = TileMap::new(1, 1, 8, 1, 1);
    let layers = vec![vec![vec![6]]];
    let r = populate_tilemap(&mut map, &layers, &tilesets);
    assert_eq!(r, Ok(()));
    // gid 6 belongs to the second tileset: x = 48 mod 32 = 16, y = 0 mod 16.
    assert_eq!(map.tiles[0].data, [16, 0, 0, 0]);
}

#[test]
fn populate_rejects_mismatched_layer_dimensions() {
    let mut map = TileMap::new(2, 2, 16, 1, 1);
    let layers = vec![vec![vec![1, 1], vec![1]]];
    let r = populate_tilemap(&mut map, &layers, &one_tileset());
    assert_eq!(r, Err(TileMapError::ConfigurationFailure));
    assert_eq!(map.tiles[0].data, [0, 0, 0, 0]);
}

#[test]
fn populate_rejects_a_zero_sized_atlas() {
    let mut map = TileMap::new(1, 1, 16, 1, 1);
    let layers = vec![vec![vec![1]]];
    let tilesets = vec![Tileset { first_gid: 1, tile_count: 4, atlas_width: 0, atlas_height: 64 }];
    let r = populate_tilemap(&mut map, &layers, &tilesets);
    assert_eq!(r, Err(TileMapError::ConfigurationFailure));
}

#[test]
fn populate_rejects_an_unowned_identifier() {
    let mut map = TileMap::new(1, 1, 16, 1, 1);
    // gid 65 is just past the tileset's range of 1..=64.
    let layers = vec![vec![vec![65]]];
    let r = populate_tilemap(&mut map, &layers, &one_tileset());
    assert_eq!(r, Err(TileMapError::ConfigurationFailure));
    // The grid is untouched on failure.
    assert_eq!(map.tiles[0].data, [0, 0, 0, 0]);
}

#[test]
fn populated_map_scrolls_and_mirrors() {
    let mut map = TileMap::new(4, 4, 32, 2, 2);
    let layers = vec![vec![
        vec![1, 2, 3, 4],
        vec![5, 6, 7, 8],
        vec![9, 10, 11, 12],
        vec![13, 14, 15, 16],
    ]];
    let tilesets = vec![Tileset {
        first_gid: 1,
        tile_count: 16,
        atlas_width: 128,
        atlas_height: 128,
    }];
    let r = populate_tilemap(&mut map, &layers, &tilesets);
    assert_eq!(r, Ok(()));
    map.set_focus([1, 1]);
    // Window cell (0, 0) shows grid cell (1, 1): gid 6, x = 192 mod 128.
    assert_eq!(map.tilemap_plane.data[0].data, [64, 32, 0, 0]);
}
