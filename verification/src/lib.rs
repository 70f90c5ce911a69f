//! A scrolling tile-map engine: an authoritative in-memory tile grid, a
//! bounded viewport window mirrored from it, a per-axis scroll controller
//! with boundary clamping, and the dirty-flag bookkeeping that decides which
//! GPU-resident buffers must be re-uploaded before a frame is drawn.
//!
//! Everything here is device-independent: tile cells hold atlas sample
//! origins as plain integers, and scroll offsets are whole pixels. The
//! rendering host owns the actual GPU buffers and performs the uploads that
//! [`TileMap::prepare_buffers`] requests.

mod atlas;
mod data;
mod error;
mod plane;
mod scroll;
mod tilemap;

pub use atlas::Tileset;
pub use atlas::atlas_origin;
pub use atlas::cell_matches_sample;
pub use atlas::gids_owned;
pub use atlas::last_gid;
pub use atlas::layer_dims_ok;
pub use atlas::owner_index;
pub use atlas::owns_gid;
pub use atlas::populate_tilemap;
pub use atlas::populated_cell_ok;
pub use atlas::sample_origin_x;
pub use atlas::sample_origin_y;
pub use atlas::tilesets_ok;
pub use atlas::valid_config;
pub use data::TileMapData;
pub use data::is_empty_cell;
pub use error::TileMapError;
pub use plane::BufferUpdates;
pub use plane::TileMapPlane;
pub use tilemap::TileMap;
pub use scroll::scroll_wrap;
pub use scroll::lemma_scroll_wrap_bounds;
pub use scroll::lemma_scroll_zero_delta;
pub use scroll::lemma_scroll_round_trip;
pub use scroll::lemma_scroll_clamp_at_origin;
