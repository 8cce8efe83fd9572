//! Tile cache and load queue of a slippy-map viewer: which tiles are known, which wait to be
//! fetched, and how a fetched batch is merged back into the cache.

pub mod cache_laws;
pub mod message;
pub mod tile;
pub mod tile_manager;
pub mod tile_url;
pub mod viewer;
pub mod viewport;
