//! Terrain geometry for a tile-based map editor: a grid of tiles with integer
//! elevations and optional ramps is turned into a closed triangle mesh, and into
//! a one-hot splat image that selects a ground texture per tile.
//!
//! All lengths are exact fixed-point integers: one world unit is
//! `UNITS_PER_WORLD` units, a tile is `TILE_SIZE` units wide and an elevation
//! step is `TILE_HEIGHT` units high.

pub mod corners;
pub mod editing;
pub mod geometry;
pub mod mesh;
pub mod metadata;
pub mod rebuild;
pub mod splatmap;
pub mod types;

pub use types::{
    RampDirection, Tile, TileKind, TileMap, TileType, TILE_HEIGHT, TILE_SIZE, UNITS_PER_WORLD,
};
pub use corners::{tile_corner_heights, CornerHeights};
pub use geometry::{IVec2, IVec3, Quad, TerrainMesh};
pub use mesh::{build_combined_mesh, build_map_meshes, build_mesh, empty_mesh, MAX_MESH_TILES};
pub use editing::{hover_tile, paint_tile, ramp_targets, rotate_ramp};
pub use rebuild::rebuild_if_dirty;
pub use metadata::{TerrainTextureMetadataEntry, TerrainWallTextureMetadata};
