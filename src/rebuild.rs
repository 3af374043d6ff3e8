//! The rebuild step: derived terrain data is regenerated in full whenever the
//! map has changed since the last rebuild.

use vstd::prelude::*;

use crate::geometry::TerrainMesh;
use crate::mesh::{build_combined_mesh, effective_span, mesh_quads, MAX_MESH_TILES};
use crate::splatmap::{is_splat_of, splat_fits, SplatImage};
use crate::types::{TileMap, TILE_SIZE};

verus! {

/// Where `*dirty` is set: replaces `mesh` with the combined mesh of `map`,
/// refreshes `splat` in place, clears the flag and returns `true`. Otherwise
/// leaves all three alone and returns `false`.
pub fn rebuild_if_dirty(
    map: &TileMap,
    tiles_per_texture: u32,
    dirty: &mut bool,
    mesh: &mut TerrainMesh,
    splat: &mut SplatImage,
) -> (rebuilt: bool)
    requires
        map.wf(),
        map.width * map.height <= MAX_MESH_TILES,
        splat_fits(map),
    ensures
        rebuilt == *old(dirty),
        !*final(dirty),
        rebuilt ==> final(mesh).holds(mesh_quads(map, None, effective_span(tiles_per_texture)), true),
        rebuilt ==> final(mesh).uv_period == effective_span(tiles_per_texture) * TILE_SIZE,
        rebuilt ==> is_splat_of(final(splat), map),
        !rebuilt ==> *final(mesh) == *old(mesh),
        !rebuilt ==> *final(splat) == *old(splat),
{
    if !*dirty {
        return false;
    }
    *dirty = false;
    *mesh = build_combined_mesh(map, tiles_per_texture);
    crate::splatmap::write(map, splat);
    true
}

} // verus!
