use tile_terrain::{
    build_combined_mesh, build_map_meshes, build_mesh, empty_mesh, IVec2, IVec3, TerrainMesh, Tile, TileKind,
    TileMap, TileType, TILE_SIZE,
};

fn place(map: &mut TileMap, x: u32, y: u32, tile_type: TileType, elevation: i8) {
    map.set(
        x,
        y,
        Tile { kind: TileKind::Floor, tile_type, x, y, elevation, ramp_direction: None },
    );
}

fn v3(x: i64, y: i64, z: i64) -> IVec3 {
    IVec3 { x, y, z }
}

fn quads(mesh: &TerrainMesh) -> usize {
    assert_eq!(mesh.positions.len() % 6, 0);
    mesh.positions.len() / 6
}

#[test]
fn single_flat_tile_is_one_quad() {
    let map = TileMap::new(1, 1);
    let mesh = build_mesh(&map, 1);
    assert_eq!(mesh.indices, vec![0, 1, 2, 3, 4, 5]);
    assert_eq!(
        mesh.positions,
        vec![v3(0, 0, 0), v3(0, 0, 5), v3(5, 0, 5), v3(0, 0, 0), v3(5, 0, 5), v3(5, 0, 0)]
    );
    assert_eq!(mesh.normals, vec![v3(0, 25, 0); 6]);
    assert_eq!(mesh.uvs.len(), 6);
    assert!(mesh.layers.is_empty());
}

#[test]
fn step_between_two_tiles_gets_skirts() {
    let mut map = TileMap::new(1, 2);
    place(&mut map, 0, 1, TileType::Grass, 1);
    let mesh = build_mesh(&map, 1);
    // Lower tile: its top only. Upper tile: its top and four skirts.
    assert_eq!(quads(&mesh), 6);
    assert_eq!(mesh.indices.len(), 36);
    // The upper tile's top comes second; its North skirt is the wall facing the lower tile.
    let wall = &mesh.positions[12..18];
    assert_eq!(wall, &[v3(0, 2, 5), v3(5, 2, 5), v3(5, 0, 5), v3(0, 2, 5), v3(5, 0, 5), v3(0, 0, 5)]);
    // Its South skirt stands on the border, down to ground level.
    let border = &mesh.positions[18..24];
    assert_eq!(border, &[v3(5, 2, 10), v3(0, 2, 10), v3(0, 0, 10), v3(5, 2, 10), v3(0, 0, 10), v3(5, 0, 10)]);
    // Walls face away from the tile: North faces -z, South faces +z.
    assert_eq!(mesh.normals[12], v3(0, 0, -10));
    assert_eq!(mesh.normals[18], v3(0, 0, 10));
}

#[test]
fn level_neighbors_share_no_skirt() {
    let mut map = TileMap::new(2, 1);
    place(&mut map, 0, 0, TileType::Grass, 2);
    place(&mut map, 1, 0, TileType::Dirt, 2);
    let mesh = build_mesh(&map, 1);
    // Each tile: top plus North, South and its outer side; the shared edge has none.
    assert_eq!(quads(&mesh), 8);
    let flat = TileMap::new(3, 3);
    assert_eq!(quads(&build_mesh(&flat, 1)), 9);
}

#[test]
fn mesh_is_deterministic() {
    let mut map = TileMap::new(3, 2);
    place(&mut map, 1, 0, TileType::Cliff, 3);
    place(&mut map, 2, 1, TileType::Water, -1);
    let a = build_combined_mesh(&map, 2);
    let b = build_combined_mesh(&map, 2);
    assert_eq!(a.positions, b.positions);
    assert_eq!(a.normals, b.normals);
    assert_eq!(a.uvs, b.uvs);
    assert_eq!(a.layers, b.layers);
    assert_eq!(a.indices, b.indices);
}

#[test]
fn four_tile_texture_repeats_every_two_tiles() {
    let map = TileMap::new(4, 1);
    let mesh = build_mesh(&map, 4);
    assert_eq!(quads(&mesh), 4);
    assert_eq!(mesh.uv_period, 2 * TILE_SIZE);
    assert_eq!(mesh.uvs[0..6], mesh.uvs[12..18]);
    assert_eq!(mesh.uvs[6..12], mesh.uvs[18..24]);
    assert_ne!(mesh.uvs[0..6], mesh.uvs[6..12]);
    assert_eq!(
        mesh.uvs[6..12],
        [
            IVec2 { x: 5, y: 0 },
            IVec2 { x: 5, y: 5 },
            IVec2 { x: 10, y: 5 },
            IVec2 { x: 5, y: 0 },
            IVec2 { x: 10, y: 5 },
            IVec2 { x: 10, y: 0 }
        ]
    );
}

#[test]
fn texture_footprint_side_is_whole_square_root() {
    let map = TileMap::new(1, 1);
    assert_eq!(build_mesh(&map, 1).uv_period, TILE_SIZE);
    assert_eq!(build_mesh(&map, 3).uv_period, TILE_SIZE);
    assert_eq!(build_mesh(&map, 8).uv_period, 2 * TILE_SIZE);
    assert_eq!(build_mesh(&map, 9).uv_period, 3 * TILE_SIZE);
    assert_eq!(build_mesh(&map, u32::MAX).uv_period, 65535 * TILE_SIZE);
}

#[test]
fn zero_repeat_counts_as_one_tile() {
    let map = TileMap::new(2, 1);
    let mesh = build_mesh(&map, 0);
    assert_eq!(mesh.uv_period, TILE_SIZE);
    assert_eq!(mesh.uvs[0..6], mesh.uvs[6..12]);
}

#[test]
fn empty_grid_gives_empty_mesh() {
    let map = TileMap::new(0, 0);
    let mesh = build_combined_mesh(&map, 4);
    assert!(mesh.positions.is_empty());
    assert!(mesh.normals.is_empty());
    assert!(mesh.uvs.is_empty());
    assert!(mesh.layers.is_empty());
    assert!(mesh.indices.is_empty());
    let e = empty_mesh();
    assert!(e.positions.is_empty() && e.indices.is_empty());
}

#[test]
fn combined_mesh_carries_layers() {
    let mut map = TileMap::new(1, 2);
    place(&mut map, 0, 0, TileType::Water, 0);
    place(&mut map, 0, 1, TileType::Dirt, 1);
    let mesh = build_combined_mesh(&map, 1);
    assert_eq!(mesh.layers.len(), mesh.positions.len());
    // Water top at height 0, Dirt top at height 2.
    assert_eq!(mesh.layers[0], IVec2 { x: 3, y: 0 });
    assert_eq!(mesh.layers[6], IVec2 { x: 1, y: 2 });
    // The wall between them belongs to the lower Water tile.
    assert_eq!(mesh.layers[12], IVec2 { x: 3, y: 2 });
    // A border wall keeps the tile's own layer.
    assert_eq!(mesh.layers[18], IVec2 { x: 1, y: 2 });
}

#[test]
fn skirt_uvs_project_onto_wall_plane() {
    let mut map = TileMap::new(1, 2);
    place(&mut map, 0, 1, TileType::Grass, 1);
    let mesh = build_mesh(&map, 1);
    // North wall projects (x, y).
    assert_eq!(mesh.uvs[12], IVec2 { x: 0, y: 2 });
    assert_eq!(mesh.uvs[14], IVec2 { x: 5, y: 0 });
    // West wall (third skirt of the upper tile) projects (z, y), wrapped to the tile.
    assert_eq!(mesh.positions[24], v3(0, 2, 10));
    assert_eq!(mesh.uvs[24], IVec2 { x: 5, y: 2 });
}

#[test]
fn per_type_meshes_split_tiles() {
    let mut map = TileMap::new(3, 1);
    place(&mut map, 0, 0, TileType::Cliff, 0);
    place(&mut map, 2, 0, TileType::Cliff, 0);
    let meshes = build_map_meshes(&map, 1);
    assert_eq!(meshes.len(), 4);
    assert_eq!(quads(&meshes[0]), 1);
    assert_eq!(quads(&meshes[1]), 0);
    assert_eq!(quads(&meshes[2]), 2);
    assert_eq!(quads(&meshes[3]), 0);
    assert_eq!(meshes[2].positions[0], v3(0, 0, 0));
    assert_eq!(meshes[2].positions[6], v3(10, 0, 0));
    assert_eq!(meshes[2].indices, (0..12).collect::<Vec<u32>>());
    assert!(meshes[2].layers.is_empty());
}
