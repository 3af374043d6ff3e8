use tile_terrain::splatmap::create;
use tile_terrain::{empty_mesh, rebuild_if_dirty, Tile, TileKind, TileMap, TileType};

#[test]
fn rebuild_runs_only_when_dirty() {
    let mut map = TileMap::new(2, 1);
    let mut mesh = empty_mesh();
    let mut splat = create(&map);
    let mut dirty = false;
    assert!(!rebuild_if_dirty(&map, 1, &mut dirty, &mut mesh, &mut splat));
    assert!(mesh.positions.is_empty());

    map.set(
        1,
        0,
        Tile { kind: TileKind::Floor, tile_type: TileType::Water, x: 1, y: 0, elevation: 1, ramp_direction: None },
    );
    dirty = true;
    assert!(rebuild_if_dirty(&map, 1, &mut dirty, &mut mesh, &mut splat));
    assert!(!dirty);
    // Two tops, the step wall between them, and three border walls of the raised tile.
    assert_eq!(mesh.positions.len(), 6 * 6);
    assert_eq!(mesh.layers.len(), mesh.positions.len());
    assert_eq!(splat.data, vec![255, 0, 0, 0, 0, 0, 0, 255]);
}
