use tile_terrain::{RampDirection, Tile, TileKind, TileMap, TileType, TILE_HEIGHT, TILE_SIZE, UNITS_PER_WORLD};

#[test]
fn next_cycles_clockwise() {
    assert_eq!(RampDirection::North.next(), RampDirection::East);
    assert_eq!(RampDirection::East.next(), RampDirection::South);
    assert_eq!(RampDirection::South.next(), RampDirection::West);
    assert_eq!(RampDirection::West.next(), RampDirection::North);
}

#[test]
fn offsets_step_across_each_edge() {
    assert_eq!(RampDirection::North.offset(), (0, -1));
    assert_eq!(RampDirection::East.offset(), (1, 0));
    assert_eq!(RampDirection::South.offset(), (0, 1));
    assert_eq!(RampDirection::West.offset(), (-1, 0));
}

#[test]
fn type_indices_cover_four_channels() {
    assert_eq!(TileType::Grass.as_index(), 0);
    assert_eq!(TileType::Dirt.as_index(), 1);
    assert_eq!(TileType::Cliff.as_index(), 2);
    assert_eq!(TileType::Water.as_index(), 3);
}

#[test]
fn tile_height_is_four_tenths_of_a_tile() {
    assert_eq!(TILE_SIZE, UNITS_PER_WORLD);
    assert_eq!(TILE_HEIGHT * 5, TILE_SIZE * 2);
}

#[test]
fn new_map_holds_flat_grass_with_coordinates() {
    let map = TileMap::new(2, 3);
    assert_eq!(map.width, 2);
    assert_eq!(map.height, 3);
    assert_eq!(map.tiles.len(), 6);
    let t = map.get(1, 2);
    assert_eq!(t.x, 1);
    assert_eq!(t.y, 2);
    assert_eq!(t.kind, TileKind::Floor);
    assert_eq!(t.tile_type, TileType::Grass);
    assert_eq!(t.elevation, 0);
    assert_eq!(t.ramp_direction, None);
}

#[test]
fn empty_map_has_no_tiles() {
    let map = TileMap::new(0, 5);
    assert_eq!(map.tiles.len(), 0);
}

#[test]
fn idx_is_row_major() {
    let map = TileMap::new(3, 2);
    assert_eq!(map.idx(0, 0), 0);
    assert_eq!(map.idx(2, 0), 2);
    assert_eq!(map.idx(1, 1), 4);
}

#[test]
fn set_stores_tile_at_its_own_coordinates() {
    let mut map = TileMap::new(2, 2);
    map.set(
        1,
        0,
        Tile {
            kind: TileKind::Ramp,
            tile_type: TileType::Water,
            x: 7,
            y: 9,
            elevation: -1,
            ramp_direction: Some(RampDirection::West),
        },
    );
    let t = map.get(1, 0);
    assert_eq!(t.x, 1);
    assert_eq!(t.y, 0);
    assert_eq!(t.kind, TileKind::Ramp);
    assert_eq!(t.tile_type, TileType::Water);
    assert_eq!(t.elevation, -1);
    assert_eq!(t.ramp_direction, Some(RampDirection::West));
    assert_eq!(map.get(0, 0).tile_type, TileType::Grass);
}

#[test]
fn from_tiles_places_tiles_row_major() {
    let tile = Tile {
        kind: TileKind::Ramp,
        tile_type: TileType::Dirt,
        x: 40,
        y: 40,
        elevation: 2,
        ramp_direction: Some(RampDirection::South),
    };
    let map = TileMap::from_tiles(2, 2, vec![tile; 4]).unwrap();
    assert_eq!((map.width, map.height), (2, 2));
    let t = map.get(1, 1);
    assert_eq!((t.x, t.y), (1, 1));
    assert_eq!(t.tile_type, TileType::Dirt);
    assert_eq!(map.get(0, 1).y, 1);
    assert_eq!(map.get(1, 0).x, 1);
}

#[test]
fn from_tiles_refuses_wrong_count() {
    let tile = *TileMap::new(1, 1).get(0, 0);
    assert!(TileMap::from_tiles(2, 2, vec![tile; 3]).is_none());
    assert!(TileMap::from_tiles(0, 7, vec![]).is_some());
}
