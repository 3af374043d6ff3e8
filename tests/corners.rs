use tile_terrain::{tile_corner_heights, CornerHeights, RampDirection, Tile, TileKind, TileMap, TileType};

fn put(map: &mut TileMap, x: u32, y: u32, kind: TileKind, elevation: i8, dir: Option<RampDirection>) {
    map.set(
        x,
        y,
        Tile { kind, tile_type: TileType::Grass, x, y, elevation, ramp_direction: dir },
    );
}

fn corners(nw: i64, ne: i64, sw: i64, se: i64) -> CornerHeights {
    CornerHeights { nw, ne, sw, se }
}

/// A 3x3 map at elevation 2 whose center is a ramp.
fn plateau(dir: Option<RampDirection>) -> TileMap {
    let mut map = TileMap::new(3, 3);
    for y in 0..3 {
        for x in 0..3 {
            put(&mut map, x, y, TileKind::Floor, 2, None);
        }
    }
    put(&mut map, 1, 1, TileKind::Ramp, 2, dir);
    map
}

#[test]
fn floor_corners_sit_at_own_height() {
    let mut map = TileMap::new(2, 1);
    put(&mut map, 0, 0, TileKind::Floor, 3, None);
    put(&mut map, 1, 0, TileKind::Floor, -1, None);
    assert_eq!(tile_corner_heights(&map, 0, 0), corners(6, 6, 6, 6));
    assert_eq!(tile_corner_heights(&map, 1, 0), corners(-2, -2, -2, -2));
}

#[test]
fn ramp_lowers_edge_of_its_direction() {
    let mut map = plateau(Some(RampDirection::East));
    put(&mut map, 2, 1, TileKind::Floor, 1, None);
    assert_eq!(tile_corner_heights(&map, 1, 1), corners(4, 2, 4, 2));
}

#[test]
fn ramp_lowers_each_edge() {
    let mut map = plateau(Some(RampDirection::North));
    put(&mut map, 1, 0, TileKind::Floor, 0, None);
    assert_eq!(tile_corner_heights(&map, 1, 1), corners(0, 0, 4, 4));

    let mut map = plateau(Some(RampDirection::South));
    put(&mut map, 1, 2, TileKind::Floor, 0, None);
    assert_eq!(tile_corner_heights(&map, 1, 1), corners(4, 4, 0, 0));

    let mut map = plateau(Some(RampDirection::West));
    put(&mut map, 0, 1, TileKind::Floor, -1, None);
    assert_eq!(tile_corner_heights(&map, 1, 1), corners(-2, 4, -2, 4));
}

#[test]
fn ramp_with_blocked_direction_resolves_from_other_edges() {
    // North is level with the ramp, so the set direction does not apply.
    let mut map = plateau(Some(RampDirection::North));
    put(&mut map, 0, 1, TileKind::Floor, 1, None);
    assert_eq!(tile_corner_heights(&map, 1, 1), corners(2, 4, 2, 4));
}

#[test]
fn ramp_with_blocked_direction_and_no_lower_edge_is_flat() {
    let map = plateau(Some(RampDirection::North));
    assert_eq!(tile_corner_heights(&map, 1, 1), corners(4, 4, 4, 4));
}

#[test]
fn unset_ramp_picks_lowest_edge() {
    let mut map = plateau(None);
    put(&mut map, 1, 0, TileKind::Floor, 1, None);
    put(&mut map, 1, 2, TileKind::Floor, 0, None);
    assert_eq!(tile_corner_heights(&map, 1, 1), corners(4, 4, 0, 0));
}

#[test]
fn ramp_tie_goes_to_earlier_edge() {
    let mut map = plateau(None);
    put(&mut map, 0, 1, TileKind::Floor, 0, None);
    put(&mut map, 2, 1, TileKind::Floor, 0, None);
    // East comes before West.
    assert_eq!(tile_corner_heights(&map, 1, 1), corners(4, 0, 4, 0));
    put(&mut map, 1, 2, TileKind::Floor, 0, None);
    // East still comes before South.
    assert_eq!(tile_corner_heights(&map, 1, 1), corners(4, 0, 4, 0));
}

#[test]
fn ramp_on_border_descends_to_ground_level() {
    let mut map = TileMap::new(1, 1);
    put(&mut map, 0, 0, TileKind::Ramp, 1, None);
    assert_eq!(tile_corner_heights(&map, 0, 0), corners(0, 0, 2, 2));
}

#[test]
fn ramp_below_ground_on_border_stays_flat() {
    let mut map = TileMap::new(1, 1);
    put(&mut map, 0, 0, TileKind::Ramp, -1, Some(RampDirection::South));
    assert_eq!(tile_corner_heights(&map, 0, 0), corners(-2, -2, -2, -2));
}

#[test]
fn ramp_direction_off_the_map_resolves_from_neighbors() {
    let mut map = TileMap::new(2, 1);
    put(&mut map, 0, 0, TileKind::Ramp, 1, Some(RampDirection::West));
    put(&mut map, 1, 0, TileKind::Floor, -1, None);
    // West has no neighbor; East is the lowest edge.
    assert_eq!(tile_corner_heights(&map, 0, 0), corners(2, -2, 2, -2));
}

#[test]
fn ramp_direction_off_the_map_on_single_tile_uses_border() {
    let mut map = TileMap::new(1, 1);
    put(&mut map, 0, 0, TileKind::Ramp, 1, Some(RampDirection::West));
    // Every edge is a border at ground level; North wins the tie.
    assert_eq!(tile_corner_heights(&map, 0, 0), corners(0, 0, 2, 2));
}
