use tile_terrain::splatmap::{create, SplatImage};
use tile_terrain::{Tile, TileKind, TileMap, TileType};

fn paint_type(map: &mut TileMap, x: u32, y: u32, tile_type: TileType) {
    map.set(
        x,
        y,
        Tile { kind: TileKind::Floor, tile_type, x, y, elevation: 0, ramp_direction: None },
    );
}

#[test]
fn splat_texels_are_one_hot() {
    let mut map = TileMap::new(2, 2);
    paint_type(&mut map, 1, 0, TileType::Water);
    paint_type(&mut map, 0, 1, TileType::Dirt);
    paint_type(&mut map, 1, 1, TileType::Cliff);
    let img = create(&map);
    assert_eq!(img.width, 2);
    assert_eq!(img.height, 2);
    assert_eq!(
        img.data,
        vec![255, 0, 0, 0, 0, 0, 0, 255, 0, 255, 0, 0, 0, 0, 255, 0]
    );
    for texel in img.data.chunks(4) {
        assert_eq!(texel.iter().filter(|b| **b != 0).count(), 1);
    }
}

#[test]
fn empty_map_gives_one_blank_texel_per_row() {
    let map = TileMap::new(0, 3);
    let img = create(&map);
    assert_eq!(img.width, 1);
    assert_eq!(img.height, 3);
    assert_eq!(img.data, vec![0; 12]);
}

#[test]
fn write_refreshes_buffer_of_matching_size() {
    let mut map = TileMap::new(2, 1);
    let mut img = create(&map);
    paint_type(&mut map, 0, 0, TileType::Cliff);
    tile_terrain::splatmap::write(&map, &mut img);
    assert_eq!(img.data, vec![0, 0, 255, 0, 255, 0, 0, 0]);
}

#[test]
fn write_fixes_buffer_of_wrong_length() {
    let map = TileMap::new(1, 1);
    let mut img = SplatImage { width: 1, height: 1, data: vec![9; 7] };
    tile_terrain::splatmap::write(&map, &mut img);
    assert_eq!(img.data, vec![255, 0, 0, 0]);
}

#[test]
fn write_replaces_image_of_other_size() {
    let mut map = TileMap::new(3, 1);
    paint_type(&mut map, 2, 0, TileType::Dirt);
    let mut img = SplatImage { width: 5, height: 5, data: vec![1; 100] };
    tile_terrain::splatmap::write(&map, &mut img);
    assert_eq!(img.width, 3);
    assert_eq!(img.height, 1);
    assert_eq!(img.data, vec![255, 0, 0, 0, 255, 0, 0, 0, 0, 255, 0, 0]);
}
