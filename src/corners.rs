use vstd::prelude::*;

use crate::types::{
    next_spec, offset_spec, RampDirection, Tile, TileKind, TileMap, TILE_HEIGHT,
};

verus! {

/// World height of a tile's own top, in units.
pub open spec fn base_height(t: Tile) -> int {
    t.elevation * TILE_HEIGHT
}

/// Every height a tile or a corner can have: an `i8` elevation times `TILE_HEIGHT`.
pub open spec fn height_in_range(h: int) -> bool {
    -256 <= h <= 254
}

/// Height of the ground across edge `d` of `(x, y)`: the neighbor's own height,
/// or 0 where the edge lies on the map's border.
pub open spec fn edge_height(map: &TileMap, x: int, y: int, d: RampDirection) -> int {
    let nx = x + offset_spec(d).0;
    let ny = y + offset_spec(d).1;
    if map.in_grid(nx, ny) {
        base_height(map.tile(nx, ny))
    } else {
        0
    }
}

pub open spec fn min_int(a: int, b: int) -> int {
    if a <= b {
        a
    } else {
        b
    }
}

pub open spec fn lowest_edge_height(map: &TileMap, x: int, y: int) -> int {
    min_int(
        min_int(edge_height(map, x, y, RampDirection::North), edge_height(map, x, y, RampDirection::East)),
        min_int(edge_height(map, x, y, RampDirection::South), edge_height(map, x, y, RampDirection::West)),
    )
}

/// The edge a ramp descends across when it picks one itself: the lowest edge
/// below its own height, the first of North, East, South, West on a tie.
pub open spec fn auto_ramp_edge(map: &TileMap, x: int, y: int) -> Option<RampDirection> {
    let m = lowest_edge_height(map, x, y);
    if m >= base_height(map.tile(x, y)) {
        None
    } else if edge_height(map, x, y, RampDirection::North) == m {
        Some(RampDirection::North)
    } else if edge_height(map, x, y, RampDirection::East) == m {
        Some(RampDirection::East)
    } else if edge_height(map, x, y, RampDirection::South) == m {
        Some(RampDirection::South)
    } else {
        Some(RampDirection::West)
    }
}

/// Whether the cell across edge `d` of `(x, y)` lies on the map.
pub open spec fn has_neighbor(map: &TileMap, x: int, y: int, d: RampDirection) -> bool {
    map.in_grid(x + offset_spec(d).0, y + offset_spec(d).1)
}

/// The edge that the top of `(x, y)` slants down to, if any: a ramp's own
/// direction where a neighbor exists across it and is lower, else the
/// automatic choice.
pub open spec fn ramp_target(map: &TileMap, x: int, y: int) -> Option<RampDirection> {
    let t = map.tile(x, y);
    if t.kind == TileKind::Floor {
        None
    } else if t.ramp_direction is Some && has_neighbor(map, x, y, t.ramp_direction->0) && edge_height(
        map,
        x,
        y,
        t.ramp_direction->0,
    ) < base_height(t) {
        t.ramp_direction
    } else {
        auto_ramp_edge(map, x, y)
    }
}

/// Heights of a tile's four top corners, in units.
#[derive(Clone, Copy, PartialEq, Eq, Debug, Structural)]
pub struct CornerHeights {
    pub nw: i64,
    pub ne: i64,
    pub sw: i64,
    pub se: i64,
}

pub open spec fn flat_corners(h: int) -> CornerHeights {
    CornerHeights { nw: h as i64, ne: h as i64, sw: h as i64, se: h as i64 }
}

/// `c` with the two corners on edge `d` moved to height `h`.
pub open spec fn lower_edge(c: CornerHeights, d: RampDirection, h: int) -> CornerHeights {
    match d {
        RampDirection::North => CornerHeights { nw: h as i64, ne: h as i64, ..c },
        RampDirection::East => CornerHeights { ne: h as i64, se: h as i64, ..c },
        RampDirection::South => CornerHeights { sw: h as i64, se: h as i64, ..c },
        RampDirection::West => CornerHeights { nw: h as i64, sw: h as i64, ..c },
    }
}

/// The resolved corner heights of `(x, y)`.
pub open spec fn corner_heights(map: &TileMap, x: int, y: int) -> CornerHeights {
    let base = base_height(map.tile(x, y));
    match ramp_target(map, x, y) {
        None => flat_corners(base),
        Some(d) => lower_edge(flat_corners(base), d, edge_height(map, x, y, d)),
    }
}

pub open spec fn corners_in_range(c: CornerHeights) -> bool {
    &&& height_in_range(c.nw as int)
    &&& height_in_range(c.ne as int)
    &&& height_in_range(c.sw as int)
    &&& height_in_range(c.se as int)
}

/// The `k`-th edge in tie-break order: North, East, South, West.
pub open spec fn edge_in_order(k: int) -> RampDirection
    decreases k,
{
    if k <= 0 {
        RampDirection::North
    } else {
        next_spec(edge_in_order(k - 1))
    }
}

/// The lowest edge below `base` among the first `k` edges in tie-break order,
/// with its height; an earlier edge wins a tie.
pub open spec fn lowest_of_first(map: &TileMap, x: int, y: int, base: int, k: int) -> Option<(RampDirection, int)>
    decreases k,
{
    if k <= 0 {
        None
    } else {
        let prev = lowest_of_first(map, x, y, base, k - 1);
        let d = edge_in_order(k - 1);
        let h = edge_height(map, x, y, d);
        if h < base && (prev is None || h < (prev->0).1) {
            Some((d, h))
        } else {
            prev
        }
    }
}

proof fn lemma_lowest_of_all(map: &TileMap, x: int, y: int)
    ensures
        lowest_of_first(map, x, y, base_height(map.tile(x, y)), 4) matches Some(p) ==> auto_ramp_edge(map, x, y) == Some(p.0)
            && p.1 == edge_height(map, x, y, p.0),
        lowest_of_first(map, x, y, base_height(map.tile(x, y)), 4) is None ==> auto_ramp_edge(map, x, y) is None,
{
    reveal_with_fuel(lowest_of_first, 5);
    reveal_with_fuel(edge_in_order, 5);
}

proof fn lemma_edge_height_in_range(map: &TileMap, x: int, y: int, d: RampDirection)
    ensures
        height_in_range(edge_height(map, x, y, d)),
{
    let nx = x + offset_spec(d).0;
    let ny = y + offset_spec(d).1;
    if map.in_grid(nx, ny) {
        let e = map.tile(nx, ny).elevation;
        assert(-128 <= e <= 127);
    }
}

/// Whether a cell of the map lies across edge `dir` of `(x, y)`.
pub fn neighbor_in_grid(map: &TileMap, x: u32, y: u32, dir: RampDirection) -> (r: bool)
    requires
        x < map.width,
        y < map.height,
    ensures
        r == has_neighbor(map, x as int, y as int, dir),
{
    let (dx, dy) = dir.offset();
    let nx = x as i64 + dx as i64;
    let ny = y as i64 + dy as i64;
    nx >= 0 && ny >= 0 && nx < map.width as i64 && ny < map.height as i64
}

/// Height across edge `dir` of `(x, y)`, if it is below `base`.
fn ramp_neighbor_height(map: &TileMap, x: u32, y: u32, dir: RampDirection, base: i64) -> (r: Option<i64>)
    requires
        map.wf(),
        x < map.width,
        y < map.height,
    ensures
        edge_height(map, x as int, y as int, dir) < base ==> r == Some(edge_height(map, x as int, y as int, dir) as i64),
        edge_height(map, x as int, y as int, dir) >= base ==> r is None,
{
    proof {
        lemma_edge_height_in_range(map, x as int, y as int, dir);
    }
    let (dx, dy) = dir.offset();
    let nx = x as i64 + dx as i64;
    let ny = y as i64 + dy as i64;
    let height: i64 = if nx < 0 || ny < 0 || nx >= map.width as i64 || ny >= map.height as i64 {
        0
    } else {
        let neighbor = map.get(nx as u32, ny as u32);
        neighbor.elevation as i64 * TILE_HEIGHT
    };
    if height < base {
        Some(height)
    } else {
        None
    }
}

/// The lowest edge below `base`, first of North, East, South, West on a tie.
fn find_ramp_target(map: &TileMap, x: u32, y: u32, base: i64) -> (r: Option<(RampDirection, i64)>)
    requires
        map.wf(),
        x < map.width,
        y < map.height,
    ensures
        r matches Some(p) ==> lowest_of_first(map, x as int, y as int, base as int, 4) == Some((p.0, p.1 as int)),
        r is None ==> lowest_of_first(map, x as int, y as int, base as int, 4) is None,
{
    let mut result: Option<(RampDirection, i64)> = None;
    let mut dir = RampDirection::North;
    let mut k: u32 = 0;
    while k < 4
        invariant
            map.wf(),
            x < map.width,
            y < map.height,
            k <= 4,
            dir == edge_in_order(k as int),
            result matches Some(p) ==> lowest_of_first(map, x as int, y as int, base as int, k as int) == Some((p.0, p.1 as int)),
            result is None ==> lowest_of_first(map, x as int, y as int, base as int, k as int) is None,
        decreases 4 - k,
    {
        if let Some(height) = ramp_neighbor_height(map, x, y, dir, base) {
            let better = match result {
                Some((_, existing)) => height < existing,
                None => true,
            };
            if better {
                result = Some((dir, height));
            }
        }
        dir = dir.next();
        k = k + 1;
    }
    result
}

/// The resolved corner heights of tile `(x, y)`: all four at the tile's own
/// height, except that a ramp lowers the two corners of the edge it descends
/// across to the height of the ground there.
pub fn tile_corner_heights(map: &TileMap, x: u32, y: u32) -> (r: CornerHeights)
    requires
        map.wf(),
        x < map.width,
        y < map.height,
    ensures
        r == corner_heights(map, x as int, y as int),
        corners_in_range(r),
        map.tile(x as int, y as int).kind == TileKind::Floor ==> r == flat_corners(
            base_height(map.tile(x as int, y as int)),
        ),
        ramp_target(map, x as int, y as int) matches Some(d) ==> r == lower_edge(
            flat_corners(base_height(map.tile(x as int, y as int))),
            d,
            edge_height(map, x as int, y as int, d),
        ),
{
    let tile = map.get(x, y);
    let base: i64 = tile.elevation as i64 * TILE_HEIGHT;
    let mut corners = CornerHeights { nw: base, ne: base, sw: base, se: base };
    if tile.kind == TileKind::Ramp {
        let mut target: Option<(RampDirection, i64)> = match tile.ramp_direction {
            Some(dir) => if neighbor_in_grid(map, x, y, dir) {
                match ramp_neighbor_height(map, x, y, dir, base) {
                    Some(h) => Some((dir, h)),
                    None => None,
                }
            } else {
                None
            },
            None => None,
        };
        if target.is_none() {
            target = find_ramp_target(map, x, y, base);
            proof {
                lemma_lowest_of_all(map, x as int, y as int);
            }
        }
        if let Some((dir, h)) = target {
            proof {
                lemma_edge_height_in_range(map, x as int, y as int, dir);
            }
            match dir {
                RampDirection::North => {
                    corners.nw = h;
                    corners.ne = h;
                },
                RampDirection::South => {
                    corners.sw = h;
                    corners.se = h;
                },
                RampDirection::West => {
                    corners.nw = h;
                    corners.sw = h;
                },
                RampDirection::East => {
                    corners.ne = h;
                    corners.se = h;
                },
            }
        }
    }
    corners
}

} // verus!
