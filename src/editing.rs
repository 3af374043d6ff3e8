//! Edits that the map editor applies to a grid: painting a tile, turning a
//! ramp, and finding the cell under the cursor.

use vstd::prelude::*;

use crate::corners::{base_height, edge_height, has_neighbor, neighbor_in_grid};
use crate::types::{RampDirection, Tile, TileKind, TileMap, TileType, TILE_HEIGHT};

verus! {

pub open spec fn lower_if(map: &TileMap, x: int, y: int, base: int, d: RampDirection) -> Seq<RampDirection> {
    if has_neighbor(map, x, y, d) && edge_height(map, x, y, d) < base {
        seq![d]
    } else {
        Seq::empty()
    }
}

/// The edges of `(x, y)` with a neighbor on the map below `base`, in the
/// order North, East, South, West.
pub open spec fn lower_edges(map: &TileMap, x: int, y: int, base: int) -> Seq<RampDirection> {
    lower_if(map, x, y, base, RampDirection::North) + lower_if(map, x, y, base, RampDirection::East)
        + lower_if(map, x, y, base, RampDirection::South) + lower_if(map, x, y, base, RampDirection::West)
}

/// The ramp direction that painting `(x, y)` as `kind` at `elevation` gives:
/// none for a floor; for a ramp, its present direction if that edge is still
/// lower, else the first lower edge, else none.
pub open spec fn painted_direction(map: &TileMap, x: int, y: int, kind: TileKind, elevation: i8) -> Option<RampDirection> {
    let cands = lower_edges(map, x, y, elevation * TILE_HEIGHT);
    let existing = map.tile(x, y).ramp_direction;
    if kind == TileKind::Floor {
        None
    } else if existing is Some && cands.contains(existing->0) {
        existing
    } else if cands.len() > 0 {
        Some(cands[0])
    } else {
        None
    }
}

/// The tile that painting `(x, y)` produces.
pub open spec fn painted_tile(map: &TileMap, x: int, y: int, kind: TileKind, elevation: i8, tile_type: TileType) -> Tile {
    Tile {
        kind,
        tile_type,
        x: x as u32,
        y: y as u32,
        elevation,
        ramp_direction: painted_direction(map, x, y, kind, elevation),
    }
}

/// Index of the first `d` in `s`.
pub open spec fn position_of(s: Seq<RampDirection>, d: RampDirection) -> int
    decreases s.len(),
{
    if s.len() == 0 || s[0] == d {
        0
    } else {
        1 + position_of(s.drop_first(), d)
    }
}

/// The direction that turning the ramp at `(x, y)` gives: the lower edge
/// after its present one, cyclically, or the first lower edge; none for a
/// floor or a ramp with no lower edge.
pub open spec fn turned_direction(map: &TileMap, x: int, y: int) -> Option<RampDirection> {
    let t = map.tile(x, y);
    let cands = lower_edges(map, x, y, base_height(t));
    if t.kind != TileKind::Ramp || cands.len() == 0 {
        None
    } else if t.ramp_direction is Some && cands.contains(t.ramp_direction->0) {
        Some(cands[(position_of(cands, t.ramp_direction->0) + 1) % (cands.len() as int)])
    } else {
        Some(cands[0])
    }
}

/// The edges of `(x, y)` across which a tile of the map lies below `base`, in
/// the order North, East, South, West.
pub fn ramp_targets(map: &TileMap, x: u32, y: u32, base: i64) -> (r: Vec<RampDirection>)
    requires
        map.wf(),
        x < map.width,
        y < map.height,
    ensures
        r@ == lower_edges(map, x as int, y as int, base as int),
{
    let mut results: Vec<RampDirection> = Vec::new();
    let mut dir = RampDirection::North;
    let mut k: u32 = 0;
    while k < 4
        invariant
            map.wf(),
            x < map.width,
            y < map.height,
            k <= 4,
            k < 4 ==> dir == (if k == 0 { RampDirection::North } else if k == 1 { RampDirection::East } else if k == 2 {
                RampDirection::South
            } else { RampDirection::West }),
            k == 4 ==> results@ == lower_edges(map, x as int, y as int, base as int),
            k == 3 ==> results@ == lower_if(map, x as int, y as int, base as int, RampDirection::North) + lower_if(
                map,
                x as int,
                y as int,
                base as int,
                RampDirection::East,
            ) + lower_if(map, x as int, y as int, base as int, RampDirection::South),
            k == 2 ==> results@ == lower_if(map, x as int, y as int, base as int, RampDirection::North) + lower_if(
                map,
                x as int,
                y as int,
                base as int,
                RampDirection::East,
            ),
            k == 1 ==> results@ == lower_if(map, x as int, y as int, base as int, RampDirection::North),
            k == 0 ==> results@ == Seq::<RampDirection>::empty(),
        decreases 4 - k,
    {
        let ghost before = results@;
        if is_lower(map, x, y, dir, base) {
            results.push(dir);
        }
        assert(results@ =~= before + lower_if(map, x as int, y as int, base as int, dir));
        dir = dir.next();
        k = k + 1;
    }
    results
}

/// Whether a tile of the map lies across edge `dir` of `(x, y)`, below `base`.
fn is_lower(map: &TileMap, x: u32, y: u32, dir: RampDirection, base: i64) -> (r: bool)
    requires
        map.wf(),
        x < map.width,
        y < map.height,
    ensures
        r == (has_neighbor(map, x as int, y as int, dir) && edge_height(map, x as int, y as int, dir) < base),
{
    if !neighbor_in_grid(map, x, y, dir) {
        return false;
    }
    let (dx, dy) = dir.offset();
    let nx = (x as i64 + dx as i64) as u32;
    let ny = (y as i64 + dy as i64) as u32;
    (map.get(nx, ny).elevation as i64 * TILE_HEIGHT) < base
}

fn contains_dir(v: &Vec<RampDirection>, d: RampDirection) -> (r: bool)
    ensures
        r == v@.contains(d),
{
    let mut i: usize = 0;
    while i < v.len()
        invariant
            i <= v@.len(),
            forall|j: int| 0 <= j < i ==> v@[j] != d,
        decreases v@.len() - i,
    {
        if v[i] == d {
            return true;
        }
        i = i + 1;
    }
    false
}

/// Index of the first `d` in `v`, which holds it.
fn find_dir(v: &Vec<RampDirection>, d: RampDirection) -> (r: usize)
    requires
        v@.contains(d),
    ensures
        r == position_of(v@, d),
        r < v@.len(),
{
    let mut i: usize = 0;
    assert(v@.subrange(0, v@.len() as int) =~= v@);
    while i < v.len()
        invariant
            i <= v@.len(),
            v@.contains(d),
            forall|j: int| 0 <= j < i ==> v@[j] != d,
            position_of(v@, d) == i + position_of(v@.subrange(i as int, v@.len() as int), d),
        decreases v@.len() - i,
    {
        let ghost rest = v@.subrange(i as int, v@.len() as int);
        if v[i] == d {
            return i;
        }
        assert(rest.drop_first() =~= v@.subrange(i + 1, v@.len() as int));
        i = i + 1;
    }
    assert(false) by {
        let j = choose|j: int| 0 <= j < v@.len() && v@[j] == d;
    }
    0
}

/// Paints `(x, y)` as `kind` and `tile_type` at `elevation`, choosing a ramp's
/// direction as `painted_direction` says. Returns whether the tile changed; it
/// is rewritten only then.
pub fn paint_tile(map: &mut TileMap, x: u32, y: u32, kind: TileKind, elevation: i8, tile_type: TileType) -> (changed: bool)
    requires
        old(map).wf(),
        x < old(map).width,
        y < old(map).height,
    ensures
        final(map).wf(),
        final(map).width == old(map).width,
        final(map).height == old(map).height,
        changed == (old(map).tile(x as int, y as int) != painted_tile(old(map), x as int, y as int, kind, elevation, tile_type)),
        changed ==> final(map).tiles@ == old(map).tiles@.update(
            old(map).index_of(x as int, y as int),
            painted_tile(old(map), x as int, y as int, kind, elevation, tile_type),
        ),
        !changed ==> final(map).tiles@ == old(map).tiles@,
{
    let current = *map.get(x, y);
    let target = if kind == TileKind::Ramp {
        let base = elevation as i64 * TILE_HEIGHT;
        let candidates = ramp_targets(map, x, y, base);
        match current.ramp_direction {
            Some(existing) if contains_dir(&candidates, existing) => Some(existing),
            _ => if candidates.len() > 0 {
                Some(candidates[0])
            } else {
                None
            },
        }
    } else {
        None
    };
    let tile = Tile { kind, tile_type, x, y, elevation, ramp_direction: target };
    assert(tile == painted_tile(map, x as int, y as int, kind, elevation, tile_type));
    if current != tile {
        map.set(x, y, tile);
        true
    } else {
        false
    }
}

/// Turns the ramp at `(x, y)` to `turned_direction`. Returns whether the tile
/// changed; it is rewritten only then.
pub fn rotate_ramp(map: &mut TileMap, x: u32, y: u32) -> (changed: bool)
    requires
        old(map).wf(),
        x < old(map).width,
        y < old(map).height,
    ensures
        final(map).wf(),
        final(map).width == old(map).width,
        final(map).height == old(map).height,
        changed == (turned_direction(old(map), x as int, y as int) is Some
            && old(map).tile(x as int, y as int).ramp_direction != turned_direction(old(map), x as int, y as int)),
        changed ==> final(map).tiles@ == old(map).tiles@.update(
            old(map).index_of(x as int, y as int),
            Tile { ramp_direction: turned_direction(old(map), x as int, y as int), ..old(map).tile(x as int, y as int) },
        ),
        !changed ==> final(map).tiles@ == old(map).tiles@,
{
    let tile = *map.get(x, y);
    if tile.kind != TileKind::Ramp {
        return false;
    }
    let base = tile.elevation as i64 * TILE_HEIGHT;
    let candidates = ramp_targets(map, x, y, base);
    if candidates.len() == 0 {
        return false;
    }
    let next = match tile.ramp_direction {
        Some(current) if contains_dir(&candidates, current) => {
            let i = find_dir(&candidates, current);
            candidates[(i + 1) % candidates.len()]
        },
        _ => candidates[0],
    };
    if tile.ramp_direction == Some(next) {
        return false;
    }
    proof {
        assert(map.tile(x as int, y as int).x == x && map.tile(x as int, y as int).y == y);
    }
    map.set(x, y, Tile { ramp_direction: Some(next), ..tile });
    true
}

/// The map cell at grid position `(tx, ty)`, if it lies on the map.
pub fn hover_tile(map: &TileMap, tx: i64, ty: i64) -> (r: Option<(u32, u32)>)
    ensures
        r == (if 0 <= tx < map.width && 0 <= ty < map.height {
            Some((tx as u32, ty as u32))
        } else {
            None
        }),
{
    if tx >= 0 && ty >= 0 && tx < map.width as i64 && ty < map.height as i64 {
        Some((tx as u32, ty as u32))
    } else {
        None
    }
}

} // verus!
