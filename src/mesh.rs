use vstd::prelude::*;

use crate::corners::{
    corner_heights, corners_in_range, height_in_range, min_int, tile_corner_heights, CornerHeights,
};
use crate::geometry::{bounded, compact, near, IVec2, IVec3, Quad, TerrainMesh};
use crate::types::{
    lemma_index_in_bounds, lemma_row_major, offset_spec, type_index, RampDirection, Tile,
    TileMap, TileType, TILE_SIZE,
};

verus! {

/// The most tiles a mesh can cover: each tile yields at most five quads of six
/// vertices, and every vertex needs a `u32` index.
pub const MAX_MESH_TILES: u64 = 143_165_576;

pub open spec fn max_int(a: int, b: int) -> int {
    if a >= b {
        a
    } else {
        b
    }
}

/// `s` is the side of the largest square of tiles, at least one tile, that
/// fits in a footprint of `tiles` tiles.
pub open spec fn is_footprint_side(tiles: int, s: int) -> bool {
    &&& s >= 1
    &&& s * s <= (if tiles < 1 { 1 } else { tiles })
    &&& (if tiles < 1 { 1 } else { tiles }) < (s + 1) * (s + 1)
}

/// A texture covers a square footprint of `tiles_per_texture` tiles (0 counts
/// as 1): its side, in tiles, is the period of texture coordinates along
/// either axis. Four tiles make a 2 by 2 footprint.
pub open spec fn effective_span(tiles_per_texture: u32) -> int {
    choose|s: int| is_footprint_side(tiles_per_texture as int, s)
}

proof fn lemma_footprint_side_unique(tiles: int, s: int, t: int)
    requires
        is_footprint_side(tiles, s),
        is_footprint_side(tiles, t),
    ensures
        s == t,
{
    let n = if tiles < 1 { 1 } else { tiles };
    if s < t {
        assert((s + 1) * (s + 1) <= t * t) by (nonlinear_arith)
            requires 1 <= s < t;
    } else if t < s {
        assert((t + 1) * (t + 1) <= s * s) by (nonlinear_arith)
            requires 1 <= t < s;
    }
}

/// The footprint of `s * s` tiles has side `s`.
pub proof fn square_footprint_side(s: int)
    requires
        1 <= s,
        s * s <= u32::MAX,
    ensures
        effective_span((s * s) as u32) == s,
{
    assert(s * s < (s + 1) * (s + 1)) by (nonlinear_arith)
        requires 1 <= s;
    assert(1 <= s * s) by (nonlinear_arith)
        requires 1 <= s;
    assert(is_footprint_side(s * s, s));
    let c = effective_span((s * s) as u32);
    lemma_footprint_side_unique(s * s, s, c);
}

/// Added to a world coordinate of a tile at grid coordinate `c` to place it
/// within its texture repeat: texture coordinates restart every `span` tiles.
pub open spec fn wrap_shift(c: int, span: int) -> int {
    (c % span - c) * TILE_SIZE
}

pub open spec fn point(gx: int, h: int, gz: int) -> IVec3 {
    IVec3 { x: (gx * TILE_SIZE) as i64, y: h as i64, z: (gz * TILE_SIZE) as i64 }
}

/// Top faces project `(x, z)`.
pub open spec fn top_uv(p: IVec3, sx: int, sz: int) -> IVec2 {
    IVec2 { x: (p.x + sx) as i64, y: (p.z + sz) as i64 }
}

/// North and South walls project `(x, y)`; East and West walls project `(z, y)`.
pub open spec fn wall_uv(p: IVec3, along_x: bool, sx: int, sz: int) -> IVec2 {
    if along_x {
        IVec2 { x: (p.x + sx) as i64, y: p.y }
    } else {
        IVec2 { x: (p.z + sz) as i64, y: p.y }
    }
}

/// The top corners of `(x, y)` in world space: NW, NE, SW, SE.
pub open spec fn tile_points(map: &TileMap, x: int, y: int) -> (IVec3, IVec3, IVec3, IVec3) {
    let c = corner_heights(map, x, y);
    (point(x, c.nw as int, y), point(x + 1, c.ne as int, y), point(x, c.sw as int, y + 1), point(x + 1, c.se as int, y + 1))
}

/// The top face of `(x, y)`, drawn NW, SW, SE, NE; its layer attribute is
/// the tile's type index and its highest corner.
#[verifier::opaque]
pub open spec fn top_quad(map: &TileMap, x: int, y: int, span: int) -> Quad {
    let (nw, ne, sw, se) = tile_points(map, x, y);
    let sx = wrap_shift(x, span);
    let sz = wrap_shift(y, span);
    let c = corner_heights(map, x, y);
    Quad {
        a: nw,
        b: sw,
        c: se,
        d: ne,
        uv_a: top_uv(nw, sx, sz),
        uv_b: top_uv(sw, sx, sz),
        uv_c: top_uv(se, sx, sz),
        uv_d: top_uv(ne, sx, sz),
        layer: IVec2 {
            x: type_index(map.tile(x, y).tile_type) as i64,
            y: max_int(max_int(c.nw as int, c.ne as int), max_int(c.sw as int, c.se as int)) as i64,
        },
    }
}

/// The wall below the top edge `top_a, top_b` down to the floor heights
/// `floor_a, floor_b` (never above the top): none where it would have no height.
pub open spec fn wall(top_a: IVec3, top_b: IVec3, floor_a: int, floor_b: int, along_x: bool, sx: int, sz: int, layer: IVec2) -> Option<Quad> {
    if top_a.y <= floor_a && top_b.y <= floor_b {
        None
    } else {
        let bottom_a = IVec3 { y: min_int(top_a.y as int, floor_a) as i64, ..top_a };
        let bottom_b = IVec3 { y: min_int(top_b.y as int, floor_b) as i64, ..top_b };
        Some(
            Quad {
                a: top_a,
                b: top_b,
                c: bottom_b,
                d: bottom_a,
                uv_a: wall_uv(top_a, along_x, sx, sz),
                uv_b: wall_uv(top_b, along_x, sx, sz),
                uv_c: wall_uv(bottom_b, along_x, sx, sz),
                uv_d: wall_uv(bottom_a, along_x, sx, sz),
                layer,
            },
        )
    }
}

/// The two top corners of a tile on edge `d`, in the order its wall is drawn.
pub open spec fn edge_points(p: (IVec3, IVec3, IVec3, IVec3), d: RampDirection) -> (IVec3, IVec3) {
    match d {
        RampDirection::North => (p.0, p.1),
        RampDirection::South => (p.3, p.2),
        RampDirection::West => (p.2, p.0),
        RampDirection::East => (p.1, p.3),
    }
}

/// The neighbor's corners that meet `edge_points(.., d)`, in the same order.
pub open spec fn facing_corners(c: CornerHeights, d: RampDirection) -> (int, int) {
    match d {
        RampDirection::North => (c.sw as int, c.se as int),
        RampDirection::South => (c.ne as int, c.nw as int),
        RampDirection::West => (c.se as int, c.ne as int),
        RampDirection::East => (c.nw as int, c.sw as int),
    }
}

/// The skirt on edge `d` of `(x, y)`: its floor is the neighbor's facing
/// corners, or 0 on the map's border; its layer attribute is the neighbor's
/// type index (the tile's own on the border) and the higher top corner.
#[verifier::opaque]
pub open spec fn skirt(map: &TileMap, x: int, y: int, span: int, d: RampDirection) -> Option<Quad> {
    let nx = x + offset_spec(d).0;
    let ny = y + offset_spec(d).1;
    let has = map.in_grid(nx, ny);
    let (ta, tb) = edge_points(tile_points(map, x, y), d);
    let floors = if has {
        facing_corners(corner_heights(map, nx, ny), d)
    } else {
        (0, 0)
    };
    let li = if has {
        type_index(map.tile(nx, ny).tile_type)
    } else {
        type_index(map.tile(x, y).tile_type)
    };
    let along_x = d == RampDirection::North || d == RampDirection::South;
    wall(
        ta,
        tb,
        floors.0,
        floors.1,
        along_x,
        wrap_shift(x, span),
        wrap_shift(y, span),
        IVec2 { x: li as i64, y: max_int(ta.y as int, tb.y as int) as i64 },
    )
}

pub open spec fn opt_seq(o: Option<Quad>) -> Seq<Quad> {
    match o {
        Some(q) => seq![q],
        None => Seq::empty(),
    }
}

/// The quads of tile `(x, y)`: its top, then its North, South, West and East skirts.
pub open spec fn tile_quads(map: &TileMap, x: int, y: int, span: int) -> Seq<Quad> {
    seq![top_quad(map, x, y, span)] + opt_seq(skirt(map, x, y, span, RampDirection::North)) + opt_seq(
        skirt(map, x, y, span, RampDirection::South),
    ) + opt_seq(skirt(map, x, y, span, RampDirection::West)) + opt_seq(
        skirt(map, x, y, span, RampDirection::East),
    )
}

pub open spec fn selects(filter: Option<TileType>, t: Tile) -> bool {
    filter is None || filter->0 == t.tile_type
}

/// The quads of the first `k` tiles in row-major order, skipping tiles that
/// `filter` leaves out.
pub open spec fn quads_upto(map: &TileMap, k: int, filter: Option<TileType>, span: int) -> Seq<Quad>
    decreases k,
{
    if k <= 0 {
        Seq::empty()
    } else {
        let i = k - 1;
        let x = i % (map.width as int);
        let y = i / (map.width as int);
        quads_upto(map, k - 1, filter, span) + if selects(filter, map.tile(x, y)) {
            tile_quads(map, x, y, span)
        } else {
            Seq::empty()
        }
    }
}

/// The quads of the whole map, tile by tile in row-major order.
pub open spec fn mesh_quads(map: &TileMap, filter: Option<TileType>, span: int) -> Seq<Quad> {
    quads_upto(map, map.width * map.height, filter, span)
}

proof fn lemma_quads_upto_len(map: &TileMap, k: int, filter: Option<TileType>, span: int)
    requires
        k >= 0,
    ensures
        quads_upto(map, k, filter, span).len() <= 5 * k,
    decreases k,
{
    if k > 0 {
        lemma_quads_upto_len(map, k - 1, filter, span);
    }
}

/// `cache` holds the resolved corners of every tile, in row-major order.
pub open spec fn cache_ok(map: &TileMap, cache: Seq<CornerHeights>) -> bool {
    &&& cache.len() == map.width * map.height
    &&& forall|i: int|
        0 <= i < cache.len() ==> #[trigger] cache[i] == corner_heights(map, i % (map.width as int), i / (map.width as int))
            && corners_in_range(cache[i])
}

proof fn lemma_cell_of(i: int, w: int, h: int)
    requires
        0 <= i < w * h,
        w > 0,
    ensures
        0 <= i % w < w,
        0 <= i / w < h,
        (i / w) * w + i % w == i,
{
    vstd::arithmetic::div_mod::lemma_fundamental_div_mod(i, w);
    vstd::arithmetic::div_mod::lemma_mod_pos_bound(i, w);
    assert(0 <= i / w < h) by (nonlinear_arith)
        requires
            i == w * (i / w) + i % w,
            0 <= i % w < w,
            0 <= i < w * h,
            w > 0,
    ;
    assert((i / w) * w == w * (i / w)) by (nonlinear_arith);
}

fn cached(map: &TileMap, cache: &Vec<CornerHeights>, x: u32, y: u32) -> (r: CornerHeights)
    requires
        map.wf(),
        x < map.width,
        y < map.height,
        cache_ok(map, cache@),
    ensures
        r == corner_heights(map, x as int, y as int),
        corners_in_range(r),
{
    let i = map.idx(x, y);
    proof {
        lemma_row_major(x as int, y as int, map.width as int);
    }
    cache[i]
}

fn corner_cache(map: &TileMap) -> (r: Vec<CornerHeights>)
    requires
        map.wf(),
        map.width > 0,
    ensures
        cache_ok(map, r@),
{
    let n = map.tiles.len();
    let w = map.width as usize;
    let mut cache: Vec<CornerHeights> = Vec::new();
    let mut i: usize = 0;
    while i < n
        invariant
            map.wf(),
            map.width > 0,
            n == map.width * map.height,
            w == map.width,
            i <= n,
            cache@.len() == i,
            forall|j: int|
                0 <= j < i ==> #[trigger] cache@[j] == corner_heights(map, j % (map.width as int), j / (map.width as int))
                    && corners_in_range(cache@[j]),
        decreases n - i,
    {
        proof {
            lemma_cell_of(i as int, map.width as int, map.height as int);
        }
        let x = (i % w) as u32;
        let y = (i / w) as u32;
        let c = tile_corner_heights(map, x, y);
        cache.push(c);
        i = i + 1;
    }
    cache
}

impl TerrainMesh {
    /// Appends the skirt `wall(top_a, top_b, floor_a, floor_b, ..)`, unless it has no height.
    fn add_side_face(
        &mut self,
        top_a: IVec3,
        top_b: IVec3,
        floor_a: i64,
        floor_b: i64,
        along_x: bool,
        sx: i64,
        sz: i64,
        layer: IVec2,
        layered: bool,
        Ghost(qs): Ghost<Seq<Quad>>,
    )
        requires
            bounded(top_a),
            -0x100_0000_0000 <= top_b.x <= 0x100_0000_0000,
            -0x100_0000_0000 <= top_b.z <= 0x100_0000_0000,
            -8 <= top_b.x - top_a.x <= 8,
            -8 <= top_b.z - top_a.z <= 8,
            height_in_range(top_a.y as int),
            height_in_range(top_b.y as int),
            height_in_range(floor_a as int),
            height_in_range(floor_b as int),
            -0x100_0000_0000 <= sx <= 0x100_0000_0000,
            -0x100_0000_0000 <= sz <= 0x100_0000_0000,
            old(self).holds(qs, layered),
            6 * qs.len() + 6 <= 0x1_0000_0000,
        ensures
            final(self).holds(qs + opt_seq(wall(top_a, top_b, floor_a as int, floor_b as int, along_x, sx as int, sz as int, layer)), layered),
            final(self).uv_period == old(self).uv_period,
    {
        if top_a.y <= floor_a && top_b.y <= floor_b {
            assert(qs + opt_seq(wall(top_a, top_b, floor_a as int, floor_b as int, along_x, sx as int, sz as int, layer)) =~= qs);
            return;
        }
        let bottom_a = IVec3 { y: if top_a.y <= floor_a { top_a.y } else { floor_a }, ..top_a };
        let bottom_b = IVec3 { y: if top_b.y <= floor_b { top_b.y } else { floor_b }, ..top_b };
        let (uv_a, uv_b, uv_c, uv_d) = if along_x {
            (
                IVec2 { x: top_a.x + sx, y: top_a.y },
                IVec2 { x: top_b.x + sx, y: top_b.y },
                IVec2 { x: bottom_b.x + sx, y: bottom_b.y },
                IVec2 { x: bottom_a.x + sx, y: bottom_a.y },
            )
        } else {
            (
                IVec2 { x: top_a.z + sz, y: top_a.y },
                IVec2 { x: top_b.z + sz, y: top_b.y },
                IVec2 { x: bottom_b.z + sz, y: bottom_b.y },
                IVec2 { x: bottom_a.z + sz, y: bottom_a.y },
            )
        };
        let q = Quad { a: top_a, b: top_b, c: bottom_b, d: bottom_a, uv_a, uv_b, uv_c, uv_d, layer };
        self.push_quad(q, layered, Ghost(qs));
        assert(qs.push(q) =~= qs + opt_seq(wall(top_a, top_b, floor_a as int, floor_b as int, along_x, sx as int, sz as int, layer)));
    }
}

fn max_i64(a: i64, b: i64) -> (r: i64)
    ensures
        r == max_int(a as int, b as int),
{
    if a >= b {
        a
    } else {
        b
    }
}

/// The type index of `(x, y)`'s neighbor across edge `dir`, or of `(x, y)`
/// itself on the border, with the neighbor's facing corners (0 on the border).
fn facing(map: &TileMap, cache: &Vec<CornerHeights>, x: u32, y: u32, dir: RampDirection) -> (r: (i64, i64, i64))
    requires
        map.wf(),
        x < map.width,
        y < map.height,
        cache_ok(map, cache@),
    ensures
        ({
            let nx = x + offset_spec(dir).0;
            let ny = y + offset_spec(dir).1;
            let has = map.in_grid(nx, ny);
            &&& r.0 == (if has { facing_corners(corner_heights(map, nx, ny), dir).0 } else { 0 })
            &&& r.1 == (if has { facing_corners(corner_heights(map, nx, ny), dir).1 } else { 0 })
            &&& r.2 == (if has { type_index(map.tile(nx, ny).tile_type) } else { type_index(map.tile(x as int, y as int).tile_type) })
            &&& height_in_range(r.0 as int)
            &&& height_in_range(r.1 as int)
        }),
{
    let (dx, dy) = dir.offset();
    let nx = x as i64 + dx as i64;
    let ny = y as i64 + dy as i64;
    if nx < 0 || ny < 0 || nx >= map.width as i64 || ny >= map.height as i64 {
        (0, 0, map.get(x, y).tile_type.as_index() as i64)
    } else {
        let (ux, uy) = (nx as u32, ny as u32);
        let c = cached(map, cache, ux, uy);
        let li = map.get(ux, uy).tile_type.as_index() as i64;
        match dir {
            RampDirection::North => (c.sw, c.se, li),
            RampDirection::South => (c.ne, c.nw, li),
            RampDirection::West => (c.se, c.ne, li),
            RampDirection::East => (c.nw, c.sw, li),
        }
    }
}

/// Appends the top face and the four skirts of tile `(x, y)`.
fn append_tile_geometry(
    map: &TileMap,
    cache: &Vec<CornerHeights>,
    x: u32,
    y: u32,
    span: u32,
    buffer: &mut TerrainMesh,
    layered: bool,
    Ghost(qs): Ghost<Seq<Quad>>,
)
    requires
        map.wf(),
        x < map.width,
        y < map.height,
        span > 0,
        cache_ok(map, cache@),
        old(buffer).holds(qs, layered),
        6 * qs.len() + 30 <= 0x1_0000_0000,
    ensures
        final(buffer).holds(qs + tile_quads(map, x as int, y as int, span as int), layered),
        final(buffer).uv_period == old(buffer).uv_period,
{
    let (top, pts, sx, sz) = top_face(map, cache, x, y, span);
    buffer.push_quad(top, layered, Ghost(qs));
    let ghost q1 = qs.push(top);

    append_skirt(map, cache, x, y, span, RampDirection::North, pts, sx, sz, buffer, layered, Ghost(q1));
    let ghost q2 = q1 + opt_seq(skirt(map, x as int, y as int, span as int, RampDirection::North));
    append_skirt(map, cache, x, y, span, RampDirection::South, pts, sx, sz, buffer, layered, Ghost(q2));
    let ghost q3 = q2 + opt_seq(skirt(map, x as int, y as int, span as int, RampDirection::South));
    append_skirt(map, cache, x, y, span, RampDirection::West, pts, sx, sz, buffer, layered, Ghost(q3));
    let ghost q4 = q3 + opt_seq(skirt(map, x as int, y as int, span as int, RampDirection::West));
    append_skirt(map, cache, x, y, span, RampDirection::East, pts, sx, sz, buffer, layered, Ghost(q4));
    assert(q4 + opt_seq(skirt(map, x as int, y as int, span as int, RampDirection::East))
        =~= qs + tile_quads(map, x as int, y as int, span as int));
}

/// The top face of `(x, y)`, with its top corners and texture shifts.
fn top_face(map: &TileMap, cache: &Vec<CornerHeights>, x: u32, y: u32, span: u32) -> (r: (Quad, (IVec3, IVec3, IVec3, IVec3), i64, i64))
    requires
        map.wf(),
        x < map.width,
        y < map.height,
        span > 0,
        cache_ok(map, cache@),
    ensures
        r.0 == top_quad(map, x as int, y as int, span as int),
        compact(r.0),
        r.1 == tile_points(map, x as int, y as int),
        r.2 == wrap_shift(x as int, span as int),
        r.3 == wrap_shift(y as int, span as int),
{
    let corners = cached(map, cache, x, y);
    let x0 = x as i64 * TILE_SIZE;
    let x1 = x0 + TILE_SIZE;
    let z0 = y as i64 * TILE_SIZE;
    let z1 = z0 + TILE_SIZE;
    let nw = IVec3 { x: x0, y: corners.nw, z: z0 };
    let ne = IVec3 { x: x1, y: corners.ne, z: z0 };
    let sw = IVec3 { x: x0, y: corners.sw, z: z1 };
    let se = IVec3 { x: x1, y: corners.se, z: z1 };
    let sx = ((x % span) as i64 - x as i64) * TILE_SIZE;
    let sz = ((y % span) as i64 - y as i64) * TILE_SIZE;
    let own = map.get(x, y).tile_type.as_index() as i64;
    let top_height = max_i64(max_i64(corners.nw, corners.ne), max_i64(corners.sw, corners.se));
    let top = Quad {
        a: nw,
        b: sw,
        c: se,
        d: ne,
        uv_a: IVec2 { x: nw.x + sx, y: nw.z + sz },
        uv_b: IVec2 { x: sw.x + sx, y: sw.z + sz },
        uv_c: IVec2 { x: se.x + sx, y: se.z + sz },
        uv_d: IVec2 { x: ne.x + sx, y: ne.z + sz },
        layer: IVec2 { x: own, y: top_height },
    };
    proof {
        reveal(top_quad);
    }
    (top, (nw, ne, sw, se), sx, sz)
}

/// Appends the skirt on edge `dir` of `(x, y)`, whose top corners are `pts`.
fn append_skirt(
    map: &TileMap,
    cache: &Vec<CornerHeights>,
    x: u32,
    y: u32,
    span: u32,
    dir: RampDirection,
    pts: (IVec3, IVec3, IVec3, IVec3),
    sx: i64,
    sz: i64,
    buffer: &mut TerrainMesh,
    layered: bool,
    Ghost(qs): Ghost<Seq<Quad>>,
)
    requires
        map.wf(),
        x < map.width,
        y < map.height,
        span > 0,
        cache_ok(map, cache@),
        pts == tile_points(map, x as int, y as int),
        sx == wrap_shift(x as int, span as int),
        sz == wrap_shift(y as int, span as int),
        old(buffer).holds(qs, layered),
        6 * qs.len() + 6 <= 0x1_0000_0000,
    ensures
        final(buffer).holds(qs + opt_seq(skirt(map, x as int, y as int, span as int, dir)), layered),
        final(buffer).uv_period == old(buffer).uv_period,
{
    let ghost c = corner_heights(map, x as int, y as int);
    assert(corners_in_range(c)) by {
        lemma_row_major(x as int, y as int, map.width as int);
        lemma_index_in_bounds(x as int, y as int, map.width as int, map.height as int);
        assert(cache@[y * map.width + x] == c);
    }
    let (fa, fb, li) = facing(map, cache, x, y, dir);
    let (nw, ne, sw, se) = pts;
    let (ta, tb, along_x) = match dir {
        RampDirection::North => (nw, ne, true),
        RampDirection::South => (se, sw, true),
        RampDirection::West => (sw, nw, false),
        RampDirection::East => (ne, se, false),
    };
    buffer.add_side_face(ta, tb, fa, fb, along_x, sx, sz, IVec2 { x: li, y: max_i64(ta.y, tb.y) }, layered, Ghost(qs));
    proof {
        reveal(skirt);
    }
}

/// Fills `buffer` with the quads of every tile that `filter` selects.
fn populate_mesh_buffers(map: &TileMap, filter: Option<TileType>, span: u32, buffer: &mut TerrainMesh, layered: bool)
    requires
        map.wf(),
        span > 0,
        map.width * map.height <= MAX_MESH_TILES,
        old(buffer).holds(Seq::empty(), layered),
    ensures
        final(buffer).holds(mesh_quads(map, filter, span as int), layered),
        final(buffer).uv_period == old(buffer).uv_period,
{
    if map.width == 0 || map.height == 0 {
        assert(map.width * map.height == 0) by (nonlinear_arith)
            requires map.width == 0 || map.height == 0;
        return;
    }
    let cache = corner_cache(map);
    let n = map.tiles.len();
    let w = map.width as usize;
    let mut i: usize = 0;
    while i < n
        invariant
            map.wf(),
            span > 0,
            map.width > 0,
            n == map.width * map.height,
            n <= MAX_MESH_TILES,
            w == map.width,
            i <= n,
            cache_ok(map, cache@),
            buffer.holds(quads_upto(map, i as int, filter, span as int), layered),
            buffer.uv_period == old(buffer).uv_period,
        decreases n - i,
    {
        proof {
            lemma_cell_of(i as int, map.width as int, map.height as int);
            lemma_quads_upto_len(map, i as int, filter, span as int);
        }
        let x = (i % w) as u32;
        let y = (i / w) as u32;
        let selected = match filter {
            None => true,
            Some(t) => map.get(x, y).tile_type == t,
        };
        if selected {
            append_tile_geometry(map, &cache, x, y, span, buffer, layered, Ghost(quads_upto(map, i as int, filter, span as int)));
        } else {
            assert(quads_upto(map, i + 1, filter, span as int) =~= quads_upto(map, i as int, filter, span as int));
        }
        i = i + 1;
    }
}

/// The side of the footprint of `tiles_per_texture` tiles.
fn span_of(tiles_per_texture: u32) -> (r: u32)
    ensures
        r == effective_span(tiles_per_texture),
        r > 0,
{
    let n: u64 = if tiles_per_texture == 0 {
        1
    } else {
        tiles_per_texture as u64
    };
    let mut s: u64 = 1;
    let mut grow: bool = 4 <= n;
    while grow
        invariant
            1 <= s <= 0xffff,
            s * s <= n,
            1 <= n <= u32::MAX,
            grow == ((s + 1) * (s + 1) <= n),
        decreases n - s,
    {
        assert(s + 1 <= n && s + 1 <= 0xffff) by (nonlinear_arith)
            requires (s + 1) * (s + 1) <= n, 1 <= s, n <= u32::MAX;
        s = s + 1;
        assert((s + 1) * (s + 1) <= 0x1_0000 * 0x1_0000) by (nonlinear_arith)
            requires 1 <= s <= 0xffff;
        grow = (s + 1) * (s + 1) <= n;
    }
    proof {
        assert(s <= n) by (nonlinear_arith)
            requires s * s <= n, 1 <= s;
        assert(is_footprint_side(tiles_per_texture as int, s as int));
        lemma_footprint_side_unique(tiles_per_texture as int, s as int, effective_span(tiles_per_texture));
    }
    s as u32
}

/// A mesh that holds nothing, with a texture repeat of one tile.
pub fn empty_mesh() -> (r: TerrainMesh)
    ensures
        r.holds(Seq::empty(), false),
        r.holds(Seq::empty(), true),
        r.uv_period == TILE_SIZE,
{
    TerrainMesh::with_period(TILE_SIZE)
}

/// The terrain mesh of the whole map, without layer attributes: for each tile
/// in row-major order its top face and its non-degenerate skirts. A texture
/// covers a square of `tiles_per_texture` tiles, so texture coordinates
/// repeat every `effective_span(tiles_per_texture)` tiles (2 for 4).
pub fn build_mesh(map: &TileMap, tiles_per_texture: u32) -> (r: TerrainMesh)
    requires
        map.wf(),
        map.width * map.height <= MAX_MESH_TILES,
    ensures
        r.holds(mesh_quads(map, None, effective_span(tiles_per_texture)), false),
        r.uv_period == effective_span(tiles_per_texture) * TILE_SIZE,
{
    let span = span_of(tiles_per_texture);
    let mut buffer = TerrainMesh::with_period(span as i64 * TILE_SIZE);
    populate_mesh_buffers(map, None, span, &mut buffer, false);
    buffer
}

/// As `build_mesh`, with each vertex also carrying its quad's layer attribute:
/// the tile's type index on top faces, the neighbor's on skirts.
pub fn build_combined_mesh(map: &TileMap, tiles_per_texture: u32) -> (r: TerrainMesh)
    requires
        map.wf(),
        map.width * map.height <= MAX_MESH_TILES,
    ensures
        r.holds(mesh_quads(map, None, effective_span(tiles_per_texture)), true),
        r.uv_period == effective_span(tiles_per_texture) * TILE_SIZE,
{
    let span = span_of(tiles_per_texture);
    let mut buffer = TerrainMesh::with_period(span as i64 * TILE_SIZE);
    populate_mesh_buffers(map, None, span, &mut buffer, true);
    buffer
}

fn build_type_mesh(map: &TileMap, tile_type: TileType, span: u32) -> (r: TerrainMesh)
    requires
        map.wf(),
        span > 0,
        map.width * map.height <= MAX_MESH_TILES,
    ensures
        r.holds(mesh_quads(map, Some(tile_type), span as int), false),
        r.uv_period == span * TILE_SIZE,
{
    let mut buffer = TerrainMesh::with_period(span as i64 * TILE_SIZE);
    populate_mesh_buffers(map, Some(tile_type), span, &mut buffer, false);
    buffer
}

/// One mesh per tile type, at the type's index: each holds the quads of the
/// tiles of that type only, in row-major order.
pub fn build_map_meshes(map: &TileMap, tiles_per_texture: u32) -> (r: Vec<TerrainMesh>)
    requires
        map.wf(),
        map.width * map.height <= MAX_MESH_TILES,
    ensures
        r@.len() == 4,
        forall|t: TileType| #[trigger] r@[type_index(t)].holds(mesh_quads(map, Some(t), effective_span(tiles_per_texture)), false),
        forall|i: int| 0 <= i < 4 ==> #[trigger] r@[i].uv_period == effective_span(tiles_per_texture) * TILE_SIZE,
{
    let span = span_of(tiles_per_texture);
    let mut meshes: Vec<TerrainMesh> = Vec::new();
    meshes.push(build_type_mesh(map, TileType::Grass, span));
    meshes.push(build_type_mesh(map, TileType::Dirt, span));
    meshes.push(build_type_mesh(map, TileType::Cliff, span));
    meshes.push(build_type_mesh(map, TileType::Water, span));
    assert forall|t: TileType| #[trigger] meshes@[type_index(t)].holds(mesh_quads(map, Some(t), span as int), false) by {
        match t {
            TileType::Grass => {},
            TileType::Dirt => {},
            TileType::Cliff => {},
            TileType::Water => {},
        }
    }
    meshes
}

/// Two vertically adjacent tiles whose corners meet at equal heights along
/// their shared edge get no skirt on that edge, from either side.
pub proof fn level_edge_has_no_skirt_north_south(map: &TileMap, x: int, y: int, span: int)
    requires
        map.wf(),
        0 <= x < map.width,
        0 <= y,
        y + 1 < map.height,
        corner_heights(map, x, y).sw == corner_heights(map, x, y + 1).nw,
        corner_heights(map, x, y).se == corner_heights(map, x, y + 1).ne,
    ensures
        skirt(map, x, y, span, RampDirection::South) is None,
        skirt(map, x, y + 1, span, RampDirection::North) is None,
{
    reveal(skirt);
}

/// Two horizontally adjacent tiles whose corners meet at equal heights along
/// their shared edge get no skirt on that edge, from either side.
pub proof fn level_edge_has_no_skirt_west_east(map: &TileMap, x: int, y: int, span: int)
    requires
        map.wf(),
        0 <= x,
        x + 1 < map.width,
        0 <= y < map.height,
        corner_heights(map, x, y).ne == corner_heights(map, x + 1, y).nw,
        corner_heights(map, x, y).se == corner_heights(map, x + 1, y).sw,
    ensures
        skirt(map, x, y, span, RampDirection::East) is None,
        skirt(map, x + 1, y, span, RampDirection::West) is None,
{
    reveal(skirt);
}

/// The layer attribute of a tile's top face names one texture layer, the
/// tile's own type.
pub proof fn top_layer_is_tile_type(map: &TileMap, x: int, y: int, span: int)
    ensures
        top_quad(map, x, y, span).layer.x == type_index(map.tile(x, y).tile_type),
        0 <= top_quad(map, x, y, span).layer.x < 4,
{
    reveal(top_quad);
}

pub open spec fn opt_count(o: Option<Quad>) -> int {
    if o is Some {
        1
    } else {
        0
    }
}

/// How many of the four skirts of `(x, y)` have height.
pub open spec fn skirt_count(map: &TileMap, x: int, y: int, span: int) -> int {
    opt_count(skirt(map, x, y, span, RampDirection::North)) + opt_count(skirt(map, x, y, span, RampDirection::South))
        + opt_count(skirt(map, x, y, span, RampDirection::West)) + opt_count(skirt(map, x, y, span, RampDirection::East))
}

/// The skirts with height of the first `k` tiles in row-major order.
pub open spec fn skirts_upto(map: &TileMap, k: int, span: int) -> int
    decreases k,
{
    if k <= 0 {
        0
    } else {
        let i = k - 1;
        skirts_upto(map, k - 1, span) + skirt_count(map, i % (map.width as int), i / (map.width as int), span)
    }
}

proof fn lemma_quads_upto_count(map: &TileMap, k: int, span: int)
    requires
        k >= 0,
    ensures
        quads_upto(map, k, None, span).len() == k + skirts_upto(map, k, span),
    decreases k,
{
    if k > 0 {
        lemma_quads_upto_count(map, k - 1, span);
    }
}

/// A mesh of the whole map has six indices per tile top and six per skirt
/// with height; an edge whose two sides meet level adds none (see
/// `level_edge_has_no_skirt_north_south` and `level_edge_has_no_skirt_west_east`).
pub proof fn mesh_index_count(map: &TileMap, span: int, layered: bool, m: TerrainMesh)
    requires
        m.holds(mesh_quads(map, None, span), layered),
    ensures
        m.indices@.len() == 6 * (map.width * map.height + skirts_upto(map, map.width * map.height, span)),
        m.positions@.len() == m.indices@.len(),
{
    lemma_quads_upto_count(map, map.width * map.height, span);
    crate::geometry::lemma_positions_len(mesh_quads(map, None, span));
}

proof fn lemma_layers_at(qs: Seq<Quad>, j: int, r: int)
    requires
        0 <= j < qs.len(),
        0 <= r < 6,
    ensures
        crate::geometry::layers_of(qs).len() == 6 * qs.len(),
        crate::geometry::layers_of(qs)[6 * j + r] == qs[j].layer,
    decreases qs.len(),
{
    lemma_layers_len(qs);
    if j < qs.len() - 1 {
        lemma_layers_at(qs.drop_last(), j, r);
        lemma_layers_len(qs.drop_last());
    }
}

proof fn lemma_layers_len(qs: Seq<Quad>)
    ensures
        crate::geometry::layers_of(qs).len() == 6 * qs.len(),
    decreases qs.len(),
{
    if qs.len() > 0 {
        lemma_layers_len(qs.drop_last());
    }
}

proof fn lemma_quads_upto_prefix(map: &TileMap, k: int, n: int, span: int)
    requires
        0 <= k <= n,
    ensures
        quads_upto(map, k, None, span).len() <= quads_upto(map, n, None, span).len(),
        quads_upto(map, n, None, span).subrange(0, quads_upto(map, k, None, span).len() as int) == quads_upto(map, k, None, span),
    decreases n,
{
    if k < n {
        lemma_quads_upto_prefix(map, k, n - 1, span);
        let a = quads_upto(map, k, None, span);
        let b = quads_upto(map, n - 1, None, span);
        let c = quads_upto(map, n, None, span);
        assert(c.subrange(0, b.len() as int) =~= b);
        assert(c.subrange(0, a.len() as int) =~= b.subrange(0, a.len() as int));
    } else {
        assert(quads_upto(map, n, None, span).subrange(0, quads_upto(map, n, None, span).len() as int) =~= quads_upto(map, n, None, span));
    }
}

/// In a mesh with layers, all six vertices of tile `i`'s top face (the tile at
/// row-major index `i`, which comes after the quads of the tiles before it)
/// carry the type index of that tile and of no other.
pub proof fn combined_mesh_top_layers(map: &TileMap, span: int, m: TerrainMesh, i: int)
    requires
        m.holds(mesh_quads(map, None, span), true),
        0 <= i < map.width * map.height,
    ensures
        forall|r: int|
            0 <= r < 6 ==> #[trigger] m.layers@[6 * quads_upto(map, i, None, span).len() + r].x == type_index(
                map.tile(i % (map.width as int), i / (map.width as int)).tile_type,
            ),
{
    let n = map.width * map.height;
    let w = map.width as int;
    let before = quads_upto(map, i, None, span);
    let all = quads_upto(map, n, None, span);
    lemma_quads_upto_prefix(map, i + 1, n, span);
    let upto = quads_upto(map, i + 1, None, span);
    assert(upto == before + tile_quads(map, i % w, i / w, span));
    assert(upto[before.len() as int] == top_quad(map, i % w, i / w, span));
    assert(all[before.len() as int] == upto[before.len() as int]);
    top_layer_is_tile_type(map, i % w, i / w, span);
    assert forall|r: int| 0 <= r < 6 implies #[trigger] m.layers@[6 * before.len() + r].x == type_index(
        map.tile(i % w, i / w).tile_type,
    ) by {
        lemma_layers_at(all, before.len() as int, r);
    }
}

/// Two meshes built from the same map with the same settings are identical,
/// buffer for buffer.
pub proof fn build_mesh_is_deterministic(map: &TileMap, span: int, layered: bool, a: TerrainMesh, b: TerrainMesh)
    requires
        a.holds(mesh_quads(map, None, span), layered),
        b.holds(mesh_quads(map, None, span), layered),
    ensures
        a.positions@ == b.positions@,
        a.normals@ == b.normals@,
        a.uvs@ == b.uvs@,
        a.layers@ == b.layers@,
        a.indices@ == b.indices@,
{
    assert(a.indices@ =~= b.indices@);
}

/// Texture coordinates of top faces repeat every `span` tiles: a tile's top
/// face has the same coordinates as the tile `span` columns or rows further.
pub proof fn top_uvs_repeat(map: &TileMap, x: int, y: int, span: int)
    requires
        span > 0,
        0 <= x,
        0 <= y,
        (x + span) * TILE_SIZE <= 0x7fff_ffff_ffff,
        (y + span) * TILE_SIZE <= 0x7fff_ffff_ffff,
    ensures
        top_quad(map, x, y, span).uv_a == top_quad(map, x + span, y, span).uv_a,
        top_quad(map, x, y, span).uv_b == top_quad(map, x + span, y, span).uv_b,
        top_quad(map, x, y, span).uv_c == top_quad(map, x + span, y, span).uv_c,
        top_quad(map, x, y, span).uv_d == top_quad(map, x + span, y, span).uv_d,
        top_quad(map, x, y, span).uv_a == top_quad(map, x, y + span, span).uv_a,
        top_quad(map, x, y, span).uv_b == top_quad(map, x, y + span, span).uv_b,
        top_quad(map, x, y, span).uv_c == top_quad(map, x, y + span, span).uv_c,
        top_quad(map, x, y, span).uv_d == top_quad(map, x, y + span, span).uv_d,
{
    reveal(top_quad);
    vstd::arithmetic::div_mod::lemma_mod_add_multiples_vanish(x, span);
    vstd::arithmetic::div_mod::lemma_mod_add_multiples_vanish(y, span);
    vstd::arithmetic::div_mod::lemma_mod_bound(x, span);
    vstd::arithmetic::div_mod::lemma_mod_bound(y, span);
}

} // verus!