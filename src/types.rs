use vstd::prelude::*;

verus! {

/// Fixed-point units in one world unit.
pub const UNITS_PER_WORLD: i64 = 5;

/// Width of a tile, in units (one world unit).
pub const TILE_SIZE: i64 = 5;

/// Height of one elevation step, in units (0.4 of a tile's width).
pub const TILE_HEIGHT: i64 = 2;

/// Shape of a tile's top surface.
#[derive(Clone, Copy, PartialEq, Eq, Debug, Structural)]
pub enum TileKind {
    Floor,
    Ramp,
}

/// One of the four edges of a tile. North is towards smaller `y`.
#[derive(Clone, Copy, PartialEq, Eq, Debug, Structural)]
pub enum RampDirection {
    North,
    East,
    South,
    West,
}

pub open spec fn next_spec(d: RampDirection) -> RampDirection {
    match d {
        RampDirection::North => RampDirection::East,
        RampDirection::East => RampDirection::South,
        RampDirection::South => RampDirection::West,
        RampDirection::West => RampDirection::North,
    }
}

pub open spec fn offset_spec(d: RampDirection) -> (int, int) {
    match d {
        RampDirection::North => (0, -1),
        RampDirection::East => (1, 0),
        RampDirection::South => (0, 1),
        RampDirection::West => (-1, 0),
    }
}

impl RampDirection {
    /// The next edge clockwise: North, East, South, West, North.
    pub fn next(self) -> (r: RampDirection)
        ensures
            r == next_spec(self),
    {
        match self {
            RampDirection::North => RampDirection::East,
            RampDirection::East => RampDirection::South,
            RampDirection::South => RampDirection::West,
            RampDirection::West => RampDirection::North,
        }
    }

    /// The grid step `(dx, dy)` that crosses this edge.
    pub fn offset(self) -> (r: (i32, i32))
        ensures
            r.0 as int == offset_spec(self).0,
            r.1 as int == offset_spec(self).1,
    {
        match self {
            RampDirection::North => (0, -1),
            RampDirection::East => (1, 0),
            RampDirection::South => (0, 1),
            RampDirection::West => (-1, 0),
        }
    }
}

/// Ground texture of a tile; each maps to one of four splat channels.
#[derive(Clone, Copy, PartialEq, Eq, Debug, Hash, Structural)]
pub enum TileType {
    Grass,
    Dirt,
    Cliff,
    Water,
}

pub open spec fn type_index(t: TileType) -> int {
    match t {
        TileType::Grass => 0,
        TileType::Dirt => 1,
        TileType::Cliff => 2,
        TileType::Water => 3,
    }
}

impl TileType {
    /// The splat channel / texture layer of this type.
    pub fn as_index(&self) -> (r: usize)
        ensures
            r == type_index(*self),
            r < 4,
    {
        match self {
            TileType::Grass => 0,
            TileType::Dirt => 1,
            TileType::Cliff => 2,
            TileType::Water => 3,
        }
    }
}

/// One grid cell.
#[derive(Clone, Copy, PartialEq, Eq, Debug, Structural)]
pub struct Tile {
    pub kind: TileKind,
    pub tile_type: TileType,
    pub x: u32,
    pub y: u32,
    /// Elevation in steps; negative below water level.
    pub elevation: i8,
    /// For a ramp, the edge it descends across; `None` resolves it from the neighbors.
    pub ramp_direction: Option<RampDirection>,
}

pub open spec fn default_tile(x: int, y: int) -> Tile {
    Tile {
        kind: TileKind::Floor,
        tile_type: TileType::Grass,
        x: x as u32,
        y: y as u32,
        elevation: 0,
        ramp_direction: None,
    }
}

/// Tile `t` stored at row-major index `i` of a grid of width `w`.
pub open spec fn placed(t: Tile, i: int, w: int) -> Tile {
    Tile { x: (i % w) as u32, y: (i / w) as u32, ..t }
}

/// A row-major grid of `width * height` tiles.
#[derive(Debug)]
pub struct TileMap {
    pub width: u32,
    pub height: u32,
    pub tiles: Vec<Tile>,
}

impl TileMap {
    /// Row-major index of `(x, y)`.
    pub open spec fn index_of(&self, x: int, y: int) -> int {
        y * self.width + x
    }

    /// The tile stored at `(x, y)`.
    pub open spec fn tile(&self, x: int, y: int) -> Tile {
        self.tiles@[self.index_of(x, y)]
    }

    pub open spec fn in_grid(&self, x: int, y: int) -> bool {
        0 <= x < self.width && 0 <= y < self.height
    }

    /// The grid invariant: one tile per cell, each knowing its own coordinates.
    pub open spec fn wf(&self) -> bool {
        &&& self.tiles@.len() == self.width * self.height
        &&& forall|x: int, y: int|
            #![trigger self.tile(x, y)]
            self.in_grid(x, y) ==> self.tile(x, y).x == x && self.tile(x, y).y == y
    }

    /// A `w` by `h` grid of flat grass tiles at elevation 0.
    pub fn new(w: u32, h: u32) -> (r: Self)
        requires
            w * h <= usize::MAX,
        ensures
            r.wf(),
            r.width == w,
            r.height == h,
            forall|x: int, y: int| #![trigger r.tile(x, y)]
                r.in_grid(x, y) ==> r.tile(x, y) == default_tile(x, y),
    {
        let mut tiles: Vec<Tile> = Vec::new();
        let mut y: u32 = 0;
        while y < h
            invariant
                y <= h,
                w * h <= usize::MAX,
                tiles@.len() == y * w,
                forall|i: int| 0 <= i < tiles@.len() ==> #[trigger] tiles@[i] == default_tile(i % w as int, i / w as int),
            decreases h - y,
        {
            let mut x: u32 = 0;
            while x < w
                invariant
                    x <= w,
                    y < h,
                    w * h <= usize::MAX,
                    tiles@.len() == y * w + x,
                    forall|i: int| 0 <= i < tiles@.len() ==> #[trigger] tiles@[i] == default_tile(i % w as int, i / w as int),
                decreases w - x,
            {
                proof {
                    lemma_row_major(x as int, y as int, w as int);
                    assert(y * w + x < h * w) by (nonlinear_arith)
                        requires x < w, y < h;
                }
                tiles.push(Tile {
                    kind: TileKind::Floor,
                    tile_type: TileType::Grass,
                    x,
                    y,
                    elevation: 0,
                    ramp_direction: None,
                });
                x = x + 1;
            }
            proof {
                assert((y + 1) * w == y * w + w) by (nonlinear_arith);
            }
            y = y + 1;
        }
        assert(h * w == w * h) by (nonlinear_arith);
        let r = TileMap { width: w, height: h, tiles };
        assert forall|x: int, y: int| #![trigger r.tile(x, y)]
            r.in_grid(x, y) implies r.tile(x, y) == default_tile(x, y) && r.tile(x, y).x == x
                && r.tile(x, y).y == y by {
            lemma_row_major(x, y, w as int);
            assert(y * w + x < h * w) by (nonlinear_arith)
                requires x < w, y < h, 0 <= x, 0 <= y;
        }
        r
    }

    /// A `w` by `h` grid of `tiles` in row-major order, each tile taking its
    /// position as its coordinates; `None` unless there are `w * h` tiles.
    pub fn from_tiles(w: u32, h: u32, tiles: Vec<Tile>) -> (r: Option<TileMap>)
        ensures
            r is Some <==> tiles@.len() == w * h,
            r matches Some(m) ==> {
                &&& m.wf()
                &&& m.width == w
                &&& m.height == h
                &&& m.tiles@.len() == tiles@.len()
                &&& forall|i: int| 0 <= i < tiles@.len() ==> #[trigger] m.tiles@[i] == placed(tiles@[i], i, w as int)
            },
    {
        assert((w as int) * (h as int) <= u64::MAX) by (nonlinear_arith)
            requires w <= u32::MAX, h <= u32::MAX, 0 <= w, 0 <= h;
        if tiles.len() as u64 != w as u64 * h as u64 {
            return None;
        }
        let n = tiles.len();
        let ghost input = tiles@;
        let mut tiles = tiles;
        let wu = w as usize;
        let mut i: usize = 0;
        while i < n
            invariant
                n == input.len(),
                n == w * h,
                tiles@.len() == n,
                wu == w,
                i <= n,
                forall|j: int| 0 <= j < i ==> #[trigger] tiles@[j] == placed(input[j], j, w as int),
                forall|j: int| i <= j < n ==> #[trigger] tiles@[j] == input[j],
            decreases n - i,
        {
            proof {
                let (ii, wi, hi) = (i as int, w as int, h as int);
                assert(wi > 0 && hi > 0) by (nonlinear_arith)
                    requires ii < wi * hi, 0 <= ii, 0 <= wi, 0 <= hi;
                vstd::arithmetic::div_mod::lemma_fundamental_div_mod(ii, wi);
                vstd::arithmetic::div_mod::lemma_mod_pos_bound(ii, wi);
                assert(ii / wi < hi) by (nonlinear_arith)
                    requires ii == wi * (ii / wi) + ii % wi, 0 <= ii % wi < wi, ii < wi * hi, wi > 0;
            }
            let t = tiles[i];
            tiles.set(i, Tile { x: (i % wu) as u32, y: (i / wu) as u32, ..t });
            i = i + 1;
        }
        let m = TileMap { width: w, height: h, tiles };
        assert forall|x: int, y: int| #![trigger m.tile(x, y)]
            m.in_grid(x, y) implies m.tile(x, y).x == x && m.tile(x, y).y == y by {
            lemma_row_major(x, y, w as int);
            lemma_index_in_bounds(x, y, w as int, h as int);
        }
        Some(m)
    }

    /// Row-major index of `(x, y)`.
    pub fn idx(&self, x: u32, y: u32) -> (r: usize)
        requires
            self.wf(),
            x < self.width,
            y < self.height,
        ensures
            r == self.index_of(x as int, y as int),
            r < self.tiles@.len(),
    {
        let n = self.tiles.len();
        proof {
            lemma_index_in_bounds(x as int, y as int, self.width as int, self.height as int);
            assert(y * self.width <= y * self.width + x);
        }
        (y as usize) * (self.width as usize) + (x as usize)
    }

    /// The tile at `(x, y)`.
    pub fn get(&self, x: u32, y: u32) -> (r: &Tile)
        requires
            self.wf(),
            x < self.width,
            y < self.height,
        ensures
            *r == self.tile(x as int, y as int),
    {
        &self.tiles[self.idx(x, y)]
    }

    /// Replaces the tile at `(x, y)`; the stored tile takes `(x, y)` as its coordinates.
    pub fn set(&mut self, x: u32, y: u32, t: Tile)
        requires
            old(self).wf(),
            x < old(self).width,
            y < old(self).height,
        ensures
            final(self).wf(),
            final(self).width == old(self).width,
            final(self).height == old(self).height,
            final(self).tiles@ == old(self).tiles@.update(
                old(self).index_of(x as int, y as int),
                Tile { x, y, ..t },
            ),
    {
        let i = self.idx(x, y);
        self.tiles.set(i, Tile { x, y, ..t });
        proof {
            assert forall|a: int, b: int| #![trigger self.tile(a, b)]
                self.in_grid(a, b) implies self.tile(a, b).x == a && self.tile(a, b).y == b by {
                lemma_index_in_bounds(a, b, self.width as int, self.height as int);
                if self.index_of(a, b) == self.index_of(x as int, y as int) {
                    lemma_row_major_injective(a, b, x as int, y as int, self.width as int);
                } else {
                    assert(self.tile(a, b) == old(self).tile(a, b));
                }
            }
        }
    }
}

/// Row `y`, column `x` of a row-major grid of width `w` sits at `y * w + x`.
pub proof fn lemma_row_major(x: int, y: int, w: int)
    requires
        0 <= x < w,
        0 <= y,
    ensures
        (y * w + x) % w == x,
        (y * w + x) / w == y,
{
    vstd::arithmetic::div_mod::lemma_fundamental_div_mod_converse(y * w + x, w, y, x);
}

pub proof fn lemma_index_in_bounds(x: int, y: int, w: int, h: int)
    requires
        0 <= x < w,
        0 <= y < h,
    ensures
        0 <= y * w + x < w * h,
{
    assert(0 <= y * w + x < w * h) by (nonlinear_arith)
        requires 0 <= x < w, 0 <= y < h;
}

pub proof fn lemma_row_major_injective(x: int, y: int, a: int, b: int, w: int)
    requires
        0 <= x < w,
        0 <= y,
        0 <= a < w,
        0 <= b,
        y * w + x == b * w + a,
    ensures
        x == a,
        y == b,
{
    lemma_row_major(x, y, w);
    lemma_row_major(a, b, w);
}

} // verus!
