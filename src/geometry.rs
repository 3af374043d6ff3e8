use vstd::prelude::*;

verus! {

/// A point or direction in units.
#[derive(Clone, Copy, PartialEq, Eq, Debug, Structural)]
pub struct IVec3 {
    pub x: i64,
    pub y: i64,
    pub z: i64,
}

/// A pair of values in units: a texture coordinate, or a layer attribute.
#[derive(Clone, Copy, PartialEq, Eq, Debug, Structural)]
pub struct IVec2 {
    pub x: i64,
    pub y: i64,
}

/// A quad `a, b, c, d`, drawn as the triangles `(a, b, c)` and `(a, c, d)`.
#[derive(Clone, Copy, PartialEq, Eq, Debug, Structural)]
pub struct Quad {
    pub a: IVec3,
    pub b: IVec3,
    pub c: IVec3,
    pub d: IVec3,
    pub uv_a: IVec2,
    pub uv_b: IVec2,
    pub uv_c: IVec2,
    pub uv_d: IVec2,
    /// Per-vertex layer attribute: texture layer index and seam height.
    pub layer: IVec2,
}

/// `(b - a) x (c - a)`: the unnormalized face normal of triangle `a, b, c`.
pub open spec fn face_normal(a: IVec3, b: IVec3, c: IVec3) -> IVec3 {
    let ux = b.x - a.x;
    let uy = b.y - a.y;
    let uz = b.z - a.z;
    let vx = c.x - a.x;
    let vy = c.y - a.y;
    let vz = c.z - a.z;
    IVec3 { x: (uy * vz - uz * vy) as i64, y: (uz * vx - ux * vz) as i64, z: (ux * vy - uy * vx) as i64 }
}

pub open spec fn bounded(p: IVec3) -> bool {
    &&& -0x100_0000_0000 <= p.x <= 0x100_0000_0000
    &&& -0x100_0000_0000 <= p.y <= 0x100_0000_0000
    &&& -0x100_0000_0000 <= p.z <= 0x100_0000_0000
}

pub open spec fn near(p: IVec3, a: IVec3) -> bool {
    &&& -2048 <= p.x - a.x <= 2048
    &&& -2048 <= p.y - a.y <= 2048
    &&& -2048 <= p.z - a.z <= 2048
}

/// A quad small enough that its face normals are computed without overflow.
pub open spec fn compact(q: Quad) -> bool {
    &&& bounded(q.a)
    &&& near(q.b, q.a)
    &&& near(q.c, q.a)
    &&& near(q.d, q.a)
}

/// The six vertices of a quad's two triangles, in order.
pub open spec fn quad_positions(q: Quad) -> Seq<IVec3> {
    seq![q.a, q.b, q.c, q.a, q.c, q.d]
}

pub open spec fn quad_normals(q: Quad) -> Seq<IVec3> {
    let n1 = face_normal(q.a, q.b, q.c);
    let n2 = face_normal(q.a, q.c, q.d);
    seq![n1, n1, n1, n2, n2, n2]
}

pub open spec fn quad_uvs(q: Quad) -> Seq<IVec2> {
    seq![q.uv_a, q.uv_b, q.uv_c, q.uv_a, q.uv_c, q.uv_d]
}

pub open spec fn quad_layers(q: Quad) -> Seq<IVec2> {
    seq![q.layer, q.layer, q.layer, q.layer, q.layer, q.layer]
}

pub open spec fn positions_of(qs: Seq<Quad>) -> Seq<IVec3>
    decreases qs.len(),
{
    if qs.len() == 0 {
        Seq::empty()
    } else {
        positions_of(qs.drop_last()) + quad_positions(qs.last())
    }
}

pub open spec fn normals_of(qs: Seq<Quad>) -> Seq<IVec3>
    decreases qs.len(),
{
    if qs.len() == 0 {
        Seq::empty()
    } else {
        normals_of(qs.drop_last()) + quad_normals(qs.last())
    }
}

pub open spec fn uvs_of(qs: Seq<Quad>) -> Seq<IVec2>
    decreases qs.len(),
{
    if qs.len() == 0 {
        Seq::empty()
    } else {
        uvs_of(qs.drop_last()) + quad_uvs(qs.last())
    }
}

pub open spec fn layers_of(qs: Seq<Quad>) -> Seq<IVec2>
    decreases qs.len(),
{
    if qs.len() == 0 {
        Seq::empty()
    } else {
        layers_of(qs.drop_last()) + quad_layers(qs.last())
    }
}

pub proof fn lemma_positions_len(qs: Seq<Quad>)
    ensures
        positions_of(qs).len() == 6 * qs.len(),
    decreases qs.len(),
{
    if qs.len() > 0 {
        lemma_positions_len(qs.drop_last());
    }
}

/// Triangle-list buffers: one entry per vertex in each attribute, and the
/// indices `0, 1, 2, ...`. Lengths are in units; a texture repeats every
/// `uv_period` units of `uvs`.
#[derive(Debug)]
pub struct TerrainMesh {
    pub positions: Vec<IVec3>,
    /// Flat shading: each vertex has its triangle's face normal `(b - a) x (c - a)`,
    /// unnormalized.
    pub normals: Vec<IVec3>,
    /// Planar projections, shifted per tile so that they restart every texture
    /// repeat; divide by `uv_period` for texture space.
    pub uvs: Vec<IVec2>,
    /// Per-vertex `(layer index, seam height)`; empty for a mesh without layers.
    pub layers: Vec<IVec2>,
    pub indices: Vec<u32>,
    pub uv_period: i64,
}

impl TerrainMesh {
    /// The buffers hold exactly the quads `qs`, in order; with `layered`,
    /// each vertex also carries its quad's layer attribute.
    pub open spec fn holds(&self, qs: Seq<Quad>, layered: bool) -> bool {
        &&& self.positions@ == positions_of(qs)
        &&& self.normals@ == normals_of(qs)
        &&& self.uvs@ == uvs_of(qs)
        &&& self.layers@ == (if layered { layers_of(qs) } else { Seq::empty() })
        &&& self.indices@.len() == 6 * qs.len()
        &&& forall|i: int| 0 <= i < self.indices@.len() ==> #[trigger] self.indices@[i] == i
    }

    /// Buffers that hold no quad.
    pub fn with_period(uv_period: i64) -> (r: TerrainMesh)
        ensures
            r.holds(Seq::empty(), true),
            r.holds(Seq::empty(), false),
            r.uv_period == uv_period,
    {
        TerrainMesh {
            positions: Vec::new(),
            normals: Vec::new(),
            uvs: Vec::new(),
            layers: Vec::new(),
            indices: Vec::new(),
            uv_period,
        }
    }

    /// Appends one triangle with its face normal.
    fn push_triangle(&mut self, a: IVec3, b: IVec3, c: IVec3, ta: IVec2, tb: IVec2, tc: IVec2)
        requires
            bounded(a),
            near(b, a),
            near(c, a),
            old(self).indices@.len() == old(self).positions@.len(),
            old(self).positions@.len() + 3 <= 0x1_0000_0000,
            forall|i: int| 0 <= i < old(self).indices@.len() ==> #[trigger] old(self).indices@[i] == i,
        ensures
            final(self).positions@ == old(self).positions@ + seq![a, b, c],
            final(self).normals@ == old(self).normals@ + seq![face_normal(a, b, c), face_normal(a, b, c), face_normal(a, b, c)],
            final(self).uvs@ == old(self).uvs@ + seq![ta, tb, tc],
            final(self).layers@ == old(self).layers@,
            final(self).indices@.len() == final(self).positions@.len(),
            forall|i: int| 0 <= i < final(self).indices@.len() ==> #[trigger] final(self).indices@[i] == i,
            final(self).uv_period == old(self).uv_period,
    {
        let ux = b.x - a.x;
        let uy = b.y - a.y;
        let uz = b.z - a.z;
        let vx = c.x - a.x;
        let vy = c.y - a.y;
        let vz = c.z - a.z;
        assert(-0x100_0000 <= uy * vz <= 0x100_0000) by (nonlinear_arith)
            requires -2048 <= uy <= 2048, -2048 <= vz <= 2048;
        assert(-0x100_0000 <= uz * vy <= 0x100_0000) by (nonlinear_arith)
            requires -2048 <= uz <= 2048, -2048 <= vy <= 2048;
        assert(-0x100_0000 <= uz * vx <= 0x100_0000) by (nonlinear_arith)
            requires -2048 <= uz <= 2048, -2048 <= vx <= 2048;
        assert(-0x100_0000 <= ux * vz <= 0x100_0000) by (nonlinear_arith)
            requires -2048 <= ux <= 2048, -2048 <= vz <= 2048;
        assert(-0x100_0000 <= ux * vy <= 0x100_0000) by (nonlinear_arith)
            requires -2048 <= ux <= 2048, -2048 <= vy <= 2048;
        assert(-0x100_0000 <= uy * vx <= 0x100_0000) by (nonlinear_arith)
            requires -2048 <= uy <= 2048, -2048 <= vx <= 2048;
        let normal = IVec3 { x: uy * vz - uz * vy, y: uz * vx - ux * vz, z: ux * vy - uy * vx };
        self.positions.push(a);
        self.positions.push(b);
        self.positions.push(c);
        self.normals.push(normal);
        self.normals.push(normal);
        self.normals.push(normal);
        self.uvs.push(ta);
        self.uvs.push(tb);
        self.uvs.push(tc);
        let next = self.indices.len() as u32;
        self.indices.push(next);
        self.indices.push(next + 1);
        self.indices.push(next + 2);
        assert(self.positions@ =~= old(self).positions@ + seq![a, b, c]);
        assert(self.normals@ =~= old(self).normals@ + seq![normal, normal, normal]);
        assert(self.uvs@ =~= old(self).uvs@ + seq![ta, tb, tc]);
    }

    /// Appends quad `q` as two triangles, with its layer attribute where `layered`.
    pub(crate) fn push_quad(&mut self, q: Quad, layered: bool, Ghost(qs): Ghost<Seq<Quad>>)
        requires
            compact(q),
            old(self).holds(qs, layered),
            6 * qs.len() + 6 <= 0x1_0000_0000,
        ensures
            final(self).holds(qs.push(q), layered),
            final(self).uv_period == old(self).uv_period,
    {
        proof {
            lemma_positions_len(qs);
        }
        self.push_triangle(q.a, q.b, q.c, q.uv_a, q.uv_b, q.uv_c);
        self.push_triangle(q.a, q.c, q.d, q.uv_a, q.uv_c, q.uv_d);
        if layered {
            self.layers.push(q.layer);
            self.layers.push(q.layer);
            self.layers.push(q.layer);
            self.layers.push(q.layer);
            self.layers.push(q.layer);
            self.layers.push(q.layer);
        }
        proof {
            let qs2 = qs.push(q);
            assert(qs2.drop_last() =~= qs);
            assert(self.positions@ =~= positions_of(qs2));
            assert(self.normals@ =~= normals_of(qs2));
            assert(self.uvs@ =~= uvs_of(qs2));
            if layered {
                assert(self.layers@ =~= layers_of(qs2));
            }
        }
    }
}

} // verus!
