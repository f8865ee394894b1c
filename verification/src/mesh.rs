//! Procedural UV-sphere tessellation.
//!
//! A sphere of a given radius is sampled on a latitude/longitude grid of
//! `stacks + 1` rings and `sectors + 1` longitude columns (the last column
//! repeats the first so texture coordinates need not wrap). The embedding
//! layer evaluates the trigonometry once — one [`RingSample`] per ring, one
//! [`AngleSample`] per longitude column — and the generator proved here lays
//! those samples out into the vertex grid and emits the triangle index list,
//! eliding the degenerate triangle of each pole-adjacent quad.

use vstd::prelude::*;

verus! {

use crate::GeometryError;
use crate::scalar::Scalar;
use crate::scalar::scalar_is_positive_finite;
use vstd::arithmetic::div_mod::lemma_fundamental_div_mod;
use vstd::arithmetic::div_mod::lemma_fundamental_div_mod_converse_div;
use vstd::arithmetic::div_mod::lemma_fundamental_div_mod_converse_mod;
use vstd::arithmetic::div_mod::lemma_add_mod_noop;

/// Tag for geometry the embedding's render pass should draw.
pub struct ShouldDraw;

/// Sine and cosine of one longitude (sector) angle, evaluated once and
/// reused verbatim by every ring of the grid.
#[derive(Clone, Copy, Debug, PartialEq, Eq, Structural)]
pub struct AngleSample {
    pub sin: Scalar,
    pub cos: Scalar,
}

/// One latitude ring of the sphere: the height `y = radius * sin(polar)`
/// and the ring radius `xz = radius * cos(polar)` of its circle.
#[derive(Clone, Copy, Debug, PartialEq, Eq, Structural)]
pub struct RingSample {
    pub y: Scalar,
    pub xz: Scalar,
}

/// One tessellated vertex, before numeric assembly.
///
/// The final position is `(xz * lon_sin, y, xz * lon_cos)` and the texture
/// coordinate is `(sector / sectors, ring / stacks)`; both are evaluated by
/// the embedding layer. The fields recorded here pin down exactly which
/// samples the vertex was built from.
#[derive(Clone, Copy, Debug, PartialEq, Eq, Structural)]
pub struct VertexSample {
    /// Latitude ring index, `0 ..= stacks`.
    pub ring: usize,
    /// Longitude column index, `0 ..= sectors`.
    pub sector: usize,
    /// Height of the vertex's ring.
    pub y: Scalar,
    /// Radius of the vertex's ring.
    pub xz: Scalar,
    /// Sine of the vertex's longitude angle, shared across rings.
    pub lon_sin: Scalar,
    /// Cosine of the vertex's longitude angle, shared across rings.
    pub lon_cos: Scalar,
}

/// Number of vertices of the tessellation: one per grid point.
pub open spec fn sphere_vertex_count(stacks: nat, sectors: nat) -> nat {
    (stacks + 1) * (sectors + 1)
}

/// Number of index entries of the tessellation: two triangles per interior
/// quad, one per pole-adjacent quad.
pub open spec fn sphere_index_count(stacks: nat, sectors: nat) -> nat {
    6 * (stacks - 1) as nat * sectors
}

/// The vertex that belongs at ring `i`, longitude column `j`.
pub open spec fn vertex_sample_at(
    rings: Seq<RingSample>,
    lon: Seq<AngleSample>,
    i: int,
    j: int,
) -> VertexSample {
    VertexSample {
        ring: i as usize,
        sector: j as usize,
        y: rings[i].y,
        xz: rings[i].xz,
        lon_sin: lon[j].sin,
        lon_cos: lon[j].cos,
    }
}

/// The vertex sequence is the full grid, in ring-major order, each vertex
/// drawing its samples from the supplied tables.
pub open spec fn vertices_form_sphere_grid(
    vs: Seq<VertexSample>,
    rings: Seq<RingSample>,
    lon: Seq<AngleSample>,
    stacks: nat,
    sectors: nat,
) -> bool {
    &&& vs.len() == sphere_vertex_count(stacks, sectors)
    &&& forall|k: int|
        0 <= k < vs.len() ==> #[trigger] vs[k] == vertex_sample_at(
            rings,
            lon,
            k / ((sectors + 1) as int),
            k % ((sectors + 1) as int),
        )
}

/// The index entries emitted for the quad between rings `i` and `i + 1` in
/// longitude column `j`: its lower triangle unless the quad touches the top
/// pole ring, and its upper triangle unless it touches the bottom pole ring.
pub open spec fn quad_indices(stacks: nat, sectors: nat, i: nat, j: nat) -> Seq<u16> {
    let k1 = i * (sectors + 1) + j;
    let k2 = k1 + sectors + 1;
    let lower: Seq<u16> = if i != 0 {
        seq![k1 as u16, k2 as u16, (k1 + 1) as u16]
    } else {
        Seq::empty()
    };
    let upper: Seq<u16> = if i + 1 != stacks {
        seq![(k1 + 1) as u16, k2 as u16, (k2 + 1) as u16]
    } else {
        Seq::empty()
    };
    lower + upper
}

/// Index entries of the first `j` quads of ring pair `i`.
pub open spec fn sphere_row_indices(stacks: nat, sectors: nat, i: nat, j: nat) -> Seq<u16>
    decreases j,
{
    if j == 0 {
        Seq::empty()
    } else {
        sphere_row_indices(stacks, sectors, i, (j - 1) as nat) + quad_indices(
            stacks,
            sectors,
            i,
            (j - 1) as nat,
        )
    }
}

/// Index entries of the first `i` ring pairs, each ring pair complete.
pub open spec fn sphere_index_rows(stacks: nat, sectors: nat, i: nat) -> Seq<u16>
    decreases i,
{
    if i == 0 {
        Seq::empty()
    } else {
        sphere_index_rows(stacks, sectors, (i - 1) as nat) + sphere_row_indices(
            stacks,
            sectors,
            (i - 1) as nat,
            sectors,
        )
    }
}

/// The complete triangle index list of the tessellation.
pub open spec fn sphere_indices(stacks: nat, sectors: nat) -> Seq<u16> {
    sphere_index_rows(stacks, sectors, stacks)
}

/// Every index entry refers to a vertex below `bound`.
pub open spec fn indices_bounded(s: Seq<u16>, bound: int) -> bool {
    forall|k: int| 0 <= k < s.len() ==> (#[trigger] s[k]) < bound
}

/// Ring (latitude) index of the vertex an index entry refers to.
pub open spec fn ring_of_index(x: u16, sectors: nat) -> int {
    (x as int) / ((sectors + 1) as int)
}

/// The index entry refers to a vertex of the given ring.
pub open spec fn on_ring(x: u16, ring: int, sectors: nat) -> bool {
    ring_of_index(x, sectors) == ring
}

/// At most one of the three corners lies on the given ring.
pub open spec fn at_most_one_on_ring(a: u16, b: u16, c: u16, ring: int, sectors: nat) -> bool {
    &&& !(on_ring(a, ring, sectors) && on_ring(b, ring, sectors))
    &&& !(on_ring(a, ring, sectors) && on_ring(c, ring, sectors))
    &&& !(on_ring(b, ring, sectors) && on_ring(c, ring, sectors))
}

/// A triangle that cannot be degenerate at a pole: its corners are three
/// distinct vertices, with at most one on the top pole ring and at most one
/// on the bottom pole ring. All vertices of a pole ring coincide at the
/// pole, so a triangle with two corners there would have a zero-length edge
/// and zero area.
pub open spec fn triangle_ok(a: u16, b: u16, c: u16, stacks: nat, sectors: nat) -> bool {
    &&& a != b && b != c && a != c
    &&& at_most_one_on_ring(a, b, c, 0, sectors)
    &&& at_most_one_on_ring(a, b, c, stacks as int, sectors)
}

/// Every aligned triple of the index list is a pole-safe triangle.
pub open spec fn triangles_ok(s: Seq<u16>, stacks: nat, sectors: nat) -> bool {
    forall|k: int|
        0 <= k && k % 3 == 0 && k + 2 < s.len() ==> triangle_ok(
            #[trigger] s[k],
            s[k + 1],
            s[k + 2],
            stacks,
            sectors,
        )
}

/// Number of index entries each quad of ring pair `i` contributes.
pub open spec fn quad_emitted_len(stacks: nat, i: nat) -> nat {
    (if i != 0 {
        3nat
    } else {
        0nat
    }) + (if i + 1 != stacks {
        3nat
    } else {
        0nat
    })
}

/// Incremental tessellated geometry: a vertex list and a triangle index
/// list over it.
pub struct MeshGenerator {
    pub vertices: Vec<VertexSample>,
    pub indices: Vec<u16>,
}

impl Default for MeshGenerator {
    /// An empty generator: no vertices, no indices.
    fn default() -> (r: Self)
        ensures
            r.vertices@.len() == 0,
            r.indices@.len() == 0,
    {
        MeshGenerator { vertices: Vec::new(), indices: Vec::new() }
    }
}

impl MeshGenerator {
    /// The geometry-data invariant: indices come in whole triangles and
    /// every one of them refers to an existing vertex.
    pub open spec fn wf(self) -> bool {
        &&& self.indices@.len() % 3 == 0
        &&& indices_bounded(self.indices@, self.vertices@.len() as int)
    }

    fn add_vertex(&mut self, vertex: VertexSample)
        ensures
            final(self).vertices@ == old(self).vertices@.push(vertex),
            final(self).indices@ == old(self).indices@,
    {
        self.vertices.push(vertex);
    }

    fn add_triangle(&mut self, a: u16, b: u16, c: u16)
        ensures
            final(self).indices@ == old(self).indices@.push(a).push(b).push(c),
            final(self).vertices@ == old(self).vertices@,
    {
        self.indices.push(a);
        self.indices.push(b);
        self.indices.push(c);
    }

    fn clear(&mut self)
        ensures
            final(self).vertices@.len() == 0,
            final(self).indices@.len() == 0,
    {
        self.vertices.clear();
        self.indices.clear();
    }

    /// Number of whole triangles currently held.
    pub fn triangle_count(&self) -> (r: usize)
        ensures
            r == self.indices@.len() / 3,
    {
        self.indices.len() / 3
    }

    /// Replaces the held geometry with a UV sphere.
    ///
    /// `rings` and `lon` are the trigonometric tables for the requested
    /// subdivision, evaluated once by the embedding layer; every ring of the
    /// grid reuses the same longitude table entries verbatim. The grid must
    /// fit the 16-bit index format. Parameters that would give degenerate
    /// geometry — a radius that is not a positive finite value, fewer than
    /// two stacks, fewer than three sectors — are rejected before any state
    /// is touched.
    pub fn uv_sphere(
        &mut self,
        radius: Scalar,
        stacks: usize,
        sectors: usize,
        rings: &Vec<RingSample>,
        lon: &Vec<AngleSample>,
    ) -> (r: Result<(), GeometryError>)
        requires
            rings@.len() == stacks + 1,
            lon@.len() == sectors + 1,
            (stacks + 1) * (sectors + 1) <= 0x10000,
        ensures
            r is Ok <==> radius.is_positive_finite() && stacks >= 2 && sectors >= 3,
            r is Err ==> final(self).vertices@ == old(self).vertices@ && final(self).indices@
                == old(self).indices@,
            r is Ok ==> vertices_form_sphere_grid(
                final(self).vertices@,
                rings@,
                lon@,
                stacks as nat,
                sectors as nat,
            ),
            r is Ok ==> final(self).indices@ == sphere_indices(stacks as nat, sectors as nat),
            r is Ok ==> final(self).indices@.len() == sphere_index_count(
                stacks as nat,
                sectors as nat,
            ),
            r is Ok ==> final(self).wf(),
    {
        if !scalar_is_positive_finite(radius) || stacks < 2 || sectors < 3 {
            return Err(GeometryError::InvalidParameter);
        }
        proof {
            assert(stacks + 1 <= 0x10000 && sectors + 1 <= 0x10000) by (nonlinear_arith)
                requires
                    (stacks + 1) * (sectors + 1) <= 0x10000,
            ;
        }
        self.clear();

        let mut i: usize = 0;
        while i <= stacks
            invariant
                i <= stacks + 1,
                stacks + 1 <= 0x10000,
                sectors + 1 <= 0x10000,
                rings@.len() == stacks + 1,
                lon@.len() == sectors + 1,
                (stacks + 1) * (sectors + 1) <= 0x10000,
                self.vertices@.len() == i * (sectors + 1),
                self.indices@.len() == 0,
                forall|k: int|
                    0 <= k < self.vertices@.len() ==> #[trigger] self.vertices@[k]
                        == vertex_sample_at(
                        rings@,
                        lon@,
                        k / ((sectors + 1) as int),
                        k % ((sectors + 1) as int),
                    ),
            decreases stacks + 1 - i,
        {
            let mut j: usize = 0;
            while j <= sectors
                invariant
                    i <= stacks,
                    j <= sectors + 1,
                    stacks + 1 <= 0x10000,
                    sectors + 1 <= 0x10000,
                    rings@.len() == stacks + 1,
                    lon@.len() == sectors + 1,
                    (stacks + 1) * (sectors + 1) <= 0x10000,
                    self.vertices@.len() == i * (sectors + 1) + j,
                    self.indices@.len() == 0,
                    forall|k: int|
                        0 <= k < self.vertices@.len() ==> #[trigger] self.vertices@[k]
                            == vertex_sample_at(
                            rings@,
                            lon@,
                            k / ((sectors + 1) as int),
                            k % ((sectors + 1) as int),
                        ),
                decreases sectors + 1 - j,
            {
                proof {
                    lemma_grid_cell_in_range(stacks as nat, sectors as nat, i as nat, j as nat);
                }
                let ring_sample = rings[i];
                let lon_sample = lon[j];
                self.add_vertex(
                    VertexSample {
                        ring: i,
                        sector: j,
                        y: ring_sample.y,
                        xz: ring_sample.xz,
                        lon_sin: lon_sample.sin,
                        lon_cos: lon_sample.cos,
                    },
                );
                proof {
                    lemma_fundamental_div_mod_converse_div(
                        i * ((sectors + 1) as int) + j,
                        (sectors + 1) as int,
                        i as int,
                        j as int,
                    );
                    lemma_fundamental_div_mod_converse_mod(
                        i * ((sectors + 1) as int) + j,
                        (sectors + 1) as int,
                        i as int,
                        j as int,
                    );
                }
                j = j + 1;
            }
            proof {
                assert((i + 1) * (sectors + 1) == i * (sectors + 1) + (sectors + 1))
                    by (nonlinear_arith);
            }
            i = i + 1;
        }

        let mut i: usize = 0;
        while i < stacks
            invariant
                i <= stacks,
                2 <= stacks,
                3 <= sectors,
                stacks + 1 <= 0x10000,
                sectors + 1 <= 0x10000,
                rings@.len() == stacks + 1,
                lon@.len() == sectors + 1,
                (stacks + 1) * (sectors + 1) <= 0x10000,
                vertices_form_sphere_grid(
                    self.vertices@,
                    rings@,
                    lon@,
                    stacks as nat,
                    sectors as nat,
                ),
                self.indices@ == sphere_index_rows(stacks as nat, sectors as nat, i as nat),
            decreases stacks - i,
        {
            let mut j: usize = 0;
            while j < sectors
                invariant
                    i < stacks,
                    j <= sectors,
                    2 <= stacks,
                    3 <= sectors,
                    stacks + 1 <= 0x10000,
                    sectors + 1 <= 0x10000,
                    rings@.len() == stacks + 1,
                    lon@.len() == sectors + 1,
                    (stacks + 1) * (sectors + 1) <= 0x10000,
                    vertices_form_sphere_grid(
                        self.vertices@,
                        rings@,
                        lon@,
                        stacks as nat,
                        sectors as nat,
                    ),
                    self.indices@ == sphere_index_rows(stacks as nat, sectors as nat, i as nat)
                        + sphere_row_indices(stacks as nat, sectors as nat, i as nat, j as nat),
                decreases sectors - j,
            {
                proof {
                    lemma_quad_corner_bounds(stacks as nat, sectors as nat, i as nat, j as nat);
                }
                let ghost before = self.indices@;
                let k1: usize = i * (sectors + 1) + j;
                let k2: usize = k1 + sectors + 1;
                if i != 0 {
                    self.add_triangle(k1 as u16, k2 as u16, (k1 + 1) as u16);
                }
                if i + 1 != stacks {
                    self.add_triangle((k1 + 1) as u16, k2 as u16, (k2 + 1) as u16);
                }
                proof {
                    assert(self.indices@ =~= before + quad_indices(
                        stacks as nat,
                        sectors as nat,
                        i as nat,
                        j as nat,
                    ));
                }
                j = j + 1;
            }
            i = i + 1;
        }
        proof {
            lemma_sphere_index_count(stacks as nat, sectors as nat);
            lemma_index_rows_ok(stacks as nat, sectors as nat, stacks as nat);
        }
        Ok(())
    }
}

/// The flat position of grid cell `(i, j)` lies inside the vertex grid.
proof fn lemma_grid_cell_in_range(stacks: nat, sectors: nat, i: nat, j: nat)
    by (nonlinear_arith)
    requires
        i <= stacks,
        j <= sectors,
    ensures
        i * (sectors + 1) + j < (stacks + 1) * (sectors + 1),
{
}

/// All four corner indices of quad `(i, j)` lie inside the vertex grid.
proof fn lemma_quad_corner_bounds(stacks: nat, sectors: nat, i: nat, j: nat)
    by (nonlinear_arith)
    requires
        i < stacks,
        j < sectors,
    ensures
        i * (sectors + 1) + j + sectors + 2 < (stacks + 1) * (sectors + 1),
{
}

proof fn lemma_row_indices_len(stacks: nat, sectors: nat, i: nat, j: nat)
    ensures
        sphere_row_indices(stacks, sectors, i, j).len() == j * quad_emitted_len(stacks, i),
    decreases j,
{
    let q = quad_emitted_len(stacks, i);
    if j != 0 {
        lemma_row_indices_len(stacks, sectors, i, (j - 1) as nat);
        assert(quad_indices(stacks, sectors, i, (j - 1) as nat).len() == q);
        assert(((j - 1) as nat) * q + q == j * q) by (nonlinear_arith)
            requires
                1 <= j,
        ;
    }
}

proof fn lemma_index_rows_len(stacks: nat, sectors: nat, i: nat)
    requires
        2 <= stacks,
        i <= stacks,
    ensures
        sphere_index_rows(stacks, sectors, i).len() == if i == 0 {
            0int
        } else if i < stacks {
            (6 * i - 3) * (sectors as int)
        } else {
            6 * ((stacks - 1) as int) * (sectors as int)
        },
    decreases i,
{
    if i != 0 {
        let prev = sphere_index_rows(stacks, sectors, (i - 1) as nat).len();
        let q = quad_emitted_len(stacks, (i - 1) as nat);
        lemma_index_rows_len(stacks, sectors, (i - 1) as nat);
        lemma_row_indices_len(stacks, sectors, (i - 1) as nat, sectors);
        if i == 1 {
            assert(q == 3);
            assert(sectors * 3nat == 3 * (sectors as int)) by (nonlinear_arith);
        } else if i < stacks {
            assert(q == 6);
            assert((6 * (i - 1) - 3) * (sectors as int) + sectors * 6nat == (6 * i - 3) * (
            sectors as int)) by (nonlinear_arith)
                requires
                    2 <= i,
            ;
        } else {
            assert(q == 3);
            assert((6 * (i - 1) - 3) * (sectors as int) + sectors * 3nat == 6 * ((stacks
                - 1) as int) * (sectors as int)) by (nonlinear_arith)
                requires
                    2 <= i,
                    i == stacks,
            ;
        }
    }
}

proof fn lemma_indices_bounded_concat(a: Seq<u16>, b: Seq<u16>, bound: int)
    requires
        indices_bounded(a, bound),
        indices_bounded(b, bound),
    ensures
        indices_bounded(a + b, bound),
{
    assert forall|k: int| 0 <= k < (a + b).len() implies (#[trigger] (a + b)[k]) < bound by {
        if k < a.len() {
            assert((a + b)[k] == a[k]);
        } else {
            assert((a + b)[k] == b[k - a.len()]);
        }
    }
}

proof fn lemma_triangles_ok_concat(a: Seq<u16>, b: Seq<u16>, stacks: nat, sectors: nat)
    requires
        a.len() % 3 == 0,
        triangles_ok(a, stacks, sectors),
        triangles_ok(b, stacks, sectors),
    ensures
        triangles_ok(a + b, stacks, sectors),
{
    let s = a + b;
    let la: int = a.len() as int;
    assert forall|k: int| 0 <= k && k % 3 == 0 && k + 2 < s.len() implies triangle_ok(
        #[trigger] s[k],
        s[k + 1],
        s[k + 2],
        stacks,
        sectors,
    ) by {
        lemma_fundamental_div_mod(k, 3);
        lemma_fundamental_div_mod(la, 3);
        if k + 2 < la {
            assert(s[k] == a[k] && s[k + 1] == a[k + 1] && s[k + 2] == a[k + 2]);
            assert(triangle_ok(a[k], a[k + 1], a[k + 2], stacks, sectors));
        } else {
            // Both k and a.len() are multiples of 3, so k cannot fall in the
            // last two positions of a: it lands at the start of a triple of b.
            assert(k == 3 * (k / 3) && la == 3 * (la / 3));
            assert(k >= la);
            let k2: int = k - la;
            lemma_fundamental_div_mod_converse_mod(k2, 3, k / 3 - la / 3, 0);
            assert(s[k] == b[k2] && s[k + 1] == b[k2 + 1] && s[k + 2] == b[k2 + 2]);
            assert(triangle_ok(b[k2], b[k2 + 1], b[k2 + 2], stacks, sectors));
        }
    }
}

proof fn lemma_quad_indices_ok(stacks: nat, sectors: nat, i: nat, j: nat)
    requires
        i < stacks,
        j < sectors,
        (stacks + 1) * (sectors + 1) <= 0x10000,
    ensures
        quad_indices(stacks, sectors, i, j).len() % 3 == 0,
        indices_bounded(
            quad_indices(stacks, sectors, i, j),
            sphere_vertex_count(stacks, sectors) as int,
        ),
        triangles_ok(quad_indices(stacks, sectors, i, j), stacks, sectors),
{
    lemma_quad_corner_bounds(stacks, sectors, i, j);
    let s1: int = (sectors + 1) as int;
    let k1: int = i * s1 + j;
    let k2: int = k1 + s1;
    let bound: int = sphere_vertex_count(stacks, sectors) as int;
    assert(k2 + 1 < bound && bound <= 0x10000);
    assert((k1 as u16) == k1 && (k2 as u16) == k2 && ((k1 + 1) as u16) == k1 + 1 && ((k2
        + 1) as u16) == k2 + 1);
    // Ring membership of the four corners.
    lemma_fundamental_div_mod_converse_div(k1, s1, i as int, j as int);
    lemma_fundamental_div_mod_converse_div(k1 + 1, s1, i as int, j as int + 1);
    assert(k2 == (i + 1) * s1 + j && k2 + 1 == (i + 1) * s1 + (j + 1)) by (nonlinear_arith)
        requires
            k1 == i * s1 + j,
            k2 == k1 + s1,
        ;
    lemma_fundamental_div_mod_converse_div(k2, s1, i as int + 1, j as int);
    lemma_fundamental_div_mod_converse_div(k2 + 1, s1, i as int + 1, j as int + 1);
    // The emitted sequence, spelled out for each emission case.
    let s = quad_indices(stacks, sectors, i, j);
    if i != 0 && i + 1 != stacks {
        assert(s =~= seq![
            k1 as u16,
            k2 as u16,
            (k1 + 1) as u16,
            (k1 + 1) as u16,
            k2 as u16,
            (k2 + 1) as u16,
        ]);
    } else if i != 0 {
        assert(s =~= seq![k1 as u16, k2 as u16, (k1 + 1) as u16]);
    } else if i + 1 != stacks {
        assert(s =~= seq![(k1 + 1) as u16, k2 as u16, (k2 + 1) as u16]);
    }
    assert forall|k: int| 0 <= k && k % 3 == 0 && k + 2 < s.len() implies triangle_ok(
        #[trigger] s[k],
        s[k + 1],
        s[k + 2],
        stacks,
        sectors,
    ) by {
        lemma_fundamental_div_mod(k, 3);
        assert(k == 0 || k == 3);
    }
    assert(indices_bounded(s, bound));
}

proof fn lemma_row_indices_ok(stacks: nat, sectors: nat, i: nat, j: nat)
    requires
        i < stacks,
        j <= sectors,
        (stacks + 1) * (sectors + 1) <= 0x10000,
    ensures
        sphere_row_indices(stacks, sectors, i, j).len() % 3 == 0,
        indices_bounded(
            sphere_row_indices(stacks, sectors, i, j),
            sphere_vertex_count(stacks, sectors) as int,
        ),
        triangles_ok(sphere_row_indices(stacks, sectors, i, j), stacks, sectors),
    decreases j,
{
    if j != 0 {
        let prev = sphere_row_indices(stacks, sectors, i, (j - 1) as nat);
        let quad = quad_indices(stacks, sectors, i, (j - 1) as nat);
        lemma_row_indices_ok(stacks, sectors, i, (j - 1) as nat);
        lemma_quad_indices_ok(stacks, sectors, i, (j - 1) as nat);
        lemma_add_mod_noop(prev.len() as int, quad.len() as int, 3);
        lemma_indices_bounded_concat(prev, quad, sphere_vertex_count(stacks, sectors) as int);
        lemma_triangles_ok_concat(prev, quad, stacks, sectors);
    }
}

proof fn lemma_index_rows_ok(stacks: nat, sectors: nat, i: nat)
    requires
        i <= stacks,
        (stacks + 1) * (sectors + 1) <= 0x10000,
    ensures
        sphere_index_rows(stacks, sectors, i).len() % 3 == 0,
        indices_bounded(
            sphere_index_rows(stacks, sectors, i),
            sphere_vertex_count(stacks, sectors) as int,
        ),
        triangles_ok(sphere_index_rows(stacks, sectors, i), stacks, sectors),
    decreases i,
{
    if i != 0 {
        let prev = sphere_index_rows(stacks, sectors, (i - 1) as nat);
        let row = sphere_row_indices(stacks, sectors, (i - 1) as nat, sectors);
        lemma_index_rows_ok(stacks, sectors, (i - 1) as nat);
        lemma_row_indices_ok(stacks, sectors, (i - 1) as nat, sectors);
        lemma_add_mod_noop(prev.len() as int, row.len() as int, 3);
        lemma_indices_bounded_concat(prev, row, sphere_vertex_count(stacks, sectors) as int);
        lemma_triangles_ok_concat(prev, row, stacks, sectors);
    }
}

/// Law: a tessellation with at least two stacks emits exactly
/// `6 * (stacks - 1) * sectors` index entries — two triangles per interior
/// quad and a single one per pole-adjacent quad.
pub proof fn lemma_sphere_index_count(stacks: nat, sectors: nat)
    requires
        2 <= stacks,
    ensures
        sphere_indices(stacks, sectors).len() == sphere_index_count(stacks, sectors),
{
    lemma_index_rows_len(stacks, sectors, stacks);
    assert(6 * ((stacks - 1) as int) * (sectors as int) == sphere_index_count(stacks, sectors))
        by (nonlinear_arith)
        requires
            2 <= stacks,
    ;
}

/// Law: every index entry of the tessellation refers to an existing vertex
/// of its grid.
pub proof fn lemma_sphere_indices_bounded(stacks: nat, sectors: nat)
    requires
        sphere_vertex_count(stacks, sectors) <= 0x10000,
    ensures
        indices_bounded(
            sphere_indices(stacks, sectors),
            sphere_vertex_count(stacks, sectors) as int,
        ),
{
    lemma_index_rows_ok(stacks, sectors, stacks);
}

/// Law: no triangle of the tessellation is degenerate at a pole — every
/// aligned index triple names three distinct vertices, at most one of them
/// on each pole ring.
pub proof fn lemma_sphere_triangles_ok(stacks: nat, sectors: nat)
    requires
        sphere_vertex_count(stacks, sectors) <= 0x10000,
    ensures
        triangles_ok(sphere_indices(stacks, sectors), stacks, sectors),
{
    lemma_index_rows_ok(stacks, sectors, stacks);
}

/// Law: in a well-formed vertex grid, the vertex at ring `i` and longitude
/// column `j` sits at flat position `i * (sectors + 1) + j` and is built
/// from ring sample `i` and longitude sample `j`.
pub proof fn lemma_vertex_grid_index(
    vs: Seq<VertexSample>,
    rings: Seq<RingSample>,
    lon: Seq<AngleSample>,
    stacks: nat,
    sectors: nat,
    i: int,
    j: int,
)
    requires
        vertices_form_sphere_grid(vs, rings, lon, stacks, sectors),
        0 <= i <= stacks,
        0 <= j <= sectors,
    ensures
        vs[i * ((sectors + 1) as int) + j] == vertex_sample_at(rings, lon, i, j),
{
    lemma_grid_cell_in_range(stacks, sectors, i as nat, j as nat);
    let s1: int = (sectors + 1) as int;
    lemma_fundamental_div_mod_converse_div(i * s1 + j, s1, i, j);
    lemma_fundamental_div_mod_converse_mod(i * s1 + j, s1, i, j);
}

/// Law (longitude memoization): at any longitude column, every ring of a
/// well-formed vertex grid carries longitude samples bit-identical to those
/// of ring 0 — the table entry is reused verbatim, never recomputed.
pub proof fn lemma_longitude_samples_shared(
    vs: Seq<VertexSample>,
    rings: Seq<RingSample>,
    lon: Seq<AngleSample>,
    stacks: nat,
    sectors: nat,
    i: int,
    j: int,
)
    requires
        vertices_form_sphere_grid(vs, rings, lon, stacks, sectors),
        0 <= i <= stacks,
        0 <= j <= sectors,
    ensures
        vs[i * ((sectors + 1) as int) + j].lon_sin == vs[j].lon_sin,
        vs[i * ((sectors + 1) as int) + j].lon_cos == vs[j].lon_cos,
{
    lemma_vertex_grid_index(vs, rings, lon, stacks, sectors, i, j);
    lemma_vertex_grid_index(vs, rings, lon, stacks, sectors, 0, j);
}

} // verus!
