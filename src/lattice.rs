use vstd::prelude::*;

verus! {

/// Largest resolution whose index count `6 r²` still fits in a `u32`.
pub const MAX_RESOLUTION: u32 = 26754;

/// The surface a lattice is mapped onto.
#[derive(Clone, Copy, Debug, PartialEq, Eq, Structural)]
pub enum SurfaceKind {
    /// A flat square grid.
    Planar,
    /// A unit sphere: rings are polar angles, columns azimuthal angles.
    UvSphere,
    /// A flat grid with odd rings shifted by half a cell (running bond).
    Triangulated,
}

/// Which axis a planar grid faces.
#[derive(Clone, Copy, Debug, PartialEq, Eq, Structural)]
pub enum UpAxis {
    Y,
    Z,
}

/// How a lattice cell is cut into two triangles.
#[derive(Clone, Copy, Debug, PartialEq, Eq, Structural)]
pub enum Diagonal {
    /// The cut joins the lower-left and the upper-right corner.
    Rising,
    /// The cut joins the lower-right and the upper-left corner.
    Falling,
}

/// A mesh vertex, as the lattice point it stands for.
///
/// Its attributes (position, normal, tangent, texture coordinate) are a
/// function of the surface kind, the resolution and this point.
#[derive(Clone, Copy, Debug, PartialEq, Eq, Structural)]
pub struct Vertex {
    pub ring: u32,
    pub column: u32,
}

impl Default for Vertex {
    fn default() -> (v: Vertex)
        ensures
            v.ring == 0,
            v.column == 0,
    {
        Vertex { ring: 0, column: 0 }
    }
}

pub open spec fn valid_resolution(r: int) -> bool {
    1 <= r <= MAX_RESOLUTION
}

pub open spec fn vertex_count(r: int) -> int {
    (r + 1) * (r + 1)
}

pub open spec fn index_count(r: int) -> int {
    6 * r * r
}

/// Flat position of the vertex at `(ring, column)`.
pub open spec fn vertex_slot(r: int, ring: int, column: int) -> int {
    (r + 1) * ring + column
}

/// Flat position of the first index written for the cells below `ring`.
pub open spec fn row_index_start(r: int, ring: int) -> int {
    6 * (r * (ring - 1))
}

/// The diagonal used by the cells between `ring - 1` and `ring`.
pub open spec fn diagonal_of(kind: SurfaceKind, ring: int) -> Diagonal {
    if kind == SurfaceKind::Triangulated && ring % 2 == 0 {
        Diagonal::Rising
    } else {
        Diagonal::Falling
    }
}

/// The two triangles of the cell whose lower-left corner is at slot `ll`,
/// counter-clockwise, as six vertex slots.
pub open spec fn quad_triangles(r: int, ll: int, d: Diagonal) -> Seq<int> {
    let lr = ll + 1;
    let ul = ll + r + 1;
    let ur = ll + r + 2;
    match d {
        Diagonal::Rising => seq![ll, ur, ul, ll, lr, ur],
        Diagonal::Falling => seq![ll, lr, ul, lr, ur, ul],
    }
}

/// The upper ring of the cell that index slot `k` belongs to.
pub open spec fn ring_of_index(r: int, k: int) -> int {
    (k / 6) / r + 1
}

/// The right column of the cell that index slot `k` belongs to.
pub open spec fn column_of_index(r: int, k: int) -> int {
    (k / 6) % r + 1
}

/// The vertex slot held at index slot `k` of a mesh of resolution `r`.
pub open spec fn index_at(r: int, kind: SurfaceKind, k: int) -> int {
    let ring = ring_of_index(r, k);
    let column = column_of_index(r, k);
    quad_triangles(r, vertex_slot(r, ring - 1, column - 1), diagonal_of(kind, ring))[k % 6]
}

/// The lattice point held at vertex slot `k` of a mesh of resolution `r`.
pub open spec fn vertex_at(r: int, k: int) -> Vertex {
    Vertex { ring: (k / (r + 1)) as u32, column: (k % (r + 1)) as u32 }
}

/// The whole vertex buffer of a mesh of resolution `r`.
pub open spec fn grid_vertices(r: int) -> Seq<Vertex> {
    Seq::new(vertex_count(r) as nat, |k: int| vertex_at(r, k))
}

/// The whole index buffer of a mesh of resolution `r` and the given kind.
pub open spec fn grid_indices(r: int, kind: SurfaceKind) -> Seq<u32> {
    Seq::new(index_count(r) as nat, |k: int| index_at(r, kind, k) as u32)
}

/// Both buffers of a mesh of a valid resolution can be indexed by `u32`.
pub proof fn lemma_counts_fit(r: int)
    requires
        valid_resolution(r),
    ensures
        0 < vertex_count(r) <= u32::MAX,
        0 < index_count(r) <= u32::MAX,
        r * r <= index_count(r),
{
    assert(0 < (r + 1) * (r + 1) <= 26755 * 26755 && 0 < 6 * r * r <= 6 * 26754 * 26754 && r * r
        <= 6 * r * r) by (nonlinear_arith)
        requires
            1 <= r <= 26754,
    ;
}

/// Vertex slot `(r + 1) * ring + column` lies on `ring` at `column`.
pub proof fn lemma_vertex_slot(r: int, ring: int, column: int)
    requires
        r >= 1,
        0 <= ring,
        0 <= column <= r,
    ensures
        vertex_slot(r, ring, column) / (r + 1) == ring,
        vertex_slot(r, ring, column) % (r + 1) == column,
{
    assert((r + 1) * ring == ring * (r + 1)) by (nonlinear_arith);
    vstd::arithmetic::div_mod::lemma_fundamental_div_mod_converse(
        vertex_slot(r, ring, column),
        r + 1,
        ring,
        column,
    );
}

/// Index slot `j` of the cell at `(ring, column)` holds corner `j` of that cell.
pub proof fn lemma_index_slot(r: int, kind: SurfaceKind, ring: int, column: int, j: int)
    requires
        r >= 1,
        1 <= ring <= r,
        1 <= column <= r,
        0 <= j < 6,
    ensures
        ({
            let k = row_index_start(r, ring) + 6 * (column - 1) + j;
            &&& 0 <= k < index_count(r)
            &&& ring_of_index(r, k) == ring
            &&& column_of_index(r, k) == column
            &&& k % 6 == j
            &&& index_at(r, kind, k) == quad_triangles(
                r,
                vertex_slot(r, ring - 1, column - 1),
                diagonal_of(kind, ring),
            )[j]
        }),
{
    let q = r * (ring - 1) + (column - 1);
    let k = row_index_start(r, ring) + 6 * (column - 1) + j;
    assert(k == q * 6 + j);
    vstd::arithmetic::div_mod::lemma_fundamental_div_mod_converse(k, 6, q, j);
    assert(q == (ring - 1) * r + (column - 1)) by (nonlinear_arith)
        requires
            q == r * (ring - 1) + (column - 1),
    ;
    vstd::arithmetic::div_mod::lemma_fundamental_div_mod_converse(q, r, ring - 1, column - 1);
    assert(q < r * r) by (nonlinear_arith)
        requires
            q == (ring - 1) * r + (column - 1),
            ring <= r,
            column <= r,
            1 <= ring,
            1 <= column,
    ;
    assert(6 * r * r == 6 * (r * r)) by (nonlinear_arith);
}

} // verus!
