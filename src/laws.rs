use vstd::prelude::*;
use crate::grid::MeshData;
use crate::lattice::{
    SurfaceKind, Vertex, column_of_index, diagonal_of, grid_indices, grid_vertices, index_at,
    index_count, lemma_index_slot, lemma_vertex_slot, ring_of_index, row_index_start,
    valid_resolution, vertex_count, vertex_slot,
};

verus! {

/// Index slot `k` belongs to a cell whose upper ring and right column both
/// lie in `1..=r`; its corner slot is `k % 6`.
proof fn lemma_index_cell(r: int, k: int)
    requires
        valid_resolution(r),
        0 <= k < index_count(r),
    ensures
        1 <= ring_of_index(r, k) <= r,
        1 <= column_of_index(r, k) <= r,
        0 <= k % 6 < 6,
{
    let q = k / 6;
    assert(6 * r * r == 6 * (r * r)) by (nonlinear_arith);
    assert(q < r * r);
    vstd::arithmetic::div_mod::lemma_multiply_divide_lt(q, r, r);
    vstd::arithmetic::div_mod::lemma_div_pos_is_pos(q, r);
    vstd::arithmetic::div_mod::lemma_mod_bound(q, r);
}

/// Every index of a mesh of resolution `r` names one of its `(r + 1)²`
/// vertices.
pub proof fn lemma_indices_in_bounds(r: int, kind: SurfaceKind)
    requires
        valid_resolution(r),
    ensures
        forall|k: int|
            0 <= k < index_count(r) ==> 0 <= #[trigger] index_at(r, kind, k) < vertex_count(r),
{
    assert forall|k: int| 0 <= k < index_count(r) implies 0 <= #[trigger] index_at(r, kind, k)
        < vertex_count(r) by {
        lemma_index_cell(r, k);
        let ring = ring_of_index(r, k);
        let column = column_of_index(r, k);
        let ll = vertex_slot(r, ring - 1, column - 1);
        assert(0 <= ll && ll + r + 2 < vertex_count(r)) by (nonlinear_arith)
            requires
                ll == (r + 1) * (ring - 1) + column - 1,
                1 <= ring <= r,
                1 <= column <= r,
        ;
    }
}

/// The ring of the vertex at slot `v` of a mesh of resolution `r`.
pub open spec fn ring_of_vertex(r: int, v: int) -> int {
    v / (r + 1)
}

/// The corners of triangle `t` (index slots `3t`, `3t + 1`, `3t + 2`) lie on
/// two adjacent rings, `ring_of_index(r, 3t) - 1` and `ring_of_index(r, 3t)`,
/// and each of the two rings holds at least one of them. Every triangle
/// therefore spans exactly one ring step, `1 / r` of the grid's height.
pub proof fn lemma_triangle_spans_adjacent_rings(r: int, kind: SurfaceKind, t: int)
    requires
        valid_resolution(r),
        0 <= t < 2 * r * r,
    ensures
        ({
            let hi = ring_of_index(r, 3 * t);
            let a = ring_of_vertex(r, index_at(r, kind, 3 * t));
            let b = ring_of_vertex(r, index_at(r, kind, 3 * t + 1));
            let c = ring_of_vertex(r, index_at(r, kind, 3 * t + 2));
            &&& 1 <= hi <= r
            &&& (a == hi - 1 || a == hi) && (b == hi - 1 || b == hi) && (c == hi - 1 || c == hi)
            &&& (a == hi - 1 || b == hi - 1 || c == hi - 1)
            &&& (a == hi || b == hi || c == hi)
        }),
{
    let q = t / 2;
    let s = t % 2;
    assert(3 * t == 6 * q + 3 * s);
    vstd::arithmetic::div_mod::lemma_fundamental_div_mod_converse(3 * t, 6, q, 3 * s);
    vstd::arithmetic::div_mod::lemma_fundamental_div_mod_converse(3 * t + 1, 6, q, 3 * s + 1);
    vstd::arithmetic::div_mod::lemma_fundamental_div_mod_converse(3 * t + 2, 6, q, 3 * s + 2);
    assert(6 * r * r == 3 * (2 * r * r)) by (nonlinear_arith);
    lemma_index_cell(r, 3 * t);
    let hi = ring_of_index(r, 3 * t);
    let col = column_of_index(r, 3 * t);
    lemma_vertex_slot(r, hi - 1, col - 1);
    lemma_vertex_slot(r, hi - 1, col);
    lemma_vertex_slot(r, hi, col - 1);
    lemma_vertex_slot(r, hi, col);
    assert(vertex_slot(r, hi, col - 1) == vertex_slot(r, hi - 1, col - 1) + r + 1) by (
    nonlinear_arith);
}

/// On a sphere, ring 0 is the pole: its vertices are the first `r + 1` slots
/// and hold columns `0, 1, ..., r` in order, so their texture coordinate `u`
/// (`column / r`) steps evenly from 0 to 1 while their polar angle is 0.
pub proof fn lemma_pole_ring(r: int)
    requires
        valid_resolution(r),
    ensures
        forall|x: int|
            0 <= x <= r ==> #[trigger] grid_vertices(r)[x] == (Vertex { ring: 0, column: x as u32 }),
{
    assert forall|x: int| 0 <= x <= r implies #[trigger] grid_vertices(r)[x] == (Vertex {
        ring: 0,
        column: x as u32,
    }) by {
        lemma_vertex_slot(r, 0, x);
        assert(x < vertex_count(r)) by (nonlinear_arith)
            requires
                0 <= x <= r,
        ;
    }
}

/// A triangulated grid never cuts the cells of two adjacent rings along the
/// same diagonal: in column `column`, the second corner of the first triangle
/// of a cell is its upper-right corner in exactly one of the two rings.
pub proof fn lemma_diagonal_alternates(r: int, ring: int, column: int)
    requires
        valid_resolution(r),
        r >= 2,
        1 <= ring < r,
        1 <= column <= r,
    ensures
        diagonal_of(SurfaceKind::Triangulated, ring) != diagonal_of(
            SurfaceKind::Triangulated,
            ring + 1,
        ),
        ({
            let k_low = row_index_start(r, ring) + 6 * (column - 1) + 1;
            let k_high = row_index_start(r, ring + 1) + 6 * (column - 1) + 1;
            let upper_right_low = vertex_slot(r, ring, column);
            let upper_right_high = vertex_slot(r, ring + 1, column);
            (index_at(r, SurfaceKind::Triangulated, k_low) == upper_right_low) != (index_at(
                r,
                SurfaceKind::Triangulated,
                k_high,
            ) == upper_right_high)
        }),
{
    lemma_index_slot(r, SurfaceKind::Triangulated, ring, column, 1);
    lemma_index_slot(r, SurfaceKind::Triangulated, ring + 1, column, 1);
    assert(vertex_slot(r, ring, column) == vertex_slot(r, ring - 1, column - 1) + r + 2) by (
    nonlinear_arith);
    assert(vertex_slot(r, ring + 1, column) == vertex_slot(r, ring, column - 1) + r + 2) by (
    nonlinear_arith);
}

/// Two meshes generated with the same resolution and kind are identical.
pub proof fn lemma_generation_is_deterministic(r: int, kind: SurfaceKind, a: MeshData, b: MeshData)
    requires
        valid_resolution(r),
        a.vertices@ == grid_vertices(r),
        a.indices@ == grid_indices(r, kind),
        b.vertices@ == grid_vertices(r),
        b.indices@ == grid_indices(r, kind),
    ensures
        a.vertices@ == b.vertices@,
        a.indices@ == b.indices@,
{
}

} // verus!
