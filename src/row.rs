use vstd::prelude::*;
use crate::lattice::{
    Diagonal, SurfaceKind, Vertex, diagonal_of, index_at, index_count, lemma_index_slot,
    lemma_counts_fit, lemma_vertex_slot, quad_triangles, row_index_start, valid_resolution, vertex_at, vertex_count,
    vertex_slot,
};

verus! {

/// The diagonal that cuts the cells between `ring - 1` and `ring`.
///
/// Triangulated grids alternate it with the parity of the ring; the other
/// kinds always cut the same way.
pub fn diagonal(kind: SurfaceKind, ring: u32) -> (d: Diagonal)
    ensures
        d == diagonal_of(kind, ring as int),
{
    match kind {
        SurfaceKind::Triangulated => {
            if ring % 2 == 0 {
                Diagonal::Rising
            } else {
                Diagonal::Falling
            }
        },
        _ => Diagonal::Falling,
    }
}

/// Writes the two triangles of the cell whose lower-left corner is vertex
/// `ll` into the six index slots starting at `ti`.
fn write_quad(triangles: &mut Vec<u32>, ti: usize, r: u32, ll: u32, d: Diagonal)
    requires
        ti + 6 <= old(triangles).len(),
        ll + r + 2 <= u32::MAX,
    ensures
        final(triangles)@.len() == old(triangles)@.len(),
        forall|k: int|
            0 <= k < old(triangles)@.len() ==> #[trigger] final(triangles)@[k] == if ti <= k
                < ti + 6 {
                quad_triangles(r as int, ll as int, d)[k - ti] as u32
            } else {
                old(triangles)@[k]
            },
{
    let lr = ll + 1;
    let ul = ll + r + 1;
    let ur = ll + r + 2;
    let (a, b, c, e, f, g) = match d {
        Diagonal::Rising => (ll, ur, ul, ll, lr, ur),
        Diagonal::Falling => (ll, lr, ul, lr, ur, ul),
    };
    triangles.set(ti, a);
    triangles.set(ti + 1, b);
    triangles.set(ti + 2, c);
    triangles.set(ti + 3, e);
    triangles.set(ti + 4, f);
    triangles.set(ti + 5, g);
}

/// Fills ring `ring` of a mesh of resolution `r`: its `r + 1` vertices and,
/// above the first ring, the `6 r` indices of the cells that join it to the
/// ring below. Every other slot of both buffers is left as it was.
pub fn generate_row(
    kind: SurfaceKind,
    ring: u32,
    r: u32,
    vertices: &mut Vec<Vertex>,
    triangles: &mut Vec<u32>,
)
    requires
        valid_resolution(r as int),
        ring <= r,
        old(vertices)@.len() == vertex_count(r as int),
        old(triangles)@.len() == index_count(r as int),
    ensures
        final(vertices)@.len() == old(vertices)@.len(),
        final(triangles)@.len() == old(triangles)@.len(),
        forall|k: int|
            0 <= k < vertex_count(r as int) ==> #[trigger] final(vertices)@[k] == if vertex_slot(
                r as int,
                ring as int,
                0,
            ) <= k <= vertex_slot(r as int, ring as int, r as int) {
                vertex_at(r as int, k)
            } else {
                old(vertices)@[k]
            },
        forall|k: int|
            0 <= k < index_count(r as int) ==> #[trigger] final(triangles)@[k] == if 1 <= ring
                && row_index_start(r as int, ring as int) <= k < row_index_start(
                r as int,
                ring as int,
            ) + 6 * r {
                index_at(r as int, kind, k) as u32
            } else {
                old(triangles)@[k]
            },
{
    proof {
        lemma_counts_fit(r as int);
        assert((r + 1) * ring <= (r + 1) * r && (r + 1) * r + r < (r + 1) * (r + 1))
            by (nonlinear_arith)
            requires
                ring <= r,
        ;
        if ring >= 1 {
            assert(r * (ring - 1) <= r * (r - 1) && 6 * (r * (r - 1)) + 6 * r == 6 * r * r)
                by (nonlinear_arith)
                requires
                    1 <= ring <= r,
            ;
        }
    }
    let d = diagonal(kind, ring);
    let start: u32 = (r + 1) * ring;
    let tstart: usize = if ring >= 1 {
        6 * (r as usize * (ring as usize - 1))
    } else {
        0
    };
    proof {
        lemma_vertex_slot(r as int, ring as int, 0);
    }
    vertices.set(start as usize, Vertex { ring, column: 0 });
    let mut x: u32 = 1;
    while x <= r
        invariant
            valid_resolution(r as int),
            ring <= r,
            1 <= x <= r + 1,
            start == vertex_slot(r as int, ring as int, 0),
            start + r < vertex_count(r as int),
            vertex_count(r as int) <= u32::MAX,
            index_count(r as int) <= u32::MAX,
            d == diagonal_of(kind, ring as int),
            ring >= 1 ==> tstart == row_index_start(r as int, ring as int),
            ring >= 1 ==> tstart + 6 * r <= index_count(r as int),
            vertices@.len() == vertex_count(r as int),
            triangles@.len() == index_count(r as int),
            forall|k: int|
                0 <= k < vertex_count(r as int) ==> #[trigger] vertices@[k] == if start <= k
                    < start + x {
                    vertex_at(r as int, k)
                } else {
                    old(vertices)@[k]
                },
            forall|k: int|
                0 <= k < index_count(r as int) ==> #[trigger] triangles@[k] == if 1 <= ring
                    && tstart <= k < tstart + 6 * (x - 1) {
                    index_at(r as int, kind, k) as u32
                } else {
                    old(triangles)@[k]
                },
        decreases r + 1 - x,
    {
        let vi: u32 = start + x;
        proof {
            lemma_vertex_slot(r as int, ring as int, x as int);
        }
        vertices.set(vi as usize, Vertex { ring, column: x });
        if ring >= 1 {
            let ti: usize = tstart + 6 * (x as usize - 1);
            proof {
                assert((r + 1) * ring >= r + 1) by (nonlinear_arith)
                    requires
                        ring >= 1,
                ;
            }
            let ll: u32 = vi - r - 2;
            proof {
                assert(ll == vertex_slot(r as int, ring - 1, x - 1)) by (nonlinear_arith)
                    requires
                        vi == (r + 1) * ring + x,
                        ll == vi - r - 2,
                ;
                assert forall|j: int| 0 <= j < 6 implies index_at(r as int, kind, ti + j)
                    == quad_triangles(r as int, ll as int, d)[j] by {
                    lemma_index_slot(r as int, kind, ring as int, x as int, j);
                }
            }
            write_quad(triangles, ti, r, ll, d);
        }
        x = x + 1;
    }
}

} // verus!
