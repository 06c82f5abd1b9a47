use vstd::prelude::*;
use crate::lattice::{
    SurfaceKind, UpAxis, Vertex, MAX_RESOLUTION, grid_indices, grid_vertices, index_at,
    index_count, lemma_counts_fit, row_index_start, valid_resolution, vertex_at, vertex_count,
    vertex_slot,
};
use crate::laws::lemma_indices_in_bounds;
use crate::row::generate_row;

verus! {

/// A generated mesh: lattice vertices in ring order and a triangle list
/// over them, three indices per triangle.
pub struct MeshData {
    pub resolution: u32,
    pub kind: SurfaceKind,
    pub vertices: Vec<Vertex>,
    pub indices: Vec<u32>,
}

/// Why a grid configuration was rejected.
#[derive(Clone, Copy, Debug, PartialEq, Eq, Structural)]
pub enum GridError {
    /// A grid needs at least one cell per side.
    ZeroResolution,
    /// The index buffer would not fit in `u32` indices.
    ResolutionTooLarge,
}

/// Builds the mesh of resolution `resolution` for the given surface kind.
pub fn generate_grid(resolution: u32, kind: SurfaceKind) -> (mesh: MeshData)
    requires
        valid_resolution(resolution as int),
    ensures
        mesh.resolution == resolution,
        mesh.kind == kind,
        mesh.vertices@.len() == vertex_count(resolution as int),
        mesh.indices@.len() == index_count(resolution as int),
        mesh.vertices@ == grid_vertices(resolution as int),
        mesh.indices@ == grid_indices(resolution as int, kind),
        forall|k: int|
            0 <= k < mesh.indices@.len() ==> (#[trigger] mesh.indices@[k] as int) < vertex_count(
                resolution as int,
            ),
{
    let r = resolution;
    proof {
        lemma_counts_fit(r as int);
    }
    let vertex_total: u32 = (r + 1) * (r + 1);
    let index_total: u32 = 6 * r * r;
    let mut vertices = vec![Vertex::default(); vertex_total as usize];
    let mut triangles = vec![0u32; index_total as usize];
    let mut ring: u32 = 0;
    while ring <= r
        invariant
            valid_resolution(r as int),
            ring <= r + 1,
            vertices@.len() == vertex_count(r as int),
            triangles@.len() == index_count(r as int),
            forall|k: int|
                0 <= k < vertex_slot(r as int, ring as int, 0) ==> #[trigger] vertices@[k]
                    == vertex_at(r as int, k),
            forall|k: int|
                0 <= k < index_count(r as int) && ring >= 1 && k < row_index_start(
                    r as int,
                    ring as int,
                ) ==> #[trigger] triangles@[k] == index_at(r as int, kind, k) as u32,
        decreases r + 1 - ring,
    {
        generate_row(kind, ring, r, &mut vertices, &mut triangles);
        proof {
            assert(vertex_slot(r as int, ring as int, 0) + r + 1 == vertex_slot(
                r as int,
                ring + 1,
                0,
            )) by (nonlinear_arith);
            assert(6 * (r * ring) == 6 * (r * (ring - 1)) + 6 * r) by (nonlinear_arith);
            assert(vertex_slot(r as int, ring + 1, 0) <= vertex_count(r as int)) by (
            nonlinear_arith)
                requires
                    ring <= r,
            ;
        }
        ring = ring + 1;
    }
    proof {
        assert(row_index_start(r as int, ring as int) == index_count(r as int)) by (
        nonlinear_arith)
            requires
                ring == r + 1,
        ;
        assert(vertices@ =~= grid_vertices(r as int));
        assert(triangles@ =~= grid_indices(r as int, kind));
        lemma_indices_in_bounds(r as int, kind);
    }
    MeshData { resolution, kind, vertices, indices: triangles }
}

/// A checked description of a grid to generate.
pub struct GridConfig {
    resolution: u32,
    kind: SurfaceKind,
    up_axis: UpAxis,
}

impl GridConfig {
    #[verifier::type_invariant]
    spec fn inv(&self) -> bool {
        valid_resolution(self.resolution as int)
    }

    pub closed spec fn spec_resolution(&self) -> u32 {
        self.resolution
    }

    pub closed spec fn spec_kind(&self) -> SurfaceKind {
        self.kind
    }

    pub closed spec fn spec_up_axis(&self) -> UpAxis {
        self.up_axis
    }

    /// Accepts a resolution from 1 to `MAX_RESOLUTION`.
    pub fn new(resolution: u32, kind: SurfaceKind, up_axis: UpAxis) -> (res: Result<
        GridConfig,
        GridError,
    >)
        ensures
            resolution == 0 <==> res == Err::<GridConfig, GridError>(GridError::ZeroResolution),
            resolution > MAX_RESOLUTION <==> res == Err::<GridConfig, GridError>(
                GridError::ResolutionTooLarge,
            ),
            valid_resolution(resolution as int) <==> res is Ok,
            res matches Ok(c) ==> c.spec_resolution() == resolution && c.spec_kind() == kind
                && c.spec_up_axis() == up_axis,
    {
        if resolution == 0 {
            Err(GridError::ZeroResolution)
        } else if resolution > MAX_RESOLUTION {
            Err(GridError::ResolutionTooLarge)
        } else {
            Ok(GridConfig { resolution, kind, up_axis })
        }
    }

    pub fn resolution(&self) -> (r: u32)
        ensures
            r == self.spec_resolution(),
            valid_resolution(r as int),
    {
        proof {
            use_type_invariant(self);
        }
        self.resolution
    }

    pub fn kind(&self) -> (k: SurfaceKind)
        ensures
            k == self.spec_kind(),
    {
        self.kind
    }

    pub fn up_axis(&self) -> (a: UpAxis)
        ensures
            a == self.spec_up_axis(),
    {
        self.up_axis
    }

    /// Builds the mesh this configuration describes.
    pub fn generate(&self) -> (mesh: MeshData)
        ensures
            mesh.resolution == self.spec_resolution(),
            mesh.kind == self.spec_kind(),
            mesh.vertices@ == grid_vertices(self.spec_resolution() as int),
            mesh.indices@ == grid_indices(self.spec_resolution() as int, self.spec_kind()),
    {
        proof {
            use_type_invariant(self);
        }
        generate_grid(self.resolution, self.kind)
    }
}

} // verus!
