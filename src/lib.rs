//! Index-exact tessellation of a square lattice into triangle meshes.
//!
//! A mesh of resolution `r` has `(r + 1)²` vertices, laid out ring by ring,
//! and `6 r²` indices, two triangles for every cell between adjacent rings.
//! Vertices are lattice points; the surface a kind maps them onto is applied
//! by the consumer.
pub mod lattice;
pub mod row;
pub mod grid;
pub mod laws;

pub use lattice::{Diagonal, SurfaceKind, UpAxis, Vertex, MAX_RESOLUTION};
pub use row::{diagonal, generate_row};
pub use grid::{generate_grid, GridConfig, GridError, MeshData};
