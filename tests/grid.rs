use galactic_generation_v2::{
    diagonal, generate_grid, generate_row, Diagonal, GridConfig, GridError, SurfaceKind, UpAxis,
    Vertex, MAX_RESOLUTION,
};

const KINDS: [SurfaceKind; 3] = [SurfaceKind::Planar, SurfaceKind::UvSphere, SurfaceKind::Triangulated];

fn v(ring: u32, column: u32) -> Vertex {
    Vertex { ring, column }
}

#[test]
fn buffer_lengths_match_resolution() {
    for kind in KINDS {
        for r in 1u32..=12 {
            let mesh = generate_grid(r, kind);
            let n = ((r + 1) * (r + 1)) as usize;
            assert_eq!(mesh.vertices.len(), n);
            assert_eq!(mesh.indices.len(), (6 * r * r) as usize);
            assert_eq!(mesh.resolution, r);
            assert_eq!(mesh.kind, kind);
        }
    }
}

#[test]
fn every_index_names_a_vertex() {
    for kind in KINDS {
        for r in 1u32..=12 {
            let mesh = generate_grid(r, kind);
            let n = (r + 1) * (r + 1);
            assert!(mesh.indices.iter().all(|&k| k < n));
        }
    }
}

#[test]
fn every_vertex_is_used_by_some_triangle() {
    for kind in KINDS {
        let mesh = generate_grid(5, kind);
        let mut seen = vec![false; mesh.vertices.len()];
        for &k in &mesh.indices {
            seen[k as usize] = true;
        }
        assert!(seen.iter().all(|&s| s));
    }
}

#[test]
fn vertices_are_laid_out_ring_by_ring() {
    let mesh = generate_grid(3, SurfaceKind::Planar);
    for (k, vertex) in mesh.vertices.iter().enumerate() {
        assert_eq!(*vertex, v(k as u32 / 4, k as u32 % 4));
    }
}

#[test]
fn planar_triangles_span_two_adjacent_rings() {
    for r in 1u32..=8 {
        let mesh = generate_grid(r, SurfaceKind::Planar);
        for tri in mesh.indices.chunks(3) {
            let mut rings: Vec<u32> = tri.iter().map(|&k| mesh.vertices[k as usize].ring).collect();
            rings.sort();
            rings.dedup();
            assert_eq!(rings.len(), 2);
            assert_eq!(rings[1] - rings[0], 1);
        }
    }
}

#[test]
fn sphere_pole_ring_holds_every_column_in_order() {
    for r in 1u32..=8 {
        let mesh = generate_grid(r, SurfaceKind::UvSphere);
        for x in 0..=r {
            assert_eq!(mesh.vertices[x as usize], v(0, x));
        }
    }
}

#[test]
fn planar_unit_grid() {
    let mesh = generate_grid(1, SurfaceKind::Planar);
    assert_eq!(mesh.vertices, vec![v(0, 0), v(0, 1), v(1, 0), v(1, 1)]);
    assert_eq!(mesh.indices, vec![0, 1, 2, 1, 3, 2]);
}

#[test]
fn sphere_uses_the_planar_index_buffer() {
    for r in 1u32..=6 {
        let planar = generate_grid(r, SurfaceKind::Planar);
        let sphere = generate_grid(r, SurfaceKind::UvSphere);
        assert_eq!(planar.indices, sphere.indices);
        assert_eq!(planar.vertices, sphere.vertices);
    }
}

#[test]
fn triangulated_two_by_two() {
    let mesh = generate_grid(2, SurfaceKind::Triangulated);
    assert_eq!(
        mesh.indices,
        vec![
            0, 1, 3, 1, 4, 3, 1, 2, 4, 2, 5, 4, //
            3, 7, 6, 3, 4, 7, 4, 8, 7, 4, 5, 8,
        ]
    );
}

#[test]
fn triangulated_diagonals_alternate_between_rings() {
    for r in 2u32..=9 {
        let mesh = generate_grid(r, SurfaceKind::Triangulated);
        let row = (6 * r) as usize;
        for ring in 1..r {
            let low = &mesh.indices[row * (ring as usize - 1)..row * ring as usize];
            let high = &mesh.indices[row * ring as usize..row * (ring as usize + 1)];
            let shift = r + 1;
            let low_rel: Vec<u32> = low.iter().map(|&k| k - low[0]).collect();
            let high_rel: Vec<u32> = high.iter().map(|&k| k - high[0]).collect();
            assert_ne!(low_rel, high_rel);
            assert_eq!(high[0], low[0] + shift);
            assert_ne!(diagonal(SurfaceKind::Triangulated, ring), diagonal(SurfaceKind::Triangulated, ring + 1));
        }
    }
}

#[test]
fn diagonal_choice_per_kind() {
    assert_eq!(diagonal(SurfaceKind::Planar, 2), Diagonal::Falling);
    assert_eq!(diagonal(SurfaceKind::UvSphere, 2), Diagonal::Falling);
    assert_eq!(diagonal(SurfaceKind::Triangulated, 1), Diagonal::Falling);
    assert_eq!(diagonal(SurfaceKind::Triangulated, 2), Diagonal::Rising);
}

#[test]
fn generation_is_deterministic() {
    for kind in KINDS {
        let a = generate_grid(7, kind);
        let b = generate_grid(7, kind);
        assert_eq!(a.vertices, b.vertices);
        assert_eq!(a.indices, b.indices);
    }
}

#[test]
fn row_writes_only_its_own_slices() {
    let r = 3u32;
    let mut vertices = vec![v(9, 9); 16];
    let mut triangles = vec![99u32; 54];
    generate_row(SurfaceKind::Planar, 2, r, &mut vertices, &mut triangles);
    for (k, vertex) in vertices.iter().enumerate() {
        if (8..12).contains(&k) {
            assert_eq!(*vertex, v(2, k as u32 - 8));
        } else {
            assert_eq!(*vertex, v(9, 9));
        }
    }
    for (k, &t) in triangles.iter().enumerate() {
        if (18..36).contains(&k) {
            assert!(t < 16);
        } else {
            assert_eq!(t, 99);
        }
    }
    assert_eq!(&triangles[18..24], &[4, 5, 8, 5, 9, 8]);
}

#[test]
fn first_row_writes_no_triangles() {
    let mut vertices = vec![v(9, 9); 9];
    let mut triangles = vec![99u32; 24];
    generate_row(SurfaceKind::Triangulated, 0, 2, &mut vertices, &mut triangles);
    assert_eq!(&vertices[0..3], &[v(0, 0), v(0, 1), v(0, 2)]);
    assert!(triangles.iter().all(|&t| t == 99));
}

#[test]
fn config_rejects_zero_resolution() {
    assert_eq!(
        GridConfig::new(0, SurfaceKind::Planar, UpAxis::Z).err(),
        Some(GridError::ZeroResolution)
    );
}

#[test]
fn config_rejects_oversized_resolution() {
    assert_eq!(
        GridConfig::new(MAX_RESOLUTION + 1, SurfaceKind::UvSphere, UpAxis::Y).err(),
        Some(GridError::ResolutionTooLarge)
    );
    assert_eq!(
        GridConfig::new(u32::MAX, SurfaceKind::Planar, UpAxis::Y).err(),
        Some(GridError::ResolutionTooLarge)
    );
}

#[test]
fn config_accepts_the_bounds() {
    let c = GridConfig::new(MAX_RESOLUTION, SurfaceKind::Triangulated, UpAxis::Y).unwrap();
    assert_eq!(c.resolution(), MAX_RESOLUTION);
    assert_eq!(c.kind(), SurfaceKind::Triangulated);
    assert_eq!(c.up_axis(), UpAxis::Y);
    let one = GridConfig::new(1, SurfaceKind::Planar, UpAxis::Z).unwrap();
    let mesh = one.generate();
    assert_eq!(mesh.indices, vec![0, 1, 2, 1, 3, 2]);
}

#[test]
fn largest_index_count_fits_u32() {
    let r = MAX_RESOLUTION as u64;
    assert!(6 * r * r <= u32::MAX as u64);
    assert!(6 * (r + 1) * (r + 1) > u32::MAX as u64);
}

#[test]
fn default_vertex_is_origin() {
    assert_eq!(Vertex::default(), v(0, 0));
}
