use physobx_core::gpu::sphere_renderer::{
    create_sphere_geometry, create_sphere_indices, sphere_grid, SphereRenderer, SphereVertex,
    SPHERE_INDEX_COUNT, SPHERE_RINGS, SPHERE_SEGMENTS, SPHERE_VERTEX_COUNT,
};

fn point(segments: u32, rings: u32, ring: u32, segment: u32) -> [u32; 3] {
    let phi = std::f32::consts::PI * ring as f32 / rings as f32;
    let theta = 2.0 * std::f32::consts::PI * segment as f32 / segments as f32;
    let x = phi.sin() * theta.cos();
    let y = phi.cos();
    let z = phi.sin() * theta.sin();
    [x.to_bits(), y.to_bits(), z.to_bits()]
}

fn points(segments: u32, rings: u32) -> Vec<[u32; 3]> {
    sphere_grid(segments, rings)
        .iter()
        .map(|&(ring, segment)| point(segments, rings, ring, segment))
        .collect()
}

#[test]
fn sphere_16_by_12_has_221_vertices_and_1152_indices() {
    let (vertices, indices) = create_sphere_geometry(16, 12, &points(16, 12));
    assert_eq!(vertices.len(), (16 + 1) * (12 + 1));
    assert_eq!(vertices.len(), 221);
    assert_eq!(indices.len(), 16 * 12 * 6);
    assert_eq!(indices.len(), 1152);
    assert_eq!(SPHERE_SEGMENTS, 16);
    assert_eq!(SPHERE_RINGS, 12);
    assert_eq!(SPHERE_VERTEX_COUNT, 221);
    assert_eq!(SPHERE_INDEX_COUNT, 1152);
}

#[test]
fn sphere_normals_equal_positions() {
    let (vertices, _) = create_sphere_geometry(16, 12, &points(16, 12));
    for v in &vertices {
        assert_eq!(v.normal, v.position);
        let p = [
            f32::from_bits(v.position[0]),
            f32::from_bits(v.position[1]),
            f32::from_bits(v.position[2]),
        ];
        let length = (p[0] * p[0] + p[1] * p[1] + p[2] * p[2]).sqrt();
        assert!((length - 1.0).abs() < 1e-5);
    }
}

#[test]
fn sphere_vertices_take_the_points_in_order() {
    let pts = vec![[1u32, 2, 3], [4, 5, 6], [7, 8, 9], [10, 11, 12]];
    let (vertices, indices) = create_sphere_geometry(1, 1, &pts);
    assert_eq!(
        vertices,
        vec![
            SphereVertex { position: [1, 2, 3], normal: [1, 2, 3] },
            SphereVertex { position: [4, 5, 6], normal: [4, 5, 6] },
            SphereVertex { position: [7, 8, 9], normal: [7, 8, 9] },
            SphereVertex { position: [10, 11, 12], normal: [10, 11, 12] },
        ]
    );
    assert_eq!(indices, vec![0, 1, 2, 1, 3, 2]);
}

#[test]
fn sphere_grid_runs_ring_after_ring() {
    assert_eq!(
        sphere_grid(2, 1),
        vec![(0, 0), (0, 1), (0, 2), (1, 0), (1, 1), (1, 2)]
    );
    let grid = sphere_grid(16, 12);
    assert_eq!(grid.len(), 221);
    assert_eq!(grid[0], (0, 0));
    assert_eq!(grid[16], (0, 16));
    assert_eq!(grid[17], (1, 0));
    assert_eq!(grid[220], (12, 16));
}

#[test]
fn sphere_indices_join_neighbouring_grid_points() {
    let indices = create_sphere_indices(2, 2);
    assert_eq!(
        indices,
        vec![
            0, 1, 3, 1, 4, 3, // ring 0, segment 0
            1, 2, 4, 2, 5, 4, // ring 0, segment 1
            3, 4, 6, 4, 7, 6, // ring 1, segment 0
            4, 5, 7, 5, 8, 7, // ring 1, segment 1
        ]
    );
}

#[test]
fn sphere_indices_stay_inside_the_vertices() {
    for (segments, rings) in [(16u32, 12u32), (3, 2), (1, 1), (8, 30), (255, 255)] {
        let indices = create_sphere_indices(segments, rings);
        let vertex_count = (segments + 1) * (rings + 1);
        assert_eq!(indices.len() as u32, segments * rings * 6);
        assert!(indices.iter().all(|&i| (i as u32) < vertex_count));
        assert_eq!(*indices.iter().max().unwrap() as u32, vertex_count - 1);
    }
}

#[test]
fn sphere_without_cells_has_no_indices() {
    assert_eq!(create_sphere_indices(0, 5), Vec::<u16>::new());
    assert_eq!(create_sphere_indices(5, 0), Vec::<u16>::new());
    assert_eq!(sphere_grid(0, 0), vec![(0, 0)]);
    assert_eq!(sphere_grid(0, 2).len(), 3);
}

#[test]
fn sphere_renderer_draws_the_16_by_12_sphere() {
    let r = SphereRenderer::new(100);
    let grid = r.grid();
    assert_eq!(grid, sphere_grid(16, 12));
    let pts: Vec<[u32; 3]> =
        grid.iter().map(|&(ring, segment)| point(16, 12, ring, segment)).collect();
    let (vertices, indices) = r.geometry(&pts);
    assert_eq!(vertices.len(), 221);
    assert_eq!(indices.len() as u32, r.index_count());
    // The poles: ring 0 points up, the last ring points down.
    assert_eq!(f32::from_bits(vertices[0].position[1]), 1.0);
    assert!((f32::from_bits(vertices[220].position[1]) + 1.0).abs() < 1e-6);
}

#[test]
fn sphere_triangles_wind_outward() {
    let (vertices, indices) = create_sphere_geometry(16, 12, &points(16, 12));
    let position = |i: u16| {
        let p = vertices[i as usize].position;
        [f32::from_bits(p[0]), f32::from_bits(p[1]), f32::from_bits(p[2])]
    };
    let mut outward = 0;
    for t in 0..indices.len() / 3 {
        let a = position(indices[3 * t]);
        let b = position(indices[3 * t + 1]);
        let c = position(indices[3 * t + 2]);
        let u = [b[0] - a[0], b[1] - a[1], b[2] - a[2]];
        let v = [c[0] - a[0], c[1] - a[1], c[2] - a[2]];
        let n = [u[1] * v[2] - u[2] * v[1], u[2] * v[0] - u[0] * v[2], u[0] * v[1] - u[1] * v[0]];
        let centre = [a[0] + b[0] + c[0], a[1] + b[1] + c[1], a[2] + b[2] + c[2]];
        let facing = n[0] * centre[0] + n[1] * centre[1] + n[2] * centre[2];
        // At each pole one triangle of a cell has two corners in one point and
        // no area; every other triangle faces away from the centre.
        assert!(facing > -1e-6, "triangle {t} faces inward: {facing}");
        if facing > 1e-4 {
            outward += 1;
        }
    }
    assert_eq!(outward, 16 * 12 * 2 - 2 * 16);
}

#[test]
fn sphere_triangles_turn_the_same_way_on_the_grid() {
    let grid = sphere_grid(5, 4);
    let indices = create_sphere_indices(5, 4);
    for t in 0..indices.len() / 3 {
        let (ar, asg) = grid[indices[3 * t] as usize];
        let (br, bsg) = grid[indices[3 * t + 1] as usize];
        let (cr, csg) = grid[indices[3 * t + 2] as usize];
        let turn = (bsg as i64 - asg as i64) * (cr as i64 - ar as i64)
            - (br as i64 - ar as i64) * (csg as i64 - asg as i64);
        assert_eq!(turn, 1);
    }
}
