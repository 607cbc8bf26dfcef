use physobx_core::gpu::instance_renderer::{
    create_cube_geometry, InstanceRenderer, Vertex, CUBE_INDEX_COUNT, CUBE_VERTEX_COUNT,
};

fn floats(v: [u32; 3]) -> [f32; 3] {
    [f32::from_bits(v[0]), f32::from_bits(v[1]), f32::from_bits(v[2])]
}

fn vertex(position: [f32; 3], normal: [f32; 3]) -> Vertex {
    Vertex {
        position: [position[0].to_bits(), position[1].to_bits(), position[2].to_bits()],
        normal: [normal[0].to_bits(), normal[1].to_bits(), normal[2].to_bits()],
    }
}

fn sub(a: [f32; 3], b: [f32; 3]) -> [f32; 3] {
    [a[0] - b[0], a[1] - b[1], a[2] - b[2]]
}

fn cross(a: [f32; 3], b: [f32; 3]) -> [f32; 3] {
    [a[1] * b[2] - a[2] * b[1], a[2] * b[0] - a[0] * b[2], a[0] * b[1] - a[1] * b[0]]
}

#[test]
fn cube_has_24_vertices_and_36_indices() {
    let (vertices, indices) = create_cube_geometry(0.5f32.to_bits());
    assert_eq!(vertices.len(), 24);
    assert_eq!(indices.len(), 36);
    assert_eq!(CUBE_VERTEX_COUNT, 24);
    assert_eq!(CUBE_INDEX_COUNT, 36);
    assert_eq!(InstanceRenderer::new(10, 0.5f32.to_bits()).index_count(), 36);
}

#[test]
fn cube_vertices_are_the_corners_of_each_face() {
    let h = 0.5f32;
    let (vertices, _) = create_cube_geometry(h.to_bits());
    let expected = vec![
        // front, +z
        vertex([-h, -h, h], [0.0, 0.0, 1.0]),
        vertex([h, -h, h], [0.0, 0.0, 1.0]),
        vertex([h, h, h], [0.0, 0.0, 1.0]),
        vertex([-h, h, h], [0.0, 0.0, 1.0]),
        // back, -z
        vertex([h, -h, -h], [0.0, 0.0, -1.0]),
        vertex([-h, -h, -h], [0.0, 0.0, -1.0]),
        vertex([-h, h, -h], [0.0, 0.0, -1.0]),
        vertex([h, h, -h], [0.0, 0.0, -1.0]),
        // right, +x
        vertex([h, -h, h], [1.0, 0.0, 0.0]),
        vertex([h, -h, -h], [1.0, 0.0, 0.0]),
        vertex([h, h, -h], [1.0, 0.0, 0.0]),
        vertex([h, h, h], [1.0, 0.0, 0.0]),
        // left, -x
        vertex([-h, -h, -h], [-1.0, 0.0, 0.0]),
        vertex([-h, -h, h], [-1.0, 0.0, 0.0]),
        vertex([-h, h, h], [-1.0, 0.0, 0.0]),
        vertex([-h, h, -h], [-1.0, 0.0, 0.0]),
        // top, +y
        vertex([-h, h, h], [0.0, 1.0, 0.0]),
        vertex([h, h, h], [0.0, 1.0, 0.0]),
        vertex([h, h, -h], [0.0, 1.0, 0.0]),
        vertex([-h, h, -h], [0.0, 1.0, 0.0]),
        // bottom, -y
        vertex([-h, -h, -h], [0.0, -1.0, 0.0]),
        vertex([h, -h, -h], [0.0, -1.0, 0.0]),
        vertex([h, -h, h], [0.0, -1.0, 0.0]),
        vertex([-h, -h, h], [0.0, -1.0, 0.0]),
    ];
    assert_eq!(vertices, expected);
}

#[test]
fn cube_indices_are_two_triangles_a_face() {
    let (_, indices) = create_cube_geometry(1.0f32.to_bits());
    let expected: Vec<u16> = vec![
        0, 1, 2, 0, 2, 3, 4, 5, 6, 4, 6, 7, 8, 9, 10, 8, 10, 11, 12, 13, 14, 12, 14, 15, 16, 17,
        18, 16, 18, 19, 20, 21, 22, 20, 22, 23,
    ];
    assert_eq!(indices, expected);
}

#[test]
fn cube_has_six_distinct_face_normals() {
    let (vertices, _) = create_cube_geometry(2.0f32.to_bits());
    let mut normals: Vec<[u32; 3]> = Vec::new();
    for v in &vertices {
        if !normals.contains(&v.normal) {
            normals.push(v.normal);
        }
    }
    assert_eq!(normals.len(), 6);
    for face in 0..6 {
        for k in 1..4 {
            assert_eq!(vertices[4 * face + k].normal, vertices[4 * face].normal);
        }
    }
}

#[test]
fn cube_triangles_wind_outward() {
    for h in [0.5f32, 1.0, 3.0] {
        let (vertices, indices) = create_cube_geometry(h.to_bits());
        for t in 0..12 {
            let a = vertices[indices[3 * t] as usize];
            let b = vertices[indices[3 * t + 1] as usize];
            let c = vertices[indices[3 * t + 2] as usize];
            assert_eq!(a.normal, b.normal);
            assert_eq!(a.normal, c.normal);
            let n = floats(a.normal);
            let x = cross(
                sub(floats(b.position), floats(a.position)),
                sub(floats(c.position), floats(a.position)),
            );
            let scale = 4.0 * h * h;
            assert_eq!(x, [scale * n[0], scale * n[1], scale * n[2]]);
        }
    }
}

#[test]
fn cube_of_half_extent_zero_keeps_signed_zeros() {
    let (vertices, _) = create_cube_geometry(0.0f32.to_bits());
    assert_eq!(vertices[0].position, [(-0.0f32).to_bits(), (-0.0f32).to_bits(), 0.0f32.to_bits()]);
}
