use raytracer::cube::{cube_indices, cube_vertices, Vertex};

fn f(v: &Vertex) -> ([f32; 3], [f32; 3]) {
    (
        [f32::from_bits(v.position[0].0), f32::from_bits(v.position[1].0), f32::from_bits(v.position[2].0)],
        [f32::from_bits(v.normal[0].0), f32::from_bits(v.normal[1].0), f32::from_bits(v.normal[2].0)],
    )
}

#[test]
fn cube_vertices_are_the_unit_cube_faces() {
    let expected: [([f32; 3], [f32; 3]); 24] = [
        ([-1.0, -1.0, 1.0], [0.0, 0.0, 1.0]),
        ([1.0, -1.0, 1.0], [0.0, 0.0, 1.0]),
        ([1.0, 1.0, 1.0], [0.0, 0.0, 1.0]),
        ([-1.0, 1.0, 1.0], [0.0, 0.0, 1.0]),
        ([-1.0, -1.0, -1.0], [0.0, 0.0, -1.0]),
        ([-1.0, 1.0, -1.0], [0.0, 0.0, -1.0]),
        ([1.0, 1.0, -1.0], [0.0, 0.0, -1.0]),
        ([1.0, -1.0, -1.0], [0.0, 0.0, -1.0]),
        ([-1.0, 1.0, -1.0], [0.0, 1.0, 0.0]),
        ([-1.0, 1.0, 1.0], [0.0, 1.0, 0.0]),
        ([1.0, 1.0, 1.0], [0.0, 1.0, 0.0]),
        ([1.0, 1.0, -1.0], [0.0, 1.0, 0.0]),
        ([-1.0, -1.0, -1.0], [0.0, -1.0, 0.0]),
        ([1.0, -1.0, -1.0], [0.0, -1.0, 0.0]),
        ([1.0, -1.0, 1.0], [0.0, -1.0, 0.0]),
        ([-1.0, -1.0, 1.0], [0.0, -1.0, 0.0]),
        ([1.0, -1.0, -1.0], [1.0, 0.0, 0.0]),
        ([1.0, 1.0, -1.0], [1.0, 0.0, 0.0]),
        ([1.0, 1.0, 1.0], [1.0, 0.0, 0.0]),
        ([1.0, -1.0, 1.0], [1.0, 0.0, 0.0]),
        ([-1.0, -1.0, -1.0], [-1.0, 0.0, 0.0]),
        ([-1.0, -1.0, 1.0], [-1.0, 0.0, 0.0]),
        ([-1.0, 1.0, 1.0], [-1.0, 0.0, 0.0]),
        ([-1.0, 1.0, -1.0], [-1.0, 0.0, 0.0]),
    ];
    let vs = cube_vertices();
    assert_eq!(vs.len(), 24);
    for (i, v) in vs.iter().enumerate() {
        assert_eq!(f(v), expected[i], "vertex {}", i);
    }
}

#[test]
fn cube_indices_are_two_triangles_per_face() {
    let expected: [u16; 36] = [
        0, 1, 2, 0, 2, 3, // front
        4, 5, 6, 4, 6, 7, // back
        8, 9, 10, 8, 10, 11, // top
        12, 13, 14, 12, 14, 15, // bottom
        16, 17, 18, 16, 18, 19, // right
        20, 21, 22, 20, 22, 23, // left
    ];
    assert_eq!(cube_indices(), expected.to_vec());
}

#[test]
fn cube_triangles_face_outward() {
    let vs = cube_vertices();
    let is = cube_indices();
    for t in 0..12 {
        let (a, na) = f(&vs[is[3 * t] as usize]);
        let (b, nb) = f(&vs[is[3 * t + 1] as usize]);
        let (c, nc) = f(&vs[is[3 * t + 2] as usize]);
        assert_eq!(na, nb);
        assert_eq!(na, nc);
        let e1 = [b[0] - a[0], b[1] - a[1], b[2] - a[2]];
        let e2 = [c[0] - a[0], c[1] - a[1], c[2] - a[2]];
        let cross = [
            e1[1] * e2[2] - e1[2] * e2[1],
            e1[2] * e2[0] - e1[0] * e2[2],
            e1[0] * e2[1] - e1[1] * e2[0],
        ];
        let d = cross[0] * na[0] + cross[1] * na[1] + cross[2] * na[2];
        assert!(d > 0.0, "triangle {} winds inward", t);
        // Every corner lies on the face that its normal points out of.
        for (p, n) in [(a, na), (b, nb), (c, nc)] {
            assert_eq!(p[0] * n[0] + p[1] * n[1] + p[2] * n[2], 1.0);
        }
    }
}
