use kernel::Mesh;

#[test]
fn cube_of_edge_two_has_eight_corners_at_plus_and_minus_one() {
    let size: f32 = 2.0;
    let mesh = Mesh::cube((size * 0.5).to_bits());
    assert_eq!(mesh.positions.len(), 24);
    assert_eq!(mesh.indices.len(), 36);
    for bits in &mesh.positions {
        let value = f32::from_bits(*bits);
        assert!(value == 1.0 || value == -1.0, "component {}", value);
    }
}

#[test]
fn cube_positions_are_the_eight_corners_in_order() {
    let s: f32 = 1.5;
    let mesh = Mesh::cube(s.to_bits());
    let expected: Vec<f32> = vec![
        -s, -s, -s, s, -s, -s, s, s, -s, -s, s, -s, -s, -s, s, s, -s, s, s, s, s, -s, s, s,
    ];
    let positions: Vec<f32> = mesh.positions.iter().map(|bits| f32::from_bits(*bits)).collect();
    assert_eq!(positions, expected);
}

#[test]
fn cube_indices_are_twelve_triangles() {
    let mesh = Mesh::cube(1.0f32.to_bits());
    let expected: Vec<u32> = vec![
        0, 1, 2, 2, 3, 0, 4, 5, 6, 6, 7, 4, 0, 4, 7, 7, 3, 0, 1, 5, 6, 6, 2, 1, 3, 2, 6, 6, 7, 3,
        0, 1, 5, 5, 4, 0,
    ];
    assert_eq!(mesh.indices, expected);
    assert_eq!(mesh.indices.len() / 3, 12);
}

#[test]
fn cube_indices_name_corners_of_the_cube() {
    let mesh = Mesh::cube(0.25f32.to_bits());
    let corners = (mesh.positions.len() / 3) as u32;
    assert_eq!(corners, 8);
    for index in &mesh.indices {
        assert!(*index < corners);
    }
}

#[test]
fn cube_triangles_each_lie_in_one_face() {
    let mesh = Mesh::cube(1.0f32.to_bits());
    for triangle in mesh.indices.chunks(3) {
        let (a, b, c) = (triangle[0] as usize, triangle[1] as usize, triangle[2] as usize);
        assert!(a != b && b != c && a != c);
        let shared = (0..3).any(|axis| {
            mesh.positions[3 * a + axis] == mesh.positions[3 * b + axis]
                && mesh.positions[3 * b + axis] == mesh.positions[3 * c + axis]
        });
        assert!(shared, "triangle {:?} spans no face", triangle);
    }
}

#[test]
fn cube_corners_are_all_distinct() {
    let mesh = Mesh::cube(1.0f32.to_bits());
    let corners: Vec<&[u32]> = mesh.positions.chunks(3).collect();
    for i in 0..corners.len() {
        for j in (i + 1)..corners.len() {
            assert_ne!(corners[i], corners[j]);
        }
    }
}

#[test]
fn cube_of_zero_extent_keeps_signed_zeros() {
    let mesh = Mesh::cube(0.0f32.to_bits());
    assert_eq!(mesh.positions[0], (-0.0f32).to_bits());
    assert_eq!(mesh.positions[3], 0.0f32.to_bits());
    for bits in &mesh.positions {
        assert_eq!(f32::from_bits(*bits), 0.0);
    }
}

#[test]
fn cube_with_negative_extent_mirrors_the_corners() {
    let mesh = Mesh::cube((-1.0f32).to_bits());
    assert_eq!(f32::from_bits(mesh.positions[0]), 1.0);
    assert_eq!(f32::from_bits(mesh.positions[3]), -1.0);
}
