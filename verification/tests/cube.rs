use block_material::cube::cube_mesh;
use block_material::mesh::Mesh;

fn positions(m: &Mesh) -> Vec<(i64, i64, i64)> {
    m.vertices
        .iter()
        .map(|e| {
            (
                (e.word0 & 63) as i64,
                ((e.word0 >> 6) & 63) as i64,
                ((e.word0 >> 12) & 63) as i64,
            )
        })
        .collect()
}

fn triangles(m: &Mesh) -> Vec<[(i64, i64, i64); 3]> {
    let pos = positions(m);
    m.indices
        .chunks(3)
        .map(|t| {
            [
                pos[t[0] as usize],
                pos[t[1] as usize],
                pos[t[2] as usize],
            ]
        })
        .collect()
}

#[test]
fn cube_has_24_vertices_and_36_indices() {
    let m = cube_mesh();
    assert_eq!(m.vertex_count(), 24);
    assert_eq!(m.index_count(), 36);
    assert!(m.indices.iter().all(|&i| i < 24));
}

#[test]
fn cube_indices_follow_face_winding() {
    let m = cube_mesh();
    let expected: Vec<u32> = (0..6u32)
        .flat_map(|f| [0, 1, 2, 2, 3, 0].map(|k| 4 * f + k))
        .collect();
    assert_eq!(m.indices, expected);
}

#[test]
fn cube_is_watertight() {
    // Every undirected edge, keyed by endpoint positions, is shared by
    // exactly 2 of the 12 triangles.
    let mut edge_counts: Vec<(((i64, i64, i64), (i64, i64, i64)), u32)> = Vec::new();
    for tri in triangles(&cube_mesh()) {
        for (a, b) in [(tri[0], tri[1]), (tri[1], tri[2]), (tri[2], tri[0])] {
            let key = if a <= b { (a, b) } else { (b, a) };
            match edge_counts.iter_mut().find(|(k, _)| *k == key) {
                Some(entry) => entry.1 += 1,
                None => edge_counts.push((key, 1)),
            }
        }
    }
    assert_eq!(edge_counts.len(), 18); // 12 cube edges + 6 face diagonals
    for (edge, count) in edge_counts {
        assert_eq!(count, 2, "edge {edge:?} not shared by exactly 2 triangles");
    }
}

#[test]
fn cube_faces_point_outward() {
    // Signed volume test: each triangle's right-hand normal must point away
    // from the cube centroid (1/2, 1/2, 1/2). All quantities scaled to stay
    // in integers.
    for tri in triangles(&cube_mesh()) {
        let [a, b, c] = tri;
        let u = (b.0 - a.0, b.1 - a.1, b.2 - a.2);
        let v = (c.0 - a.0, c.1 - a.1, c.2 - a.2);
        let n = (
            u.1 * v.2 - u.2 * v.1,
            u.2 * v.0 - u.0 * v.2,
            u.0 * v.1 - u.1 * v.0,
        );
        // 6 * (triangle centroid - cube centroid)
        let d = (
            2 * (a.0 + b.0 + c.0) - 3,
            2 * (a.1 + b.1 + c.1) - 3,
            2 * (a.2 + b.2 + c.2) - 3,
        );
        let dot = n.0 * d.0 + n.1 * d.1 + n.2 * d.2;
        assert!(dot > 0, "triangle {tri:?} does not face outward");
    }
}

#[test]
fn cube_packs_flat_face_normals() {
    let m = cube_mesh();
    let packed = |nx: u32, ny: u32, nz: u32| nx | ny << 6 | nz << 12;
    let expected = [
        packed(16, 16, 32), // front  (0, 0, 1)
        packed(16, 16, 0),  // back   (0, 0, -1)
        packed(32, 16, 16), // right  (1, 0, 0)
        packed(0, 16, 16),  // left   (-1, 0, 0)
        packed(16, 32, 16), // top    (0, 1, 0)
        packed(16, 0, 16),  // bottom (0, -1, 0)
    ];
    for face in 0..6 {
        for corner in 0..4 {
            let e = &m.vertices[4 * face + corner];
            // texture layer defaults to 0, so the whole word is the normal
            assert_eq!(e.word1, expected[face]);
        }
    }
}

#[test]
fn cube_uv_corners_span_the_face() {
    let m = cube_mesh();
    for face in 0..6 {
        let mut corners: Vec<(u32, u32)> = (0..4)
            .map(|k| {
                let w = m.vertices[4 * face + k].word2;
                (w & 2047, w >> 11)
            })
            .collect();
        corners.sort();
        assert_eq!(corners, vec![(0, 0), (0, 32), (32, 0), (32, 32)]);
    }
}
