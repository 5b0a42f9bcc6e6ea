use vstd::prelude::*;

verus! {

use crate::mesh::Mesh;
use crate::vertex::{encode, encoded_of, valid_vertex, EncodedVertex, Vertex};

/// A cube vertex row: position corner, remapped face normal, texel corner.
/// The texture layer of every built vertex is 0; layer selection is a
/// per-block concern outside this builder.
pub open spec fn cube_vertex(
    x: u32, y: u32, z: u32,
    nx: u32, ny: u32, nz: u32,
    u: u32, w: u32,
) -> Vertex {
    Vertex { position: (x, y, z), normal: (nx, ny, nz), uv: (u, w), texture_layer: 0u16 }
}

/// The 24 vertices of the unit cube spanning (0,0,0)-(1,1,1): one
/// independent set of 4 vertices per face, so each face carries its own
/// flat normal and its own UV corners. Normals are axis-aligned unit
/// vectors after the `(n + 1) * 16` remap, texels are `uv * 32` with
/// `uv` in `{0, 1}^2`. Face order: front (+z), back (-z), right (+x),
/// left (-x), top (+y), bottom (-y).
pub open spec fn cube_vertices() -> Seq<Vertex> {
    seq![
        // front: normal (0, 0, 1) -> (16, 16, 32)
        cube_vertex(0, 0, 1, 16, 16, 32, 0, 0),
        cube_vertex(1, 0, 1, 16, 16, 32, 32, 0),
        cube_vertex(1, 1, 1, 16, 16, 32, 32, 32),
        cube_vertex(0, 1, 1, 16, 16, 32, 0, 32),
        // back: normal (0, 0, -1) -> (16, 16, 0)
        cube_vertex(0, 1, 0, 16, 16, 0, 32, 0),
        cube_vertex(1, 1, 0, 16, 16, 0, 0, 0),
        cube_vertex(1, 0, 0, 16, 16, 0, 0, 32),
        cube_vertex(0, 0, 0, 16, 16, 0, 32, 32),
        // right: normal (1, 0, 0) -> (32, 16, 16)
        cube_vertex(1, 0, 0, 32, 16, 16, 0, 0),
        cube_vertex(1, 1, 0, 32, 16, 16, 32, 0),
        cube_vertex(1, 1, 1, 32, 16, 16, 32, 32),
        cube_vertex(1, 0, 1, 32, 16, 16, 0, 32),
        // left: normal (-1, 0, 0) -> (0, 16, 16)
        cube_vertex(0, 0, 1, 0, 16, 16, 32, 0),
        cube_vertex(0, 1, 1, 0, 16, 16, 0, 0),
        cube_vertex(0, 1, 0, 0, 16, 16, 0, 32),
        cube_vertex(0, 0, 0, 0, 16, 16, 32, 32),
        // top: normal (0, 1, 0) -> (16, 32, 16)
        cube_vertex(1, 1, 0, 16, 32, 16, 32, 0),
        cube_vertex(0, 1, 0, 16, 32, 16, 0, 0),
        cube_vertex(0, 1, 1, 16, 32, 16, 0, 32),
        cube_vertex(1, 1, 1, 16, 32, 16, 32, 32),
        // bottom: normal (0, -1, 0) -> (16, 0, 16)
        cube_vertex(1, 0, 1, 16, 0, 16, 0, 0),
        cube_vertex(0, 0, 1, 16, 0, 16, 32, 0),
        cube_vertex(0, 0, 0, 16, 0, 16, 32, 32),
        cube_vertex(1, 0, 0, 16, 0, 16, 0, 32),
    ]
}

/// The 36 indices of the cube: per face, two outward-facing triangles
/// `0, 1, 2, 2, 3, 0` relative to the face's first vertex.
pub open spec fn cube_indices() -> Seq<u32> {
    seq![
        0u32, 1, 2, 2, 3, 0, // front
        4, 5, 6, 6, 7, 4, // back
        8, 9, 10, 10, 11, 8, // right
        12, 13, 14, 14, 15, 12, // left
        16, 17, 18, 18, 19, 16, // top
        20, 21, 22, 22, 23, 20, // bottom
    ]
}

/// Builds one cube vertex row as a value.
fn cv(x: u32, y: u32, z: u32, nx: u32, ny: u32, nz: u32, u: u32, w: u32) -> (v: Vertex)
    ensures
        v == cube_vertex(x, y, z, nx, ny, nz, u, w),
{
    Vertex { position: (x, y, z), normal: (nx, ny, nz), uv: (u, w), texture_layer: 0 }
}

/// Encodes one vertex and appends the record; the vertex is known valid, so
/// the encoder cannot report an overflow.
fn push_encoded(dst: &mut Vec<EncodedVertex>, v: Vertex)
    requires
        valid_vertex(v),
    ensures
        final(dst)@ == old(dst)@.push(encoded_of(v)),
{
    match encode(&v) {
        Result::Ok(e) => dst.push(e),
        Result::Err(_) => proof { assert(false); },
    }
}

/// Builds the canonical unit-cube mesh: 24 encoded vertices (4 per face)
/// and 36 indices (6 per face), each face indexed into its own 4-vertex
/// block with winding `0, 1, 2, 2, 3, 0`.
pub fn cube_mesh() -> (m: Mesh)
    ensures
        m.wf(),
        m.vertices@.len() == 24,
        m.indices@.len() == 36,
        m.indices@ == cube_indices(),
        forall|i: int| 0 <= i < 24 ==> m.vertices@[i] == encoded_of(cube_vertices()[i]),
{
    let mut vertices: Vec<EncodedVertex> = Vec::new();
    // front
    push_encoded(&mut vertices, cv(0, 0, 1, 16, 16, 32, 0, 0));
    push_encoded(&mut vertices, cv(1, 0, 1, 16, 16, 32, 32, 0));
    push_encoded(&mut vertices, cv(1, 1, 1, 16, 16, 32, 32, 32));
    push_encoded(&mut vertices, cv(0, 1, 1, 16, 16, 32, 0, 32));
    // back
    push_encoded(&mut vertices, cv(0, 1, 0, 16, 16, 0, 32, 0));
    push_encoded(&mut vertices, cv(1, 1, 0, 16, 16, 0, 0, 0));
    push_encoded(&mut vertices, cv(1, 0, 0, 16, 16, 0, 0, 32));
    push_encoded(&mut vertices, cv(0, 0, 0, 16, 16, 0, 32, 32));
    // right
    push_encoded(&mut vertices, cv(1, 0, 0, 32, 16, 16, 0, 0));
    push_encoded(&mut vertices, cv(1, 1, 0, 32, 16, 16, 32, 0));
    push_encoded(&mut vertices, cv(1, 1, 1, 32, 16, 16, 32, 32));
    push_encoded(&mut vertices, cv(1, 0, 1, 32, 16, 16, 0, 32));
    // left
    push_encoded(&mut vertices, cv(0, 0, 1, 0, 16, 16, 32, 0));
    push_encoded(&mut vertices, cv(0, 1, 1, 0, 16, 16, 0, 0));
    push_encoded(&mut vertices, cv(0, 1, 0, 0, 16, 16, 0, 32));
    push_encoded(&mut vertices, cv(0, 0, 0, 0, 16, 16, 32, 32));
    // top
    push_encoded(&mut vertices, cv(1, 1, 0, 16, 32, 16, 32, 0));
    push_encoded(&mut vertices, cv(0, 1, 0, 16, 32, 16, 0, 0));
    push_encoded(&mut vertices, cv(0, 1, 1, 16, 32, 16, 0, 32));
    push_encoded(&mut vertices, cv(1, 1, 1, 16, 32, 16, 32, 32));
    // bottom
    push_encoded(&mut vertices, cv(1, 0, 1, 16, 0, 16, 0, 0));
    push_encoded(&mut vertices, cv(0, 0, 1, 16, 0, 16, 32, 0));
    push_encoded(&mut vertices, cv(0, 0, 0, 16, 0, 16, 32, 32));
    push_encoded(&mut vertices, cv(1, 0, 0, 16, 0, 16, 0, 32));

    let mut indices: Vec<u32> = Vec::new();
    indices.push(0); indices.push(1); indices.push(2);
    indices.push(2); indices.push(3); indices.push(0);
    indices.push(4); indices.push(5); indices.push(6);
    indices.push(6); indices.push(7); indices.push(4);
    indices.push(8); indices.push(9); indices.push(10);
    indices.push(10); indices.push(11); indices.push(8);
    indices.push(12); indices.push(13); indices.push(14);
    indices.push(14); indices.push(15); indices.push(12);
    indices.push(16); indices.push(17); indices.push(18);
    indices.push(18); indices.push(19); indices.push(16);
    indices.push(20); indices.push(21); indices.push(22);
    indices.push(22); indices.push(23); indices.push(20);

    proof {
        assert(indices@ =~= cube_indices());
        assert(vertices@ =~= cube_vertices().map_values(|t: Vertex| encoded_of(t)));
        assert forall|i: int| 0 <= i < indices@.len() implies #[trigger] indices@[i]
            < vertices@.len() by {
            assert(indices@[i] == cube_indices()[i]);
        }
    }
    Mesh { vertices, indices }
}

} // verus!
