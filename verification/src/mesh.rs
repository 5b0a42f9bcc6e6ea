use vstd::prelude::*;

verus! {

use crate::vertex::EncodedVertex;

/// An ordered sequence of encoded vertices plus an ordered sequence of
/// 32-bit indices; the topology is always a triangle list.
pub struct Mesh {
    pub vertices: Vec<EncodedVertex>,
    pub indices: Vec<u32>,
}

impl Mesh {
    /// Every index points into the vertex buffer, and the index count is a
    /// whole number of triangles.
    pub open spec fn wf(self) -> bool {
        &&& forall|i: int|
            0 <= i < self.indices@.len() ==> #[trigger] self.indices@[i] < self.vertices@.len()
        &&& self.indices@.len() % 3 == 0
    }

    /// Number of vertices in the buffer.
    pub fn vertex_count(&self) -> (n: usize)
        ensures
            n == self.vertices@.len(),
    {
        self.vertices.len()
    }

    /// Number of indices in the buffer.
    pub fn index_count(&self) -> (n: usize)
        ensures
            n == self.indices@.len(),
    {
        self.indices.len()
    }
}

} // verus!
