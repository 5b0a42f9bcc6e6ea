use vstd::prelude::*;

verus! {

/// The two failure kinds of this library.
///
/// `EncodingOverflow`: a vertex attribute violates its bit-width precondition.
/// This is a construction-time fault in the input geometry, never a transient
/// condition, and aborts mesh construction for that vertex.
///
/// `MissingVertexAttribute`: a mesh's declared vertex layout lacks the packed
/// attribute this material requires, so the mesh cannot be drawn with it.
#[derive(Clone, Copy, Debug, PartialEq, Eq, Structural)]
pub enum BlockError {
    EncodingOverflow,
    MissingVertexAttribute,
}

} // verus!
