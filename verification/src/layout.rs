use vstd::prelude::*;

verus! {

use crate::error::BlockError;

/// Identifier of the packed vertex attribute within a mesh's declared
/// vertex layout.
pub const VERT_DATA_ATTRIBUTE_ID: u64 = 65763143005;

/// Shader input location the packed attribute is bound at after
/// specialization.
pub const VERT_DATA_SHADER_LOCATION: u32 = 0;

/// Binary format of one vertex attribute as a pipeline reads it.
#[derive(Clone, Copy, Debug, PartialEq, Eq, Structural)]
pub enum AttributeFormat {
    Float32x2,
    Float32x3,
    Float32x4,
    Uint32x3,
}

impl AttributeFormat {
    /// Size of one attribute value in bytes.
    pub open spec fn spec_size(self) -> u64 {
        match self {
            AttributeFormat::Float32x2 => 8,
            AttributeFormat::Float32x3 => 12,
            AttributeFormat::Float32x4 => 16,
            AttributeFormat::Uint32x3 => 12,
        }
    }

    /// Size of one attribute value in bytes.
    pub fn size(self) -> (n: u64)
        ensures
            n == self.spec_size(),
    {
        match self {
            AttributeFormat::Float32x2 => 8,
            AttributeFormat::Float32x3 => 12,
            AttributeFormat::Float32x4 => 16,
            AttributeFormat::Uint32x3 => 12,
        }
    }
}

/// One attribute a mesh declares in its vertex-buffer layout.
#[derive(Clone, Copy, Debug, PartialEq, Eq, Structural)]
pub struct MeshAttribute {
    pub id: u64,
    pub format: AttributeFormat,
}

/// The pipeline-side vertex layout after specialization: a single vertex
/// buffer holding a single attribute.
#[derive(Clone, Copy, Debug, PartialEq, Eq, Structural)]
pub struct PipelineVertexLayout {
    pub array_stride: u64,
    pub offset: u64,
    pub shader_location: u32,
    pub format: AttributeFormat,
}

/// The packed attribute this material requires: three consecutive unsigned
/// 32-bit words under the fixed attribute identifier.
pub open spec fn is_packed_attribute(a: MeshAttribute) -> bool {
    a.id == VERT_DATA_ATTRIBUTE_ID && a.format == AttributeFormat::Uint32x3
}

/// Whether a declared vertex layout carries the packed attribute.
pub open spec fn has_packed_attribute(layout: Seq<MeshAttribute>) -> bool {
    exists|i: int| 0 <= i < layout.len() && is_packed_attribute(layout[i])
}

/// The one layout specialization can produce: the packed attribute alone,
/// 12 bytes per vertex, at offset 0 and shader location 0.
pub open spec fn packed_pipeline_layout() -> PipelineVertexLayout {
    PipelineVertexLayout {
        array_stride: 12,
        offset: 0,
        shader_location: VERT_DATA_SHADER_LOCATION,
        format: AttributeFormat::Uint32x3,
    }
}

/// Rewrites the pipeline's vertex-buffer description for one mesh layout:
/// looks the packed attribute up in the mesh's declared layout and, when it
/// is present, replaces the pipeline's buffer list with a single buffer
/// holding only that attribute at shader location 0. A mesh without the
/// attribute is incompatible with this material and must not be submitted.
///
/// The result depends only on the declared layout, so one result per
/// distinct layout may be cached.
pub fn specialize(layout: &Vec<MeshAttribute>) -> (r: Result<PipelineVertexLayout, BlockError>)
    ensures
        r is Ok <==> has_packed_attribute(layout@),
        r matches Ok(p) ==> p == packed_pipeline_layout(),
        r matches Err(e) ==> e == BlockError::MissingVertexAttribute,
{
    let mut i: usize = 0;
    while i < layout.len()
        invariant
            i <= layout@.len(),
            forall|j: int| 0 <= j < i ==> !is_packed_attribute(layout@[j]),
        decreases layout@.len() - i,
    {
        let a = layout[i];
        if a.id == VERT_DATA_ATTRIBUTE_ID && a.format == AttributeFormat::Uint32x3 {
            return Ok(PipelineVertexLayout {
                array_stride: a.format.size(),
                offset: 0,
                shader_location: VERT_DATA_SHADER_LOCATION,
                format: a.format,
            });
        }
        i += 1;
    }
    Err(BlockError::MissingVertexAttribute)
}

} // verus!
