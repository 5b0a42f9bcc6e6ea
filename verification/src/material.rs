use vstd::prelude::*;

verus! {

use crate::error::BlockError;
use crate::layout::{specialize, MeshAttribute, PipelineVertexLayout};

/// Handle to a renderer-owned texture-array asset, carried as a plain
/// identifier. The renderer integration maps it to its own asset handle.
#[derive(Clone, Copy, Debug, PartialEq, Eq, Structural)]
pub struct TextureArrayHandle {
    pub id: u64,
}

/// Policy for how a fragment's transparency interacts with the framebuffer.
#[derive(Clone, Copy, Debug, PartialEq, Eq, Structural)]
pub enum AlphaMode {
    Opaque,
    Blend,
    Mask,
}

/// Texture binding slot of the base-color array.
pub const BASE_COLOR_TEXTURE_BINDING: u32 = 101;
/// Sampler binding slot of the base-color array.
pub const BASE_COLOR_SAMPLER_BINDING: u32 = 102;
/// Texture binding slot of the emissive array.
pub const EMISSIVE_TEXTURE_BINDING: u32 = 103;
/// Sampler binding slot of the emissive array.
pub const EMISSIVE_SAMPLER_BINDING: u32 = 104;
/// Texture binding slot of the metallic/roughness array (roughness in
/// channel 2, metallic in channel 3, channel 1 unused).
pub const METALLIC_ROUGHNESS_TEXTURE_BINDING: u32 = 105;
/// Sampler binding slot of the metallic/roughness array.
pub const METALLIC_ROUGHNESS_SAMPLER_BINDING: u32 = 106;

/// Path of the shader program used by the main pass, for both the vertex
/// and the fragment stage.
pub open spec fn main_shader_path() -> Seq<char> {
    "shaders/block_shader.wgsl"@
}

/// Path of the shader program used by the depth/normal prepass; it decodes
/// the identical packed-vertex contract.
pub open spec fn prepass_shader_path() -> Seq<char> {
    "shaders/block_shader_prepass.wgsl"@
}

/// A material that binds three texture arrays (base color, emissive,
/// metallic/roughness) at fixed slots and draws meshes that carry the
/// packed vertex attribute. Shared by every mesh drawn with it.
#[derive(Clone, Copy, Debug, PartialEq, Eq, Structural)]
pub struct BlockMaterial {
    pub base_color_array_texture: TextureArrayHandle,
    pub emissive_array_texture: TextureArrayHandle,
    pub metallic_roughness_array_texture: TextureArrayHandle,
    pub alpha_mode: AlphaMode,
}

impl BlockMaterial {
    /// Shader program of the main pass, vertex stage.
    pub fn vertex_shader() -> (r: &'static str)
        ensures
            r@ == main_shader_path(),
    {
        "shaders/block_shader.wgsl"
    }

    /// Shader program of the main pass, fragment stage.
    pub fn fragment_shader() -> (r: &'static str)
        ensures
            r@ == main_shader_path(),
    {
        "shaders/block_shader.wgsl"
    }

    /// Shader program of the prepass, vertex stage.
    pub fn prepass_vertex_shader() -> (r: &'static str)
        ensures
            r@ == prepass_shader_path(),
    {
        "shaders/block_shader_prepass.wgsl"
    }

    /// Shader program of the prepass, fragment stage.
    pub fn prepass_fragment_shader() -> (r: &'static str)
        ensures
            r@ == prepass_shader_path(),
    {
        "shaders/block_shader_prepass.wgsl"
    }

    /// The alpha-blend policy the rasterizer's blend stage uses for every
    /// draw with this material.
    pub fn alpha_mode(&self) -> (r: AlphaMode)
        ensures
            r == self.alpha_mode,
    {
        self.alpha_mode
    }

    /// The specialization hook: rewrites the pipeline's vertex-buffer
    /// description to the single packed attribute, or reports the mesh
    /// incompatible. See [`crate::layout::specialize`].
    pub fn specialize(layout: &Vec<MeshAttribute>) -> (r: Result<PipelineVertexLayout, BlockError>)
        ensures
            r is Ok <==> crate::layout::has_packed_attribute(layout@),
            r matches Ok(p) ==> p == crate::layout::packed_pipeline_layout(),
            r matches Err(e) ==> e == BlockError::MissingVertexAttribute,
    {
        specialize(layout)
    }
}

} // verus!
