use vstd::prelude::*;

verus! {

use crate::material::AlphaMode;

/// Load state of the stacked source image, as the external asset
/// collaborator reports it each poll.
#[derive(Clone, Copy, Debug, PartialEq, Eq, Structural)]
pub enum ImageLoadState {
    NotLoaded,
    Loading,
    Loaded,
    Failed,
}

/// The asset-readiness latch: a boolean that flips once from pending to
/// done and never back. While it is pending, every poll that does not see
/// the image loaded is a no-op; the first poll that does fires the one-shot
/// block setup and flips the latch.
#[derive(Clone, Copy, Debug, PartialEq, Eq, Structural)]
pub struct LoadingTexture {
    pub is_loaded: bool,
}

/// Number of array layers the flat source image is reinterpreted as.
pub const BLOCK_ARRAY_LAYERS: u32 = 4;

/// The one-shot work the latch fires exactly once: reinterpret the loaded
/// flat image as a texture array, create the two solid-color placeholder
/// arrays (RGBA byte patterns below, 1x1 texels, one layer per array
/// layer), and build the material and cube with the given alpha policy.
#[derive(Clone, Copy, Debug, PartialEq, Eq)]
pub struct BlockSetup {
    pub array_layers: u32,
    pub emissive_fill: (u8, u8, u8, u8),
    pub metallic_roughness_fill: (u8, u8, u8, u8),
    pub alpha_mode: AlphaMode,
}

/// Whether a poll in the given latch state fires the one-shot setup.
pub open spec fn latch_fires(latch: LoadingTexture, state: ImageLoadState) -> bool {
    !latch.is_loaded && state == ImageLoadState::Loaded
}

/// The latch state after one poll: flipped to done exactly when the poll
/// fires, unchanged otherwise.
pub open spec fn latch_after(latch: LoadingTexture, state: ImageLoadState) -> LoadingTexture {
    if latch_fires(latch, state) {
        LoadingTexture { is_loaded: true }
    } else {
        latch
    }
}

/// The fixed setup every firing produces: 4 array layers, a fully
/// transparent black emissive placeholder, a placeholder with roughness 255
/// and metallic 0 (red channel unused), and opaque alpha.
pub open spec fn standard_block_setup() -> BlockSetup {
    BlockSetup {
        array_layers: BLOCK_ARRAY_LAYERS,
        emissive_fill: (0u8, 0u8, 0u8, 0u8),
        metallic_roughness_fill: (0u8, 255u8, 0u8, 255u8),
        alpha_mode: AlphaMode::Opaque,
    }
}

/// One poll of the readiness latch. Returns the block setup to perform
/// exactly when this poll fires the latch: the latch was pending and the
/// image is now loaded. Every other poll changes nothing and returns no
/// work.
pub fn try_spawn_block(latch: &mut LoadingTexture, state: ImageLoadState) -> (r: Option<BlockSetup>)
    ensures
        *final(latch) == latch_after(*old(latch), state),
        r is Some <==> latch_fires(*old(latch), state),
        r matches Some(setup) ==> setup == standard_block_setup(),
{
    if latch.is_loaded || !(state == ImageLoadState::Loaded) {
        return None;
    }
    latch.is_loaded = true;
    Some(BlockSetup {
        array_layers: BLOCK_ARRAY_LAYERS,
        emissive_fill: (0, 0, 0, 0),
        metallic_roughness_fill: (0, 255, 0, 255),
        alpha_mode: AlphaMode::Opaque,
    })
}

/// The latch fires its effect at most once: after any poll that saw the
/// image loaded, the latch is done, so no later poll fires again or moves
/// the latch, whatever state those later polls observe.
pub proof fn lemma_latch_fires_at_most_once(
    latch: LoadingTexture,
    first: ImageLoadState,
    later: ImageLoadState,
)
    requires
        first == ImageLoadState::Loaded,
    ensures
        !latch_fires(latch_after(latch, first), later),
        latch_after(latch_after(latch, first), later) == latch_after(latch, first),
{
}

} // verus!
