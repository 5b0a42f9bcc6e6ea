use vstd::prelude::*;

verus! {

use crate::error::BlockError;

/// Largest position coordinate: 6 bits per coordinate.
pub const MAX_POSITION: u32 = 63;
/// Largest remapped normal component: `(n + 1) * 16` maps the unit range
/// `[-1, 1]` to `[0, 32]`, which fits 6 bits with headroom.
pub const MAX_NORMAL: u32 = 32;
/// Largest texel coordinate: 11 bits hold `floor(uv * 32)` up to 2047.
pub const MAX_UV: u32 = 2047;
/// Largest texture-array layer index: 14 bits.
pub const MAX_TEXTURE_LAYER: u16 = 16383;

/// One vertex before encoding, with every attribute already in the integer
/// form the wire format packs:
///
/// - `position`: integer coordinates, each in `[0, 63]`;
/// - `normal`: remapped components `(n + 1) * 16`, each in `[0, 32]`,
///   so an axis-aligned unit normal such as `(0, 0, 1)` reads `(16, 16, 32)`;
/// - `uv`: texel coordinates `floor(uv * 32)`, each in `[0, 2047]`;
/// - `texture_layer`: layer index into the bound texture arrays, below 16384.
///
/// A caller that starts from floating-point normals and UV coordinates
/// applies the remap and the scale before constructing a `Vertex`; the
/// device-side shader undoes exactly those two transforms.
#[derive(Clone, Copy, Debug, PartialEq, Eq)]
pub struct Vertex {
    pub position: (u32, u32, u32),
    pub normal: (u32, u32, u32),
    pub uv: (u32, u32),
    pub texture_layer: u16,
}

/// Exactly three unsigned 32-bit words, produced one-way from a `Vertex`.
/// Never decoded on the host side; decoding is the device's responsibility.
#[derive(Clone, Copy, Debug, PartialEq, Eq)]
pub struct EncodedVertex {
    pub word0: u32,
    pub word1: u32,
    pub word2: u32,
}

/// The invariants that must hold of a vertex at encode time.
pub open spec fn valid_vertex(v: Vertex) -> bool {
    &&& v.position.0 <= MAX_POSITION
    &&& v.position.1 <= MAX_POSITION
    &&& v.position.2 <= MAX_POSITION
    &&& v.normal.0 <= MAX_NORMAL
    &&& v.normal.1 <= MAX_NORMAL
    &&& v.normal.2 <= MAX_NORMAL
    &&& v.uv.0 <= MAX_UV
    &&& v.uv.1 <= MAX_UV
    &&& v.texture_layer <= MAX_TEXTURE_LAYER
}

/// First word: position, 6 bits per coordinate.
pub open spec fn word0_of(v: Vertex) -> u32 {
    v.position.0 | v.position.1 << 6 | v.position.2 << 12
}

/// Second word: remapped normal, 6 bits per component, then the
/// texture layer in the remaining 14 bits.
pub open spec fn word1_of(v: Vertex) -> u32 {
    v.normal.0 | v.normal.1 << 6 | v.normal.2 << 12 | (v.texture_layer as u32) << 18
}

/// Third word: texel coordinates, 11 bits each.
pub open spec fn word2_of(v: Vertex) -> u32 {
    v.uv.0 | v.uv.1 << 11
}

/// The full three-word record for a vertex.
pub open spec fn encoded_of(v: Vertex) -> EncodedVertex {
    EncodedVertex { word0: word0_of(v), word1: word1_of(v), word2: word2_of(v) }
}

/// Packs one vertex into its three-word record.
///
/// Succeeds exactly on vertices that satisfy the encode-time invariants;
/// any violated bit-width bound is an encoding overflow.
pub fn encode(v: &Vertex) -> (r: Result<EncodedVertex, BlockError>)
    ensures
        r is Ok <==> valid_vertex(*v),
        r matches Ok(e) ==> e == encoded_of(*v),
        r matches Err(e) ==> e == BlockError::EncodingOverflow,
{
    if v.position.0 > MAX_POSITION || v.position.1 > MAX_POSITION || v.position.2 > MAX_POSITION
        || v.normal.0 > MAX_NORMAL || v.normal.1 > MAX_NORMAL || v.normal.2 > MAX_NORMAL
        || v.uv.0 > MAX_UV || v.uv.1 > MAX_UV
        || v.texture_layer > MAX_TEXTURE_LAYER
    {
        return Err(BlockError::EncodingOverflow);
    }
    Ok(EncodedVertex {
        word0: v.position.0 | v.position.1 << 6 | v.position.2 << 12,
        word1: v.normal.0 | v.normal.1 << 6 | v.normal.2 << 12
            | (v.texture_layer as u32) << 18,
        word2: v.uv.0 | v.uv.1 << 11,
    })
}

/// The position fields of a valid vertex are recovered from the first word
/// by the same bit widths the shader uses: bits 0-5 are `x`, 6-11 are `y`,
/// 12-17 are `z`.
pub proof fn lemma_word0_recovers_position(v: Vertex)
    requires
        valid_vertex(v),
    ensures
        word0_of(v) & 63 == v.position.0,
        (word0_of(v) >> 6) & 63 == v.position.1,
        (word0_of(v) >> 12) & 63 == v.position.2,
{
    let x = v.position.0;
    let y = v.position.1;
    let z = v.position.2;
    assert((x | y << 6 | z << 12) & 63 == x) by (bit_vector)
        requires x <= 63 && y <= 63 && z <= 63;
    assert(((x | y << 6 | z << 12) >> 6) & 63 == y) by (bit_vector)
        requires x <= 63 && y <= 63 && z <= 63;
    assert(((x | y << 6 | z << 12) >> 12) & 63 == z) by (bit_vector)
        requires x <= 63 && y <= 63 && z <= 63;
}

/// The remapped normal and the texture layer are recovered from the second
/// word: bits 0-5, 6-11 and 12-17 are the normal components, bits 18-31 are
/// the layer.
pub proof fn lemma_word1_recovers_normal_and_layer(v: Vertex)
    requires
        valid_vertex(v),
    ensures
        word1_of(v) & 63 == v.normal.0,
        (word1_of(v) >> 6) & 63 == v.normal.1,
        (word1_of(v) >> 12) & 63 == v.normal.2,
        word1_of(v) >> 18 == v.texture_layer as u32,
{
    let x = v.normal.0;
    let y = v.normal.1;
    let z = v.normal.2;
    let t = v.texture_layer as u32;
    assert((x | y << 6 | z << 12 | t << 18) & 63 == x) by (bit_vector)
        requires x <= 32 && y <= 32 && z <= 32 && t <= 16383;
    assert(((x | y << 6 | z << 12 | t << 18) >> 6) & 63 == y) by (bit_vector)
        requires x <= 32 && y <= 32 && z <= 32 && t <= 16383;
    assert(((x | y << 6 | z << 12 | t << 18) >> 12) & 63 == z) by (bit_vector)
        requires x <= 32 && y <= 32 && z <= 32 && t <= 16383;
    assert((x | y << 6 | z << 12 | t << 18) >> 18 == t) by (bit_vector)
        requires x <= 32 && y <= 32 && z <= 32 && t <= 16383;
}

/// The texel coordinates are recovered from the third word: bits 0-10 are
/// `u`, bits 11-21 are `v`.
pub proof fn lemma_word2_recovers_uv(v: Vertex)
    requires
        valid_vertex(v),
    ensures
        word2_of(v) & 2047 == v.uv.0,
        word2_of(v) >> 11 == v.uv.1,
{
    let u = v.uv.0;
    let w = v.uv.1;
    assert((u | w << 11) & 2047 == u) by (bit_vector)
        requires u <= 2047 && w <= 2047;
    assert((u | w << 11) >> 11 == w) by (bit_vector)
        requires u <= 2047 && w <= 2047;
}

} // verus!
