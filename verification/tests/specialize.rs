use block_material::error::BlockError;
use block_material::layout::{
    specialize, AttributeFormat, MeshAttribute, PipelineVertexLayout, VERT_DATA_ATTRIBUTE_ID,
};
use block_material::material::BlockMaterial;

fn packed() -> MeshAttribute {
    MeshAttribute { id: VERT_DATA_ATTRIBUTE_ID, format: AttributeFormat::Uint32x3 }
}

#[test]
fn specialize_fails_on_empty_layout() {
    let layout: Vec<MeshAttribute> = Vec::new();
    assert_eq!(specialize(&layout), Err(BlockError::MissingVertexAttribute));
}

#[test]
fn specialize_fails_without_packed_attribute() {
    let layout = vec![
        MeshAttribute { id: 0, format: AttributeFormat::Float32x3 },
        MeshAttribute { id: 2, format: AttributeFormat::Float32x2 },
    ];
    assert_eq!(specialize(&layout), Err(BlockError::MissingVertexAttribute));
}

#[test]
fn specialize_returns_single_packed_attribute_at_location_0() {
    let layout = vec![MeshAttribute { id: 0, format: AttributeFormat::Float32x3 }, packed()];
    let p = specialize(&layout).expect("layout with the packed attribute must specialize");
    assert_eq!(
        p,
        PipelineVertexLayout {
            array_stride: 12,
            offset: 0,
            shader_location: 0,
            format: AttributeFormat::Uint32x3,
        }
    );
}

#[test]
fn specialize_result_is_layout_order_independent() {
    let first = vec![packed(), MeshAttribute { id: 7, format: AttributeFormat::Float32x4 }];
    let last = vec![MeshAttribute { id: 7, format: AttributeFormat::Float32x4 }, packed()];
    assert_eq!(specialize(&first), specialize(&last));
}

#[test]
fn material_specialize_hook_matches_free_function() {
    let layout = vec![packed()];
    assert_eq!(BlockMaterial::specialize(&layout), specialize(&layout));
    let missing: Vec<MeshAttribute> = Vec::new();
    assert_eq!(
        BlockMaterial::specialize(&missing),
        Err(BlockError::MissingVertexAttribute)
    );
}
