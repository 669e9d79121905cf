use bevy_wireframe::material::{Style, WireframePipeline, MATERIAL_FACE_GROUP};
use bevy_wireframe::pipeline::{
    LayoutSlot, PipelineLabel, PipelineSketch, ShaderDef, ShaderSlot,
};

#[test]
fn material_pipeline_adds_the_face_layout_as_fourth() {
    let base = PipelineSketch::inherited(3, 0, Some(0));
    let specialized = WireframePipeline.specialize::<u8>(Ok(base)).unwrap();
    assert_eq!(
        specialized.layout,
        vec![
            LayoutSlot::Inherited(0),
            LayoutSlot::Inherited(1),
            LayoutSlot::Inherited(2),
            LayoutSlot::Face,
        ]
    );
    assert_eq!(MATERIAL_FACE_GROUP, 3);
    assert_eq!(specialized.layout[MATERIAL_FACE_GROUP], LayoutSlot::Face);
}

#[test]
fn material_pipeline_defines_the_wireframe_material_in_both_stages() {
    let base = PipelineSketch::inherited(3, 2, Some(1));
    let specialized = WireframePipeline.specialize::<u8>(Ok(base)).unwrap();
    assert_eq!(specialized.label, PipelineLabel::WireframeMaterial2d);
    assert_eq!(specialized.vertex.shader, ShaderSlot::Inherited);
    assert_eq!(
        specialized.vertex.shader_defs,
        vec![ShaderDef::Inherited(0), ShaderDef::Inherited(1), ShaderDef::WireframeMaterial]
    );
    let fragment = specialized.fragment.unwrap();
    assert_eq!(fragment.shader, ShaderSlot::Inherited);
    assert_eq!(fragment.shader_defs, vec![ShaderDef::Inherited(0), ShaderDef::WireframeMaterial]);
}

#[test]
fn material_pipeline_without_fragment_stage_gets_none() {
    let base = PipelineSketch::inherited(3, 0, None);
    let specialized = WireframePipeline.specialize::<u8>(Ok(base)).unwrap();
    assert!(specialized.fragment.is_none());
    assert_eq!(specialized.vertex.shader_defs, vec![ShaderDef::WireframeMaterial]);
    assert_eq!(specialized.layout.len(), 4);
}

#[test]
fn material_pipeline_hands_an_error_on() {
    let result = WireframePipeline.specialize(Err(17u32));
    assert!(matches!(result, Err(17)));
}

#[test]
fn styles_differ() {
    assert_ne!(Style::Solid, Style::Dash);
    assert_ne!(Style::Dash, Style::Dot);
    assert_eq!(Style::Dot.clone(), Style::Dot);
}
