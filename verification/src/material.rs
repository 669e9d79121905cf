//! The wireframe material for 2D meshes and the pipeline that draws it.

use crate::pipeline::{
    with_def, LayoutSlot, PipelineLabel, PipelineModel, PipelineSketch, ShaderDef,
};
use vstd::prelude::*;

verus! {

/// How the lines of a wireframe are drawn.
#[derive(Clone, Copy, Debug, PartialEq, Eq, Structural)]
pub enum Style {
    Solid,
    Dash,
    Dot,
}

/// Adds the wireframe material and its pipeline to an application.
#[derive(Clone, Copy, Debug, Default)]
pub struct WireframeMaterial2dPlugin;

/// The bind group that the material's draw function binds the face buffer to.
pub const MATERIAL_FACE_GROUP: usize = 3;

/// The pipeline of the wireframe material. It wraps the pipeline of 2D
/// materials, whose bind groups are the view, the mesh and the material.
#[derive(Clone, Copy, Debug)]
pub struct WireframePipeline;

/// The pipeline of the wireframe material over the material pipeline `base`:
/// the face buffer's layout follows the inherited layouts, and both stages
/// switch the shader to wireframe shading.
pub open spec fn material_pipeline(base: PipelineModel) -> PipelineModel {
    PipelineModel {
        label: PipelineLabel::WireframeMaterial2d,
        layout: base.layout.push(LayoutSlot::Face),
        vertex: with_def(base.vertex, ShaderDef::WireframeMaterial),
        fragment: match base.fragment {
            Some(stage) => Some(with_def(stage, ShaderDef::WireframeMaterial)),
            None => None,
        },
    }
}

impl WireframePipeline {
    /// Specializes the wrapped pipeline's descriptor for the wireframe material.
    ///
    /// `base` is what the wrapped pipeline made of the key and the mesh layout:
    /// its error is handed on, its descriptor is extended.
    pub fn specialize<E>(&self, base: Result<PipelineSketch, E>) -> (result: Result<PipelineSketch, E>)
        requires
            base matches Ok(descriptor) ==> descriptor@.layout.len() == MATERIAL_FACE_GROUP,
        ensures
            match base {
                Ok(descriptor) => result matches Ok(specialized)
                    && specialized@ == material_pipeline(descriptor@),
                Err(error) => result matches Err(handed_on) && handed_on == error,
            },
    {
        let descriptor = match base {
            Ok(descriptor) => descriptor,
            Err(error) => {
                return Err(error);
            },
        };
        let mut layout = descriptor.layout;
        layout.push(LayoutSlot::Face);
        let fragment = match descriptor.fragment {
            Some(stage) => Some(stage.push_def(ShaderDef::WireframeMaterial)),
            None => None,
        };
        Ok(
            PipelineSketch {
                label: PipelineLabel::WireframeMaterial2d,
                layout,
                vertex: descriptor.vertex.push_def(ShaderDef::WireframeMaterial),
                fragment,
            },
        )
    }
}

/// The draw function of the material binds the face buffer where the
/// specialized pipeline expects it: the face layout is the last of four, in
/// group [`MATERIAL_FACE_GROUP`], and the inherited layouts stay where they were.
pub proof fn lemma_material_face_group(base: PipelineModel)
    requires
        base.layout.len() == MATERIAL_FACE_GROUP,
    ensures
        material_pipeline(base).layout.len() == 4,
        material_pipeline(base).layout[MATERIAL_FACE_GROUP as int] == LayoutSlot::Face,
        forall|i: int| 0 <= i < MATERIAL_FACE_GROUP ==> material_pipeline(base).layout[i] == base.layout[i],
{
}

} // verus!
