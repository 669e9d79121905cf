//! The shape of a render pipeline, without the GPU objects that fill it.
//!
//! The overlay never builds a pipeline from nothing: it takes the descriptor of
//! the pipeline it wraps and adds to it. A sketch records, for every part of the
//! result that the overlay touches, whether the part is inherited or the
//! overlay's own.

use vstd::prelude::*;

verus! {

/// One bind group layout of a pipeline.
#[derive(Clone, Copy, Debug, PartialEq, Eq, Structural)]
pub enum LayoutSlot {
    /// The layout that the wrapped pipeline has at this position.
    Inherited(usize),
    /// The layout of the face buffer.
    Face,
}

/// The shader module of a stage.
#[derive(Clone, Copy, Debug, PartialEq, Eq, Structural)]
pub enum ShaderSlot {
    /// The shader of the wrapped pipeline.
    Inherited,
    /// The wireframe shader.
    Wireframe,
}

/// One shader definition of a stage.
#[derive(Clone, Copy, Debug, PartialEq, Eq, Structural)]
pub enum ShaderDef {
    /// The definition that the wrapped pipeline has at this position.
    Inherited(usize),
    /// The definition that switches the material shader to wireframe shading.
    WireframeMaterial,
}

/// The debug label of a pipeline.
#[derive(Clone, Copy, Debug, PartialEq, Eq, Structural)]
pub enum PipelineLabel {
    /// The label of the wrapped pipeline.
    Inherited,
    /// The label of the wireframe material pipeline.
    WireframeMaterial2d,
    /// The label of the wireframe mesh pipeline.
    WireframeMesh2d,
}

/// The vertex or the fragment stage of a pipeline.
#[derive(Debug)]
pub struct StageSketch {
    pub shader: ShaderSlot,
    pub shader_defs: Vec<ShaderDef>,
}

/// A render pipeline descriptor, reduced to what the overlay decides.
#[derive(Debug)]
pub struct PipelineSketch {
    pub label: PipelineLabel,
    pub layout: Vec<LayoutSlot>,
    pub vertex: StageSketch,
    pub fragment: Option<StageSketch>,
}

/// The mathematical value of a [`StageSketch`].
pub struct StageModel {
    pub shader: ShaderSlot,
    pub shader_defs: Seq<ShaderDef>,
}

/// The mathematical value of a [`PipelineSketch`].
pub struct PipelineModel {
    pub label: PipelineLabel,
    pub layout: Seq<LayoutSlot>,
    pub vertex: StageModel,
    pub fragment: Option<StageModel>,
}

impl View for StageSketch {
    type V = StageModel;

    open spec fn view(&self) -> StageModel {
        StageModel { shader: self.shader, shader_defs: self.shader_defs@ }
    }
}

impl View for PipelineSketch {
    type V = PipelineModel;

    open spec fn view(&self) -> PipelineModel {
        PipelineModel {
            label: self.label,
            layout: self.layout@,
            vertex: self.vertex@,
            fragment: match self.fragment {
                Some(stage) => Some(stage@),
                None => None,
            },
        }
    }
}

/// The first `count` layouts of the wrapped pipeline.
pub open spec fn inherited_layouts(count: nat) -> Seq<LayoutSlot> {
    Seq::new(count, |i: int| LayoutSlot::Inherited(i as usize))
}

/// The first `count` shader definitions of a stage of the wrapped pipeline.
pub open spec fn inherited_defs(count: nat) -> Seq<ShaderDef> {
    Seq::new(count, |i: int| ShaderDef::Inherited(i as usize))
}

/// A stage of the wrapped pipeline with `defs` shader definitions.
pub open spec fn inherited_stage(defs: nat) -> StageModel {
    StageModel { shader: ShaderSlot::Inherited, shader_defs: inherited_defs(defs) }
}

/// The wrapped pipeline itself.
pub open spec fn inherited_pipeline(
    layouts: nat,
    vertex_defs: nat,
    fragment_defs: Option<nat>,
) -> PipelineModel {
    PipelineModel {
        label: PipelineLabel::Inherited,
        layout: inherited_layouts(layouts),
        vertex: inherited_stage(vertex_defs),
        fragment: match fragment_defs {
            Some(defs) => Some(inherited_stage(defs)),
            None => None,
        },
    }
}

/// `stage` with `def` as its last shader definition.
pub open spec fn with_def(stage: StageModel, def: ShaderDef) -> StageModel {
    StageModel { shader: stage.shader, shader_defs: stage.shader_defs.push(def) }
}

/// `stage` with `shader` in place of its shader.
pub open spec fn with_shader(stage: StageModel, shader: ShaderSlot) -> StageModel {
    StageModel { shader, shader_defs: stage.shader_defs }
}

/// The text of `label`; the inherited label has none of its own.
pub open spec fn label_text(label: PipelineLabel) -> Option<Seq<char>> {
    match label {
        PipelineLabel::Inherited => None,
        PipelineLabel::WireframeMaterial2d => Some("wireframe_material2d_pipeline"@),
        PipelineLabel::WireframeMesh2d => Some("wireframe_mesh2d_pipeline"@),
    }
}

/// The name of `def`; an inherited definition has none of its own.
pub open spec fn def_name(def: ShaderDef) -> Option<Seq<char>> {
    match def {
        ShaderDef::Inherited(_) => None,
        ShaderDef::WireframeMaterial => Some("WIREFRAME_MATERIAL"@),
    }
}

impl PipelineLabel {
    /// The text to label the pipeline with, or `None` to keep the label of the
    /// wrapped pipeline.
    pub fn text(&self) -> (text: Option<&'static str>)
        ensures
            match text {
                Some(s) => label_text(*self) == Some(s@),
                None => label_text(*self).is_none(),
            },
    {
        match self {
            PipelineLabel::Inherited => None,
            PipelineLabel::WireframeMaterial2d => Some("wireframe_material2d_pipeline"),
            PipelineLabel::WireframeMesh2d => Some("wireframe_mesh2d_pipeline"),
        }
    }
}

impl ShaderDef {
    /// The name to define in the shader, or `None` for a definition of the
    /// wrapped pipeline.
    pub fn name(&self) -> (name: Option<&'static str>)
        ensures
            match name {
                Some(s) => def_name(*self) == Some(s@),
                None => def_name(*self).is_none(),
            },
    {
        match self {
            ShaderDef::Inherited(_) => None,
            ShaderDef::WireframeMaterial => Some("WIREFRAME_MATERIAL"),
        }
    }
}

impl StageSketch {
    /// The sketch of a stage of the wrapped pipeline with `defs` shader definitions.
    pub fn inherited(defs: usize) -> (stage: Self)
        ensures
            stage@ == inherited_stage(defs as nat),
    {
        let mut shader_defs: Vec<ShaderDef> = Vec::new();
        let mut i: usize = 0;
        while i < defs
            invariant
                i <= defs,
                shader_defs@ == inherited_defs(i as nat),
            decreases defs - i,
        {
            shader_defs.push(ShaderDef::Inherited(i));
            i = i + 1;
        }
        StageSketch { shader: ShaderSlot::Inherited, shader_defs }
    }

    /// Appends `def` to the shader definitions of the stage.
    pub fn push_def(self, def: ShaderDef) -> (stage: Self)
        ensures
            stage@ == with_def(self@, def),
    {
        let mut shader_defs = self.shader_defs;
        shader_defs.push(def);
        StageSketch { shader: self.shader, shader_defs }
    }

    /// Replaces the shader of the stage.
    pub fn set_shader(self, shader: ShaderSlot) -> (stage: Self)
        ensures
            stage@ == with_shader(self@, shader),
    {
        StageSketch { shader, shader_defs: self.shader_defs }
    }
}

impl PipelineSketch {
    /// The sketch of the wrapped pipeline: `layouts` bind group layouts,
    /// `vertex_defs` shader definitions in the vertex stage, and a fragment
    /// stage with `fragment_defs` definitions if `fragment_defs` is `Some`.
    pub fn inherited(layouts: usize, vertex_defs: usize, fragment_defs: Option<usize>) -> (sketch: Self)
        ensures
            sketch@ == inherited_pipeline(
                layouts as nat,
                vertex_defs as nat,
                match fragment_defs {
                    Some(defs) => Some(defs as nat),
                    None => None,
                },
            ),
    {
        let mut layout: Vec<LayoutSlot> = Vec::new();
        let mut i: usize = 0;
        while i < layouts
            invariant
                i <= layouts,
                layout@ == inherited_layouts(i as nat),
            decreases layouts - i,
        {
            layout.push(LayoutSlot::Inherited(i));
            i = i + 1;
        }
        let fragment = match fragment_defs {
            Some(defs) => Some(StageSketch::inherited(defs)),
            None => None,
        };
        PipelineSketch {
            label: PipelineLabel::Inherited,
            layout,
            vertex: StageSketch::inherited(vertex_defs),
            fragment,
        }
    }
}

} // verus!
