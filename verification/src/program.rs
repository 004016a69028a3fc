//! Shader programs: where their source comes from and what a pipeline built
//! from them looks like.
use crate::binding::ShaderStages;
use crate::binding::STAGE_COMPUTE;
use crate::pipelines::describes;
use crate::pipelines::BindGroupLayouts;
use crate::reflection::reflect_spec;
use crate::reflection::ReflectError;
use crate::reflection::ReflectState;
use crate::reflection::Reflection;
use crate::reflection::ReflectionSettings;
use crate::reflector::are_entry_points_of;
use crate::reflector::reflect;
use crate::reflector::spec_reflectable;
use crate::reflector::spec_reports;
use crate::shader::ScalarType;
use crate::shader::ShaderEntryPoint;
use crate::shader::ShaderVariable;
use crate::shader::VariableType;
use crate::shader::ExecutionModel;
use crate::table::binding_tables_agree;
use crate::table::merge_bind_group_layout_entries;
use crate::table::merge_tables;
use crate::table::table_view;
use crate::table::tables_agree;
use vstd::prelude::*;

verus! {

/// Where the code of a shader comes from: a file of compiled bytecode, or a
/// file of source text that is compiled for each entry point.
pub enum ShaderSource<'a> {
    Spirv(&'a str),
    Hlsl(&'a str),
}

impl<'a> ShaderSource<'a> {
    /// The file name of the source.
    pub open spec fn spec_as_str(&self) -> &'a str {
        match self {
            ShaderSource::Spirv(filename) => filename,
            ShaderSource::Hlsl(filename) => filename,
        }
    }

    /// The file name of the source.
    pub fn as_str(&self) -> (filename: &'a str)
        ensures
            filename == self.spec_as_str(),
    {
        match self {
            ShaderSource::Spirv(filename) => filename,
            ShaderSource::Hlsl(filename) => filename,
        }
    }

    /// Whether the source is text that has to be compiled.
    pub fn needs_compiling(&self) -> (needed: bool)
        ensures
            needed == (self is Hlsl),
    {
        match self {
            ShaderSource::Spirv(_) => false,
            ShaderSource::Hlsl(_) => true,
        }
    }
}

/// Stage that a shader is compiled for.
#[derive(Clone, Copy, Debug, PartialEq, Eq, Structural)]
pub enum ShaderStage {
    Vertex,
    Fragment,
    Compute,
}

/// The compiler profile of a stage.
pub fn shader_profile(stage: ShaderStage) -> (profile: &'static str)
    ensures
        profile@ == match stage {
            ShaderStage::Vertex => "vs_6_0"@,
            ShaderStage::Fragment => "ps_6_0"@,
            ShaderStage::Compute => "cs_6_0"@,
        },
{
    match stage {
        ShaderStage::Vertex => "vs_6_0",
        ShaderStage::Fragment => "ps_6_0",
        ShaderStage::Compute => "cs_6_0",
    }
}

/// The arguments that the shader compiler is given besides the profile:
/// bytecode for the backend, the language version, and warnings as errors.
pub fn compile_arguments() -> (arguments: Vec<&'static str>)
    ensures
        arguments@.len() == 4,
        arguments@[0]@ == "-spirv"@,
        arguments@[1]@ == "-HV"@,
        arguments@[2]@ == "2021"@,
        arguments@[3]@ == "-WX"@,
{
    let mut arguments: Vec<&'static str> = Vec::new();
    arguments.push("-spirv");
    arguments.push("-HV");
    arguments.push("2021");
    arguments.push("-WX");
    arguments
}

/// Why a pipeline cannot be built.
#[derive(Clone, Copy, Debug, PartialEq, Eq, Structural)]
pub enum PipelineError {
    /// Reflection of a shader failed.
    Reflect(ReflectError),
    /// Bytecode was to be handed to the backend as it is, unvalidated.
    RawSpirv,
    /// A compute shader does not have exactly one entry point.
    EntryPointCount,
    /// The push constants do not fit a range of 32-bit offsets.
    PushConstantsTooLarge,
    /// The vertex and the fragment stage declare different resources at one
    /// slot.
    ConflictingStages,
    /// A vertex input has a type for which no vertex format is known.
    UnsupportedVertexInput,
}

/// Range of push-constant bytes, from `start` up to `end`, that the stages
/// `stages` can see.
#[derive(Clone, Copy, Debug, PartialEq, Eq, Structural)]
pub struct PushConstantRange {
    pub stages: ShaderStages,
    pub start: u32,
    pub end: u32,
}

/// What a compute pipeline is built from, besides the bytecode itself.
pub struct ComputePipeline {
    pub bind_group_layouts: BindGroupLayouts,
    pub push_constant_range: PushConstantRange,
}

/// Whether `pipeline` is the layout of a compute shader with the entry points
/// `entry_points`: there is one entry point, the layouts describe the
/// bindings that reflection derives, and the one push-constant range holds
/// the largest block.
pub open spec fn is_compute_layout(
    entry_points: Seq<ShaderEntryPoint>,
    settings: ReflectionSettings,
    pipeline: ComputePipeline,
) -> bool {
    &&& entry_points.len() == 1
    &&& reflect_spec(entry_points, settings) matches Ok(state)
    &&& describes(pipeline.bind_group_layouts.spec_layouts(), state.bindings)
    &&& state.max_push_constant_size <= u32::MAX
    &&& pipeline.push_constant_range == (PushConstantRange {
        stages: ShaderStages { bits: STAGE_COMPUTE },
        start: 0,
        end: state.max_push_constant_size as u32,
    })
}

impl ComputePipeline {
    /// Lays out a compute pipeline for a reflected shader: one binding-set
    /// layout for each set, and one push-constant range that holds the
    /// largest block. The shader must have exactly one entry point.
    pub fn from_reflection(reflection: &Reflection) -> (r: Result<ComputePipeline, PipelineError>)
        ensures
            match r {
                Ok(pipeline) => {
                    &&& reflection.entry_points@.len() == 1
                    &&& describes(
                        pipeline.bind_group_layouts.spec_layouts(),
                        table_view(reflection.bindings),
                    )
                    &&& pipeline.push_constant_range == (PushConstantRange {
                        stages: ShaderStages { bits: STAGE_COMPUTE },
                        start: 0,
                        end: reflection.max_push_constant_size as u32,
                    })
                    &&& reflection.max_push_constant_size <= u32::MAX
                },
                Err(e) => if reflection.entry_points@.len() != 1 {
                    e == PipelineError::EntryPointCount
                } else {
                    e == PipelineError::PushConstantsTooLarge && reflection.max_push_constant_size
                        > u32::MAX
                },
            },
    {
        if reflection.entry_points.len() != 1 {
            return Err(PipelineError::EntryPointCount);
        }
        if reflection.max_push_constant_size > 0xFFFF_FFFF {
            return Err(PipelineError::PushConstantsTooLarge);
        }
        Ok(
            ComputePipeline {
                bind_group_layouts: BindGroupLayouts::new(&reflection.bindings),
                push_constant_range: PushConstantRange {
                    stages: ShaderStages::compute(),
                    start: 0,
                    end: reflection.max_push_constant_size as u32,
                },
            },
        )
    }

    /// Lays out a compute pipeline for the shader held in `shader_bytes`.
    ///
    /// Bytecode is always validated, so `raw_spirv` is refused. A module that
    /// gives no entry points is malformed. Otherwise the result is what
    /// `from_reflection` makes of the reflection of the entry points that
    /// the reflector reports.
    pub fn new(shader_bytes: &[u8], reflection_settings: &ReflectionSettings, raw_spirv: bool) -> (r:
        Result<ComputePipeline, PipelineError>)
        ensures
            spec_compute_pipeline(shader_bytes@, *reflection_settings, raw_spirv, r),
    {
        if raw_spirv {
            return Err(PipelineError::RawSpirv);
        }
        match reflect(shader_bytes, reflection_settings) {
            Ok(reflection) => {
                let r = ComputePipeline::from_reflection(&reflection);
                proof {
                    assert(spec_compute_outcome(
                        reflection.entry_points@,
                        *reflection_settings,
                        r,
                    ));
                    assert(are_entry_points_of(spec_reports(shader_bytes@), reflection.entry_points@));
                }
                r
            },
            Err(e) => {
                proof {
                    if spec_reflectable(shader_bytes@) {
                        let entry_points = choose|entry_points: Seq<ShaderEntryPoint>|
                            #[trigger] are_entry_points_of(
                                spec_reports(shader_bytes@),
                                entry_points,
                            ) && reflect_spec(entry_points, *reflection_settings) == Err::<
                                ReflectState,
                                ReflectError,
                            >(e);
                        assert(spec_compute_outcome(
                            entry_points,
                            *reflection_settings,
                            Err::<ComputePipeline, PipelineError>(PipelineError::Reflect(e)),
                        ));
                    }
                }
                Err(PipelineError::Reflect(e))
            },
        }
    }
}

/// Whether `r` is the outcome of laying out a compute pipeline for a shader
/// with the entry points `entry_points`: a failure of reflection is handed
/// on; there must be one entry point; the push constants must fit; and then
/// `r` is the layout.
pub open spec fn spec_compute_outcome(
    entry_points: Seq<ShaderEntryPoint>,
    settings: ReflectionSettings,
    r: Result<ComputePipeline, PipelineError>,
) -> bool {
    match reflect_spec(entry_points, settings) {
        Err(e) => match r {
            Err(PipelineError::Reflect(handed_on)) => handed_on == e,
            _ => false,
        },
        Ok(state) => if entry_points.len() != 1 {
            r matches Err(PipelineError::EntryPointCount)
        } else if state.max_push_constant_size > u32::MAX {
            r matches Err(PipelineError::PushConstantsTooLarge)
        } else {
            match r {
                Ok(pipeline) => is_compute_layout(entry_points, settings, pipeline),
                Err(_) => false,
            }
        },
    }
}

/// Whether `r` is what `ComputePipeline::new` gives for the shader held in
/// `bytes`.
pub open spec fn spec_compute_pipeline(
    bytes: Seq<u8>,
    settings: ReflectionSettings,
    raw_spirv: bool,
    r: Result<ComputePipeline, PipelineError>,
) -> bool {
    if raw_spirv {
        r matches Err(PipelineError::RawSpirv)
    } else if !spec_reflectable(bytes) {
        r matches Err(PipelineError::Reflect(ReflectError::MalformedModule))
    } else {
        exists|entry_points: Seq<ShaderEntryPoint>|
            #[trigger] are_entry_points_of(spec_reports(bytes), entry_points)
                && spec_compute_outcome(entry_points, settings, r)
    }
}

/// Format of one vertex attribute.
#[derive(Clone, Copy, Debug, PartialEq, Eq, Structural)]
pub enum VertexFormat {
    Float32,
    Float32x2,
    Float32x3,
    Float32x4,
    Uint32,
    Uint32x2,
    Uint32x3,
    Uint32x4,
    Sint32,
    Sint32x2,
    Sint32x3,
    Sint32x4,
}

/// Whether a vertex buffer advances once a vertex or once an instance.
#[derive(Clone, Copy, Debug, PartialEq, Eq, Structural)]
pub enum VertexStepMode {
    Vertex,
    Instance,
}

/// One attribute of a vertex buffer.
#[derive(Clone, Copy, Debug, PartialEq, Eq, Structural)]
pub struct VertexAttribute {
    pub format: VertexFormat,
    pub offset: u64,
    pub shader_location: u32,
}

/// Layout of one vertex buffer.
#[derive(Clone, Debug)]
pub struct VertexBufferLayout {
    pub array_stride: u64,
    pub step_mode: VertexStepMode,
    pub attributes: Vec<VertexAttribute>,
}

/// One input of the vertex stage.
#[derive(Clone, Copy, Debug, PartialEq, Eq, Structural)]
pub struct VertexInput {
    pub location: u32,
    pub component: u32,
    pub ty: VariableType,
}

/// The inputs among `vars`, in their order.
pub open spec fn spec_inputs_of(vars: Seq<ShaderVariable>) -> Seq<VertexInput>
    decreases vars.len(),
{
    if vars.len() == 0 {
        Seq::empty()
    } else {
        let before = spec_inputs_of(vars.drop_last());
        match vars.last() {
            ShaderVariable::Input { location, component, ty } => before.push(
                VertexInput { location, component, ty },
            ),
            _ => before,
        }
    }
}

/// The inputs of the vertex entry points among `entry_points`, in their
/// order.
pub open spec fn spec_vertex_inputs(entry_points: Seq<ShaderEntryPoint>) -> Seq<VertexInput>
    decreases entry_points.len(),
{
    if entry_points.len() == 0 {
        Seq::empty()
    } else {
        let before = spec_vertex_inputs(entry_points.drop_last());
        if entry_points.last().exec_model == ExecutionModel::Vertex {
            before + spec_inputs_of(entry_points.last().vars@)
        } else {
            before
        }
    }
}

/// The inputs of the vertex entry points among `entry_points`, in their
/// order.
pub fn vertex_inputs(entry_points: &Vec<ShaderEntryPoint>) -> (inputs: Vec<VertexInput>)
    ensures
        inputs@ == spec_vertex_inputs(entry_points@),
{
    let mut inputs: Vec<VertexInput> = Vec::new();
    let mut i: usize = 0;
    while i < entry_points.len()
        invariant
            i <= entry_points.len(),
            inputs@ == spec_vertex_inputs(entry_points@.take(i as int)),
        decreases entry_points.len() - i,
    {
        let ghost prefix = entry_points@.take(i as int + 1);
        assert(prefix.drop_last() =~= entry_points@.take(i as int));
        assert(prefix.last() == entry_points@[i as int]);
        let entry_point = &entry_points[i];
        if entry_point.exec_model == ExecutionModel::Vertex {
            let ghost start = inputs@;
            let mut j: usize = 0;
            while j < entry_point.vars.len()
                invariant
                    j <= entry_point.vars.len(),
                    inputs@ == start + spec_inputs_of(entry_point.vars@.take(j as int)),
                decreases entry_point.vars.len() - j,
            {
                let ghost vars = entry_point.vars@.take(j as int + 1);
                assert(vars.drop_last() =~= entry_point.vars@.take(j as int));
                assert(vars.last() == entry_point.vars@[j as int]);
                match entry_point.vars[j] {
                    ShaderVariable::Input { location, component, ty } => {
                        inputs.push(VertexInput { location, component, ty });
                        assert(inputs@ =~= start + spec_inputs_of(vars));
                    },
                    _ => {},
                }
                j = j + 1;
            }
            assert(entry_point.vars@.take(j as int) =~= entry_point.vars@);
        }
        i = i + 1;
    }
    assert(entry_points@.take(i as int) =~= entry_points@);
    inputs
}

/// The vertex format of an input of type `ty`: 32-bit floats and integers,
/// alone or in vectors of two to four.
pub open spec fn spec_vertex_format(ty: VariableType) -> Option<VertexFormat> {
    match ty {
        VariableType::Scalar(ScalarType::Float(4)) => Some(VertexFormat::Float32),
        VariableType::Scalar(ScalarType::Unsigned(4)) => Some(VertexFormat::Uint32),
        VariableType::Scalar(ScalarType::Signed(4)) => Some(VertexFormat::Sint32),
        VariableType::Vector { scalar_ty: ScalarType::Float(4), nscalar } => if nscalar == 2 {
            Some(VertexFormat::Float32x2)
        } else if nscalar == 3 {
            Some(VertexFormat::Float32x3)
        } else if nscalar == 4 {
            Some(VertexFormat::Float32x4)
        } else {
            None
        },
        VariableType::Vector { scalar_ty: ScalarType::Unsigned(4), nscalar } => if nscalar == 2 {
            Some(VertexFormat::Uint32x2)
        } else if nscalar == 3 {
            Some(VertexFormat::Uint32x3)
        } else if nscalar == 4 {
            Some(VertexFormat::Uint32x4)
        } else {
            None
        },
        VariableType::Vector { scalar_ty: ScalarType::Signed(4), nscalar } => if nscalar == 2 {
            Some(VertexFormat::Sint32x2)
        } else if nscalar == 3 {
            Some(VertexFormat::Sint32x3)
        } else if nscalar == 4 {
            Some(VertexFormat::Sint32x4)
        } else {
            None
        },
        _ => None,
    }
}

/// Size in bytes of one attribute of format `format`.
pub open spec fn spec_format_size(format: VertexFormat) -> u64 {
    match format {
        VertexFormat::Float32 | VertexFormat::Uint32 | VertexFormat::Sint32 => 4,
        VertexFormat::Float32x2 | VertexFormat::Uint32x2 | VertexFormat::Sint32x2 => 8,
        VertexFormat::Float32x3 | VertexFormat::Uint32x3 | VertexFormat::Sint32x3 => 12,
        VertexFormat::Float32x4 | VertexFormat::Uint32x4 | VertexFormat::Sint32x4 => 16,
    }
}

/// The vertex format of an input of type `ty`.
pub fn vertex_format(ty: VariableType) -> (format: Option<VertexFormat>)
    ensures
        format == spec_vertex_format(ty),
{
    match ty {
        VariableType::Scalar(ScalarType::Float(4)) => Some(VertexFormat::Float32),
        VariableType::Scalar(ScalarType::Unsigned(4)) => Some(VertexFormat::Uint32),
        VariableType::Scalar(ScalarType::Signed(4)) => Some(VertexFormat::Sint32),
        VariableType::Vector { scalar_ty: ScalarType::Float(4), nscalar } => if nscalar == 2 {
            Some(VertexFormat::Float32x2)
        } else if nscalar == 3 {
            Some(VertexFormat::Float32x3)
        } else if nscalar == 4 {
            Some(VertexFormat::Float32x4)
        } else {
            None
        },
        VariableType::Vector { scalar_ty: ScalarType::Unsigned(4), nscalar } => if nscalar == 2 {
            Some(VertexFormat::Uint32x2)
        } else if nscalar == 3 {
            Some(VertexFormat::Uint32x3)
        } else if nscalar == 4 {
            Some(VertexFormat::Uint32x4)
        } else {
            None
        },
        VariableType::Vector { scalar_ty: ScalarType::Signed(4), nscalar } => if nscalar == 2 {
            Some(VertexFormat::Sint32x2)
        } else if nscalar == 3 {
            Some(VertexFormat::Sint32x3)
        } else if nscalar == 4 {
            Some(VertexFormat::Sint32x4)
        } else {
            None
        },
        _ => None,
    }
}

/// Size in bytes of one attribute of format `format`.
pub fn format_size(format: VertexFormat) -> (size: u64)
    ensures
        size == spec_format_size(format),
{
    match format {
        VertexFormat::Float32 | VertexFormat::Uint32 | VertexFormat::Sint32 => 4,
        VertexFormat::Float32x2 | VertexFormat::Uint32x2 | VertexFormat::Sint32x2 => 8,
        VertexFormat::Float32x3 | VertexFormat::Uint32x3 | VertexFormat::Sint32x3 => 12,
        VertexFormat::Float32x4 | VertexFormat::Uint32x4 | VertexFormat::Sint32x4 => 16,
    }
}

/// Whether `layout` is the buffer made up for `input`: tightly packed,
/// stepping once a vertex, with the input as its only attribute.
pub open spec fn is_synthesized_for(layout: VertexBufferLayout, input: VertexInput) -> bool {
    &&& spec_vertex_format(input.ty) matches Some(format)
    &&& layout.array_stride == spec_format_size(format)
    &&& layout.step_mode == VertexStepMode::Vertex
    &&& layout.attributes@ == seq![
        VertexAttribute { format, offset: 0, shader_location: input.location },
    ]
}

/// One vertex buffer for each input, in their order; fails where an input has
/// no vertex format.
pub fn synthesize_vertex_buffers(inputs: &Vec<VertexInput>) -> (r: Result<
    Vec<VertexBufferLayout>,
    PipelineError,
>)
    ensures
        match r {
            Ok(layouts) => {
                &&& layouts@.len() == inputs@.len()
                &&& forall|i: int|
                    0 <= i < inputs@.len() ==> is_synthesized_for(#[trigger] layouts@[i], inputs@[i])
            },
            Err(e) => e == PipelineError::UnsupportedVertexInput && exists|i: int|
                0 <= i < inputs@.len() && spec_vertex_format((#[trigger] inputs@[i]).ty) is None,
        },
{
    let mut layouts: Vec<VertexBufferLayout> = Vec::new();
    let mut i: usize = 0;
    while i < inputs.len()
        invariant
            i <= inputs.len(),
            layouts@.len() == i,
            forall|k: int| 0 <= k < i ==> is_synthesized_for(#[trigger] layouts@[k], inputs@[k]),
        decreases inputs.len() - i,
    {
        let input = inputs[i];
        match vertex_format(input.ty) {
            Some(format) => {
                let mut attributes: Vec<VertexAttribute> = Vec::new();
                attributes.push(VertexAttribute { format, offset: 0, shader_location: input.location });
                assert(attributes@ =~= seq![
                    VertexAttribute { format, offset: 0, shader_location: input.location },
                ]);
                layouts.push(
                    VertexBufferLayout {
                        array_stride: format_size(format),
                        step_mode: VertexStepMode::Vertex,
                        attributes,
                    },
                );
            },
            None => {
                return Err(PipelineError::UnsupportedVertexInput);
            },
        }
        i = i + 1;
    }
    Ok(layouts)
}

/// What a render pipeline is built from, besides the bytecode itself and
/// the target states that the caller supplies.
pub struct RenderPipeline {
    pub bind_group_layouts: BindGroupLayouts,
    pub push_constant_range: PushConstantRange,
    pub vertex_buffers: Vec<VertexBufferLayout>,
}

/// The larger of two sizes.
pub open spec fn spec_larger(a: usize, b: usize) -> usize {
    if a >= b {
        a
    } else {
        b
    }
}

/// Whether `buffers` are the vertex buffers of a pipeline whose caller laid
/// out `explicit` and whose vertex stage has the entry points `vertex`: the
/// caller's where there are any, else one made up for each vertex input.
pub open spec fn are_vertex_buffers(
    buffers: Vec<VertexBufferLayout>,
    explicit: Vec<VertexBufferLayout>,
    vertex: Seq<ShaderEntryPoint>,
) -> bool {
    if explicit@.len() > 0 {
        buffers == explicit
    } else {
        let inputs = spec_vertex_inputs(vertex);
        &&& buffers@.len() == inputs.len()
        &&& forall|i: int| 0 <= i < inputs.len() ==> is_synthesized_for(#[trigger] buffers@[i], inputs[i])
    }
}

/// Whether `pipeline` is the layout of a render pipeline whose stages have
/// the entry points `vertex` and `fragment`: the stages agree, the layouts
/// describe their merged bindings, and the one push-constant range, visible
/// to both, holds the larger of their blocks.
pub open spec fn is_render_layout(
    vertex: Seq<ShaderEntryPoint>,
    fragment: Seq<ShaderEntryPoint>,
    explicit: Vec<VertexBufferLayout>,
    pipeline: RenderPipeline,
) -> bool {
    let settings = ReflectionSettings { override_sampled_texture_ty: None };
    &&& reflect_spec(vertex, settings) matches Ok(of_vertex)
    &&& reflect_spec(fragment, settings) matches Ok(of_fragment)
    &&& tables_agree(of_vertex.bindings, of_fragment.bindings)
    &&& describes(
        pipeline.bind_group_layouts.spec_layouts(),
        merge_tables(of_vertex.bindings, of_fragment.bindings),
    )
    &&& spec_larger(of_vertex.max_push_constant_size, of_fragment.max_push_constant_size)
        <= u32::MAX
    &&& pipeline.push_constant_range == (PushConstantRange {
        stages: ShaderStages { bits: 3 },
        start: 0,
        end: spec_larger(of_vertex.max_push_constant_size, of_fragment.max_push_constant_size) as u32,
    })
    &&& are_vertex_buffers(pipeline.vertex_buffers, explicit, vertex)
}

impl RenderPipeline {
    /// Lays out a render pipeline for a reflected vertex and fragment shader.
    ///
    /// The binding tables of the two stages are merged; they must agree on
    /// every slot that both declare. One push-constant range, visible to
    /// both stages, holds the larger of their blocks. The vertex buffers are
    /// those of `vertex_buffer_layouts` where it holds any; otherwise one
    /// buffer is made up for each input of the vertex stage.
    pub fn from_reflections(
        vertex: &Reflection,
        fragment: &Reflection,
        vertex_buffer_layouts: Vec<VertexBufferLayout>,
    ) -> (r: Result<RenderPipeline, PipelineError>)
        ensures
            match r {
                Ok(pipeline) => {
                    &&& tables_agree(table_view(vertex.bindings), table_view(fragment.bindings))
                    &&& describes(
                        pipeline.bind_group_layouts.spec_layouts(),
                        merge_tables(table_view(vertex.bindings), table_view(fragment.bindings)),
                    )
                    &&& pipeline.push_constant_range == (PushConstantRange {
                        stages: ShaderStages { bits: 3 },
                        start: 0,
                        end: spec_larger(
                            vertex.max_push_constant_size,
                            fragment.max_push_constant_size,
                        ) as u32,
                    })
                    &&& spec_larger(vertex.max_push_constant_size, fragment.max_push_constant_size)
                        <= u32::MAX
                    &&& are_vertex_buffers(
                        pipeline.vertex_buffers,
                        vertex_buffer_layouts,
                        vertex.entry_points@,
                    )
                },
                Err(e) => if !tables_agree(
                    table_view(vertex.bindings),
                    table_view(fragment.bindings),
                ) {
                    e == PipelineError::ConflictingStages
                } else if spec_larger(vertex.max_push_constant_size, fragment.max_push_constant_size)
                    > u32::MAX {
                    e == PipelineError::PushConstantsTooLarge
                } else {
                    &&& e == PipelineError::UnsupportedVertexInput
                    &&& vertex_buffer_layouts@.len() == 0
                    &&& exists|i: int|
                        0 <= i < spec_vertex_inputs(vertex.entry_points@).len() && spec_vertex_format(
                            (#[trigger] spec_vertex_inputs(vertex.entry_points@)[i]).ty,
                        ) is None
                },
            },
    {
        if !binding_tables_agree(&vertex.bindings, &fragment.bindings) {
            return Err(PipelineError::ConflictingStages);
        }
        let size = if vertex.max_push_constant_size >= fragment.max_push_constant_size {
            vertex.max_push_constant_size
        } else {
            fragment.max_push_constant_size
        };
        if size > 0xFFFF_FFFF {
            return Err(PipelineError::PushConstantsTooLarge);
        }
        let vertex_buffers = if vertex_buffer_layouts.len() > 0 {
            vertex_buffer_layouts
        } else {
            let inputs = vertex_inputs(&vertex.entry_points);
            match synthesize_vertex_buffers(&inputs) {
                Ok(layouts) => layouts,
                Err(e) => {
                    return Err(e);
                },
            }
        };
        let bindings = merge_bind_group_layout_entries(&vertex.bindings, &fragment.bindings);
        let stages = ShaderStages::vertex().union(ShaderStages::fragment());
        assert(stages.bits == 3) by {
            assert(1u32 | 2u32 == 3u32) by (bit_vector);
        }
        Ok(
            RenderPipeline {
                bind_group_layouts: BindGroupLayouts::new(&bindings),
                push_constant_range: PushConstantRange { stages, start: 0, end: size as u32 },
                vertex_buffers,
            },
        )
    }

    /// Lays out a render pipeline for the vertex and fragment shaders held
    /// in the two byte strings, each reflected with default settings.
    ///
    /// Bytecode is always validated, so `raw_spirv` is refused. The vertex
    /// shader is reflected first, then the fragment shader; a module that
    /// gives no entry points is malformed. Otherwise the result is what
    /// `from_reflections` makes of the two reflections.
    pub fn new(
        vertex_shader_bytes: &[u8],
        fragment_shader_bytes: &[u8],
        vertex_buffer_layouts: Vec<VertexBufferLayout>,
        raw_spirv: bool,
    ) -> (r: Result<RenderPipeline, PipelineError>)
        ensures
            spec_render_pipeline(
                vertex_shader_bytes@,
                fragment_shader_bytes@,
                vertex_buffer_layouts,
                raw_spirv,
                r,
            ),
    {
        if raw_spirv {
            return Err(PipelineError::RawSpirv);
        }
        let settings = ReflectionSettings::default();
        let ghost plain = ReflectionSettings { override_sampled_texture_ty: None };
        assert(settings == plain);
        let vertex = match reflect(vertex_shader_bytes, &settings) {
            Ok(reflection) => reflection,
            Err(e) => {
                proof {
                    if spec_reflectable(vertex_shader_bytes@) {
                        let entry_points = choose|entry_points: Seq<ShaderEntryPoint>|
                            #[trigger] are_entry_points_of(
                                spec_reports(vertex_shader_bytes@),
                                entry_points,
                            ) && reflect_spec(entry_points, plain) == Err::<
                                ReflectState,
                                ReflectError,
                            >(e);
                        assert(spec_render_after_vertex(
                            entry_points,
                            fragment_shader_bytes@,
                            vertex_buffer_layouts,
                            Err::<RenderPipeline, PipelineError>(PipelineError::Reflect(e)),
                        ));
                    }
                }
                return Err(PipelineError::Reflect(e));
            },
        };
        let ghost of_vertex = vertex.entry_points@;
        let fragment = match reflect(fragment_shader_bytes, &settings) {
            Ok(reflection) => reflection,
            Err(e) => {
                proof {
                    if spec_reflectable(fragment_shader_bytes@) {
                        let entry_points = choose|entry_points: Seq<ShaderEntryPoint>|
                            #[trigger] are_entry_points_of(
                                spec_reports(fragment_shader_bytes@),
                                entry_points,
                            ) && reflect_spec(entry_points, plain) == Err::<
                                ReflectState,
                                ReflectError,
                            >(e);
                        assert(spec_render_after_fragment(
                            of_vertex,
                            entry_points,
                            vertex_buffer_layouts,
                            Err::<RenderPipeline, PipelineError>(PipelineError::Reflect(e)),
                        ));
                    }
                    assert(spec_render_after_vertex(
                        of_vertex,
                        fragment_shader_bytes@,
                        vertex_buffer_layouts,
                        Err::<RenderPipeline, PipelineError>(PipelineError::Reflect(e)),
                    ));
                }
                return Err(PipelineError::Reflect(e));
            },
        };
        let ghost of_fragment = fragment.entry_points@;
        let ghost explicit = vertex_buffer_layouts;
        let r = RenderPipeline::from_reflections(&vertex, &fragment, vertex_buffer_layouts);
        proof {
            assert(spec_render_layout_outcome(of_vertex, of_fragment, explicit, r)) by {
                if r is Ok {
                    assert(is_render_layout(of_vertex, of_fragment, explicit, r->Ok_0));
                    assert(are_vertex_buffers(r->Ok_0.vertex_buffers, explicit, of_vertex));
                    if explicit@.len() == 0 {
                        let inputs = spec_vertex_inputs(of_vertex);
                        assert forall|i: int| 0 <= i < inputs.len() implies spec_vertex_format(
                            (#[trigger] inputs[i]).ty,
                        ) is Some by {
                            assert(is_synthesized_for(r->Ok_0.vertex_buffers@[i], inputs[i]));
                        }
                    }
                }
            }
            assert(spec_render_after_fragment(of_vertex, of_fragment, explicit, r));
            assert(spec_render_after_vertex(of_vertex, fragment_shader_bytes@, explicit, r));
        }
        r
    }
}

/// Whether some vertex input among `vertex` has no vertex format.
pub open spec fn spec_lacks_vertex_format(vertex: Seq<ShaderEntryPoint>) -> bool {
    exists|i: int|
        0 <= i < spec_vertex_inputs(vertex).len() && spec_vertex_format(
            (#[trigger] spec_vertex_inputs(vertex)[i]).ty,
        ) is None
}

/// Whether `r` is the outcome of laying out a render pipeline for stages
/// that both reflect: the stages must agree, the push constants must fit,
/// every vertex input must have a format where the caller laid out no
/// vertex buffers, and then `r` is the layout.
pub open spec fn spec_render_layout_outcome(
    vertex: Seq<ShaderEntryPoint>,
    fragment: Seq<ShaderEntryPoint>,
    explicit: Vec<VertexBufferLayout>,
    r: Result<RenderPipeline, PipelineError>,
) -> bool {
    let settings = ReflectionSettings { override_sampled_texture_ty: None };
    match (reflect_spec(vertex, settings), reflect_spec(fragment, settings)) {
        (Ok(of_vertex), Ok(of_fragment)) => if !tables_agree(
            of_vertex.bindings,
            of_fragment.bindings,
        ) {
            r matches Err(PipelineError::ConflictingStages)
        } else if spec_larger(
            of_vertex.max_push_constant_size,
            of_fragment.max_push_constant_size,
        ) > u32::MAX {
            r matches Err(PipelineError::PushConstantsTooLarge)
        } else if explicit@.len() == 0 && spec_lacks_vertex_format(vertex) {
            r matches Err(PipelineError::UnsupportedVertexInput)
        } else {
            match r {
                Ok(pipeline) => is_render_layout(vertex, fragment, explicit, pipeline),
                Err(_) => false,
            }
        },
        _ => false,
    }
}

/// Whether `r` is the outcome once both stages gave entry points: a failure
/// of reflection is handed on, that of the vertex stage first.
pub open spec fn spec_render_after_fragment(
    vertex: Seq<ShaderEntryPoint>,
    fragment: Seq<ShaderEntryPoint>,
    explicit: Vec<VertexBufferLayout>,
    r: Result<RenderPipeline, PipelineError>,
) -> bool {
    let settings = ReflectionSettings { override_sampled_texture_ty: None };
    match (reflect_spec(vertex, settings), reflect_spec(fragment, settings)) {
        (Err(e), _) => match r {
            Err(PipelineError::Reflect(handed_on)) => handed_on == e,
            _ => false,
        },
        (Ok(_), Err(e)) => match r {
            Err(PipelineError::Reflect(handed_on)) => handed_on == e,
            _ => false,
        },
        (Ok(_), Ok(_)) => spec_render_layout_outcome(vertex, fragment, explicit, r),
    }
}

/// Whether `r` is the outcome once the vertex stage gave the entry points
/// `vertex`: unless the vertex stage fails to reflect, the fragment shader
/// held in `fragment_bytes` must give entry points too.
pub open spec fn spec_render_after_vertex(
    vertex: Seq<ShaderEntryPoint>,
    fragment_bytes: Seq<u8>,
    explicit: Vec<VertexBufferLayout>,
    r: Result<RenderPipeline, PipelineError>,
) -> bool {
    let settings = ReflectionSettings { override_sampled_texture_ty: None };
    match reflect_spec(vertex, settings) {
        Err(e) => match r {
            Err(PipelineError::Reflect(handed_on)) => handed_on == e,
            _ => false,
        },
        Ok(_) => if !spec_reflectable(fragment_bytes) {
            r matches Err(PipelineError::Reflect(ReflectError::MalformedModule))
        } else {
            exists|fragment: Seq<ShaderEntryPoint>|
                #[trigger] are_entry_points_of(spec_reports(fragment_bytes), fragment)
                    && spec_render_after_fragment(vertex, fragment, explicit, r)
        },
    }
}

/// Whether `r` is what `RenderPipeline::new` gives for the two shaders.
pub open spec fn spec_render_pipeline(
    vertex_bytes: Seq<u8>,
    fragment_bytes: Seq<u8>,
    explicit: Vec<VertexBufferLayout>,
    raw_spirv: bool,
    r: Result<RenderPipeline, PipelineError>,
) -> bool {
    if raw_spirv {
        r matches Err(PipelineError::RawSpirv)
    } else if !spec_reflectable(vertex_bytes) {
        r matches Err(PipelineError::Reflect(ReflectError::MalformedModule))
    } else {
        exists|vertex: Seq<ShaderEntryPoint>|
            #[trigger] are_entry_points_of(spec_reports(vertex_bytes), vertex)
                && spec_render_after_vertex(vertex, fragment_bytes, explicit, r)
    }
}

} // verus!
