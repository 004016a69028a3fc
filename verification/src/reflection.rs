//! Derivation of binding layouts from the reflected interface of a shader
//! module.
use crate::binding::BindGroupLayoutEntry;
use crate::binding::BindingType;
use crate::binding::BufferBindingType;
use crate::binding::SamplerBindingType;
use crate::binding::ShaderStages;
use crate::binding::StorageFormat;
use crate::binding::StorageTextureAccess;
use crate::binding::TextureSampleType;
use crate::binding::TextureViewDimension;
use crate::binding::UNBOUNDED_BINDING_COUNT;
use crate::shader::AccessType;
use crate::shader::DescriptorType;
use crate::shader::Dim;
use crate::shader::ShaderEntryPoint;
use crate::shader::ExecutionModel;
use crate::shader::ImageFormat;
use crate::shader::ScalarType;
use crate::shader::ShaderVariable;
use crate::shader::VariableType;
use crate::table::table_view;
use crate::table::SlotMap;
use crate::table::TableMap;
use std::collections::BTreeMap;
use vstd::prelude::*;

verus! {

/// Why a shader interface cannot be turned into binding layouts.
#[derive(Clone, Copy, Debug, PartialEq, Eq, Structural)]
pub enum ReflectError {
    /// The bytes are not a module that the reflector accepts.
    MalformedModule,
    /// An entry point is neither a vertex, a fragment nor a compute shader.
    UnsupportedExecutionModel,
    /// A resource's type and descriptor kind are a pair that has no binding.
    UnsupportedBinding,
    /// A sampled image yields something other than 32-bit floats.
    UnsupportedSampleType,
    /// An image has a dimensionality that has no view shape.
    UnsupportedDimension,
    /// A storage image has a texel format that is not mapped.
    UnsupportedFormat,
    /// A storage image is not both read and written.
    UnsupportedAccess,
    /// A uniform block holds no data.
    EmptyUniformBlock,
    /// Two variables at one slot of one set describe different resources.
    ConflictingBinding,
}

/// Hints for what bytecode alone does not tell.
#[derive(Clone, Copy, Debug)]
pub struct ReflectionSettings {
    /// Slot id and sample type: the first sampled image met at that slot id
    /// gets this sample type in place of filterable float.
    pub override_sampled_texture_ty: Option<(u32, TextureSampleType)>,
}

impl Default for ReflectionSettings {
    fn default() -> (settings: Self)
        ensures
            settings.override_sampled_texture_ty is None,
    {
        ReflectionSettings { override_sampled_texture_ty: None }
    }
}

/// The stage mask of an execution model, where it has one.
pub open spec fn spec_stage_of(model: ExecutionModel) -> Option<ShaderStages> {
    match model {
        ExecutionModel::Vertex => Some(ShaderStages { bits: crate::binding::STAGE_VERTEX }),
        ExecutionModel::Fragment => Some(ShaderStages { bits: crate::binding::STAGE_FRAGMENT }),
        ExecutionModel::GLCompute => Some(ShaderStages { bits: crate::binding::STAGE_COMPUTE }),
        ExecutionModel::Other(_) => None,
    }
}

/// The view shape of an image of dimensionality `dim`, arrayed or not.
pub open spec fn spec_map_dim(dim: Dim, is_array: bool) -> Option<TextureViewDimension> {
    match dim {
        Dim::Dim2D => Some(
            if is_array {
                TextureViewDimension::D2Array
            } else {
                TextureViewDimension::D2
            },
        ),
        Dim::Dim3D => Some(TextureViewDimension::D3),
        Dim::DimCube => Some(TextureViewDimension::Cube),
        _ => None,
    }
}

/// The storage texel format of an image format, where it is mapped.
pub open spec fn spec_map_format(fmt: ImageFormat) -> Option<StorageFormat> {
    match fmt {
        ImageFormat::Rgba16f => Some(StorageFormat::Rgba16Float),
        ImageFormat::R16f => Some(StorageFormat::R16Float),
        ImageFormat::Rg16f => Some(StorageFormat::Rg16Float),
        ImageFormat::Rgba32f => Some(StorageFormat::Rgba32Float),
        _ => None,
    }
}

/// The binding count of a slot with `nbind` resources: none for a single
/// resource, the fixed bound for an array of open length.
pub open spec fn spec_binding_count(nbind: u32) -> Option<u32> {
    if nbind == 0 {
        Some(UNBOUNDED_BINDING_COUNT)
    } else if nbind == 1 {
        None
    } else {
        Some(nbind)
    }
}

/// The resource kind of a variable of type `ty` bound through a descriptor of
/// kind `desc_ty`. A sampled image gets `sample_type`.
pub open spec fn spec_binding_type(
    desc_ty: DescriptorType,
    ty: VariableType,
    sample_type: TextureSampleType,
) -> Result<BindingType, ReflectError> {
    match (ty, desc_ty) {
        (
            VariableType::SampledImage { scalar_ty, dim, is_array, is_multisampled },
            DescriptorType::SampledImage,
        ) => {
            if scalar_ty != ScalarType::Float(4) {
                Err(ReflectError::UnsupportedSampleType)
            } else {
                match spec_map_dim(dim, is_array) {
                    Some(view_dimension) => Ok(
                        BindingType::Texture {
                            sample_type,
                            view_dimension,
                            multisampled: is_multisampled,
                        },
                    ),
                    None => Err(ReflectError::UnsupportedDimension),
                }
            }
        },
        (VariableType::StorageImage { dim, is_array, fmt }, DescriptorType::StorageImage(access)) => {
            match spec_map_dim(dim, is_array) {
                None => Err(ReflectError::UnsupportedDimension),
                Some(view_dimension) => match spec_map_format(fmt) {
                    None => Err(ReflectError::UnsupportedFormat),
                    Some(format) => if access == AccessType::ReadWrite {
                        Ok(
                            BindingType::StorageTexture {
                                access: StorageTextureAccess::ReadWrite,
                                format,
                                view_dimension,
                            },
                        )
                    } else {
                        Err(ReflectError::UnsupportedAccess)
                    },
                },
            }
        },
        (VariableType::Sampler, DescriptorType::Sampler) => Ok(
            BindingType::Sampler(SamplerBindingType::Filtering),
        ),
        (VariableType::Struct { nbyte }, DescriptorType::UniformBuffer) => {
            if nbyte == 0 {
                Err(ReflectError::EmptyUniformBlock)
            } else {
                Ok(
                    BindingType::Buffer {
                        ty: BufferBindingType::Uniform,
                        has_dynamic_offset: false,
                        min_binding_size: Some(nbyte as u64),
                    },
                )
            }
        },
        (VariableType::Struct { nbyte }, DescriptorType::StorageBuffer(access)) => Ok(
            BindingType::Buffer {
                ty: BufferBindingType::Storage { read_only: access == AccessType::ReadOnly },
                has_dynamic_offset: false,
                min_binding_size: if nbyte == 0 {
                    None
                } else {
                    Some(nbyte as u64)
                },
            },
        ),
        _ => Err(ReflectError::UnsupportedBinding),
    }
}

/// Whether two resource kinds can stand at one slot: they are equal but for
/// the sample type of a texture, which bytecode does not fix.
pub open spec fn spec_same_shape(a: BindingType, b: BindingType) -> bool {
    match (a, b) {
        (
            BindingType::Texture { sample_type: _, view_dimension: da, multisampled: ma },
            BindingType::Texture { sample_type: _, view_dimension: db, multisampled: mb },
        ) => da == db && ma == mb,
        _ => a == b,
    }
}

/// The stage mask of an execution model, where it has one.
pub fn stage_of(model: ExecutionModel) -> (stage: Option<ShaderStages>)
    ensures
        stage == spec_stage_of(model),
{
    match model {
        ExecutionModel::Vertex => Some(ShaderStages::vertex()),
        ExecutionModel::Fragment => Some(ShaderStages::fragment()),
        ExecutionModel::GLCompute => Some(ShaderStages::compute()),
        ExecutionModel::Other(_) => None,
    }
}

/// The view shape of an image of dimensionality `dim`, arrayed or not.
pub fn map_dim(dim: Dim, is_array: bool) -> (view_dimension: Option<TextureViewDimension>)
    ensures
        view_dimension == spec_map_dim(dim, is_array),
{
    match dim {
        Dim::Dim2D => if is_array {
            Some(TextureViewDimension::D2Array)
        } else {
            Some(TextureViewDimension::D2)
        },
        Dim::Dim3D => Some(TextureViewDimension::D3),
        Dim::DimCube => Some(TextureViewDimension::Cube),
        _ => None,
    }
}

/// The storage texel format of an image format, where it is mapped.
pub fn map_format(fmt: ImageFormat) -> (format: Option<StorageFormat>)
    ensures
        format == spec_map_format(fmt),
{
    match fmt {
        ImageFormat::Rgba16f => Some(StorageFormat::Rgba16Float),
        ImageFormat::R16f => Some(StorageFormat::R16Float),
        ImageFormat::Rg16f => Some(StorageFormat::Rg16Float),
        ImageFormat::Rgba32f => Some(StorageFormat::Rgba32Float),
        _ => None,
    }
}

/// The binding count of a slot with `nbind` resources.
pub fn binding_count(nbind: u32) -> (count: Option<u32>)
    ensures
        count == spec_binding_count(nbind),
{
    if nbind == 0 {
        Some(UNBOUNDED_BINDING_COUNT)
    } else if nbind == 1 {
        None
    } else {
        Some(nbind)
    }
}

/// The resource kind of a variable of type `ty` bound through a descriptor of
/// kind `desc_ty`. A sampled image gets `sample_type`.
pub fn binding_type(desc_ty: DescriptorType, ty: VariableType, sample_type: TextureSampleType) -> (r:
    Result<BindingType, ReflectError>)
    ensures
        r == spec_binding_type(desc_ty, ty, sample_type),
{
    match (ty, desc_ty) {
        (
            VariableType::SampledImage { scalar_ty, dim, is_array, is_multisampled },
            DescriptorType::SampledImage,
        ) => {
            if scalar_ty != ScalarType::Float(4) {
                Err(ReflectError::UnsupportedSampleType)
            } else {
                match map_dim(dim, is_array) {
                    Some(view_dimension) => Ok(
                        BindingType::Texture {
                            sample_type,
                            view_dimension,
                            multisampled: is_multisampled,
                        },
                    ),
                    None => Err(ReflectError::UnsupportedDimension),
                }
            }
        },
        (VariableType::StorageImage { dim, is_array, fmt }, DescriptorType::StorageImage(access)) => {
            match map_dim(dim, is_array) {
                None => Err(ReflectError::UnsupportedDimension),
                Some(view_dimension) => match map_format(fmt) {
                    None => Err(ReflectError::UnsupportedFormat),
                    Some(format) => if access == AccessType::ReadWrite {
                        Ok(
                            BindingType::StorageTexture {
                                access: StorageTextureAccess::ReadWrite,
                                format,
                                view_dimension,
                            },
                        )
                    } else {
                        Err(ReflectError::UnsupportedAccess)
                    },
                },
            }
        },
        (VariableType::Sampler, DescriptorType::Sampler) => Ok(
            BindingType::Sampler(SamplerBindingType::Filtering),
        ),
        (VariableType::Struct { nbyte }, DescriptorType::UniformBuffer) => {
            if nbyte == 0 {
                Err(ReflectError::EmptyUniformBlock)
            } else {
                Ok(
                    BindingType::Buffer {
                        ty: BufferBindingType::Uniform,
                        has_dynamic_offset: false,
                        min_binding_size: Some(nbyte as u64),
                    },
                )
            }
        },
        (VariableType::Struct { nbyte }, DescriptorType::StorageBuffer(access)) => Ok(
            BindingType::Buffer {
                ty: BufferBindingType::Storage { read_only: access == AccessType::ReadOnly },
                has_dynamic_offset: false,
                min_binding_size: if nbyte == 0 {
                    None
                } else {
                    Some(nbyte as u64)
                },
            },
        ),
        _ => Err(ReflectError::UnsupportedBinding),
    }
}

/// Whether two resource kinds can stand at one slot: they are equal but for
/// the sample type of a texture, which bytecode does not fix.
pub fn same_shape(a: BindingType, b: BindingType) -> (same: bool)
    ensures
        same == spec_same_shape(a, b),
{
    match (a, b) {
        (
            BindingType::Texture { sample_type: _, view_dimension: da, multisampled: ma },
            BindingType::Texture { sample_type: _, view_dimension: db, multisampled: mb },
        ) => da == db && ma == mb,
        _ => a == b,
    }
}

/// What reflection has gathered so far, as mathematical values.
pub struct ReflectState {
    pub bindings: TableMap,
    pub max_push_constant_size: usize,
    pub sample_override: Option<(u32, TextureSampleType)>,
}

/// The sample type of a sampled image that is first met at slot `bind`.
pub open spec fn spec_sample_type_for(
    bind: u32,
    sample_override: Option<(u32, TextureSampleType)>,
) -> TextureSampleType {
    match sample_override {
        Some((slot, sample_type)) => if slot == bind {
            sample_type
        } else {
            TextureSampleType::Float { filterable: true }
        },
        None => TextureSampleType::Float { filterable: true },
    }
}

/// Whether declaring `resolved` at slot `bind` uses the override up.
pub open spec fn spec_uses_override(
    bind: u32,
    resolved: BindingType,
    sample_override: Option<(u32, TextureSampleType)>,
) -> bool {
    resolved is Texture && match sample_override {
        Some((slot, _)) => slot == bind,
        None => false,
    }
}

/// The slots that `bindings` holds for `set`: none where the set is unknown.
pub open spec fn spec_slots_of(bindings: TableMap, set: u32) -> SlotMap {
    if bindings.contains_key(set) {
        bindings[set]
    } else {
        Map::empty()
    }
}

/// The state after one resource variable of an entry point of stage `stage`.
///
/// A slot met for the first time is declared with the variable's resource
/// kind and count. A slot met again must describe the same resource and
/// becomes visible to `stage` as well.
pub open spec fn absorb_descriptor(
    st: ReflectState,
    stage: ShaderStages,
    set: u32,
    bind: u32,
    desc_ty: DescriptorType,
    ty: VariableType,
    nbind: u32,
) -> Result<ReflectState, ReflectError> {
    let slots = spec_slots_of(st.bindings, set);
    match spec_binding_type(desc_ty, ty, spec_sample_type_for(bind, st.sample_override)) {
        Err(e) => Err(e),
        Ok(resolved) => if slots.contains_key(bind) {
            let existing = slots[bind];
            if spec_same_shape(existing.ty, resolved) && existing.count == spec_binding_count(
                nbind,
            ) {
                Ok(
                    ReflectState {
                        bindings: st.bindings.insert(
                            set,
                            slots.insert(bind, existing.spec_with_stages(stage)),
                        ),
                        ..st
                    },
                )
            } else {
                Err(ReflectError::ConflictingBinding)
            }
        } else {
            let entry = BindGroupLayoutEntry {
                binding: bind,
                visibility: stage,
                ty: resolved,
                count: spec_binding_count(nbind),
            };
            Ok(
                ReflectState {
                    bindings: st.bindings.insert(set, slots.insert(bind, entry)),
                    sample_override: if spec_uses_override(bind, resolved, st.sample_override) {
                        None
                    } else {
                        st.sample_override
                    },
                    ..st
                },
            )
        },
    }
}

/// The larger of `max` and the size of a push-constant block of type `ty`.
pub open spec fn spec_push_constant_max(max: usize, ty: VariableType) -> usize {
    match ty.spec_block_size() {
        Some(size) => if size > max {
            size
        } else {
            max
        },
        None => max,
    }
}

/// The state after one variable of an entry point of stage `stage`.
pub open spec fn absorb_variable(st: ReflectState, stage: ShaderStages, var: ShaderVariable) -> Result<
    ReflectState,
    ReflectError,
> {
    match var {
        ShaderVariable::Descriptor { set, bind, desc_ty, ty, nbind } => absorb_descriptor(
            st,
            stage,
            set,
            bind,
            desc_ty,
            ty,
            nbind,
        ),
        ShaderVariable::PushConstant { ty } => Ok(
            ReflectState {
                max_push_constant_size: spec_push_constant_max(st.max_push_constant_size, ty),
                ..st
            },
        ),
        _ => Ok(st),
    }
}

/// The state after the variables `vars`, in order; the first error ends it.
pub open spec fn absorb_variables(st: ReflectState, stage: ShaderStages, vars: Seq<ShaderVariable>) -> Result<
    ReflectState,
    ReflectError,
>
    decreases vars.len(),
{
    if vars.len() == 0 {
        Ok(st)
    } else {
        match absorb_variables(st, stage, vars.drop_last()) {
            Ok(before) => absorb_variable(before, stage, vars.last()),
            Err(e) => Err(e),
        }
    }
}

/// The state after one entry point.
pub open spec fn absorb_entry_point(st: ReflectState, entry_point: ShaderEntryPoint) -> Result<
    ReflectState,
    ReflectError,
> {
    match spec_stage_of(entry_point.exec_model) {
        Some(stage) => absorb_variables(st, stage, entry_point.vars@),
        None => Err(ReflectError::UnsupportedExecutionModel),
    }
}

/// The state after the entry points `entry_points`, in order; the first error
/// ends it.
pub open spec fn absorb_entry_points(st: ReflectState, entry_points: Seq<ShaderEntryPoint>) -> Result<
    ReflectState,
    ReflectError,
>
    decreases entry_points.len(),
{
    if entry_points.len() == 0 {
        Ok(st)
    } else {
        match absorb_entry_points(st, entry_points.drop_last()) {
            Ok(before) => absorb_entry_point(before, entry_points.last()),
            Err(e) => Err(e),
        }
    }
}

/// The state in which reflection starts.
pub open spec fn initial_state(settings: ReflectionSettings) -> ReflectState {
    ReflectState {
        bindings: Map::empty(),
        max_push_constant_size: 0,
        sample_override: settings.override_sampled_texture_ty,
    }
}

/// What reflection makes of the entry points of a module.
pub open spec fn reflect_spec(entry_points: Seq<ShaderEntryPoint>, settings: ReflectionSettings) -> Result<
    ReflectState,
    ReflectError,
> {
    absorb_entry_points(initial_state(settings), entry_points)
}

/// What reflection has gathered so far.
struct Reflector {
    bindings: BTreeMap<u32, BTreeMap<u32, BindGroupLayoutEntry>>,
    max_push_constant_size: usize,
    sample_override: Option<(u32, TextureSampleType)>,
}

impl Reflector {
    spec fn state(self) -> ReflectState {
        ReflectState {
            bindings: table_view(self.bindings),
            max_push_constant_size: self.max_push_constant_size,
            sample_override: self.sample_override,
        }
    }

    fn absorb_descriptor(
        self,
        stage: ShaderStages,
        set: u32,
        bind: u32,
        desc_ty: DescriptorType,
        ty: VariableType,
        nbind: u32,
    ) -> (r: Result<Reflector, ReflectError>)
        ensures
            match r {
                Ok(after) => absorb_descriptor(self.state(), stage, set, bind, desc_ty, ty, nbind)
                    == Ok::<ReflectState, ReflectError>(after.state()),
                Err(e) => absorb_descriptor(self.state(), stage, set, bind, desc_ty, ty, nbind)
                    == Err::<ReflectState, ReflectError>(e),
            },
    {
        let ghost before = self.state();
        let mut bindings = self.bindings;
        let mut sample_override = self.sample_override;
        let sample_type = match sample_override {
            Some((slot, sample_type)) => if slot == bind {
                sample_type
            } else {
                TextureSampleType::Float { filterable: true }
            },
            None => TextureSampleType::Float { filterable: true },
        };
        let resolved = match binding_type(desc_ty, ty, sample_type) {
            Ok(resolved) => resolved,
            Err(e) => {
                return Err(e);
            },
        };
        let count = binding_count(nbind);
        let mut slots = match bindings.remove(&set) {
            Some(slots) => slots,
            None => BTreeMap::new(),
        };
        assert(slots@ =~= spec_slots_of(before.bindings, set));
        let entry = match slots.get(&bind) {
            Some(existing) => {
                if !(same_shape(existing.ty, resolved) && existing.count == count) {
                    return Err(ReflectError::ConflictingBinding);
                }
                existing.with_stages(stage)
            },
            None => {
                let uses = match (resolved, sample_override) {
                    (BindingType::Texture { .. }, Some((slot, _))) => slot == bind,
                    _ => false,
                };
                if uses {
                    sample_override = None;
                }
                BindGroupLayoutEntry { binding: bind, visibility: stage, ty: resolved, count }
            },
        };
        slots.insert(bind, entry);
        let ghost new_slots = slots@;
        bindings.insert(set, slots);
        let after = Reflector {
            bindings,
            max_push_constant_size: self.max_push_constant_size,
            sample_override,
        };
        assert(after.state().bindings =~= before.bindings.insert(set, new_slots));
        Ok(after)
    }

    fn absorb_variable(self, stage: ShaderStages, var: &ShaderVariable) -> (r: Result<
        Reflector,
        ReflectError,
    >)
        ensures
            match r {
                Ok(after) => absorb_variable(self.state(), stage, *var) == Ok::<
                    ReflectState,
                    ReflectError,
                >(after.state()),
                Err(e) => absorb_variable(self.state(), stage, *var) == Err::<
                    ReflectState,
                    ReflectError,
                >(e),
            },
    {
        match var {
            ShaderVariable::Descriptor { set, bind, desc_ty, ty, nbind } => self.absorb_descriptor(
                stage,
                *set,
                *bind,
                *desc_ty,
                *ty,
                *nbind,
            ),
            ShaderVariable::PushConstant { ty } => {
                let max = match ty.block_size() {
                    Some(size) => if size > self.max_push_constant_size {
                        size
                    } else {
                        self.max_push_constant_size
                    },
                    None => self.max_push_constant_size,
                };
                Ok(
                    Reflector {
                        bindings: self.bindings,
                        max_push_constant_size: max,
                        sample_override: self.sample_override,
                    },
                )
            },
            _ => Ok(self),
        }
    }

    fn absorb_entry_point(self, entry_point: &ShaderEntryPoint) -> (r: Result<Reflector, ReflectError>)
        ensures
            match r {
                Ok(after) => absorb_entry_point(self.state(), *entry_point) == Ok::<
                    ReflectState,
                    ReflectError,
                >(after.state()),
                Err(e) => absorb_entry_point(self.state(), *entry_point) == Err::<
                    ReflectState,
                    ReflectError,
                >(e),
            },
    {
        let stage = match stage_of(entry_point.exec_model) {
            Some(stage) => stage,
            None => {
                return Err(ReflectError::UnsupportedExecutionModel);
            },
        };
        let ghost before = self.state();
        let mut current = self;
        let mut i: usize = 0;
        while i < entry_point.vars.len()
            invariant
                i <= entry_point.vars.len(),
                before == self.state(),
                spec_stage_of(entry_point.exec_model) == Some(stage),
                absorb_variables(before, stage, entry_point.vars@.take(i as int)) == Ok::<
                    ReflectState,
                    ReflectError,
                >(current.state()),
            decreases entry_point.vars.len() - i,
        {
            let ghost prefix = entry_point.vars@.take(i as int + 1);
            assert(prefix.drop_last() =~= entry_point.vars@.take(i as int));
            assert(prefix.last() == entry_point.vars@[i as int]);
            match current.absorb_variable(stage, &entry_point.vars[i]) {
                Ok(after) => {
                    current = after;
                },
                Err(e) => {
                    proof {
                        assert(absorb_variables(before, stage, prefix) == Err::<
                            ReflectState,
                            ReflectError,
                        >(e));
                        lemma_absorb_variables_fails(before, stage, entry_point.vars@, i as int + 1);
                    }
                    return Err(e);
                },
            }
            i = i + 1;
        }
        assert(entry_point.vars@.take(i as int) =~= entry_point.vars@);
        Ok(current)
    }
}

/// Once a prefix of the variables fails, the whole sequence fails the same way.
proof fn lemma_absorb_variables_fails(
    st: ReflectState,
    stage: ShaderStages,
    vars: Seq<ShaderVariable>,
    n: int,
)
    requires
        0 <= n <= vars.len(),
        absorb_variables(st, stage, vars.take(n)) is Err,
    ensures
        absorb_variables(st, stage, vars) == absorb_variables(st, stage, vars.take(n)),
    decreases vars.len() - n,
{
    if n == vars.len() {
        assert(vars.take(n) =~= vars);
    } else {
        let longer = vars.take(n + 1);
        assert(longer.drop_last() =~= vars.take(n));
        lemma_absorb_variables_fails(st, stage, vars, n + 1);
    }
}

/// Once a prefix of the entry points fails, the whole sequence fails the same
/// way.
proof fn lemma_absorb_entry_points_fails(st: ReflectState, entry_points: Seq<ShaderEntryPoint>, n: int)
    requires
        0 <= n <= entry_points.len(),
        absorb_entry_points(st, entry_points.take(n)) is Err,
    ensures
        absorb_entry_points(st, entry_points) == absorb_entry_points(st, entry_points.take(n)),
    decreases entry_points.len() - n,
{
    if n == entry_points.len() {
        assert(entry_points.take(n) =~= entry_points);
    } else {
        let longer = entry_points.take(n + 1);
        assert(longer.drop_last() =~= entry_points.take(n));
        lemma_absorb_entry_points_fails(st, entry_points, n + 1);
    }
}

/// Binding layouts and push-constant size of a shader module.
pub struct Reflection {
    /// For each binding set, the layout entry of each slot.
    pub bindings: BTreeMap<u32, BTreeMap<u32, BindGroupLayoutEntry>>,
    /// The entry points that were reflected.
    pub entry_points: Vec<ShaderEntryPoint>,
    /// Size in bytes of the largest push-constant block, 0 without one.
    pub max_push_constant_size: usize,
}

/// Derives binding layouts and the push-constant size from the entry points
/// of a module.
///
/// Entry points and their variables are taken in order. Each resource
/// variable declares its slot or, where the slot is declared already, makes
/// it visible to its stage as well. Fails on the first entry point or
/// variable that has no mapping or that contradicts an earlier one.
pub fn reflect_entry_points(entry_points: Vec<ShaderEntryPoint>, settings: &ReflectionSettings) -> (r:
    Result<Reflection, ReflectError>)
    ensures
        match r {
            Ok(reflection) => {
                &&& reflection.entry_points == entry_points
                &&& reflect_spec(entry_points@, *settings) matches Ok(state)
                &&& table_view(reflection.bindings) == state.bindings
                &&& reflection.max_push_constant_size == state.max_push_constant_size
            },
            Err(e) => reflect_spec(entry_points@, *settings) == Err::<ReflectState, ReflectError>(e),
        },
{
    let ghost before = initial_state(*settings);
    let mut current = Reflector {
        bindings: BTreeMap::new(),
        max_push_constant_size: 0,
        sample_override: settings.override_sampled_texture_ty,
    };
    assert(current.state().bindings =~= before.bindings);
    let mut i: usize = 0;
    while i < entry_points.len()
        invariant
            i <= entry_points.len(),
            before == initial_state(*settings),
            absorb_entry_points(before, entry_points@.take(i as int)) == Ok::<
                ReflectState,
                ReflectError,
            >(current.state()),
        decreases entry_points.len() - i,
    {
        let ghost prefix = entry_points@.take(i as int + 1);
        assert(prefix.drop_last() =~= entry_points@.take(i as int));
        assert(prefix.last() == entry_points@[i as int]);
        match current.absorb_entry_point(&entry_points[i]) {
            Ok(after) => {
                current = after;
            },
            Err(e) => {
                proof {
                    assert(absorb_entry_points(before, prefix) == Err::<ReflectState, ReflectError>(
                        e,
                    ));
                    lemma_absorb_entry_points_fails(before, entry_points@, i as int + 1);
                }
                return Err(e);
            },
        }
        i = i + 1;
    }
    assert(entry_points@.take(i as int) =~= entry_points@);
    Ok(
        Reflection {
            bindings: current.bindings,
            entry_points,
            max_push_constant_size: current.max_push_constant_size,
        },
    )
}

} // verus!
