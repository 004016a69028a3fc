//! Backend-agnostic description of binding layouts: what a shader expects to
//! find at each binding slot and which shader stages can see it.
use vstd::prelude::*;

verus! {

/// Bit of the vertex stage in a visibility mask.
pub const STAGE_VERTEX: u32 = 1;

/// Bit of the fragment stage in a visibility mask.
pub const STAGE_FRAGMENT: u32 = 2;

/// Bit of the compute stage in a visibility mask.
pub const STAGE_COMPUTE: u32 = 4;

/// Binding count used for an array whose length the shader leaves open.
pub const UNBOUNDED_BINDING_COUNT: u32 = 4096;

/// Set of shader stages, as a bit mask.
#[derive(Clone, Copy, Debug, PartialEq, Eq, Structural)]
pub struct ShaderStages {
    pub bits: u32,
}

impl ShaderStages {
    /// The empty set of stages.
    pub fn none() -> (s: ShaderStages)
        ensures
            s.bits == 0,
    {
        ShaderStages { bits: 0 }
    }

    /// The vertex stage alone.
    pub fn vertex() -> (s: ShaderStages)
        ensures
            s.bits == STAGE_VERTEX,
    {
        ShaderStages { bits: STAGE_VERTEX }
    }

    /// The fragment stage alone.
    pub fn fragment() -> (s: ShaderStages)
        ensures
            s.bits == STAGE_FRAGMENT,
    {
        ShaderStages { bits: STAGE_FRAGMENT }
    }

    /// The compute stage alone.
    pub fn compute() -> (s: ShaderStages)
        ensures
            s.bits == STAGE_COMPUTE,
    {
        ShaderStages { bits: STAGE_COMPUTE }
    }

    /// The stages that are in `self`, in `other`, or in both.
    pub open spec fn spec_union(self, other: ShaderStages) -> ShaderStages {
        ShaderStages { bits: self.bits | other.bits }
    }

    /// Whether every stage of `other` is also in `self`.
    pub open spec fn spec_contains(self, other: ShaderStages) -> bool {
        self.bits & other.bits == other.bits
    }

    /// The stages that are in `self`, in `other`, or in both.
    pub fn union(self, other: ShaderStages) -> (s: ShaderStages)
        ensures
            s == self.spec_union(other),
    {
        ShaderStages { bits: self.bits | other.bits }
    }

    /// Whether every stage of `other` is also in `self`.
    pub fn contains(self, other: ShaderStages) -> (b: bool)
        ensures
            b == self.spec_contains(other),
    {
        self.bits & other.bits == other.bits
    }
}

/// How a shader samples a texture binding.
#[derive(Clone, Copy, Debug, PartialEq, Eq, Structural)]
pub enum TextureSampleType {
    Float { filterable: bool },
    Depth,
    Sint,
    Uint,
}

/// Shape of the view that a texture binding expects.
#[derive(Clone, Copy, Debug, PartialEq, Eq, Structural)]
pub enum TextureViewDimension {
    D1,
    D2,
    D2Array,
    Cube,
    CubeArray,
    D3,
}

/// Texel formats that a storage texture binding can declare.
#[derive(Clone, Copy, Debug, PartialEq, Eq, Structural)]
pub enum StorageFormat {
    Rgba16Float,
    R16Float,
    Rg16Float,
    Rgba32Float,
}

/// What a shader may do with a storage texture.
#[derive(Clone, Copy, Debug, PartialEq, Eq, Structural)]
pub enum StorageTextureAccess {
    WriteOnly,
    ReadOnly,
    ReadWrite,
}

/// Kind of sampler that a sampler binding expects.
#[derive(Clone, Copy, Debug, PartialEq, Eq, Structural)]
pub enum SamplerBindingType {
    Filtering,
    NonFiltering,
    Comparison,
}

/// Kind of buffer behind a buffer binding.
#[derive(Clone, Copy, Debug, PartialEq, Eq, Structural)]
pub enum BufferBindingType {
    Uniform,
    Storage { read_only: bool },
}

/// Resource kind of one binding slot.
#[derive(Clone, Copy, Debug, PartialEq, Eq, Structural)]
pub enum BindingType {
    Buffer { ty: BufferBindingType, has_dynamic_offset: bool, min_binding_size: Option<u64> },
    Sampler(SamplerBindingType),
    Texture { sample_type: TextureSampleType, view_dimension: TextureViewDimension, multisampled: bool },
    StorageTexture { access: StorageTextureAccess, format: StorageFormat, view_dimension: TextureViewDimension },
}

/// One slot of a binding-set layout.
///
/// `count` is `None` for a single resource and `Some(n)` for an array of `n`.
#[derive(Clone, Copy, Debug, PartialEq, Eq, Structural)]
pub struct BindGroupLayoutEntry {
    pub binding: u32,
    pub visibility: ShaderStages,
    pub ty: BindingType,
    pub count: Option<u32>,
}

impl BindGroupLayoutEntry {
    /// Whether two entries describe the same resource: they may differ in
    /// visibility only.
    pub open spec fn spec_same_resource(self, other: BindGroupLayoutEntry) -> bool {
        self.binding == other.binding && self.ty == other.ty && self.count == other.count
    }

    /// This entry, made visible to the stages of `stages` as well.
    pub open spec fn spec_with_stages(self, stages: ShaderStages) -> BindGroupLayoutEntry {
        BindGroupLayoutEntry { visibility: self.visibility.spec_union(stages), ..self }
    }

    /// Whether two entries describe the same resource: they may differ in
    /// visibility only.
    pub fn same_resource(&self, other: &BindGroupLayoutEntry) -> (b: bool)
        ensures
            b == self.spec_same_resource(*other),
    {
        self.binding == other.binding && self.ty == other.ty && self.count == other.count
    }

    /// This entry, made visible to the stages of `stages` as well.
    pub fn with_stages(&self, stages: ShaderStages) -> (e: BindGroupLayoutEntry)
        ensures
            e == self.spec_with_stages(stages),
    {
        BindGroupLayoutEntry {
            binding: self.binding,
            visibility: self.visibility.union(stages),
            ty: self.ty,
            count: self.count,
        }
    }
}

} // verus!
