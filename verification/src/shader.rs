//! Interface of a shader module as reflection reports it: entry points and the
//! variables through which each one reaches resources.
use vstd::prelude::*;

verus! {

/// Pipeline stage that an entry point is written for.
#[derive(Clone, Copy, Debug, PartialEq, Eq, Structural)]
pub enum ExecutionModel {
    Vertex,
    Fragment,
    GLCompute,
    /// Any other execution model, by its SPIR-V number.
    Other(u32),
}

/// Dimensionality of an image type.
#[derive(Clone, Copy, Debug, PartialEq, Eq, Structural)]
pub enum Dim {
    Dim1D,
    Dim2D,
    Dim3D,
    DimCube,
    DimRect,
    DimBuffer,
    DimSubpassData,
    /// A dimensionality outside SPIR-V's list, by its number.
    Other(u32),
}

/// Texel format declared by an image type.
#[derive(Clone, Copy, Debug, PartialEq, Eq, Structural)]
pub enum ImageFormat {
    Unknown,
    Rgba32f,
    Rgba16f,
    Rg16f,
    R16f,
    /// Any other format, by its SPIR-V number.
    Other(u32),
}

/// How a shader accesses a storage resource.
#[derive(Clone, Copy, Debug, PartialEq, Eq, Structural)]
pub enum AccessType {
    ReadOnly,
    WriteOnly,
    ReadWrite,
}

/// Scalar type with its size in bytes.
#[derive(Clone, Copy, Debug, PartialEq, Eq, Structural)]
pub enum ScalarType {
    Void,
    Boolean,
    Signed(u32),
    Unsigned(u32),
    Float(u32),
}

/// Type of a shader variable, as far as the bridge looks into it.
#[derive(Clone, Copy, Debug, PartialEq, Eq, Structural)]
pub enum VariableType {
    SampledImage { scalar_ty: ScalarType, dim: Dim, is_array: bool, is_multisampled: bool },
    StorageImage { dim: Dim, is_array: bool, fmt: ImageFormat },
    Sampler,
    /// A block of data with its size in bytes.
    Struct { nbyte: usize },
    Scalar(ScalarType),
    Vector { scalar_ty: ScalarType, nscalar: u32 },
    /// Any other type, with its size in bytes where it has one.
    Other { size: Option<usize> },
}

/// Kind of descriptor that a resource variable is bound through.
#[derive(Clone, Copy, Debug, PartialEq, Eq, Structural)]
pub enum DescriptorType {
    Sampler,
    CombinedImageSampler,
    SampledImage,
    StorageImage(AccessType),
    UniformTexelBuffer,
    StorageTexelBuffer(AccessType),
    UniformBuffer,
    StorageBuffer(AccessType),
    InputAttachment,
    AccelStruct,
}

/// One variable of an entry point's interface.
#[derive(Clone, Copy, Debug, PartialEq, Eq, Structural)]
pub enum ShaderVariable {
    /// Stage input at a location.
    Input { location: u32, component: u32, ty: VariableType },
    /// Stage output at a location.
    Output { location: u32, component: u32, ty: VariableType },
    /// Resource bound at `bind` of binding set `set`. `nbind` is the number
    /// of resources at the slot, 0 for an array of open length.
    Descriptor { set: u32, bind: u32, desc_ty: DescriptorType, ty: VariableType, nbind: u32 },
    /// Block of push constants.
    PushConstant { ty: VariableType },
    /// Specialization constant.
    SpecConstant { spec_id: u32, ty: VariableType },
}

/// One entry point of a shader module.
#[derive(Clone, Debug)]
pub struct ShaderEntryPoint {
    pub exec_model: ExecutionModel,
    pub name: String,
    pub vars: Vec<ShaderVariable>,
}

impl ExecutionModel {
    /// The execution model with SPIR-V number `raw`.
    pub open spec fn spec_from_raw(raw: u32) -> ExecutionModel {
        if raw == 0 {
            ExecutionModel::Vertex
        } else if raw == 4 {
            ExecutionModel::Fragment
        } else if raw == 5 {
            ExecutionModel::GLCompute
        } else {
            ExecutionModel::Other(raw)
        }
    }

    /// The execution model with SPIR-V number `raw`.
    pub fn from_raw(raw: u32) -> (model: ExecutionModel)
        ensures
            model == Self::spec_from_raw(raw),
    {
        if raw == 0 {
            ExecutionModel::Vertex
        } else if raw == 4 {
            ExecutionModel::Fragment
        } else if raw == 5 {
            ExecutionModel::GLCompute
        } else {
            ExecutionModel::Other(raw)
        }
    }
}

impl Dim {
    /// The dimensionality with SPIR-V number `raw`.
    pub open spec fn spec_from_raw(raw: u32) -> Dim {
        if raw == 0 {
            Dim::Dim1D
        } else if raw == 1 {
            Dim::Dim2D
        } else if raw == 2 {
            Dim::Dim3D
        } else if raw == 3 {
            Dim::DimCube
        } else if raw == 4 {
            Dim::DimRect
        } else if raw == 5 {
            Dim::DimBuffer
        } else if raw == 6 {
            Dim::DimSubpassData
        } else {
            Dim::Other(raw)
        }
    }

    /// The dimensionality with SPIR-V number `raw`.
    pub fn from_raw(raw: u32) -> (dim: Dim)
        ensures
            dim == Self::spec_from_raw(raw),
    {
        if raw == 0 {
            Dim::Dim1D
        } else if raw == 1 {
            Dim::Dim2D
        } else if raw == 2 {
            Dim::Dim3D
        } else if raw == 3 {
            Dim::DimCube
        } else if raw == 4 {
            Dim::DimRect
        } else if raw == 5 {
            Dim::DimBuffer
        } else if raw == 6 {
            Dim::DimSubpassData
        } else {
            Dim::Other(raw)
        }
    }
}

impl ImageFormat {
    /// The image format with SPIR-V number `raw`.
    pub open spec fn spec_from_raw(raw: u32) -> ImageFormat {
        if raw == 0 {
            ImageFormat::Unknown
        } else if raw == 1 {
            ImageFormat::Rgba32f
        } else if raw == 2 {
            ImageFormat::Rgba16f
        } else if raw == 7 {
            ImageFormat::Rg16f
        } else if raw == 9 {
            ImageFormat::R16f
        } else {
            ImageFormat::Other(raw)
        }
    }

    /// The image format with SPIR-V number `raw`.
    pub fn from_raw(raw: u32) -> (fmt: ImageFormat)
        ensures
            fmt == Self::spec_from_raw(raw),
    {
        if raw == 0 {
            ImageFormat::Unknown
        } else if raw == 1 {
            ImageFormat::Rgba32f
        } else if raw == 2 {
            ImageFormat::Rgba16f
        } else if raw == 7 {
            ImageFormat::Rg16f
        } else if raw == 9 {
            ImageFormat::R16f
        } else {
            ImageFormat::Other(raw)
        }
    }
}

impl VariableType {
    /// Size in bytes of a block of data of this type; `None` for types that
    /// are no block.
    pub open spec fn spec_block_size(self) -> Option<usize> {
        match self {
            VariableType::Struct { nbyte } => Some(nbyte),
            VariableType::Other { size } => size,
            _ => None,
        }
    }

    /// Size in bytes of a block of data of this type; `None` for types that
    /// are no block.
    pub fn block_size(&self) -> (size: Option<usize>)
        ensures
            size == self.spec_block_size(),
    {
        match self {
            VariableType::Struct { nbyte } => Some(*nbyte),
            VariableType::Other { size } => *size,
            _ => None,
        }
    }
}

} // verus!
