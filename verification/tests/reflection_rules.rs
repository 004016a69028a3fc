use render_bridge::binding::{
    BindingType, BufferBindingType, SamplerBindingType, StorageFormat, StorageTextureAccess,
    TextureSampleType, TextureViewDimension, STAGE_COMPUTE, STAGE_FRAGMENT, STAGE_VERTEX,
};
use render_bridge::reflection::{
    binding_count, binding_type, map_dim, map_format, reflect_entry_points, same_shape, stage_of,
    ReflectError, ReflectionSettings,
};
use render_bridge::shader::{
    AccessType, DescriptorType, Dim, ExecutionModel, ImageFormat, ScalarType, ShaderEntryPoint,
    ShaderVariable, VariableType,
};

fn float_image(dim: Dim, is_array: bool) -> VariableType {
    VariableType::SampledImage {
        scalar_ty: ScalarType::Float(4),
        dim,
        is_array,
        is_multisampled: false,
    }
}

fn sampled(set: u32, bind: u32) -> ShaderVariable {
    ShaderVariable::Descriptor {
        set,
        bind,
        desc_ty: DescriptorType::SampledImage,
        ty: float_image(Dim::Dim2D, false),
        nbind: 1,
    }
}

fn sampler(set: u32, bind: u32) -> ShaderVariable {
    ShaderVariable::Descriptor {
        set,
        bind,
        desc_ty: DescriptorType::Sampler,
        ty: VariableType::Sampler,
        nbind: 1,
    }
}

fn push(nbyte: usize) -> ShaderVariable {
    ShaderVariable::PushConstant { ty: VariableType::Struct { nbyte } }
}

fn entry(exec_model: ExecutionModel, vars: Vec<ShaderVariable>) -> ShaderEntryPoint {
    ShaderEntryPoint { exec_model, name: String::from("main"), vars }
}

fn float_texture(sample_type: TextureSampleType) -> BindingType {
    BindingType::Texture {
        sample_type,
        view_dimension: TextureViewDimension::D2,
        multisampled: false,
    }
}

fn error_of(vars: Vec<ShaderVariable>) -> ReflectError {
    match reflect_entry_points(
        vec![entry(ExecutionModel::GLCompute, vars)],
        &ReflectionSettings::default(),
    ) {
        Ok(_) => panic!("reflection succeeded"),
        Err(e) => e,
    }
}

#[test]
fn stages_follow_the_execution_model() {
    assert_eq!(stage_of(ExecutionModel::Vertex).unwrap().bits, STAGE_VERTEX);
    assert_eq!(stage_of(ExecutionModel::Fragment).unwrap().bits, STAGE_FRAGMENT);
    assert_eq!(stage_of(ExecutionModel::GLCompute).unwrap().bits, STAGE_COMPUTE);
    assert_eq!(stage_of(ExecutionModel::Other(3)), None);
}

#[test]
fn dimensions_map_to_view_shapes() {
    assert_eq!(map_dim(Dim::Dim2D, true), Some(TextureViewDimension::D2Array));
    assert_eq!(map_dim(Dim::Dim2D, false), Some(TextureViewDimension::D2));
    assert_eq!(map_dim(Dim::Dim3D, false), Some(TextureViewDimension::D3));
    assert_eq!(map_dim(Dim::Dim3D, true), Some(TextureViewDimension::D3));
    assert_eq!(map_dim(Dim::DimCube, false), Some(TextureViewDimension::Cube));
    assert_eq!(map_dim(Dim::Dim1D, false), None);
    assert_eq!(map_dim(Dim::DimBuffer, false), None);
}

#[test]
fn formats_map_to_storage_formats() {
    assert_eq!(map_format(ImageFormat::Rgba16f), Some(StorageFormat::Rgba16Float));
    assert_eq!(map_format(ImageFormat::R16f), Some(StorageFormat::R16Float));
    assert_eq!(map_format(ImageFormat::Rg16f), Some(StorageFormat::Rg16Float));
    assert_eq!(map_format(ImageFormat::Rgba32f), Some(StorageFormat::Rgba32Float));
    assert_eq!(map_format(ImageFormat::Unknown), None);
    assert_eq!(map_format(ImageFormat::Other(4)), None);
}

#[test]
fn binding_counts_follow_the_number_of_bindings() {
    assert_eq!(binding_count(0), Some(4096));
    assert_eq!(binding_count(1), None);
    assert_eq!(binding_count(2), Some(2));
    assert_eq!(binding_count(64), Some(64));
}

#[test]
fn binding_types_of_each_supported_pair() {
    let float = TextureSampleType::Float { filterable: true };
    assert_eq!(
        binding_type(DescriptorType::SampledImage, float_image(Dim::DimCube, false), float),
        Ok(BindingType::Texture {
            sample_type: float,
            view_dimension: TextureViewDimension::Cube,
            multisampled: false,
        })
    );
    assert_eq!(
        binding_type(
            DescriptorType::StorageImage(AccessType::ReadWrite),
            VariableType::StorageImage { dim: Dim::Dim2D, is_array: true, fmt: ImageFormat::R16f },
            float
        ),
        Ok(BindingType::StorageTexture {
            access: StorageTextureAccess::ReadWrite,
            format: StorageFormat::R16Float,
            view_dimension: TextureViewDimension::D2Array,
        })
    );
    assert_eq!(
        binding_type(DescriptorType::Sampler, VariableType::Sampler, float),
        Ok(BindingType::Sampler(SamplerBindingType::Filtering))
    );
    assert_eq!(
        binding_type(DescriptorType::UniformBuffer, VariableType::Struct { nbyte: 80 }, float),
        Ok(BindingType::Buffer {
            ty: BufferBindingType::Uniform,
            has_dynamic_offset: false,
            min_binding_size: Some(80),
        })
    );
    assert_eq!(
        binding_type(
            DescriptorType::StorageBuffer(AccessType::ReadOnly),
            VariableType::Struct { nbyte: 0 },
            float
        ),
        Ok(BindingType::Buffer {
            ty: BufferBindingType::Storage { read_only: true },
            has_dynamic_offset: false,
            min_binding_size: None,
        })
    );
    assert_eq!(
        binding_type(
            DescriptorType::StorageBuffer(AccessType::ReadWrite),
            VariableType::Struct { nbyte: 48 },
            float
        ),
        Ok(BindingType::Buffer {
            ty: BufferBindingType::Storage { read_only: false },
            has_dynamic_offset: false,
            min_binding_size: Some(48),
        })
    );
}

#[test]
fn unsupported_sample_type_is_an_error() {
    let var = ShaderVariable::Descriptor {
        set: 0,
        bind: 0,
        desc_ty: DescriptorType::SampledImage,
        ty: VariableType::SampledImage {
            scalar_ty: ScalarType::Unsigned(4),
            dim: Dim::Dim2D,
            is_array: false,
            is_multisampled: false,
        },
        nbind: 1,
    };
    assert_eq!(error_of(vec![var]), ReflectError::UnsupportedSampleType);
}

#[test]
fn unsupported_dimension_is_an_error() {
    let var = ShaderVariable::Descriptor {
        set: 0,
        bind: 0,
        desc_ty: DescriptorType::SampledImage,
        ty: float_image(Dim::Dim1D, false),
        nbind: 1,
    };
    assert_eq!(error_of(vec![var]), ReflectError::UnsupportedDimension);
}

#[test]
fn unsupported_format_is_an_error() {
    let var = ShaderVariable::Descriptor {
        set: 0,
        bind: 0,
        desc_ty: DescriptorType::StorageImage(AccessType::ReadWrite),
        ty: VariableType::StorageImage { dim: Dim::Dim2D, is_array: false, fmt: ImageFormat::Other(4) },
        nbind: 1,
    };
    assert_eq!(error_of(vec![var]), ReflectError::UnsupportedFormat);
}

#[test]
fn unsupported_access_is_an_error() {
    let var = ShaderVariable::Descriptor {
        set: 0,
        bind: 0,
        desc_ty: DescriptorType::StorageImage(AccessType::ReadOnly),
        ty: VariableType::StorageImage { dim: Dim::Dim2D, is_array: false, fmt: ImageFormat::Rgba16f },
        nbind: 1,
    };
    assert_eq!(error_of(vec![var]), ReflectError::UnsupportedAccess);
}

#[test]
fn empty_uniform_block_is_an_error() {
    let var = ShaderVariable::Descriptor {
        set: 0,
        bind: 0,
        desc_ty: DescriptorType::UniformBuffer,
        ty: VariableType::Struct { nbyte: 0 },
        nbind: 1,
    };
    assert_eq!(error_of(vec![var]), ReflectError::EmptyUniformBlock);
}

#[test]
fn unsupported_pair_is_an_error() {
    let var = ShaderVariable::Descriptor {
        set: 0,
        bind: 0,
        desc_ty: DescriptorType::CombinedImageSampler,
        ty: VariableType::Sampler,
        nbind: 1,
    };
    assert_eq!(error_of(vec![var]), ReflectError::UnsupportedBinding);
}

#[test]
fn unsupported_execution_model_is_an_error() {
    let r = reflect_entry_points(
        vec![entry(ExecutionModel::Other(3), vec![])],
        &ReflectionSettings::default(),
    );
    assert!(matches!(r, Err(ReflectError::UnsupportedExecutionModel)));
}

#[test]
fn conflicting_duplicate_is_an_error() {
    assert_eq!(error_of(vec![sampled(0, 0), sampler(0, 0)]), ReflectError::ConflictingBinding);
    let mut many = sampled(0, 0);
    if let ShaderVariable::Descriptor { nbind, .. } = &mut many {
        *nbind = 4;
    }
    assert_eq!(error_of(vec![sampled(0, 0), many]), ReflectError::ConflictingBinding);
}

#[test]
fn first_error_in_order_wins() {
    let bad_sampler = ShaderVariable::Descriptor {
        set: 0,
        bind: 1,
        desc_ty: DescriptorType::CombinedImageSampler,
        ty: VariableType::Sampler,
        nbind: 1,
    };
    let bad_block = ShaderVariable::Descriptor {
        set: 0,
        bind: 2,
        desc_ty: DescriptorType::UniformBuffer,
        ty: VariableType::Struct { nbyte: 0 },
        nbind: 1,
    };
    assert_eq!(error_of(vec![bad_block, bad_sampler]), ReflectError::EmptyUniformBlock);
    assert_eq!(error_of(vec![bad_sampler, bad_block]), ReflectError::UnsupportedBinding);
}

#[test]
fn same_slot_in_two_stages_is_visible_to_both() {
    let reflection = reflect_entry_points(
        vec![
            entry(ExecutionModel::Vertex, vec![sampled(0, 0), sampler(0, 1)]),
            entry(ExecutionModel::Fragment, vec![sampled(0, 0), sampler(1, 0)]),
        ],
        &ReflectionSettings::default(),
    )
    .unwrap();
    assert_eq!(reflection.bindings.len(), 2);
    assert_eq!(reflection.bindings[&0][&0].visibility.bits, STAGE_VERTEX | STAGE_FRAGMENT);
    assert_eq!(reflection.bindings[&0][&1].visibility.bits, STAGE_VERTEX);
    assert_eq!(reflection.bindings[&1][&0].visibility.bits, STAGE_FRAGMENT);
    assert_eq!(reflection.entry_points.len(), 2);
}

#[test]
fn override_goes_to_the_first_sampled_image_at_its_slot() {
    let settings =
        ReflectionSettings { override_sampled_texture_ty: Some((0, TextureSampleType::Depth)) };
    let reflection = reflect_entry_points(
        vec![entry(
            ExecutionModel::GLCompute,
            vec![sampler(0, 0), sampled(1, 1), sampled(1, 0), sampled(2, 0)],
        )],
        &settings,
    )
    .unwrap();
    assert_eq!(reflection.bindings[&0][&0].ty, BindingType::Sampler(SamplerBindingType::Filtering));
    assert_eq!(
        reflection.bindings[&1][&1].ty,
        float_texture(TextureSampleType::Float { filterable: true })
    );
    assert_eq!(reflection.bindings[&1][&0].ty, float_texture(TextureSampleType::Depth));
    assert_eq!(
        reflection.bindings[&2][&0].ty,
        float_texture(TextureSampleType::Float { filterable: true })
    );
}

#[test]
fn overridden_slot_may_be_met_again() {
    let settings =
        ReflectionSettings { override_sampled_texture_ty: Some((0, TextureSampleType::Depth)) };
    let reflection = reflect_entry_points(
        vec![
            entry(ExecutionModel::Vertex, vec![sampled(0, 0)]),
            entry(ExecutionModel::Fragment, vec![sampled(0, 0)]),
        ],
        &settings,
    )
    .unwrap();
    assert_eq!(reflection.bindings[&0][&0].ty, float_texture(TextureSampleType::Depth));
    assert_eq!(reflection.bindings[&0][&0].visibility.bits, 3);
}

#[test]
fn push_constant_size_is_the_largest_block() {
    let reflection = reflect_entry_points(
        vec![
            entry(ExecutionModel::Vertex, vec![push(16), push(24), push(8)]),
            entry(ExecutionModel::Fragment, vec![push(20)]),
        ],
        &ReflectionSettings::default(),
    )
    .unwrap();
    assert_eq!(reflection.max_push_constant_size, 24);
    let none = reflect_entry_points(vec![], &ReflectionSettings::default()).unwrap();
    assert_eq!(none.max_push_constant_size, 0);
    assert!(none.bindings.is_empty());
}

#[test]
fn inputs_and_outputs_declare_no_binding() {
    let reflection = reflect_entry_points(
        vec![entry(
            ExecutionModel::Vertex,
            vec![
                ShaderVariable::Input {
                    location: 0,
                    component: 0,
                    ty: VariableType::Vector { scalar_ty: ScalarType::Float(4), nscalar: 3 },
                },
                ShaderVariable::Output {
                    location: 0,
                    component: 0,
                    ty: VariableType::Scalar(ScalarType::Float(4)),
                },
                ShaderVariable::SpecConstant { spec_id: 1, ty: VariableType::Scalar(ScalarType::Boolean) },
            ],
        )],
        &ReflectionSettings::default(),
    )
    .unwrap();
    assert!(reflection.bindings.is_empty());
    assert_eq!(reflection.max_push_constant_size, 0);
}

#[test]
fn shapes_differ_in_more_than_the_sample_type() {
    let a = float_texture(TextureSampleType::Depth);
    let b = float_texture(TextureSampleType::Float { filterable: true });
    assert!(same_shape(a, b));
    let cube = BindingType::Texture {
        sample_type: TextureSampleType::Depth,
        view_dimension: TextureViewDimension::Cube,
        multisampled: false,
    };
    assert!(!same_shape(a, cube));
    assert!(!same_shape(a, BindingType::Sampler(SamplerBindingType::Filtering)));
    assert!(same_shape(cube, cube));
}

#[test]
fn default_settings_override_nothing() {
    assert!(ReflectionSettings::default().override_sampled_texture_ty.is_none());
}
