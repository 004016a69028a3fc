use render_bridge::binding::{
    BindingType, SamplerBindingType, StorageFormat, StorageTextureAccess, TextureSampleType,
    TextureViewDimension, STAGE_COMPUTE,
};
use render_bridge::reflection::{ReflectError, ReflectionSettings};
use render_bridge::reflector::{module_entry_points, reflect};
use render_bridge::shader::{
    DescriptorType, Dim, ExecutionModel, ScalarType, ShaderVariable, VariableType,
};

fn op(opcode: u32, operands: &[u32]) -> Vec<u32> {
    let mut words = vec![((operands.len() as u32 + 1) << 16) | opcode];
    words.extend_from_slice(operands);
    words
}

fn to_bytes(words: &[u32]) -> Vec<u8> {
    let mut bytes = Vec::new();
    for word in words {
        bytes.extend_from_slice(&word.to_le_bytes());
    }
    bytes
}

fn to_bytes_big_endian(words: &[u32]) -> Vec<u8> {
    let mut bytes = Vec::new();
    for word in words {
        bytes.extend_from_slice(&word.to_be_bytes());
    }
    bytes
}

const MAIN: u32 = 0x6E69616D;

fn compute_module() -> Vec<u32> {
    let mut w = vec![0x07230203, 0x00010000, 0, 32, 0];
    w.extend(op(17, &[1]));
    w.extend(op(14, &[0, 1]));
    w.extend(op(15, &[5, 1, MAIN, 0]));
    w.extend(op(16, &[1, 17, 8, 8, 1]));
    w.extend(op(72, &[7, 0, 35, 0]));
    w.extend(op(72, &[8, 0, 35, 0]));
    w.extend(op(72, &[8, 1, 35, 16]));
    w.extend(op(71, &[7, 2]));
    w.extend(op(71, &[8, 2]));
    w.extend(op(71, &[15, 34, 0]));
    w.extend(op(71, &[15, 33, 0]));
    w.extend(op(71, &[18, 34, 0]));
    w.extend(op(71, &[18, 33, 1]));
    w.extend(op(71, &[21, 34, 0]));
    w.extend(op(71, &[21, 33, 2]));
    w.extend(op(19, &[2]));
    w.extend(op(33, &[3, 2]));
    w.extend(op(22, &[4, 32]));
    w.extend(op(23, &[5, 4, 4]));
    w.extend(op(23, &[6, 4, 2]));
    w.extend(op(30, &[7, 5]));
    w.extend(op(30, &[8, 5, 6]));
    w.extend(op(32, &[9, 9, 7]));
    w.extend(op(32, &[10, 9, 8]));
    w.extend(op(59, &[9, 11, 9]));
    w.extend(op(59, &[10, 12, 9]));
    w.extend(op(25, &[13, 4, 1, 0, 0, 0, 1, 0]));
    w.extend(op(32, &[14, 0, 13]));
    w.extend(op(59, &[14, 15, 0]));
    w.extend(op(26, &[16]));
    w.extend(op(32, &[17, 0, 16]));
    w.extend(op(59, &[17, 18, 0]));
    w.extend(op(25, &[19, 4, 1, 0, 0, 0, 2, 2]));
    w.extend(op(32, &[20, 0, 19]));
    w.extend(op(59, &[20, 21, 0]));
    w.extend(op(54, &[2, 1, 0, 3]));
    w.extend(op(248, &[22]));
    w.extend(op(253, &[]));
    w.extend(op(56, &[]));
    w
}

#[test]
fn reflect_two_push_constant_blocks_takes_the_larger() {
    let bytes = to_bytes(&compute_module());
    let reflection = reflect(&bytes, &ReflectionSettings::default()).unwrap();
    assert_eq!(reflection.max_push_constant_size, 24);
    assert_eq!(reflection.entry_points.len(), 1);
    assert_eq!(reflection.entry_points[0].name, "main");
    assert_eq!(reflection.entry_points[0].exec_model, ExecutionModel::GLCompute);
}

#[test]
fn reflect_reports_the_variables_of_the_module() {
    let bytes = to_bytes(&compute_module());
    let entry_points = module_entry_points(&bytes).unwrap();
    assert_eq!(entry_points.len(), 1);
    let vars = &entry_points[0].vars;
    assert_eq!(vars.len(), 5);
    assert_eq!(vars[0], ShaderVariable::PushConstant { ty: VariableType::Struct { nbyte: 16 } });
    assert_eq!(vars[1], ShaderVariable::PushConstant { ty: VariableType::Struct { nbyte: 24 } });
    assert_eq!(
        vars[2],
        ShaderVariable::Descriptor {
            set: 0,
            bind: 0,
            desc_ty: DescriptorType::SampledImage,
            ty: VariableType::SampledImage {
                scalar_ty: ScalarType::Float(4),
                dim: Dim::Dim2D,
                is_array: false,
                is_multisampled: false,
            },
            nbind: 1,
        }
    );
    assert_eq!(
        vars[3],
        ShaderVariable::Descriptor {
            set: 0,
            bind: 1,
            desc_ty: DescriptorType::Sampler,
            ty: VariableType::Sampler,
            nbind: 1,
        }
    );
}

#[test]
fn reflect_derives_the_layout_of_each_slot() {
    let bytes = to_bytes(&compute_module());
    let reflection = reflect(&bytes, &ReflectionSettings::default()).unwrap();
    assert_eq!(reflection.bindings.len(), 1);
    let set = &reflection.bindings[&0];
    assert_eq!(set.len(), 3);
    assert_eq!(set[&0].binding, 0);
    assert_eq!(set[&0].visibility.bits, STAGE_COMPUTE);
    assert_eq!(set[&0].count, None);
    assert_eq!(
        set[&0].ty,
        BindingType::Texture {
            sample_type: TextureSampleType::Float { filterable: true },
            view_dimension: TextureViewDimension::D2,
            multisampled: false,
        }
    );
    assert_eq!(set[&1].ty, BindingType::Sampler(SamplerBindingType::Filtering));
    assert_eq!(
        set[&2].ty,
        BindingType::StorageTexture {
            access: StorageTextureAccess::ReadWrite,
            format: StorageFormat::Rgba16Float,
            view_dimension: TextureViewDimension::D2,
        }
    );
}

#[test]
fn reflect_applies_the_sample_type_override() {
    let bytes = to_bytes(&compute_module());
    let settings =
        ReflectionSettings { override_sampled_texture_ty: Some((0, TextureSampleType::Depth)) };
    let reflection = reflect(&bytes, &settings).unwrap();
    assert_eq!(
        reflection.bindings[&0][&0].ty,
        BindingType::Texture {
            sample_type: TextureSampleType::Depth,
            view_dimension: TextureViewDimension::D2,
            multisampled: false,
        }
    );
}

#[test]
fn reflect_reads_big_endian_modules() {
    let bytes = to_bytes_big_endian(&compute_module());
    let reflection = reflect(&bytes, &ReflectionSettings::default()).unwrap();
    assert_eq!(reflection.max_push_constant_size, 24);
    assert_eq!(reflection.bindings[&0].len(), 3);
}

#[test]
fn reflect_of_no_bytes_finds_nothing() {
    let reflection = reflect(&[], &ReflectionSettings::default()).unwrap();
    assert!(reflection.bindings.is_empty());
    assert!(reflection.entry_points.is_empty());
    assert_eq!(reflection.max_push_constant_size, 0);
}

#[test]
fn reflect_refuses_an_instruction_of_no_words() {
    let mut words = compute_module();
    words.push(0x0000_0013);
    let r = reflect(&to_bytes(&words), &ReflectionSettings::default());
    assert!(matches!(r, Err(ReflectError::MalformedModule)));
}

#[test]
fn reflect_refuses_a_division_among_specialization_constants() {
    let mut words = vec![0x07230203, 0x00010000, 0, 32, 0];
    words.extend(op(52, &[1, 2, 134, 3, 4]));
    let r = reflect(&to_bytes(&words), &ReflectionSettings::default());
    assert!(matches!(r, Err(ReflectError::MalformedModule)));
}

#[test]
fn reflect_fails_on_a_module_that_the_reflector_rejects() {
    let mut words = vec![0x07230203, 0x00010000, 0, 32, 0];
    words.extend(op(15, &[5, 1, 0x6E69616D]));
    let r = reflect(&to_bytes(&words), &ReflectionSettings::default());
    assert!(matches!(r, Err(ReflectError::MalformedModule)));
}

#[test]
fn reflect_refuses_an_offset_beyond_the_bound() {
    let mut words = vec![0x07230203, 0x00010000, 0, 32, 0];
    words.extend(op(17, &[1]));
    words.extend(op(72, &[7, 0, 35, u32::MAX]));
    let r = reflect(&to_bytes(&words), &ReflectionSettings::default());
    assert!(matches!(r, Err(ReflectError::MalformedModule)));
    assert!(module_entry_points(&to_bytes(&words)).is_none());
}

#[test]
fn reflect_gives_the_same_for_the_same_bytes() {
    let bytes = to_bytes(&compute_module());
    let first = module_entry_points(&bytes).unwrap();
    let second = module_entry_points(&bytes).unwrap();
    assert_eq!(first.len(), second.len());
    assert_eq!(first[0].name, second[0].name);
    assert_eq!(first[0].exec_model, second[0].exec_model);
    assert_eq!(first[0].vars, second[0].vars);
}

