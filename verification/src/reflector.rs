//! Reflection of SPIR-V bytecode through the `spirq` crate.
//!
//! The reflector's values are opaque here. The trusted functions of this
//! file hand what it reports out as plain values, under a name; the rest of
//! the file assembles the shader interface from them.
use crate::reflection::reflect_entry_points;
use crate::reflection::reflect_spec;
use crate::reflection_laws::lemma_reflection_never_malformed;
use crate::reflection::ReflectError;
use crate::reflection::ReflectState;
use crate::reflection::Reflection;
use crate::reflection::ReflectionSettings;
use crate::shader::AccessType;
use crate::shader::DescriptorType;
use crate::shader::Dim;
use crate::shader::ShaderEntryPoint;
use crate::shader::ExecutionModel;
use crate::shader::ImageFormat;
use crate::shader::ScalarType;
use crate::shader::ShaderVariable;
use crate::shader::VariableType;
use crate::spirv::module_accepted;
use crate::spirv::module_words;
use crate::spirv::spec_module_accepted;
use crate::spirv::spec_module_words;
use crate::table::table_view;
use vstd::prelude::*;

verus! {

/// `spirq::EntryPoint`: an entry point as the reflector reports it. Nothing
/// is known of what it holds.
#[verifier::external_type_specification]
#[verifier::external_body]
pub struct ExEntryPoint(spirq::EntryPoint);

/// `spirq::Variable`: a variable as the reflector reports it. Nothing is
/// known of what it holds.
#[verifier::external_type_specification]
#[verifier::external_body]
pub struct ExVariable(spirq::Variable);

/// Where a variable is attached, with the numbers that locate it.
#[derive(Clone, Copy, Debug, PartialEq, Eq, Structural)]
pub enum Locator {
    Input(u32, u32),
    Output(u32, u32),
    Descriptor(u32, u32),
    PushConstant,
    SpecConstant(u32),
}

/// Kind of descriptor, without the access that some kinds carry.
#[derive(Clone, Copy, Debug, PartialEq, Eq, Structural)]
pub enum DescriptorKind {
    Sampler,
    CombinedImageSampler,
    SampledImage,
    StorageImage,
    UniformTexelBuffer,
    StorageTexelBuffer,
    UniformBuffer,
    StorageBuffer,
    InputAttachment,
    AccelStruct,
}

/// Kind of type, as far as the bridge tells types apart.
#[derive(Clone, Copy, Debug, PartialEq, Eq, Structural)]
pub enum TypeKind {
    Scalar,
    Vector,
    SampledImage,
    StorageImage,
    Sampler,
    Struct,
    Other,
}

/// What the reflector tells of a scalar type, and of the vector around it.
#[derive(Clone, Copy, Debug, PartialEq, Eq, Structural)]
pub struct ScalarInfo {
    pub is_boolean: bool,
    pub is_sint: bool,
    pub is_uint: bool,
    pub is_float: bool,
    pub nbyte: usize,
    pub nscalar: Option<u32>,
}

/// What the reflector tells of an image type, with SPIR-V's own numbers for
/// the dimensionality and the format.
#[derive(Clone, Copy, Debug, PartialEq, Eq, Structural)]
pub struct ImageInfo {
    pub dim: u32,
    pub is_array: bool,
    pub is_multisampled: bool,
    pub fmt: Option<u32>,
}

/// Reads the field `exec_model` of `spirq::EntryPoint`, as SPIR-V's number.
#[verifier::external_body]
fn entry_point_model(entry_point: &spirq::EntryPoint) -> (model: u32) {
    entry_point.exec_model as u32
}

/// Copies the field `name` of `spirq::EntryPoint`.
#[verifier::external_body]
fn entry_point_name(entry_point: &spirq::EntryPoint) -> (name: String) {
    entry_point.name.clone()
}

/// Borrows the field `vars` of `spirq::EntryPoint`.
#[verifier::external_body]
fn entry_point_vars(entry_point: &spirq::EntryPoint) -> (vars: &Vec<spirq::Variable>) {
    &entry_point.vars
}

/// Calls `spirq::Variable::locator` and tells its variants apart.
#[verifier::external_body]
fn variable_locator(var: &spirq::Variable) -> (locator: Locator) {
    match var.locator() {
        spirq::Locator::Input(location) => Locator::Input(location.loc(), location.comp()),
        spirq::Locator::Output(location) => Locator::Output(location.loc(), location.comp()),
        spirq::Locator::Descriptor(binding) => Locator::Descriptor(binding.set(), binding.bind()),
        spirq::Locator::PushConstant => Locator::PushConstant,
        spirq::Locator::SpecConstant(spec_id) => Locator::SpecConstant(spec_id),
    }
}

/// Calls `spirq::Variable::nbind`.
#[verifier::external_body]
fn variable_nbind(var: &spirq::Variable) -> (nbind: Option<u32>) {
    var.nbind()
}

/// Calls `spirq::Variable::desc_ty` and tells its variants apart.
#[verifier::external_body]
fn variable_descriptor_kind(var: &spirq::Variable) -> (kind: Option<DescriptorKind>) {
    Some(match var.desc_ty()? {
        spirq::DescriptorType::Sampler() => DescriptorKind::Sampler,
        spirq::DescriptorType::CombinedImageSampler() => DescriptorKind::CombinedImageSampler,
        spirq::DescriptorType::SampledImage() => DescriptorKind::SampledImage,
        spirq::DescriptorType::StorageImage(_) => DescriptorKind::StorageImage,
        spirq::DescriptorType::UniformTexelBuffer() => DescriptorKind::UniformTexelBuffer,
        spirq::DescriptorType::StorageTexelBuffer(_) => DescriptorKind::StorageTexelBuffer,
        spirq::DescriptorType::UniformBuffer() => DescriptorKind::UniformBuffer,
        spirq::DescriptorType::StorageBuffer(_) => DescriptorKind::StorageBuffer,
        spirq::DescriptorType::InputAttachment(_) => DescriptorKind::InputAttachment,
        spirq::DescriptorType::AccelStruct() => DescriptorKind::AccelStruct,
    })
}

/// Calls `spirq::Variable::desc_ty` and hands out the access that a storage
/// descriptor carries.
#[verifier::external_body]
fn variable_descriptor_access(var: &spirq::Variable) -> (access: Option<AccessType>) {
    let access = match var.desc_ty()? {
        spirq::DescriptorType::StorageImage(access) => access,
        spirq::DescriptorType::StorageTexelBuffer(access) => access,
        spirq::DescriptorType::StorageBuffer(access) => access,
        _ => return None,
    };
    Some(match access {
        spirq::AccessType::ReadOnly => AccessType::ReadOnly,
        spirq::AccessType::WriteOnly => AccessType::WriteOnly,
        spirq::AccessType::ReadWrite => AccessType::ReadWrite,
    })
}

/// Calls `spirq::Variable::ty` and tells the variants of `spirq::ty::Type`
/// apart.
#[verifier::external_body]
fn variable_type_kind(var: &spirq::Variable) -> (kind: TypeKind) {
    match var.ty() {
        spirq::ty::Type::Scalar(_) => TypeKind::Scalar,
        spirq::ty::Type::Vector(_) => TypeKind::Vector,
        spirq::ty::Type::SampledImage(_) => TypeKind::SampledImage,
        spirq::ty::Type::StorageImage(_) => TypeKind::StorageImage,
        spirq::ty::Type::Sampler() => TypeKind::Sampler,
        spirq::ty::Type::Struct(_) => TypeKind::Struct,
        _ => TypeKind::Other,
    }
}

/// Calls `spirq::Variable::ty` and, on the scalar type of a scalar, a vector
/// or a sampled image, the methods `is_boolean`, `is_sint`, `is_uint`,
/// `is_float` and `nbyte` of `spirq::ty::ScalarType`; for a vector, also
/// reads its field `nscalar`.
#[verifier::external_body]
fn variable_scalar(var: &spirq::Variable) -> (info: Option<ScalarInfo>) {
    let (scalar, nscalar) = match var.ty() {
        spirq::ty::Type::Scalar(scalar) => (scalar, None),
        spirq::ty::Type::Vector(vector) => (&vector.scalar_ty, Some(vector.nscalar)),
        spirq::ty::Type::SampledImage(image) => (&image.scalar_ty, None),
        _ => return None,
    };
    let (is_boolean, is_sint) = (scalar.is_boolean(), scalar.is_sint());
    let (is_uint, is_float) = (scalar.is_uint(), scalar.is_float());
    Some(ScalarInfo { is_boolean, is_sint, is_uint, is_float, nbyte: scalar.nbyte(), nscalar })
}

/// Calls `spirq::Variable::ty` and reads the fields of a sampled or storage
/// image type.
#[verifier::external_body]
fn variable_image(var: &spirq::Variable) -> (info: Option<ImageInfo>) {
    match var.ty() {
        spirq::ty::Type::SampledImage(image) => {
            let (is_array, is_multisampled) = (image.is_array, image.is_multisampled);
            Some(ImageInfo { dim: image.dim as u32, is_array, is_multisampled, fmt: None })
        },
        spirq::ty::Type::StorageImage(image) => {
            let (is_array, is_multisampled) = (image.is_array, image.is_multisampled);
            Some(ImageInfo { dim: image.dim as u32, is_array, is_multisampled, fmt: Some(image.fmt as u32) })
        },
        _ => None,
    }
}

/// Calls `spirq::ty::Type::nbyte` on the type of `var`.
#[verifier::external_body]
fn variable_size(var: &spirq::Variable) -> (size: Option<usize>) {
    var.ty().nbyte()
}

/// The descriptor type of kind `kind`; a storage kind needs its access.
fn descriptor_type_of(kind: DescriptorKind, access: Option<AccessType>) -> (desc_ty: Option<
    DescriptorType,
>)
    ensures
        desc_ty == spec_descriptor_type_of(kind, access),
{
    match kind {
        DescriptorKind::Sampler => Some(DescriptorType::Sampler),
        DescriptorKind::CombinedImageSampler => Some(DescriptorType::CombinedImageSampler),
        DescriptorKind::SampledImage => Some(DescriptorType::SampledImage),
        DescriptorKind::UniformTexelBuffer => Some(DescriptorType::UniformTexelBuffer),
        DescriptorKind::UniformBuffer => Some(DescriptorType::UniformBuffer),
        DescriptorKind::InputAttachment => Some(DescriptorType::InputAttachment),
        DescriptorKind::AccelStruct => Some(DescriptorType::AccelStruct),
        DescriptorKind::StorageImage => match access {
            Some(access) => Some(DescriptorType::StorageImage(access)),
            None => None,
        },
        DescriptorKind::StorageTexelBuffer => match access {
            Some(access) => Some(DescriptorType::StorageTexelBuffer(access)),
            None => None,
        },
        DescriptorKind::StorageBuffer => match access {
            Some(access) => Some(DescriptorType::StorageBuffer(access)),
            None => None,
        },
    }
}

/// The scalar type that `info` describes, where its size fits.
fn scalar_type_of(info: &ScalarInfo) -> (scalar_ty: Option<ScalarType>)
    ensures
        scalar_ty == spec_scalar_type_of(*info),
{
    if info.nbyte > 0xFFFF_FFFF {
        return None;
    }
    let nbyte: u32 = info.nbyte as u32;
    if info.is_boolean {
        Some(ScalarType::Boolean)
    } else if info.is_sint {
        Some(ScalarType::Signed(nbyte))
    } else if info.is_uint {
        Some(ScalarType::Unsigned(nbyte))
    } else if info.is_float {
        Some(ScalarType::Float(nbyte))
    } else {
        Some(ScalarType::Void)
    }
}

/// The type of the variable that `report` tells of; `None` where the
/// reflector's answers do not fit together.
fn variable_type_of(report: &VariableReport) -> (ty: Option<VariableType>)
    ensures
        ty == spec_variable_type_of(*report),
{
    match report.type_kind {
        TypeKind::Sampler => Some(VariableType::Sampler),
        TypeKind::Other => Some(VariableType::Other { size: report.size }),
        TypeKind::Struct => match report.size {
            Some(nbyte) => Some(VariableType::Struct { nbyte }),
            None => None,
        },
        TypeKind::Scalar => match report.scalar {
            Some(info) => match scalar_type_of(&info) {
                Some(scalar_ty) => Some(VariableType::Scalar(scalar_ty)),
                None => None,
            },
            None => None,
        },
        TypeKind::Vector => match report.scalar {
            Some(info) => match (scalar_type_of(&info), info.nscalar) {
                (Some(scalar_ty), Some(nscalar)) => Some(VariableType::Vector { scalar_ty, nscalar }),
                _ => None,
            },
            None => None,
        },
        TypeKind::SampledImage => match (report.scalar, report.image) {
            (Some(scalar), Some(image)) => match scalar_type_of(&scalar) {
                Some(scalar_ty) => Some(
                    VariableType::SampledImage {
                        scalar_ty,
                        dim: Dim::from_raw(image.dim),
                        is_array: image.is_array,
                        is_multisampled: image.is_multisampled,
                    },
                ),
                None => None,
            },
            _ => None,
        },
        TypeKind::StorageImage => match report.image {
            Some(image) => match image.fmt {
                Some(fmt) => Some(
                    VariableType::StorageImage {
                        dim: Dim::from_raw(image.dim),
                        is_array: image.is_array,
                        fmt: ImageFormat::from_raw(fmt),
                    },
                ),
                None => None,
            },
            None => None,
        },
    }
}

/// The interface variable that `report` tells of; `None` where the
/// reflector's answers do not fit together.
fn variable_of(report: &VariableReport) -> (variable: Option<ShaderVariable>)
    ensures
        variable == spec_variable_of(*report),
{
    let ty = match variable_type_of(report) {
        Some(ty) => ty,
        None => {
            return None;
        },
    };
    match report.locator {
        Locator::Input(location, component) => Some(ShaderVariable::Input { location, component, ty }),
        Locator::Output(location, component) => Some(
            ShaderVariable::Output { location, component, ty },
        ),
        Locator::PushConstant => Some(ShaderVariable::PushConstant { ty }),
        Locator::SpecConstant(spec_id) => Some(ShaderVariable::SpecConstant { spec_id, ty }),
        Locator::Descriptor(set, bind) => match (report.descriptor_kind, report.nbind) {
            (Some(kind), Some(nbind)) => match descriptor_type_of(kind, report.descriptor_access) {
                Some(desc_ty) => Some(ShaderVariable::Descriptor { set, bind, desc_ty, ty, nbind }),
                None => None,
            },
            _ => None,
        },
    }
}

/// The entry point that `report` tells of: its execution model by its
/// number, its name, and its variables in their order; `None` where one of
/// the variables has answers that do not fit together.
fn entry_point_of(report: &EntryPointReport) -> (model: Option<ShaderEntryPoint>)
    ensures
        model is Some <==> spec_convertible(*report),
        model matches Some(entry_point) ==> is_entry_point_of(*report, entry_point),
{
    let mut vars: Vec<ShaderVariable> = Vec::new();
    let mut i: usize = 0;
    while i < report.vars.len()
        invariant
            i <= report.vars.len(),
            vars@.len() == i,
            forall|k: int|
                0 <= k < i ==> spec_variable_of(#[trigger] report.vars@[k]) == Some(vars@[k]),
        decreases report.vars.len() - i,
    {
        match variable_of(&report.vars[i]) {
            Some(var) => vars.push(var),
            None => {
                assert(spec_variable_of(report.vars@[i as int]) is None);
                return None;
            },
        }
        i = i + 1;
    }
    Some(
        ShaderEntryPoint {
            exec_model: ExecutionModel::from_raw(report.model),
            name: report.name.clone(),
            vars,
        },
    )
}

/// The entry points of the module held in `bytes`: what the reflector
/// reports for its words, each report turned into an entry point. `None`
/// where the module is refused, where the reflector fails, and where one of
/// its reports does not fit together.
pub fn module_entry_points(bytes: &[u8]) -> (entry_points: Option<Vec<ShaderEntryPoint>>)
    ensures
        entry_points is Some <==> spec_reflectable(bytes@),
        match entry_points {
            Some(found) => are_entry_points_of(spec_reports(bytes@), found@),
            None => true,
        },
{
    let words = module_words(bytes);
    if !module_accepted(words.as_slice()) {
        return None;
    }
    let told = match reported_module(words.as_slice()) {
        Some(told) => told,
        None => {
            return None;
        },
    };
    let ghost reports = told@;
    let mut found: Vec<ShaderEntryPoint> = Vec::new();
    let mut i: usize = 0;
    while i < told.len()
        invariant
            i <= told.len(),
            reports == told@,
            reports == spec_reports(bytes@),
            found@.len() == i,
            forall|k: int|
                0 <= k < i ==> #[trigger] spec_convertible(reports[k]) && is_entry_point_of(
                    reports[k],
                    found@[k],
                ),
        decreases told.len() - i,
    {
        match entry_point_of(&told[i]) {
            Some(entry_point) => {
                found.push(entry_point);
            },
            None => {
                assert(!spec_convertible(reports[i as int]));
                return None;
            },
        }
        i = i + 1;
    }
    assert(spec_module_convertible(reports));
    assert(are_entry_points_of(reports, found@));
    let result = Some(found);
    assert(are_entry_points_of(spec_reports(bytes@), result->Some_0@));
    result
}

/// Reflects the module held in `bytes`: its binding layouts, its entry points
/// and the size of its largest push-constant block.
///
/// The module is malformed exactly where it is refused, where the reflector
/// fails, and where one of its reports does not fit together. Otherwise the
/// result is what the rules of reflection make of the entry points that the
/// reflector reports.
pub fn reflect(bytes: &[u8], settings: &ReflectionSettings) -> (r: Result<Reflection, ReflectError>)
    ensures
        (r matches Err(ReflectError::MalformedModule)) <==> !spec_reflectable(bytes@),
        spec_reflectable(bytes@) ==> spec_reflected(bytes@, *settings, r),
{
    match module_entry_points(bytes) {
        Some(entry_points) => {
            let ghost reported = entry_points@;
            let r = reflect_entry_points(entry_points, settings);
            proof {
                lemma_reflection_never_malformed(reported, *settings);
                if r is Err {
                    assert(are_entry_points_of(spec_reports(bytes@), reported) && reflect_spec(
                        reported,
                        *settings,
                    ) == Err::<ReflectState, ReflectError>(r->Err_0));
                }
            }
            r
        },
        None => Err(ReflectError::MalformedModule),
    }
}

/// What `spirq::ReflectConfig::reflect` reports for a module, with every
/// resource referenced: for each entry point and each of its variables the
/// answers to the questions of this file, or nothing where it fails.
pub uninterp spec fn spirq_reported(words: Seq<u32>) -> Option<Seq<EntryPointReport>>;

/// Calls `spirq::ReflectConfig::reflect` on `words`, with every resource of
/// the module referenced, and hands out the report of each entry point;
/// `None` stands for every error of the reflector. The reflector works on
/// the words alone, so the same words give the same reports; it reads the
/// values of constants in the byte order of the machine, so this is said of
/// little-endian machines. The
/// precondition leaves out the modules on which the reflector panics: an
/// instruction of zero words, which it slices from one to zero; a division
/// or remainder among specialization constants, whose divisor it does not
/// test; vector or matrix types of so many components, and offsets or
/// strides so large, that the sizes it adds and multiplies in `usize`
/// overflow 64 bits; and more type declarations than its recursion over
/// nested types can take.
#[verifier::external_body]
fn reported_module(words: &[u32]) -> (reports: Option<Vec<EntryPointReport>>)
    requires
        spec_module_accepted(words@),
    ensures
        match reports {
            Some(reports) => spirq_reported(words@) == Some(reports@),
            None => spirq_reported(words@) is None,
        },
{
    let entry_points = spirq::ReflectConfig::new().ref_all_rscs(true).spv(words).reflect().ok()?;
    Some(entry_points.iter().map(reported_entry_point).collect())
}

/// What the reflector reports for the module held in `bytes`; no report at
/// all where it fails.
pub open spec fn spec_reports(bytes: Seq<u8>) -> Seq<EntryPointReport> {
    match spirq_reported(spec_module_words(bytes)) {
        Some(reports) => reports,
        None => Seq::empty(),
    }
}

/// Whether every report of `reports` fits together.
pub open spec fn spec_module_convertible(reports: Seq<EntryPointReport>) -> bool {
    forall|i: int| 0 <= i < reports.len() ==> spec_convertible(#[trigger] reports[i])
}

/// Whether the module held in `bytes` gives entry points: it is handed to
/// the reflector, the reflector does not fail, and every report fits
/// together.
pub open spec fn spec_reflectable(bytes: Seq<u8>) -> bool {
    &&& spec_module_accepted(spec_module_words(bytes))
    &&& spirq_reported(spec_module_words(bytes)) is Some
    &&& spec_module_convertible(spec_reports(bytes))
}

/// Whether `r` is what the rules of reflection make of the entry points that
/// the reflector reports for the module held in `bytes`.
pub open spec fn spec_reflected(
    bytes: Seq<u8>,
    settings: ReflectionSettings,
    r: Result<Reflection, ReflectError>,
) -> bool {
    match r {
        Ok(reflection) => {
            &&& are_entry_points_of(spec_reports(bytes), reflection.entry_points@)
            &&& reflect_spec(reflection.entry_points@, settings) matches Ok(state)
            &&& table_view(reflection.bindings) == state.bindings
            &&& reflection.max_push_constant_size == state.max_push_constant_size
        },
        Err(e) => exists|entry_points: Seq<ShaderEntryPoint>|
            #[trigger] are_entry_points_of(spec_reports(bytes), entry_points) && reflect_spec(
                entry_points,
                settings,
            ) == Err::<ReflectState, ReflectError>(e),
    }
}

/// What the reflector tells of one variable: the answers of every question
/// that the bridge asks of it.
#[derive(Clone, Copy, Debug, PartialEq, Eq, Structural)]
pub struct VariableReport {
    pub locator: Locator,
    pub nbind: Option<u32>,
    pub descriptor_kind: Option<DescriptorKind>,
    pub descriptor_access: Option<AccessType>,
    pub type_kind: TypeKind,
    pub scalar: Option<ScalarInfo>,
    pub image: Option<ImageInfo>,
    pub size: Option<usize>,
}

/// What the reflector tells of one entry point.
pub struct EntryPointReport {
    /// The execution model, by SPIR-V's number.
    pub model: u32,
    pub name: String,
    pub vars: Vec<VariableReport>,
}

/// The descriptor type of kind `kind`; a storage kind needs its access.
pub open spec fn spec_descriptor_type_of(kind: DescriptorKind, access: Option<AccessType>) -> Option<
    DescriptorType,
> {
    match kind {
        DescriptorKind::Sampler => Some(DescriptorType::Sampler),
        DescriptorKind::CombinedImageSampler => Some(DescriptorType::CombinedImageSampler),
        DescriptorKind::SampledImage => Some(DescriptorType::SampledImage),
        DescriptorKind::UniformTexelBuffer => Some(DescriptorType::UniformTexelBuffer),
        DescriptorKind::UniformBuffer => Some(DescriptorType::UniformBuffer),
        DescriptorKind::InputAttachment => Some(DescriptorType::InputAttachment),
        DescriptorKind::AccelStruct => Some(DescriptorType::AccelStruct),
        DescriptorKind::StorageImage => match access {
            Some(access) => Some(DescriptorType::StorageImage(access)),
            None => None,
        },
        DescriptorKind::StorageTexelBuffer => match access {
            Some(access) => Some(DescriptorType::StorageTexelBuffer(access)),
            None => None,
        },
        DescriptorKind::StorageBuffer => match access {
            Some(access) => Some(DescriptorType::StorageBuffer(access)),
            None => None,
        },
    }
}

/// The scalar type that `info` describes: a boolean, a signed or unsigned
/// integer, a float, or else no data at all, with the size that `info`
/// gives; `None` where the size does not fit 32 bits.
pub open spec fn spec_scalar_type_of(info: ScalarInfo) -> Option<ScalarType> {
    if info.nbyte > 0xFFFF_FFFF {
        None
    } else if info.is_boolean {
        Some(ScalarType::Boolean)
    } else if info.is_sint {
        Some(ScalarType::Signed(info.nbyte as u32))
    } else if info.is_uint {
        Some(ScalarType::Unsigned(info.nbyte as u32))
    } else if info.is_float {
        Some(ScalarType::Float(info.nbyte as u32))
    } else {
        Some(ScalarType::Void)
    }
}

/// The scalar type that stands in `report`, where there is one and its size
/// fits.
pub open spec fn spec_reported_scalar(report: VariableReport) -> Option<ScalarType> {
    match report.scalar {
        Some(info) => spec_scalar_type_of(info),
        None => None,
    }
}

/// The type of the variable that `report` tells of. Each kind of type needs
/// the answers that describe it: a block its size, a scalar its scalar type,
/// a vector also its number of components, a sampled image its scalar type
/// and its shape, a storage image its shape and its format.
pub open spec fn spec_variable_type_of(report: VariableReport) -> Option<VariableType> {
    match report.type_kind {
        TypeKind::Sampler => Some(VariableType::Sampler),
        TypeKind::Other => Some(VariableType::Other { size: report.size }),
        TypeKind::Struct => match report.size {
            Some(nbyte) => Some(VariableType::Struct { nbyte }),
            None => None,
        },
        TypeKind::Scalar => match spec_reported_scalar(report) {
            Some(scalar_ty) => Some(VariableType::Scalar(scalar_ty)),
            None => None,
        },
        TypeKind::Vector => match (spec_reported_scalar(report), report.scalar) {
            (Some(scalar_ty), Some(info)) => match info.nscalar {
                Some(nscalar) => Some(VariableType::Vector { scalar_ty, nscalar }),
                None => None,
            },
            _ => None,
        },
        TypeKind::SampledImage => match (spec_reported_scalar(report), report.image) {
            (Some(scalar_ty), Some(image)) => Some(
                VariableType::SampledImage {
                    scalar_ty,
                    dim: Dim::spec_from_raw(image.dim),
                    is_array: image.is_array,
                    is_multisampled: image.is_multisampled,
                },
            ),
            _ => None,
        },
        TypeKind::StorageImage => match report.image {
            Some(image) => match image.fmt {
                Some(fmt) => Some(
                    VariableType::StorageImage {
                        dim: Dim::spec_from_raw(image.dim),
                        is_array: image.is_array,
                        fmt: ImageFormat::spec_from_raw(fmt),
                    },
                ),
                None => None,
            },
            None => None,
        },
    }
}

/// The interface variable that `report` tells of: its type, attached where
/// the locator says. A resource needs the kind of its descriptor, the access
/// where the kind is a storage kind, and its number of bindings.
pub open spec fn spec_variable_of(report: VariableReport) -> Option<ShaderVariable> {
    match spec_variable_type_of(report) {
        None => None,
        Some(ty) => match report.locator {
            Locator::Input(location, component) => Some(
                ShaderVariable::Input { location, component, ty },
            ),
            Locator::Output(location, component) => Some(
                ShaderVariable::Output { location, component, ty },
            ),
            Locator::PushConstant => Some(ShaderVariable::PushConstant { ty }),
            Locator::SpecConstant(spec_id) => Some(ShaderVariable::SpecConstant { spec_id, ty }),
            Locator::Descriptor(set, bind) => match (report.descriptor_kind, report.nbind) {
                (Some(kind), Some(nbind)) => match spec_descriptor_type_of(
                    kind,
                    report.descriptor_access,
                ) {
                    Some(desc_ty) => Some(
                        ShaderVariable::Descriptor { set, bind, desc_ty, ty, nbind },
                    ),
                    None => None,
                },
                _ => None,
            },
        },
    }
}

/// Whether every variable of `report` has answers that fit together.
pub open spec fn spec_convertible(report: EntryPointReport) -> bool {
    forall|i: int| 0 <= i < report.vars@.len() ==> spec_variable_of(#[trigger] report.vars@[i]) is Some
}

/// Whether `entry_point` is the entry point that `report` tells of.
pub open spec fn is_entry_point_of(report: EntryPointReport, entry_point: ShaderEntryPoint) -> bool {
    &&& entry_point.exec_model == ExecutionModel::spec_from_raw(report.model)
    &&& entry_point.name == report.name
    &&& entry_point.vars@.len() == report.vars@.len()
    &&& forall|i: int|
        0 <= i < report.vars@.len() ==> spec_variable_of(#[trigger] report.vars@[i]) == Some(
            entry_point.vars@[i],
        )
}

/// Whether `entry_points` are the entry points that `reports` tell of, one
/// for one.
pub open spec fn are_entry_points_of(
    reports: Seq<EntryPointReport>,
    entry_points: Seq<ShaderEntryPoint>,
) -> bool {
    &&& reports.len() == entry_points.len()
    &&& forall|i: int|
        0 <= i < reports.len() ==> is_entry_point_of(#[trigger] reports[i], entry_points[i])
}

/// Asks the reflector every question about `var`.
fn reported_variable(var: &spirq::Variable) -> (report: VariableReport) {
    VariableReport {
        locator: variable_locator(var),
        nbind: variable_nbind(var),
        descriptor_kind: variable_descriptor_kind(var),
        descriptor_access: variable_descriptor_access(var),
        type_kind: variable_type_kind(var),
        scalar: variable_scalar(var),
        image: variable_image(var),
        size: variable_size(var),
    }
}

/// Asks the reflector every question about `entry_point` and about each of
/// its variables, in their order.
fn reported_entry_point(entry_point: &spirq::EntryPoint) -> (report: EntryPointReport) {
    let raw_vars = entry_point_vars(entry_point);
    let mut vars: Vec<VariableReport> = Vec::new();
    let mut i: usize = 0;
    while i < raw_vars.len()
        invariant
            i <= raw_vars.len(),
        decreases raw_vars.len() - i,
    {
        vars.push(reported_variable(&raw_vars[i]));
        i = i + 1;
    }
    EntryPointReport {
        model: entry_point_model(entry_point),
        name: entry_point_name(entry_point),
        vars,
    }
}

} // verus!
