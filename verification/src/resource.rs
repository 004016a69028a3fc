//! Graph resources as the scheduler declares them, and the decisions of the
//! bridge on what to allocate for them and when to let it go.
use crate::format::map_rps_format_to_wgpu;
use crate::format::spec_map_rps_format_to_wgpu;
use crate::format::Format;
use crate::format::TextureFormat;
use vstd::prelude::*;

verus! {

/// Access as a shader resource that is read.
pub const ACCESS_SHADER_RESOURCE: u32 = 0x10;

/// Access as a resource that shaders read and write in any order.
pub const ACCESS_UNORDERED_ACCESS: u32 = 0x20;

/// Access as a render target.
pub const ACCESS_RENDER_TARGET: u32 = 0x80;

/// Access as a depth buffer that is written.
pub const ACCESS_DEPTH_WRITE: u32 = 0x200;

/// Access as a stencil buffer that is written.
pub const ACCESS_STENCIL_WRITE: u32 = 0x800;

/// Every access that draws into the resource.
pub const ACCESS_ATTACHMENT_WRITES: u32 = 0xA80;

/// Usage as the source of a copy.
pub const USAGE_COPY_SRC: u32 = 1;

/// Usage as the destination of a copy.
pub const USAGE_COPY_DST: u32 = 2;

/// Usage as a texture that shaders sample.
pub const USAGE_TEXTURE_BINDING: u32 = 4;

/// Usage as a storage texture.
pub const USAGE_STORAGE_BINDING: u32 = 8;

/// Usage as an attachment of a render pass.
pub const USAGE_RENDER_ATTACHMENT: u32 = 16;

/// Union of the ways in which the nodes of a graph access a resource.
#[derive(Clone, Copy, Debug, PartialEq, Eq, Structural)]
pub struct AccessFlags {
    pub bits: u32,
}

/// Set of the ways in which the backend may use a texture.
#[derive(Clone, Copy, Debug, PartialEq, Eq, Structural)]
pub struct TextureUsages {
    pub bits: u32,
}

impl AccessFlags {
    /// Whether any access of `other` is among these.
    pub open spec fn spec_intersects(self, other: u32) -> bool {
        self.bits & other != 0
    }

    /// Whether every access of `other` is among these.
    pub open spec fn spec_contains(self, other: u32) -> bool {
        self.bits & other == other
    }

    /// Whether any access of `other` is among these.
    pub fn intersects(self, other: u32) -> (b: bool)
        ensures
            b == self.spec_intersects(other),
    {
        self.bits & other != 0
    }

    /// Whether every access of `other` is among these.
    pub fn contains(self, other: u32) -> (b: bool)
        ensures
            b == self.spec_contains(other),
    {
        self.bits & other == other
    }
}

impl TextureUsages {
    /// Whether every usage of `other` is among these.
    pub open spec fn spec_contains(self, other: u32) -> bool {
        self.bits & other == other
    }

    /// Whether every usage of `other` is among these.
    pub fn contains(self, other: u32) -> (b: bool)
        ensures
            b == self.spec_contains(other),
    {
        self.bits & other == other
    }
}

/// The usages that the mapping table gives for `access`, before any default:
/// an attachment where the resource is drawn into, a sampled texture where
/// it is read as a shader resource, a storage texture where it is accessed
/// in any order.
pub open spec fn spec_mapped_usage(access: AccessFlags) -> u32 {
    (if access.spec_intersects(ACCESS_ATTACHMENT_WRITES) {
        USAGE_RENDER_ATTACHMENT
    } else {
        0u32
    }) | (if access.spec_contains(ACCESS_SHADER_RESOURCE) {
        USAGE_TEXTURE_BINDING
    } else {
        0u32
    }) | (if access.spec_contains(ACCESS_UNORDERED_ACCESS) {
        USAGE_STORAGE_BINDING
    } else {
        0u32
    })
}

/// The usages of a texture that is accessed as `access`. Where the mapping
/// table gives none, the texture is taken to be sampled.
pub open spec fn spec_usage_for_access(access: AccessFlags) -> TextureUsages {
    if spec_mapped_usage(access) == 0 {
        TextureUsages { bits: USAGE_TEXTURE_BINDING }
    } else {
        TextureUsages { bits: spec_mapped_usage(access) }
    }
}

/// The usages of a texture that is accessed as `access`, and whether they are
/// the default for want of any mapped usage.
pub fn usage_for_access(access: AccessFlags) -> (r: (TextureUsages, bool))
    ensures
        r.0 == spec_usage_for_access(access),
        r.1 == (spec_mapped_usage(access) == 0),
{
    let mut usage: u32 = 0;
    if access.intersects(ACCESS_ATTACHMENT_WRITES) {
        usage = usage | USAGE_RENDER_ATTACHMENT;
    }
    let ghost first = usage;
    if access.contains(ACCESS_SHADER_RESOURCE) {
        usage = usage | USAGE_TEXTURE_BINDING;
    }
    let ghost second = usage;
    if access.contains(ACCESS_UNORDERED_ACCESS) {
        usage = usage | USAGE_STORAGE_BINDING;
    }
    proof {
        assert(0u32 | 16u32 == 16u32) by (bit_vector);
        assert(first | 0u32 == first) by (bit_vector);
        assert(second | 0u32 == second) by (bit_vector);
    }
    if usage == 0 {
        (TextureUsages { bits: USAGE_TEXTURE_BINDING }, true)
    } else {
        (TextureUsages { bits: usage }, false)
    }
}

/// What the usages of a texture say of how it was accessed: it can be an
/// attachment exactly where it is drawn into, a storage texture exactly where
/// it is accessed in any order, and it can be sampled exactly where it is
/// read as a shader resource or nothing else is mapped.
pub proof fn lemma_usage_reflects_access(access: AccessFlags)
    ensures
        spec_usage_for_access(access).spec_contains(USAGE_RENDER_ATTACHMENT)
            <==> access.spec_intersects(ACCESS_ATTACHMENT_WRITES),
        spec_usage_for_access(access).spec_contains(USAGE_STORAGE_BINDING) <==> access.spec_contains(
            ACCESS_UNORDERED_ACCESS,
        ),
        spec_usage_for_access(access).spec_contains(USAGE_TEXTURE_BINDING) <==> (
        access.spec_contains(ACCESS_SHADER_RESOURCE) || spec_mapped_usage(access) == 0),
        !spec_usage_for_access(access).spec_contains(USAGE_COPY_SRC),
        !spec_usage_for_access(access).spec_contains(USAGE_COPY_DST),
{
    let a: u32 = if access.spec_intersects(ACCESS_ATTACHMENT_WRITES) {
        16
    } else {
        0
    };
    let b: u32 = if access.spec_contains(ACCESS_SHADER_RESOURCE) {
        4
    } else {
        0
    };
    let c: u32 = if access.spec_contains(ACCESS_UNORDERED_ACCESS) {
        8
    } else {
        0
    };
    let m = spec_mapped_usage(access);
    assert(m == a | b | c);
    assert((a == 0 || a == 16) && (b == 0 || b == 4) && (c == 0 || c == 8) ==> {
        &&& ((a | b | c) & 16 == 16 <==> a == 16)
        &&& ((a | b | c) & 4 == 4 <==> b == 4)
        &&& ((a | b | c) & 8 == 8 <==> c == 8)
        &&& (a | b | c) & 1 != 1
        &&& (a | b | c) & 2 != 2
        &&& ((a | b | c) == 0 <==> (a == 0 && b == 0 && c == 0))
    }) by (bit_vector);
    assert(4u32 & 16 != 16 && 4u32 & 8 != 8 && 4u32 & 4 == 4 && 4u32 & 1 != 1 && 4u32 & 2 != 2)
        by (bit_vector);
}

/// A texture that is only read as a shader resource can be sampled and
/// nothing else.
pub proof fn lemma_shader_resource_is_sampled_only()
    ensures
        spec_usage_for_access(AccessFlags { bits: ACCESS_SHADER_RESOURCE }) == (TextureUsages {
            bits: USAGE_TEXTURE_BINDING,
        }),
{
    assert(0x10u32 & 0xA80u32 == 0 && 0x10u32 & 0x10u32 == 0x10u32 && 0x10u32 & 0x20u32 != 0x20u32
        && (0u32 | 4u32 | 0u32) == 4u32) by (bit_vector);
}

/// Kind of a graph resource.
#[derive(Clone, Copy, Debug, PartialEq, Eq, Structural)]
pub enum ResourceType {
    Unknown,
    Buffer,
    Image1D,
    Image2D,
    Image3D,
}

/// Size and format of an image resource.
#[derive(Clone, Copy, Debug, PartialEq, Eq, Structural)]
pub struct ImageDesc {
    pub width: u32,
    pub height: u32,
    pub mip_levels: u32,
    pub sample_count: u32,
    pub format: Format,
}

/// The backend object behind a graph resource: a view that the presentation
/// engine lends for one frame, or a texture that the bridge allocated.
pub enum Resource<V, T> {
    SurfaceFrame(V),
    Texture(T),
}

/// One graph resource: what the scheduler declared of it and what the bridge
/// keeps for it.
pub struct ResourceInstance<V, T> {
    pub ty: ResourceType,
    pub is_external: bool,
    pub is_pending_create: bool,
    pub all_accesses: AccessFlags,
    pub initial_access: AccessFlags,
    pub prev_final_access: AccessFlags,
    pub heap_id: u32,
    pub image: ImageDesc,
    /// The backend object; `None` before it is created and after it is
    /// destroyed. Only the bridge writes it.
    pub runtime_resource: Option<Resource<V, T>>,
}

/// Dimensionality of a texture.
#[derive(Clone, Copy, Debug, PartialEq, Eq, Structural)]
pub enum TextureDimension {
    D1,
    D2,
    D3,
}

/// What the backend is asked to allocate for an image resource. Its only
/// view format is `format`.
#[derive(Clone, Copy, Debug, PartialEq, Eq, Structural)]
pub struct TextureDescriptor {
    pub width: u32,
    pub height: u32,
    pub depth_or_array_layers: u32,
    pub mip_level_count: u32,
    pub sample_count: u32,
    pub dimension: TextureDimension,
    pub format: TextureFormat,
    pub usage: TextureUsages,
}

/// Why the bridge cannot serve a resource.
#[derive(Clone, Copy, Debug, PartialEq, Eq, Structural)]
pub enum ResourceError {
    /// The resource is of a kind other than a two-dimensional image.
    UnsupportedResourceKind,
    /// The format of the resource has no backend format.
    UnsupportedFormat,
    /// The resource has no backend object to release.
    NotAllocated,
}

/// One allocation that the backend is asked for.
#[derive(Clone, Copy, Debug, PartialEq, Eq, Structural)]
pub struct CreationRequest {
    /// Place of the resource among the candidates.
    pub index: usize,
    pub descriptor: TextureDescriptor,
    /// Whether the usage is the default for want of any mapped usage, which
    /// is worth a diagnostic.
    pub defaulted_usage: bool,
}

/// Whether the bridge has to allocate a backend object for a resource: it is
/// the bridge's own, and its creation is pending.
pub open spec fn needs_creation<V, T>(resource: ResourceInstance<V, T>) -> bool {
    !resource.is_external && resource.is_pending_create
}

/// What is allocated for a resource that needs creation: a two-dimensional
/// texture of the declared size and format, with the usages of its accesses.
pub open spec fn spec_texture_descriptor<V, T>(resource: ResourceInstance<V, T>) -> Result<
    TextureDescriptor,
    ResourceError,
> {
    if resource.ty != ResourceType::Image2D {
        Err(ResourceError::UnsupportedResourceKind)
    } else {
        match spec_map_rps_format_to_wgpu(resource.image.format) {
            Ok(Some(format)) => Ok(
                TextureDescriptor {
                    width: resource.image.width,
                    height: resource.image.height,
                    depth_or_array_layers: 1,
                    mip_level_count: resource.image.mip_levels,
                    sample_count: resource.image.sample_count,
                    dimension: TextureDimension::D2,
                    format,
                    usage: spec_usage_for_access(resource.all_accesses),
                },
            ),
            _ => Err(ResourceError::UnsupportedFormat),
        }
    }
}

/// What is allocated for a resource that needs creation, and whether its
/// usage is the default.
pub fn texture_descriptor<V, T>(resource: &ResourceInstance<V, T>) -> (r: Result<
    (TextureDescriptor, bool),
    ResourceError,
>)
    ensures
        match r {
            Ok((descriptor, defaulted)) => spec_texture_descriptor(*resource) == Ok::<
                TextureDescriptor,
                ResourceError,
            >(descriptor) && defaulted == (spec_mapped_usage(resource.all_accesses) == 0),
            Err(e) => spec_texture_descriptor(*resource) == Err::<TextureDescriptor, ResourceError>(
                e,
            ),
        },
{
    match resource.ty {
        ResourceType::Image2D => {},
        _ => {
            return Err(ResourceError::UnsupportedResourceKind);
        },
    }
    let (usage, defaulted) = usage_for_access(resource.all_accesses);
    match map_rps_format_to_wgpu(resource.image.format) {
        Ok(Some(format)) => Ok(
            (
                TextureDescriptor {
                    width: resource.image.width,
                    height: resource.image.height,
                    depth_or_array_layers: 1,
                    mip_level_count: resource.image.mip_levels,
                    sample_count: resource.image.sample_count,
                    dimension: TextureDimension::D2,
                    format,
                    usage,
                },
                defaulted,
            ),
        ),
        _ => Err(ResourceError::UnsupportedFormat),
    }
}

/// Whether `request` is what the candidate at its index asks for, and that
/// candidate is among the first `n`.
pub open spec fn request_fits<V, T>(
    resources: Seq<ResourceInstance<V, T>>,
    n: int,
    request: CreationRequest,
) -> bool {
    let resource = resources[request.index as int];
    &&& 0 <= request.index < n
    &&& needs_creation(resource)
    &&& spec_texture_descriptor(resource) == Ok::<TextureDescriptor, ResourceError>(
        request.descriptor,
    )
    &&& request.defaulted_usage == (spec_mapped_usage(resource.all_accesses) == 0)
}

/// Whether some request of `requests` is for the candidate at `i`.
pub open spec fn requested(requests: Seq<CreationRequest>, i: int) -> bool {
    exists|k: int| 0 <= k < requests.len() && (#[trigger] requests[k]).index == i
}

/// Whether `requests` is what the first `n` candidates ask for: one request
/// for each candidate that needs creation, in the order of the candidates,
/// and none for any other.
pub open spec fn requests_cover<V, T>(
    resources: Seq<ResourceInstance<V, T>>,
    n: int,
    requests: Seq<CreationRequest>,
) -> bool {
    &&& forall|k: int|
        0 <= k < requests.len() ==> request_fits(resources, n, #[trigger] requests[k])
    &&& forall|j: int, k: int|
        0 <= j < k < requests.len() ==> (#[trigger] requests[j]).index < (
        #[trigger] requests[k]).index
    &&& forall|i: int|
        0 <= i < n && needs_creation(resources[i]) ==> #[trigger] requested(requests, i)
}

/// Decides what the backend has to allocate for the candidates: one texture
/// for each candidate that is the bridge's own and whose creation is pending,
/// and nothing for any other. Fails on the first such candidate that is no
/// two-dimensional image or whose format has no backend format.
pub fn create_resources<V, T>(resources: &Vec<ResourceInstance<V, T>>) -> (r: Result<
    Vec<CreationRequest>,
    ResourceError,
>)
    ensures
        match r {
            Ok(requests) => requests_cover(resources@, resources@.len() as int, requests@),
            Err(e) => exists|i: int|
                0 <= i < resources@.len() && needs_creation(#[trigger] resources@[i])
                    && spec_texture_descriptor(resources@[i]) == Err::<
                    TextureDescriptor,
                    ResourceError,
                >(e) && forall|j: int|
                    0 <= j < i && needs_creation(#[trigger] resources@[j])
                        ==> spec_texture_descriptor(resources@[j]) is Ok,
        },
{
    let mut requests: Vec<CreationRequest> = Vec::new();
    let mut i: usize = 0;
    while i < resources.len()
        invariant
            i <= resources.len(),
            requests_cover(resources@, i as int, requests@),
        decreases resources.len() - i,
    {
        let resource = &resources[i];
        let ghost before = requests@;
        if !resource.is_external && resource.is_pending_create {
            match texture_descriptor(resource) {
                Ok((descriptor, defaulted_usage)) => {
                    requests.push(CreationRequest { index: i, descriptor, defaulted_usage });
                    assert(requests@[before.len() as int].index == i);
                    assert(requested(requests@, i as int));
                },
                Err(e) => {
                    assert forall|j: int|
                        0 <= j < i && needs_creation(
                            #[trigger] resources@[j],
                        ) implies spec_texture_descriptor(resources@[j]) is Ok by {
                        assert(requested(requests@, j));
                        let k = choose|k: int|
                            0 <= k < requests@.len() && (#[trigger] requests@[k]).index == j;
                        assert(request_fits(resources@, i as int, requests@[k]));
                    }
                    return Err(e);
                },
            }
        }
        assert forall|n: int| 0 <= n < i + 1 && needs_creation(resources@[n]) implies #[trigger] requested(
            requests@,
            n,
        ) by {
            if n < i {
                assert(requested(before, n));
                let k = choose|k: int| 0 <= k < before.len() && (#[trigger] before[k]).index == n;
                assert(requests@[k].index == n);
            }
        }
        assert forall|k: int| 0 <= k < requests@.len() implies request_fits(
            resources@,
            i as int + 1,
            #[trigger] requests@[k],
        ) by {
            if k < before.len() {
                assert(request_fits(resources@, i as int, before[k]));
            }
        }
        assert forall|j: int, k: int| 0 <= j < k < requests@.len() implies (#[trigger] requests@[j]).index
            < (#[trigger] requests@[k]).index by {
            if k < before.len() {
                assert(before[j].index < before[k].index);
            } else {
                assert(request_fits(resources@, i as int, before[j]));
            }
        }
        i = i + 1;
    }
    Ok(requests)
}

/// No backend object is ever asked for an external resource: it belongs to
/// the caller.
pub proof fn lemma_external_never_requested<V, T>(
    resources: Seq<ResourceInstance<V, T>>,
    requests: Seq<CreationRequest>,
    i: int,
)
    requires
        requests_cover(resources, resources.len() as int, requests),
        0 <= i < resources.len(),
        resources[i].is_external,
    ensures
        !requested(requests, i),
{
    if requested(requests, i) {
        let k = choose|k: int| 0 <= k < requests.len() && (#[trigger] requests[k]).index == i;
        assert(request_fits(resources, resources.len() as int, requests[k]));
    }
}

/// Records that the backend allocated `texture` for `resource`: the resource
/// holds it from now on and its creation is no longer pending.
pub fn store_created<V, T>(resource: &mut ResourceInstance<V, T>, texture: T)
    ensures
        final(resource).runtime_resource == Some(Resource::<V, T>::Texture(texture)),
        !final(resource).is_pending_create,
        final(resource).heap_id == 0,
        final(resource).prev_final_access == old(resource).initial_access,
        final(resource).ty == old(resource).ty,
        final(resource).is_external == old(resource).is_external,
        final(resource).all_accesses == old(resource).all_accesses,
        final(resource).initial_access == old(resource).initial_access,
        final(resource).image == old(resource).image,
{
    resource.heap_id = 0;
    resource.runtime_resource = Some(Resource::Texture(texture));
    resource.prev_final_access = resource.initial_access;
    resource.is_pending_create = false;
}

/// Takes the backend object of `resource` away for release and leaves the
/// resource without one. A resource that holds no backend object is left as
/// it is, and the call fails: releasing twice is a mistake of the caller.
pub fn destroy_runtime_resource_deferred<V, T>(resource: &mut ResourceInstance<V, T>) -> (r: Result<
    Resource<V, T>,
    ResourceError,
>)
    ensures
        match r {
            Ok(released) => old(resource).runtime_resource == Some(released) && *final(resource) == (
            ResourceInstance { runtime_resource: None, ..*old(resource) }),
            Err(e) => e == ResourceError::NotAllocated && old(resource).runtime_resource is None
                && *final(resource) == *old(resource),
        },
{
    match resource.runtime_resource.take() {
        Some(released) => Ok(released),
        None => Err(ResourceError::NotAllocated),
    }
}

} // verus!
