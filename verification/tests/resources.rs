use render_bridge::format::{Format, TextureFormat};
use render_bridge::resource::{
    create_resources, destroy_runtime_resource_deferred, store_created, texture_descriptor,
    usage_for_access, AccessFlags, CreationRequest, ImageDesc, Resource, ResourceError,
    ResourceInstance, ResourceType, TextureDescriptor, TextureDimension, TextureUsages,
    ACCESS_DEPTH_WRITE, ACCESS_RENDER_TARGET, ACCESS_SHADER_RESOURCE, ACCESS_STENCIL_WRITE,
    ACCESS_UNORDERED_ACCESS, USAGE_COPY_DST, USAGE_COPY_SRC, USAGE_RENDER_ATTACHMENT,
    USAGE_STORAGE_BINDING, USAGE_TEXTURE_BINDING,
};

type Instance = ResourceInstance<&'static str, u32>;

fn image(access: u32) -> Instance {
    ResourceInstance {
        ty: ResourceType::Image2D,
        is_external: false,
        is_pending_create: true,
        all_accesses: AccessFlags { bits: access },
        initial_access: AccessFlags { bits: ACCESS_RENDER_TARGET },
        prev_final_access: AccessFlags { bits: 0 },
        heap_id: 7,
        image: ImageDesc {
            width: 640,
            height: 360,
            mip_levels: 3,
            sample_count: 1,
            format: Format::R16G16B16A16Float,
        },
        runtime_resource: None,
    }
}

fn usage(access: u32) -> (u32, bool) {
    let (usages, defaulted) = usage_for_access(AccessFlags { bits: access });
    (usages.bits, defaulted)
}

#[test]
fn shader_resource_access_gives_a_sampled_texture_only() {
    let (usages, defaulted) = usage_for_access(AccessFlags { bits: ACCESS_SHADER_RESOURCE });
    assert!(usages.contains(USAGE_TEXTURE_BINDING));
    assert!(!usages.contains(USAGE_STORAGE_BINDING));
    assert!(!usages.contains(USAGE_RENDER_ATTACHMENT));
    assert_eq!(usages, TextureUsages { bits: USAGE_TEXTURE_BINDING });
    assert!(!defaulted);
}

#[test]
fn usages_follow_the_mapping_table() {
    assert_eq!(usage(ACCESS_RENDER_TARGET), (USAGE_RENDER_ATTACHMENT, false));
    assert_eq!(usage(ACCESS_DEPTH_WRITE), (USAGE_RENDER_ATTACHMENT, false));
    assert_eq!(usage(ACCESS_STENCIL_WRITE), (USAGE_RENDER_ATTACHMENT, false));
    assert_eq!(usage(ACCESS_UNORDERED_ACCESS), (USAGE_STORAGE_BINDING, false));
    assert_eq!(
        usage(ACCESS_RENDER_TARGET | ACCESS_SHADER_RESOURCE),
        (USAGE_RENDER_ATTACHMENT | USAGE_TEXTURE_BINDING, false)
    );
    assert_eq!(
        usage(ACCESS_DEPTH_WRITE | ACCESS_SHADER_RESOURCE | ACCESS_UNORDERED_ACCESS),
        (USAGE_RENDER_ATTACHMENT | USAGE_TEXTURE_BINDING | USAGE_STORAGE_BINDING, false)
    );
    assert_eq!(usage(u32::MAX), (28, false));
}

#[test]
fn unmapped_access_defaults_to_a_sampled_texture() {
    assert_eq!(usage(0), (USAGE_TEXTURE_BINDING, true));
    assert_eq!(usage(0x100), (USAGE_TEXTURE_BINDING, true));
    assert_eq!(usage(0x2000 | 0x4000), (USAGE_TEXTURE_BINDING, true));
    let (usages, _) = usage_for_access(AccessFlags { bits: 0 });
    assert!(!usages.contains(USAGE_COPY_SRC));
    assert!(!usages.contains(USAGE_COPY_DST));
}

#[test]
fn access_flags_answer_queries() {
    let flags = AccessFlags { bits: ACCESS_RENDER_TARGET | ACCESS_SHADER_RESOURCE };
    assert!(flags.contains(ACCESS_SHADER_RESOURCE));
    assert!(!flags.contains(ACCESS_UNORDERED_ACCESS));
    assert!(flags.intersects(ACCESS_RENDER_TARGET | ACCESS_DEPTH_WRITE));
    assert!(!flags.intersects(ACCESS_DEPTH_WRITE | ACCESS_STENCIL_WRITE));
    assert!(!flags.contains(ACCESS_RENDER_TARGET | ACCESS_DEPTH_WRITE));
}

#[test]
fn descriptor_follows_the_declaration() {
    let (descriptor, defaulted) = texture_descriptor(&image(ACCESS_UNORDERED_ACCESS)).unwrap();
    assert_eq!(
        descriptor,
        TextureDescriptor {
            width: 640,
            height: 360,
            depth_or_array_layers: 1,
            mip_level_count: 3,
            sample_count: 1,
            dimension: TextureDimension::D2,
            format: TextureFormat::Rgba16Float,
            usage: TextureUsages { bits: USAGE_STORAGE_BINDING },
        }
    );
    assert!(!defaulted);
}

#[test]
fn external_resources_are_never_allocated() {
    let mut external = image(ACCESS_RENDER_TARGET);
    external.is_external = true;
    let mut external_buffer = image(ACCESS_RENDER_TARGET);
    external_buffer.is_external = true;
    external_buffer.ty = ResourceType::Buffer;
    let mut created = image(ACCESS_SHADER_RESOURCE);
    created.is_pending_create = false;
    let resources = vec![external, image(ACCESS_SHADER_RESOURCE), external_buffer, created, image(0)];
    let requests = create_resources(&resources).unwrap();
    assert_eq!(requests.len(), 2);
    assert_eq!(requests[0].index, 1);
    assert_eq!(requests[0].descriptor.usage.bits, USAGE_TEXTURE_BINDING);
    assert!(!requests[0].defaulted_usage);
    assert_eq!(requests[1].index, 4);
    assert_eq!(requests[1].descriptor.usage.bits, USAGE_TEXTURE_BINDING);
    assert!(requests[1].defaulted_usage);
    assert!(requests.iter().all(|r: &CreationRequest| !resources[r.index].is_external));
    assert!(create_resources(&Vec::<Instance>::new()).unwrap().is_empty());
}

#[test]
fn other_resource_kinds_are_an_error() {
    for ty in [ResourceType::Buffer, ResourceType::Image1D, ResourceType::Image3D, ResourceType::Unknown] {
        let mut buffer = image(ACCESS_SHADER_RESOURCE);
        buffer.ty = ty;
        assert_eq!(
            create_resources(&vec![image(0), buffer]),
            Err(ResourceError::UnsupportedResourceKind)
        );
    }
}

#[test]
fn unmapped_format_is_an_error() {
    for format in [Format::Unknown, Format::Other, Format::R8G8B8A8UnormSrgb] {
        let mut odd = image(ACCESS_SHADER_RESOURCE);
        odd.image.format = format;
        assert_eq!(create_resources(&vec![odd]), Err(ResourceError::UnsupportedFormat));
    }
    let mut both = image(0);
    both.ty = ResourceType::Buffer;
    both.image.format = Format::Other;
    assert_eq!(texture_descriptor(&both), Err(ResourceError::UnsupportedResourceKind));
}

#[test]
fn storing_the_texture_ends_the_creation() {
    let mut resource = image(ACCESS_SHADER_RESOURCE);
    store_created(&mut resource, 42);
    assert!(matches!(resource.runtime_resource, Some(Resource::Texture(42))));
    assert!(!resource.is_pending_create);
    assert_eq!(resource.heap_id, 0);
    assert_eq!(resource.prev_final_access, AccessFlags { bits: ACCESS_RENDER_TARGET });
    assert_eq!(resource.image.width, 640);
    assert!(create_resources(&vec![resource]).unwrap().is_empty());
}

#[test]
fn destroying_twice_is_detected() {
    let mut resource = image(ACCESS_SHADER_RESOURCE);
    store_created(&mut resource, 42);
    let released = destroy_runtime_resource_deferred(&mut resource);
    assert!(matches!(released, Ok(Resource::Texture(42))));
    assert!(resource.runtime_resource.is_none());
    let again = destroy_runtime_resource_deferred(&mut resource);
    assert!(matches!(again, Err(ResourceError::NotAllocated)));
    assert!(resource.runtime_resource.is_none());
    let third = destroy_runtime_resource_deferred(&mut resource);
    assert!(matches!(third, Err(ResourceError::NotAllocated)));
}

#[test]
fn destroying_a_surface_frame_hands_its_view_back() {
    let mut resource = image(0);
    resource.is_external = true;
    resource.runtime_resource = Some(Resource::SurfaceFrame("frame"));
    let released = destroy_runtime_resource_deferred(&mut resource);
    assert!(matches!(released, Ok(Resource::SurfaceFrame("frame"))));
    assert!(resource.runtime_resource.is_none());
    assert!(resource.is_external);
}
