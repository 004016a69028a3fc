//! Resolution of the scheduler's view descriptors into backend views.
use crate::binding::TextureViewDimension;
use crate::format::map_rps_format_to_wgpu;
use crate::format::spec_map_rps_format_to_wgpu;
use crate::format::Format;
use crate::format::TextureFormat;
use crate::resource::ImageDesc;
use crate::resource::Resource;
use crate::resource::ResourceInstance;
use vstd::prelude::*;

verus! {

/// View flags that disambiguate nothing.
pub const VIEW_FLAGS_NONE: u32 = 0;

/// The component mapping that leaves every channel in its place.
pub const COMPONENT_MAPPING_IDENTITY: u32 = 50462976;

/// View of an image resource as a node of the graph asks for it.
#[derive(Clone, Copy, Debug, PartialEq, Eq, Structural)]
pub struct ImageView {
    pub resource_id: u32,
    pub view_format: Format,
    pub flags: u32,
    pub base_mip_level: u16,
    pub mip_levels: u16,
    pub base_array_layer: u32,
    pub array_layers: u32,
    pub component_mapping: u32,
}

/// Which aspects of a texture a view shows.
#[derive(Clone, Copy, Debug, PartialEq, Eq, Structural)]
pub enum TextureAspect {
    All,
    StencilOnly,
    DepthOnly,
}

/// What the backend is asked for when a view of a texture is made.
#[derive(Clone, Copy, Debug, PartialEq, Eq, Structural)]
pub struct TextureViewDescriptor {
    pub format: Option<TextureFormat>,
    pub dimension: Option<TextureViewDimension>,
    pub aspect: TextureAspect,
    pub base_mip_level: u32,
    pub mip_level_count: Option<u32>,
    pub base_array_layer: u32,
    pub array_layer_count: Option<u32>,
}

/// Why a view cannot be resolved.
#[derive(Clone, Copy, Debug, PartialEq, Eq, Structural)]
pub enum ViewError {
    /// The view names a resource that the table does not hold.
    UnknownResource,
    /// The resource has no backend object.
    NotAllocated,
    /// The view format has no backend format.
    UnsupportedFormat,
    /// The shape of the view is one that the bridge does not resolve.
    UnimplementedViewShape,
}

/// Whether the bridge resolves the shape of `image_view`: a single layer
/// with nothing to disambiguate, and every channel in its place.
pub open spec fn spec_shape_resolved(image_view: ImageView) -> bool {
    image_view.flags == VIEW_FLAGS_NONE && image_view.array_layers == 1
        && image_view.component_mapping == COMPONENT_MAPPING_IDENTITY
}

/// The backend view descriptor of `image_view`: its subrange and format, as
/// a two-dimensional view of all aspects.
pub open spec fn spec_texture_view_desc(image_view: ImageView) -> Result<
    TextureViewDescriptor,
    ViewError,
> {
    match spec_map_rps_format_to_wgpu(image_view.view_format) {
        Err(_) => Err(ViewError::UnsupportedFormat),
        Ok(format) => if spec_shape_resolved(image_view) {
            Ok(
                TextureViewDescriptor {
                    format,
                    dimension: Some(TextureViewDimension::D2),
                    aspect: TextureAspect::All,
                    base_mip_level: image_view.base_mip_level as u32,
                    mip_level_count: Some(image_view.mip_levels as u32),
                    base_array_layer: image_view.base_array_layer,
                    array_layer_count: Some(image_view.array_layers),
                },
            )
        } else {
            Err(ViewError::UnimplementedViewShape)
        },
    }
}

/// The backend view descriptor of `image_view`.
pub fn map_image_view_to_texture_view_desc(image_view: ImageView) -> (r: Result<
    TextureViewDescriptor,
    ViewError,
>)
    ensures
        r == spec_texture_view_desc(image_view),
{
    let format = match map_rps_format_to_wgpu(image_view.view_format) {
        Ok(format) => format,
        Err(_) => {
            return Err(ViewError::UnsupportedFormat);
        },
    };
    if image_view.flags != VIEW_FLAGS_NONE || image_view.array_layers != 1
        || image_view.component_mapping != COMPONENT_MAPPING_IDENTITY {
        return Err(ViewError::UnimplementedViewShape);
    }
    Ok(
        TextureViewDescriptor {
            format,
            dimension: Some(TextureViewDimension::D2),
            aspect: TextureAspect::All,
            base_mip_level: image_view.base_mip_level as u32,
            mip_level_count: Some(image_view.mip_levels as u32),
            base_array_layer: image_view.base_array_layer,
            array_layer_count: Some(image_view.array_layers),
        },
    )
}

/// A view that is either the holder's own or lent to it. The holder may
/// release an owned view when it is done, and never a borrowed one.
pub enum BorrowedOrOwned<'a, T> {
    Owned(T),
    Borrowed(&'a T),
}

impl<'a, T> BorrowedOrOwned<'a, T> {
    /// The view itself, owned or borrowed.
    pub open spec fn spec_get(&self) -> &T {
        match self {
            BorrowedOrOwned::Owned(owned) => owned,
            BorrowedOrOwned::Borrowed(borrowed) => borrowed,
        }
    }

    /// The view itself, owned or borrowed.
    pub fn get(&self) -> (view: &T)
        ensures
            view == self.spec_get(),
    {
        match self {
            BorrowedOrOwned::Owned(owned) => owned,
            BorrowedOrOwned::Borrowed(borrowed) => borrowed,
        }
    }

    /// Whether the holder may release the view.
    pub fn is_owned(&self) -> (owned: bool)
        ensures
            owned == (self is Owned),
    {
        match self {
            BorrowedOrOwned::Owned(_) => true,
            BorrowedOrOwned::Borrowed(_) => false,
        }
    }
}

/// How a view of a backend object is had: a stored view is lent as it is, a
/// view of a texture has to be made by the backend.
pub enum ViewRequest<'a, V, T> {
    Borrowed(&'a V),
    Create { texture: &'a T, descriptor: TextureViewDescriptor },
}

impl<V, T> Resource<V, T> {
    /// How the view `image_view` of this backend object is had.
    pub open spec fn spec_as_texture_view<'a>(&'a self, image_view: ImageView) -> Result<
        ViewRequest<'a, V, T>,
        ViewError,
    > {
        match self {
            Resource::SurfaceFrame(view) => Ok(ViewRequest::Borrowed(view)),
            Resource::Texture(texture) => match spec_texture_view_desc(image_view) {
                Ok(descriptor) => Ok(ViewRequest::Create { texture, descriptor }),
                Err(e) => Err(e),
            },
        }
    }

    /// How the view `image_view` of this backend object is had.
    ///
    /// A frame of the surface has one mip level and one layer: its stored
    /// view is lent whatever `image_view` asks for. Of a texture a new view
    /// is made to the descriptor of `image_view`, which has to resolve.
    pub fn as_texture_view<'a>(&'a self, image_view: ImageView) -> (r: Result<
        ViewRequest<'a, V, T>,
        ViewError,
    >)
        ensures
            r == self.spec_as_texture_view(image_view),
    {
        match self {
            Resource::Texture(texture) => {
                match map_image_view_to_texture_view_desc(image_view) {
                    Ok(descriptor) => Ok(ViewRequest::Create { texture, descriptor }),
                    Err(e) => Err(e),
                }
            },
            Resource::SurfaceFrame(view) => Ok(ViewRequest::Borrowed(view)),
        }
    }

    /// The texture behind this backend object, which must be one.
    pub fn as_texture_unwrap(&self) -> (texture: &T)
        requires
            self is Texture,
        ensures
            *self == Resource::<V, T>::Texture(*texture),
    {
        match self {
            Resource::Texture(texture) => texture,
            Resource::SurfaceFrame(_) => vstd::pervasive::unreached(),
        }
    }
}

/// How the view `view` of a resource of the table is had, with the size and
/// format of that resource.
pub open spec fn spec_load_texture_view<'a, V, T>(
    resources: &'a Vec<ResourceInstance<V, T>>,
    view: ImageView,
) -> Result<(ViewRequest<'a, V, T>, ImageDesc), ViewError> {
    if view.resource_id >= resources@.len() {
        Err(ViewError::UnknownResource)
    } else {
        let resource = &resources@[view.resource_id as int];
        match &resource.runtime_resource {
            None => Err(ViewError::NotAllocated),
            Some(backend) => match backend.spec_as_texture_view(view) {
                Ok(request) => Ok((request, resource.image)),
                Err(e) => Err(e),
            },
        }
    }
}

/// Looks the resource of `view` up in the table of graph resources and
/// decides how its view is had. Fails where the table holds no such
/// resource, where the resource has no backend object, and where the view
/// does not resolve.
pub fn load_texture_view<'a, V, T>(resources: &'a Vec<ResourceInstance<V, T>>, view: ImageView) -> (r:
    Result<(ViewRequest<'a, V, T>, ImageDesc), ViewError>)
    ensures
        r == spec_load_texture_view(resources, view),
{
    let id = view.resource_id as usize;
    if id >= resources.len() {
        return Err(ViewError::UnknownResource);
    }
    let resource = &resources[id];
    match &resource.runtime_resource {
        None => Err(ViewError::NotAllocated),
        Some(backend) => match backend.as_texture_view(view) {
            Ok(request) => Ok((request, resource.image)),
            Err(e) => Err(e),
        },
    }
}

/// A frame of the surface is lent as it is, whatever subrange is asked for.
pub proof fn lemma_surface_frame_ignores_subrange<V, T>(
    frame: Resource<V, T>,
    first: ImageView,
    second: ImageView,
)
    requires
        frame is SurfaceFrame,
    ensures
        frame.spec_as_texture_view(first) == frame.spec_as_texture_view(second),
        frame.spec_as_texture_view(first) is Ok,
{
}

} // verus!
