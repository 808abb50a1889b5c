//! Texture handles and their descriptors.
//!
//! A `Texture` is a handle to a device texture created through the
//! journal.  Its descriptor — extent and usage — is plain data; the pixel
//! format is fixed to 8-bit sRGB RGBA, as everywhere in this crate.
//! Writing pixels into an existing texture changes only device memory,
//! never the handle, so bindings that refer to the texture stay valid.

use vstd::prelude::*;
use crate::binders::{BindGroupEntry, BindGroupLayoutEntry, BindingKind, BindingResource,
    ShaderStages, ToBinder};
use crate::gpuctx::{GpuCtx, GpuOp, GpuOpView};

verus! {

/// How a texture will be used by the device.
#[derive(Clone, Copy, Debug, Default, PartialEq, Eq, Structural)]
pub struct TextureUsage {
    /// May be the destination of pixel writes.
    pub destination: bool,
    /// May be the source of copies (for example into a readback buffer).
    pub source: bool,
    /// May be bound to a shader as a sampled texture.
    pub texture_bind: bool,
    /// May be bound to a shader as a storage texture.
    pub storage_bind: bool,
    /// May be used as a render attachment.
    pub render: bool,
}

/// Extent of a texture, by dimensionality.
#[derive(Clone, Copy, Debug, PartialEq, Eq, Structural)]
pub enum TextureSize {
    D1(u32),
    D2(u32, u32),
    D3(u32, u32, u32),
}

/// The dimensionality tag of a texture view.
#[derive(Clone, Copy, Debug, PartialEq, Eq, Structural)]
pub enum TextureViewDimension {
    D1,
    D2,
    D3,
}

impl TextureSize {
    /// The extent as width, height and depth, padding the missing axes
    /// with 1.
    pub open spec fn size_spec(&self) -> (u32, u32, u32) {
        match self {
            TextureSize::D1(x) => (*x, 1u32, 1u32),
            TextureSize::D2(x, y) => (*x, *y, 1u32),
            TextureSize::D3(x, y, z) => (*x, *y, *z),
        }
    }

    /// The extent as width, height and depth, padding the missing axes
    /// with 1.
    pub fn get_size(&self) -> (r: (u32, u32, u32))
        ensures
            r == self.size_spec(),
    {
        match self {
            TextureSize::D1(x) => (*x, 1u32, 1u32),
            TextureSize::D2(x, y) => (*x, *y, 1u32),
            TextureSize::D3(x, y, z) => (*x, *y, *z),
        }
    }

    /// The view dimensionality matching the extent.
    pub open spec fn view_dimension_spec(&self) -> TextureViewDimension {
        match self {
            TextureSize::D1(_) => TextureViewDimension::D1,
            TextureSize::D2(_, _) => TextureViewDimension::D2,
            TextureSize::D3(_, _, _) => TextureViewDimension::D3,
        }
    }

    /// The view dimensionality matching the extent.
    pub fn get_view_dimension(&self) -> (r: TextureViewDimension)
        ensures
            r == self.view_dimension_spec(),
    {
        match self {
            TextureSize::D1(_) => TextureViewDimension::D1,
            TextureSize::D2(_, _) => TextureViewDimension::D2,
            TextureSize::D3(_, _, _) => TextureViewDimension::D3,
        }
    }
}

/// Creation-time description of a texture.
#[derive(Clone, Copy, Debug, PartialEq, Eq, Structural)]
pub struct TextureDesc {
    pub size: TextureSize,
    pub usage: TextureUsage,
}

/// Handle to a device texture.
#[derive(Clone, Copy, Debug, PartialEq, Eq, Structural)]
pub struct Texture {
    id: u64,
    desc: TextureDesc,
}

impl Texture {
    /// The handle's identity in the journal.
    pub closed spec fn id_spec(&self) -> u64 {
        self.id
    }

    /// The descriptor the texture was created with.
    pub closed spec fn desc_spec(&self) -> TextureDesc {
        self.desc
    }

    /// The descriptor the texture was created with.
    pub fn get_desc(&self) -> (r: TextureDesc)
        ensures
            r == self.desc_spec(),
    {
        self.desc
    }

    /// Creates a texture with the given descriptor.
    pub fn new(gpu: &mut GpuCtx, desc: TextureDesc) -> (t: Texture)
        requires
            old(gpu).can_alloc(1),
        ensures
            t.id_spec() == old(gpu).next_id_spec(),
            t.desc_spec() == desc,
            final(gpu).next_id_spec() == old(gpu).next_id_spec() + 1,
            final(gpu).journal() == old(gpu).journal().push(
                GpuOpView::CreateTexture { id: t.id_spec(), desc },
            ),
    {
        let id = gpu.alloc_id();
        gpu.record(GpuOp::CreateTexture { id, desc });
        Texture { id, desc }
    }

    /// Creates a texture and immediately queues a full write of `data`.
    pub fn init(gpu: &mut GpuCtx, desc: TextureDesc, data: &[u8]) -> (t: Texture)
        requires
            old(gpu).can_alloc(1),
        ensures
            t.id_spec() == old(gpu).next_id_spec(),
            t.desc_spec() == desc,
            final(gpu).next_id_spec() == old(gpu).next_id_spec() + 1,
            final(gpu).journal() == old(gpu).journal()
                .push(GpuOpView::CreateTexture { id: t.id_spec(), desc })
                .push(GpuOpView::WriteTexture {
                    id: t.id_spec(),
                    origin_x: 0,
                    origin_y: 0,
                    origin_z: 0,
                    contents: data@,
                }),
    {
        let t = Texture::new(gpu, desc);
        t.write_pixels(gpu, data);
        t
    }

    /// Queues a write of the full texture contents.  The handle itself is
    /// untouched: existing bindings keep referring to this texture.
    pub fn write_pixels(&self, gpu: &mut GpuCtx, data: &[u8])
        ensures
            final(gpu).next_id_spec() == old(gpu).next_id_spec(),
            final(gpu).journal() == old(gpu).journal().push(
                GpuOpView::WriteTexture {
                    id: self.id_spec(),
                    origin_x: 0,
                    origin_y: 0,
                    origin_z: 0,
                    contents: data@,
                },
            ),
    {
        let contents = crate::gpuctx::bytes_of_slice(data);
        gpu.record(GpuOp::WriteTexture {
            id: self.id,
            origin_x: 0,
            origin_y: 0,
            origin_z: 0,
            contents,
        });
    }

    /// Queues a write of a region starting at the given origin.  As with
    /// [`Texture::write_pixels`], the handle is untouched.
    pub fn write_region_pixels(&self, gpu: &mut GpuCtx, data: &[u8], origin: (u32, u32, u32))
        ensures
            final(gpu).next_id_spec() == old(gpu).next_id_spec(),
            final(gpu).journal() == old(gpu).journal().push(
                GpuOpView::WriteTexture {
                    id: self.id_spec(),
                    origin_x: origin.0,
                    origin_y: origin.1,
                    origin_z: origin.2,
                    contents: data@,
                },
            ),
    {
        let contents = crate::gpuctx::bytes_of_slice(data);
        gpu.record(GpuOp::WriteTexture {
            id: self.id,
            origin_x: origin.0,
            origin_y: origin.1,
            origin_z: origin.2,
            contents,
        });
    }
}

impl ToBinder for Texture {
    /// A texture binds as a filterable sampled texture visible to the
    /// fragment stage, with the view dimensionality of its extent.
    open spec fn layout_spec(&self, index: u32) -> BindGroupLayoutEntry {
        BindGroupLayoutEntry {
            binding: index,
            visibility: ShaderStages { vertex: false, fragment: true },
            ty: BindingKind::Texture { dimension: self.desc_spec().size.view_dimension_spec() },
        }
    }

    open spec fn group_spec(&self, index: u32) -> BindGroupEntry {
        BindGroupEntry { binding: index, resource: BindingResource::TextureView(self.id_spec()) }
    }

    fn get_layout(&self, index: u32) -> (e: BindGroupLayoutEntry) {
        BindGroupLayoutEntry {
            binding: index,
            visibility: ShaderStages { vertex: false, fragment: true },
            ty: BindingKind::Texture { dimension: self.desc.size.get_view_dimension() },
        }
    }

    fn get_group(&self, index: u32) -> (e: BindGroupEntry) {
        BindGroupEntry { binding: index, resource: BindingResource::TextureView(self.id) }
    }

    fn debug_name(&self) -> &'static str {
        "Texture"
    }
}

} // verus!
