//! Buffer handles.
//!
//! A `GpuBuffer` is a handle to a device buffer created through the
//! journal.  Handles are plain copyable values; copying a handle shares
//! the underlying buffer.  Writing bytes into a buffer changes only device
//! memory, never the handle, so a brush whose bindings refer to the buffer
//! does not become dirty — only re-binding a different handle does.

use vstd::prelude::*;
use crate::binders::{BindGroupEntry, BindGroupLayoutEntry, BindingKind, BindingResource,
    ShaderStages, ToBinder};
use crate::gpuctx::{GpuCtx, GpuOp, GpuOpView};

verus! {

/// How a buffer will be used by the device.
#[derive(Clone, Copy, Debug, Default, PartialEq, Eq, Structural)]
pub struct BufferUsages {
    pub vertex: bool,
    pub index: bool,
    pub uniform: bool,
    pub copy_src: bool,
    pub copy_dst: bool,
    pub map_read: bool,
}

/// Handle to a device buffer.
#[derive(Clone, Copy, Debug, PartialEq, Eq, Structural)]
pub struct GpuBuffer {
    id: u64,
    size: u64,
    usage: BufferUsages,
}

impl GpuBuffer {
    /// The handle's identity in the journal.
    pub closed spec fn id_spec(&self) -> u64 {
        self.id
    }

    /// The buffer's size in bytes.
    pub closed spec fn size_spec(&self) -> u64 {
        self.size
    }

    /// The usage flags the buffer was created with.
    pub closed spec fn usage_spec(&self) -> BufferUsages {
        self.usage
    }

    /// The buffer's size in bytes.
    pub fn size(&self) -> (r: u64)
        ensures
            r == self.size_spec(),
    {
        self.size
    }

    /// The usage flags the buffer was created with.
    pub fn usage(&self) -> (r: BufferUsages)
        ensures
            r == self.usage_spec(),
    {
        self.usage
    }

    /// Creates a buffer of `size` bytes with uninitialized contents.
    pub fn new(gpu: &mut GpuCtx, size: u64, usage: BufferUsages) -> (b: GpuBuffer)
        requires
            old(gpu).can_alloc(1),
        ensures
            b.id_spec() == old(gpu).next_id_spec(),
            b.size_spec() == size,
            b.usage_spec() == usage,
            final(gpu).next_id_spec() == old(gpu).next_id_spec() + 1,
            final(gpu).journal() == old(gpu).journal().push(
                GpuOpView::CreateBuffer { id: b.id_spec(), size, usage },
            ),
    {
        let id = gpu.alloc_id();
        gpu.record(GpuOp::CreateBuffer { id, size, usage });
        GpuBuffer { id, size, usage }
    }

    /// Creates a buffer initialized with the given bytes.
    pub fn init(gpu: &mut GpuCtx, data: &[u8], usage: BufferUsages) -> (b: GpuBuffer)
        requires
            old(gpu).can_alloc(1),
        ensures
            b.id_spec() == old(gpu).next_id_spec(),
            b.size_spec() == data@.len(),
            b.usage_spec() == usage,
            final(gpu).next_id_spec() == old(gpu).next_id_spec() + 1,
            final(gpu).journal() == old(gpu).journal().push(
                GpuOpView::CreateBufferInit { id: b.id_spec(), contents: data@, usage },
            ),
    {
        let id = gpu.alloc_id();
        let size = data.len() as u64;
        let contents = crate::gpuctx::bytes_of_slice(data);
        gpu.record(GpuOp::CreateBufferInit { id, contents, usage });
        GpuBuffer { id, size, usage }
    }

    /// Queues a write of `data` at the start of the buffer.  The handle —
    /// and with it every binding that refers to this buffer — is left
    /// exactly as it was: updating contents never requires re-binding.
    pub fn write(&mut self, gpu: &mut GpuCtx, data: &[u8])
        ensures
            *final(self) == *old(self),
            final(gpu).next_id_spec() == old(gpu).next_id_spec(),
            final(gpu).journal() == old(gpu).journal().push(
                GpuOpView::WriteBuffer { id: old(self).id_spec(), contents: data@ },
            ),
    {
        let contents = crate::gpuctx::bytes_of_slice(data);
        gpu.record(GpuOp::WriteBuffer { id: self.id, contents });
    }

    /// The journal identity of the underlying buffer, shared by every
    /// copy of this handle.
    pub fn get_handle(&self) -> (r: u64)
        ensures
            r == self.id_spec(),
    {
        self.id
    }
}

/// Capability of a value to describe itself as the contents of a fresh
/// uniform buffer.
pub trait ToGpuBuf {
    /// Builds a buffer holding this value's device representation.
    fn build_buffer(&self, gpu: &mut GpuCtx) -> GpuBuffer;
}

impl ToBinder for GpuBuffer {
    /// A buffer binds as a uniform buffer visible to the vertex and
    /// fragment stages.
    open spec fn layout_spec(&self, index: u32) -> BindGroupLayoutEntry {
        BindGroupLayoutEntry {
            binding: index,
            visibility: ShaderStages { vertex: true, fragment: true },
            ty: BindingKind::UniformBuffer,
        }
    }

    open spec fn group_spec(&self, index: u32) -> BindGroupEntry {
        BindGroupEntry { binding: index, resource: BindingResource::Buffer(self.id_spec()) }
    }

    fn get_layout(&self, index: u32) -> (e: BindGroupLayoutEntry) {
        BindGroupLayoutEntry {
            binding: index,
            visibility: ShaderStages { vertex: true, fragment: true },
            ty: BindingKind::UniformBuffer,
        }
    }

    fn get_group(&self, index: u32) -> (e: BindGroupEntry) {
        BindGroupEntry { binding: index, resource: BindingResource::Buffer(self.id) }
    }

    fn debug_name(&self) -> &'static str {
        "GPU Buffer"
    }
}

} // verus!
