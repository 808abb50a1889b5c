//! The GPU context: an identity allocator and an operation journal.
//!
//! The core never talks to a device directly.  Every effect it wants —
//! creating a buffer, compiling a pipeline, drawing — is appended to a
//! journal of plain-data operations, each freshly created object named by
//! a `u64` identity.  An unverified executor owns the real device, drains
//! the journal in order and performs each operation, keeping a table from
//! identities to live device objects.  Contracts throughout the crate
//! state exactly which operations a call appends.

use vstd::prelude::*;
use crate::binders::{BindGroupEntry, BindGroupLayoutEntry};
use crate::blend::BlendState;
use crate::color::Color;
use crate::gpu_buffer::BufferUsages;
use crate::input_layout::{layouts_view, VertexBufferLayout, VertexBufferLayoutView};
use crate::texture::TextureDesc;

verus! {

/// Everything a render pipeline is compiled from: the shader module, the
/// pipeline layout, the vertex-input buffers and the blend state.  The
/// primitive state is fixed — triangle lists, counter-clockwise front
/// faces, back-face culling — and the color target uses the surface's
/// own format.
#[derive(Clone, Debug, PartialEq)]
pub struct PipelineDesc {
    pub shader: u64,
    pub layout: u64,
    pub vertex_layouts: Vec<VertexBufferLayout>,
    pub blend: BlendState,
}

/// Spec-level mirror of [`PipelineDesc`].
#[verifier::ext_equal]
pub ghost struct PipelineDescView {
    pub shader: u64,
    pub layout: u64,
    pub vertex_layouts: Seq<VertexBufferLayoutView>,
    pub blend: BlendState,
}

impl View for PipelineDesc {
    type V = PipelineDescView;

    open spec fn view(&self) -> PipelineDescView {
        PipelineDescView {
            shader: self.shader,
            layout: self.layout,
            vertex_layouts: layouts_view(self.vertex_layouts@),
            blend: self.blend,
        }
    }
}

/// One operation of the journal.  `Create*` operations introduce the
/// given identity; `Set*`/`Draw*` operations are only meaningful between
/// `BeginRenderPass` and `EndRenderPass`.
#[derive(Clone, Debug, PartialEq)]
pub enum GpuOp {
    /// Compile a shader module from source text.
    CreateShaderModule { id: u64, source: String },
    /// Create a buffer with uninitialized contents.
    CreateBuffer { id: u64, size: u64, usage: BufferUsages },
    /// Create a buffer holding the given bytes.
    CreateBufferInit { id: u64, contents: Vec<u8>, usage: BufferUsages },
    /// Overwrite the start of a buffer with the given bytes.
    WriteBuffer { id: u64, contents: Vec<u8> },
    /// Create a texture.
    CreateTexture { id: u64, desc: TextureDesc },
    /// Write pixel bytes into a texture at the given origin.
    WriteTexture { id: u64, origin_x: u32, origin_y: u32, origin_z: u32, contents: Vec<u8> },
    /// Create the default sampler.
    CreateSampler { id: u64 },
    /// Create a bind-group layout from its entries, in slot order.
    CreateBindGroupLayout { id: u64, entries: Vec<BindGroupLayoutEntry> },
    /// Create a bind group against a layout, entries in slot order.
    CreateBindGroup { id: u64, layout: u64, entries: Vec<BindGroupEntry> },
    /// Create a pipeline layout from bind-group layouts, in group order.
    CreatePipelineLayout { id: u64, layouts: Vec<u64> },
    /// Compile a render pipeline.
    CreateRenderPipeline { id: u64, desc: PipelineDesc },
    /// Acquire the output frame and start a command encoder.
    BeginFrame,
    /// Begin a render pass, clearing to the color or loading what is there.
    BeginRenderPass { clear: Option<Color> },
    /// Restrict rendering to the given pixel rectangle.
    SetScissor { x: u32, y: u32, w: u32, h: u32 },
    /// Bind a compiled pipeline.
    SetPipeline { id: u64 },
    /// Bind a bind group at a group index.
    SetBindGroup { index: u32, id: u64 },
    /// Bind a vertex buffer at a vertex-buffer slot.
    SetVertexBuffer { slot: u32, id: u64 },
    /// Bind a 32-bit index buffer.
    SetIndexBuffer { id: u64 },
    /// Draw `index_count` indices, `instance_count` instances.
    DrawIndexed { index_count: u32, instance_count: u32 },
    /// End the current render pass.
    EndRenderPass,
    /// Submit the recorded commands and present the frame.
    FinishFrame,
}

/// Spec-level mirror of [`GpuOp`].
#[verifier::ext_equal]
pub ghost enum GpuOpView {
    CreateShaderModule { id: u64, source: Seq<char> },
    CreateBuffer { id: u64, size: u64, usage: BufferUsages },
    CreateBufferInit { id: u64, contents: Seq<u8>, usage: BufferUsages },
    WriteBuffer { id: u64, contents: Seq<u8> },
    CreateTexture { id: u64, desc: TextureDesc },
    WriteTexture { id: u64, origin_x: u32, origin_y: u32, origin_z: u32, contents: Seq<u8> },
    CreateSampler { id: u64 },
    CreateBindGroupLayout { id: u64, entries: Seq<BindGroupLayoutEntry> },
    CreateBindGroup { id: u64, layout: u64, entries: Seq<BindGroupEntry> },
    CreatePipelineLayout { id: u64, layouts: Seq<u64> },
    CreateRenderPipeline { id: u64, desc: PipelineDescView },
    BeginFrame,
    BeginRenderPass { clear: Option<Color> },
    SetScissor { x: u32, y: u32, w: u32, h: u32 },
    SetPipeline { id: u64 },
    SetBindGroup { index: u32, id: u64 },
    SetVertexBuffer { slot: u32, id: u64 },
    SetIndexBuffer { id: u64 },
    DrawIndexed { index_count: u32, instance_count: u32 },
    EndRenderPass,
    FinishFrame,
}

impl View for GpuOp {
    type V = GpuOpView;

    open spec fn view(&self) -> GpuOpView {
        match self {
            GpuOp::CreateShaderModule { id, source } => GpuOpView::CreateShaderModule {
                id: *id,
                source: source@,
            },
            GpuOp::CreateBuffer { id, size, usage } => GpuOpView::CreateBuffer {
                id: *id,
                size: *size,
                usage: *usage,
            },
            GpuOp::CreateBufferInit { id, contents, usage } => GpuOpView::CreateBufferInit {
                id: *id,
                contents: contents@,
                usage: *usage,
            },
            GpuOp::WriteBuffer { id, contents } => GpuOpView::WriteBuffer {
                id: *id,
                contents: contents@,
            },
            GpuOp::CreateTexture { id, desc } => GpuOpView::CreateTexture {
                id: *id,
                desc: *desc,
            },
            GpuOp::WriteTexture { id, origin_x, origin_y, origin_z, contents } =>
                GpuOpView::WriteTexture {
                    id: *id,
                    origin_x: *origin_x,
                    origin_y: *origin_y,
                    origin_z: *origin_z,
                    contents: contents@,
                },
            GpuOp::CreateSampler { id } => GpuOpView::CreateSampler { id: *id },
            GpuOp::CreateBindGroupLayout { id, entries } => GpuOpView::CreateBindGroupLayout {
                id: *id,
                entries: entries@,
            },
            GpuOp::CreateBindGroup { id, layout, entries } => GpuOpView::CreateBindGroup {
                id: *id,
                layout: *layout,
                entries: entries@,
            },
            GpuOp::CreatePipelineLayout { id, layouts } => GpuOpView::CreatePipelineLayout {
                id: *id,
                layouts: layouts@,
            },
            GpuOp::CreateRenderPipeline { id, desc } => GpuOpView::CreateRenderPipeline {
                id: *id,
                desc: desc@,
            },
            GpuOp::BeginFrame => GpuOpView::BeginFrame,
            GpuOp::BeginRenderPass { clear } => GpuOpView::BeginRenderPass { clear: *clear },
            GpuOp::SetScissor { x, y, w, h } => GpuOpView::SetScissor {
                x: *x,
                y: *y,
                w: *w,
                h: *h,
            },
            GpuOp::SetPipeline { id } => GpuOpView::SetPipeline { id: *id },
            GpuOp::SetBindGroup { index, id } => GpuOpView::SetBindGroup {
                index: *index,
                id: *id,
            },
            GpuOp::SetVertexBuffer { slot, id } => GpuOpView::SetVertexBuffer {
                slot: *slot,
                id: *id,
            },
            GpuOp::SetIndexBuffer { id } => GpuOpView::SetIndexBuffer { id: *id },
            GpuOp::DrawIndexed { index_count, instance_count } => GpuOpView::DrawIndexed {
                index_count: *index_count,
                instance_count: *instance_count,
            },
            GpuOp::EndRenderPass => GpuOpView::EndRenderPass,
            GpuOp::FinishFrame => GpuOpView::FinishFrame,
        }
    }
}

/// Copies a byte slice into an owned vector.
pub fn bytes_of_slice(data: &[u8]) -> (r: Vec<u8>)
    ensures
        r@ == data@,
{
    let mut out: Vec<u8> = Vec::new();
    let mut i: usize = 0;
    while i < data.len()
        invariant
            i <= data@.len(),
            out@ =~= data@.take(i as int),
        decreases data@.len() - i,
    {
        out.push(data[i]);
        i = i + 1;
        proof {
            assert(out@ =~= data@.take(i as int));
        }
    }
    proof {
        assert(data@.take(data@.len() as int) =~= data@);
    }
    out
}

/// The core's view of the GPU: fresh identities and the journal of
/// operations not yet handed to the executor.
pub struct GpuCtx {
    next_id: u64,
    ops: Vec<GpuOp>,
}

impl GpuCtx {
    /// The identity the next created object will receive.
    pub closed spec fn next_id_spec(&self) -> u64 {
        self.next_id
    }

    /// The pending operations, as recorded.
    pub closed spec fn ops_spec(&self) -> Seq<GpuOp> {
        self.ops@
    }

    /// The pending operations, abstracted to their views.
    pub open spec fn journal(&self) -> Seq<GpuOpView> {
        self.ops_spec().map_values(|op: GpuOp| op@)
    }

    /// `n` more identities can still be handed out.
    pub open spec fn can_alloc(&self, n: int) -> bool {
        self.next_id_spec() + n <= u64::MAX
    }

    /// A fresh context: no identities handed out, empty journal.
    pub fn new() -> (r: GpuCtx)
        ensures
            r.next_id_spec() == 0,
            r.journal() == Seq::<GpuOpView>::empty(),
    {
        let r = GpuCtx { next_id: 0, ops: Vec::new() };
        proof {
            assert(r.journal() =~= Seq::<GpuOpView>::empty());
        }
        r
    }

    /// Hands out the next identity.
    pub(crate) fn alloc_id(&mut self) -> (r: u64)
        requires
            old(self).can_alloc(1),
        ensures
            r == old(self).next_id_spec(),
            final(self).next_id_spec() == old(self).next_id_spec() + 1,
            final(self).ops_spec() == old(self).ops_spec(),
    {
        let r = self.next_id;
        self.next_id = self.next_id + 1;
        r
    }

    /// Appends one operation to the journal.
    pub(crate) fn record(&mut self, op: GpuOp)
        ensures
            final(self).next_id_spec() == old(self).next_id_spec(),
            final(self).ops_spec() == old(self).ops_spec().push(op),
            final(self).journal() == old(self).journal().push(op@),
    {
        let ghost prev = self.ops@;
        self.ops.push(op);
        proof {
            assert(self.journal() =~= prev.map_values(|o: GpuOp| o@).push(op@));
        }
    }

    /// How many operations are pending.
    pub fn pending(&self) -> (n: usize)
        ensures
            n == self.journal().len(),
    {
        self.ops.len()
    }

    /// Read access to the pending operations.
    pub fn ops(&self) -> (r: &Vec<GpuOp>)
        ensures
            r@ == self.ops_spec(),
    {
        &self.ops
    }

    /// Removes and returns all pending operations, in order.  The
    /// executor calls this once per frame and replays what it gets.
    pub fn take_ops(&mut self) -> (r: Vec<GpuOp>)
        ensures
            r@ == old(self).ops_spec(),
            final(self).next_id_spec() == old(self).next_id_spec(),
            final(self).journal() == Seq::<GpuOpView>::empty(),
    {
        let mut out: Vec<GpuOp> = Vec::new();
        core::mem::swap(&mut out, &mut self.ops);
        proof {
            assert(self.journal() =~= Seq::<GpuOpView>::empty());
        }
        out
    }
}

} // verus!
