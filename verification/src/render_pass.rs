//! Render passes: issuing draw calls against a ready brush.
//!
//! A `RenderPassBuilder` frames one submission: it opens the frame,
//! builds render passes, and finishes by submitting and presenting.  A
//! `RenderPass` issues draw calls.  The pass is the system's single
//! enforcement point for the Ready invariant: before any draw it checks
//! the brush's dirty flag and repairs it with `update`, so a draw is
//! never recorded against a pipeline that does not reflect the brush's
//! latest bindings.

use vstd::prelude::*;
use crate::blend::BlendState;
use crate::binders::Binder;
use crate::brush::{cached_groups, update_ops, Brush};
use crate::buffers::{InstanceBuffer, VertexBuffer};
use crate::color::Color;
use crate::gpuctx::{GpuCtx, GpuOp, GpuOpView};
use crate::input_layout::InputLayout;

verus! {

/// Rendering configuration for one pass: clear to a color, or keep what
/// the output already holds.
#[derive(Clone, Copy, Debug, PartialEq, Eq, Structural)]
pub struct RenderOptions {
    pub clear_color: Option<Color>,
}

impl Default for RenderOptions {
    /// By default a pass clears to opaque black.
    fn default() -> (r: RenderOptions)
        ensures
            r.clear_color == Some(Color { r: 0, g: 0, b: 0, a: 255 }),
    {
        RenderOptions { clear_color: Some(Color::black()) }
    }
}

/// The bind-group operations of a draw: one per cached group, at its
/// recorded group index, in ascending group order.
pub open spec fn bind_group_ops(cached: Seq<(u32, u64)>) -> Seq<GpuOpView> {
    Seq::new(cached.len(), |i: int| GpuOpView::SetBindGroup { index: cached[i].0, id: cached[i].1 })
}

/// The instance count of a draw: the instance buffer's logical length,
/// or 1 if no instance buffer is bound.
pub open spec fn instance_count_of(instance: Option<(u64, u32)>) -> u32 {
    match instance {
        Some(p) => p.1,
        None => 1u32,
    }
}

/// Everything one draw appends to the journal: bind the pipeline, bind
/// every cached group at its index, bind the vertex buffer at slot 0 and
/// the instance buffer (if any) at slot 1, bind the index buffer, and
/// draw the full index range once per instance.
pub open spec fn draw_ops(
    pipeline: u64,
    cached: Seq<(u32, u64)>,
    vertex_buffer: u64,
    instance: Option<(u64, u32)>,
    index_buffer: u64,
    index_count: u32,
) -> Seq<GpuOpView> {
    seq![GpuOpView::SetPipeline { id: pipeline }] + bind_group_ops(cached) + seq![
        GpuOpView::SetVertexBuffer { slot: 0, id: vertex_buffer },
    ] + (match instance {
        Some(p) => seq![GpuOpView::SetVertexBuffer { slot: 1, id: p.0 }],
        None => Seq::<GpuOpView>::empty(),
    }) + seq![
        GpuOpView::SetIndexBuffer { id: index_buffer },
        GpuOpView::DrawIndexed { index_count, instance_count: instance_count_of(instance) },
    ]
}

/// The instance buffer abstraction a draw records: the buffer's journal
/// identity and its logical length.
pub open spec fn instance_view(instances: Option<&InstanceBuffer>) -> Option<(u64, u32)> {
    match instances {
        Some(ib) => Some((ib.buffer.id_spec(), ib.length)),
        None => None,
    }
}

/// Everything `render_shapes` appends: nothing but a draw when the brush
/// is Ready, and a full rebuild followed by the draw of the rebuilt
/// state when it is Dirty.
pub open spec fn render_emitted(
    dirty: bool,
    groups: Seq<(u32, Binder)>,
    layout: InputLayout,
    blend: BlendState,
    shader: u64,
    cached_pipeline: Option<u64>,
    cached_bindings: Seq<(u32, u64)>,
    base: int,
    vertex_buffer: u64,
    instance: Option<(u64, u32)>,
    index_buffer: u64,
    index_count: u32,
) -> Seq<GpuOpView> {
    if dirty {
        update_ops(groups, layout, blend, shader, base) + draw_ops(
            (base + 2 * groups.len() + 1) as u64,
            cached_groups(groups, base),
            vertex_buffer,
            instance,
            index_buffer,
            index_count,
        )
    } else {
        draw_ops(
            cached_pipeline->0,
            cached_bindings,
            vertex_buffer,
            instance,
            index_buffer,
            index_count,
        )
    }
}

/// Repairing a Dirty brush inside the pass changes nothing about the
/// outcome: drawing with a Dirty brush appends exactly what an explicit
/// `update` followed by a draw of the then-Ready brush appends.
pub proof fn lemma_render_repairs_dirty(
    groups: Seq<(u32, Binder)>,
    layout: InputLayout,
    blend: BlendState,
    shader: u64,
    base: int,
    vertex_buffer: u64,
    instance: Option<(u64, u32)>,
    index_buffer: u64,
    index_count: u32,
)
    ensures
        render_emitted(
            true,
            groups,
            layout,
            blend,
            shader,
            None,
            Seq::<(u32, u64)>::empty(),
            base,
            vertex_buffer,
            instance,
            index_buffer,
            index_count,
        ) == update_ops(groups, layout, blend, shader, base) + render_emitted(
            false,
            groups,
            layout,
            blend,
            shader,
            Some((base + 2 * groups.len() + 1) as u64),
            cached_groups(groups, base),
            base + 2 * groups.len() + 2,
            vertex_buffer,
            instance,
            index_buffer,
            index_count,
        ),
{
}

/// Frames one submission: acquires the output frame, collects render
/// passes, and finally submits and presents.  The value is a recording
/// token; the frame state itself lives in the journal.
pub struct RenderPassBuilder {
}

impl RenderPassBuilder {
    /// Opens the frame: the executor acquires the surface texture and
    /// starts a command encoder.
    pub fn new(gpu: &mut GpuCtx) -> (r: RenderPassBuilder)
        ensures
            final(gpu).next_id_spec() == old(gpu).next_id_spec(),
            final(gpu).journal() == old(gpu).journal().push(GpuOpView::BeginFrame),
    {
        gpu.record(GpuOp::BeginFrame);
        RenderPassBuilder {  }
    }

    /// Begins one render pass with the given options.
    pub fn build_render_pass(&mut self, gpu: &mut GpuCtx, options: RenderOptions) -> (r: RenderPass)
        ensures
            final(gpu).next_id_spec() == old(gpu).next_id_spec(),
            final(gpu).journal() == old(gpu).journal().push(
                GpuOpView::BeginRenderPass { clear: options.clear_color },
            ),
    {
        gpu.record(GpuOp::BeginRenderPass { clear: options.clear_color });
        RenderPass {  }
    }

    /// Submits every recorded command and presents the frame.
    pub fn finish_render(self, gpu: &mut GpuCtx)
        ensures
            final(gpu).next_id_spec() == old(gpu).next_id_spec(),
            final(gpu).journal() == old(gpu).journal().push(GpuOpView::FinishFrame),
    {
        gpu.record(GpuOp::FinishFrame);
    }
}

/// One render pass being recorded.
pub struct RenderPass {
}

impl RenderPass {
    /// Restricts rendering to the given pixel rectangle.
    pub fn set_scissor(&mut self, gpu: &mut GpuCtx, x: u32, y: u32, w: u32, h: u32)
        ensures
            final(gpu).next_id_spec() == old(gpu).next_id_spec(),
            final(gpu).journal() == old(gpu).journal().push(
                GpuOpView::SetScissor { x, y, w, h },
            ),
    {
        gpu.record(GpuOp::SetScissor { x, y, w, h });
    }

    /// Draws a shape buffer with a brush, repairing the brush first if it
    /// is Dirty.  This is the single enforcement point of the Ready
    /// invariant: the draw that is recorded always uses a pipeline and
    /// bind groups that reflect the brush's latest bindings.
    pub fn render_shapes(
        &mut self,
        gpu: &mut GpuCtx,
        brush: &mut Brush,
        buffer: &VertexBuffer,
        instances: Option<&InstanceBuffer>,
    )
        requires
            old(brush).wf(),
            old(gpu).can_alloc(old(brush).update_alloc()),
        ensures
            final(brush).wf(),
            !final(brush).dirty(),
            final(brush).groups() == old(brush).groups(),
            final(brush).desc_spec() == old(brush).desc_spec(),
            final(brush).shader_spec() == old(brush).shader_spec(),
            final(brush).input_layout_spec() == old(brush).input_layout_spec(),
            old(brush).dirty() ==> final(gpu).next_id_spec() == old(gpu).next_id_spec() + old(
                brush,
            ).update_alloc(),
            !old(brush).dirty() ==> final(gpu).next_id_spec() == old(gpu).next_id_spec(),
            !old(brush).dirty() ==> final(brush).cached_pipeline_spec() == old(
                brush,
            ).cached_pipeline_spec() && final(brush).cached_bindings_spec() == old(
                brush,
            ).cached_bindings_spec(),
            final(gpu).journal() == old(gpu).journal() + render_emitted(
                old(brush).dirty(),
                old(brush).groups(),
                old(brush).input_layout_spec(),
                old(brush).desc_spec().blend,
                old(brush).shader_spec(),
                old(brush).cached_pipeline_spec(),
                old(brush).cached_bindings_spec(),
                old(gpu).next_id_spec() as int,
                buffer.vertex_buffer.id_spec(),
                instance_view(instances),
                buffer.index_buffer.id_spec(),
                buffer.index_len,
            ),
    {
        let ghost j0 = gpu.journal();
        if brush.needs_update() {
            brush.update(gpu);
        }
        self.render_shapes_cached(gpu, brush, buffer, instances);
        proof {
            assert(gpu.journal() =~= j0 + render_emitted(
                old(brush).dirty(),
                old(brush).groups(),
                old(brush).input_layout_spec(),
                old(brush).desc_spec().blend,
                old(brush).shader_spec(),
                old(brush).cached_pipeline_spec(),
                old(brush).cached_bindings_spec(),
                old(gpu).next_id_spec() as int,
                buffer.vertex_buffer.id_spec(),
                instance_view(instances),
                buffer.index_buffer.id_spec(),
                buffer.index_len,
            ));
        }
    }

    /// Draws a shape buffer with a brush that the caller knows is Ready.
    /// Nothing is checked against the device here; a stride or binding
    /// mismatch with the shader surfaces when the executor replays the
    /// pipeline build, not at the draw.
    pub fn render_shapes_cached(
        &mut self,
        gpu: &mut GpuCtx,
        brush: &Brush,
        buffer: &VertexBuffer,
        instances: Option<&InstanceBuffer>,
    )
        requires
            brush.wf(),
            !brush.dirty(),
        ensures
            final(gpu).next_id_spec() == old(gpu).next_id_spec(),
            final(gpu).journal() == old(gpu).journal() + draw_ops(
                brush.cached_pipeline_spec()->0,
                brush.cached_bindings_spec(),
                buffer.vertex_buffer.id_spec(),
                instance_view(instances),
                buffer.index_buffer.id_spec(),
                buffer.index_len,
            ),
    {
        let ghost j0 = gpu.journal();
        let ghost cached = brush.cached_bindings_spec();
        let pipeline = brush.get_pipeline();
        gpu.record(GpuOp::SetPipeline { id: pipeline });
        let bind_groups = brush.get_bind_groups();
        let mut i: usize = 0;
        while i < bind_groups.len()
            invariant
                brush.wf(),
                !brush.dirty(),
                bind_groups@ == cached,
                cached == brush.cached_bindings_spec(),
                Some(pipeline) == brush.cached_pipeline_spec(),
                i <= cached.len(),
                gpu.next_id_spec() == old(gpu).next_id_spec(),
                gpu.journal() == j0 + seq![GpuOpView::SetPipeline { id: pipeline }]
                    + bind_group_ops(cached.take(i as int)),
            decreases cached.len() - i,
        {
            let pair = bind_groups[i];
            gpu.record(GpuOp::SetBindGroup { index: pair.0, id: pair.1 });
            i = i + 1;
            proof {
                assert(gpu.journal() =~= j0 + seq![GpuOpView::SetPipeline { id: pipeline }]
                    + bind_group_ops(cached.take(i as int)));
            }
        }
        proof {
            assert(cached.take(cached.len() as int) =~= cached);
        }
        gpu.record(GpuOp::SetVertexBuffer { slot: 0, id: buffer.vertex_buffer.get_handle() });
        let instance_count: u32 = match instances {
            Some(ib) => {
                gpu.record(GpuOp::SetVertexBuffer { slot: 1, id: ib.buffer.get_handle() });
                ib.length
            },
            None => 1u32,
        };
        gpu.record(GpuOp::SetIndexBuffer { id: buffer.index_buffer.get_handle() });
        gpu.record(GpuOp::DrawIndexed { index_count: buffer.index_len, instance_count });
        proof {
            assert(gpu.journal() =~= j0 + draw_ops(
                brush.cached_pipeline_spec()->0,
                cached,
                buffer.vertex_buffer.id_spec(),
                instance_view(instances),
                buffer.index_buffer.id_spec(),
                buffer.index_len,
            ));
        }
    }

    /// Ends the pass.
    pub fn finish(self, gpu: &mut GpuCtx)
        ensures
            final(gpu).next_id_spec() == old(gpu).next_id_spec(),
            final(gpu).journal() == old(gpu).journal().push(GpuOpView::EndRenderPass),
    {
        gpu.record(GpuOp::EndRenderPass);
    }
}

} // verus!
