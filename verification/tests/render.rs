//! Render-pass behavior: the end-to-end draw scenarios.

use tridify_rs::gpuctx::GpuOp;
use tridify_rs::{
    BindAsset, Brush, BrushDesc, BufferUsages, GpuBuffer, GpuCtx, InstanceBufferBuilder,
    RenderOptions, RenderPassBuilder, VertexBuffer, VertexBufferBuilder,
};

const PASS_THROUGH_SHADER: &str = "\
@group(0) @binding(0) var<uniform> transform: mat4x4<f32>;\n\
@vertex fn vs_main(@location(0) pos: vec3<f32>) -> @builtin(position) vec4<f32> {\n\
    return transform * vec4<f32>(pos, 1.0);\n\
}\n\
@fragment fn fs_main() -> @location(0) vec4<f32> {\n\
    return vec4<f32>(1.0, 1.0, 1.0, 1.0);\n\
}\n";

fn uniform_usage() -> BufferUsages {
    BufferUsages {
        uniform: true,
        copy_dst: true,
        ..Default::default()
    }
}

fn identity_matrix_bytes() -> Vec<u8> {
    let mut bytes = Vec::new();
    for col in 0..4u32 {
        for row in 0..4u32 {
            let v: f32 = if col == row { 1.0 } else { 0.0 };
            bytes.extend_from_slice(&v.to_le_bytes());
        }
    }
    bytes
}

/// Three vertices, each position three floats.
fn triangle_vertex_bytes() -> Vec<u8> {
    let verts: [[f32; 3]; 3] = [[-0.5, -0.5, 0.0], [0.5, -0.5, 0.0], [0.0, 0.5, 0.0]];
    let mut bytes = Vec::new();
    for v in verts.iter() {
        for c in v.iter() {
            bytes.extend_from_slice(&c.to_le_bytes());
        }
    }
    bytes
}

/// Builds the standard scenario: a brush with one uniform binding and a
/// one-triangle vertex buffer.
fn scenario(gpu: &mut GpuCtx) -> (Brush, VertexBuffer, GpuBuffer) {
    let uniform = GpuBuffer::init(gpu, &identity_matrix_bytes(), uniform_usage());
    let mut brush = Brush::from_source(BrushDesc::default(), gpu, PASS_THROUGH_SHADER.to_string())
        .unwrap();
    brush.bind(0, 0, BindAsset::Buffer(uniform));
    let mut builder: VertexBufferBuilder<[f32; 3]> = VertexBufferBuilder::new();
    builder.add_triangle([[-0.5, -0.5, 0.0], [0.5, -0.5, 0.0], [0.0, 0.5, 0.0]]);
    let buffer = builder.build_buffers(gpu, &triangle_vertex_bytes());
    (brush, buffer, uniform)
}

#[test]
fn end_to_end_single_triangle() {
    let mut gpu = GpuCtx::new();
    let (mut brush, buffer, uniform) = scenario(&mut gpu);
    let mark = gpu.ops().len();

    let mut pass_builder = RenderPassBuilder::new(&mut gpu);
    let mut pass = pass_builder.build_render_pass(&mut gpu, RenderOptions::default());
    pass.render_shapes(&mut gpu, &mut brush, &buffer, None);
    pass.finish(&mut gpu);
    pass_builder.finish_render(&mut gpu);

    assert!(!brush.needs_update());
    let ops = &gpu.ops()[mark..];
    let draws: Vec<&GpuOp> = ops
        .iter()
        .filter(|op| matches!(op, GpuOp::DrawIndexed { .. }))
        .collect();
    assert_eq!(draws.len(), 1);
    assert!(matches!(
        draws[0],
        GpuOp::DrawIndexed { index_count: 3, instance_count: 1 }
    ));
    let pipeline_binds: Vec<&GpuOp> = ops
        .iter()
        .filter(|op| matches!(op, GpuOp::SetPipeline { .. }))
        .collect();
    assert_eq!(pipeline_binds.len(), 1);
    let group_binds: Vec<&GpuOp> = ops
        .iter()
        .filter(|op| matches!(op, GpuOp::SetBindGroup { .. }))
        .collect();
    assert_eq!(group_binds.len(), 1);
    assert!(matches!(group_binds[0], GpuOp::SetBindGroup { index: 0, .. }));
    // the recorded bind group references the uniform buffer
    let mut referenced = None;
    for op in ops.iter() {
        if let GpuOp::CreateBindGroup { entries, .. } = op {
            referenced = Some(entries[0].resource);
        }
    }
    assert_eq!(
        referenced,
        Some(tridify_rs::binders::BindingResource::Buffer(uniform.get_handle()))
    );
}

#[test]
fn render_repairs_dirty_same_as_manual_update() {
    // scenario A: render on a freshly-bound (dirty) brush
    let mut gpu_a = GpuCtx::new();
    let (mut brush_a, buffer_a, _) = scenario(&mut gpu_a);
    let mut builder_a = RenderPassBuilder::new(&mut gpu_a);
    let mut pass_a = builder_a.build_render_pass(&mut gpu_a, RenderOptions::default());
    pass_a.render_shapes(&mut gpu_a, &mut brush_a, &buffer_a, None);
    pass_a.finish(&mut gpu_a);
    builder_a.finish_render(&mut gpu_a);

    // scenario B: identical, but with an explicit update before the draw
    let mut gpu_b = GpuCtx::new();
    let (mut brush_b, buffer_b, _) = scenario(&mut gpu_b);
    brush_b.update(&mut gpu_b);
    let mut builder_b = RenderPassBuilder::new(&mut gpu_b);
    let mut pass_b = builder_b.build_render_pass(&mut gpu_b, RenderOptions::default());
    pass_b.render_shapes(&mut gpu_b, &mut brush_b, &buffer_b, None);
    pass_b.finish(&mut gpu_b);
    builder_b.finish_render(&mut gpu_b);

    // same journals, except that B records its rebuild before BeginFrame
    // instead of inside the pass; the operations themselves coincide as
    // multisets and the draw tails are identical
    let ops_a = gpu_a.ops().clone();
    let ops_b = gpu_b.ops().clone();
    assert_eq!(ops_a.len(), ops_b.len());
    let tail_a: Vec<&GpuOp> = ops_a
        .iter()
        .filter(|op| {
            matches!(
                op,
                GpuOp::SetPipeline { .. }
                    | GpuOp::SetBindGroup { .. }
                    | GpuOp::SetVertexBuffer { .. }
                    | GpuOp::SetIndexBuffer { .. }
                    | GpuOp::DrawIndexed { .. }
                    | GpuOp::CreateBindGroupLayout { .. }
                    | GpuOp::CreateBindGroup { .. }
                    | GpuOp::CreatePipelineLayout { .. }
                    | GpuOp::CreateRenderPipeline { .. }
            )
        })
        .collect();
    let tail_b: Vec<&GpuOp> = ops_b
        .iter()
        .filter(|op| {
            matches!(
                op,
                GpuOp::SetPipeline { .. }
                    | GpuOp::SetBindGroup { .. }
                    | GpuOp::SetVertexBuffer { .. }
                    | GpuOp::SetIndexBuffer { .. }
                    | GpuOp::DrawIndexed { .. }
                    | GpuOp::CreateBindGroupLayout { .. }
                    | GpuOp::CreateBindGroup { .. }
                    | GpuOp::CreatePipelineLayout { .. }
                    | GpuOp::CreateRenderPipeline { .. }
            )
        })
        .collect();
    assert_eq!(tail_a, tail_b);
}

#[test]
fn content_write_does_not_dirty() {
    let mut gpu = GpuCtx::new();
    let (mut brush, buffer, mut uniform) = scenario(&mut gpu);
    brush.update(&mut gpu);
    assert!(!brush.needs_update());
    let pipeline_before = brush.get_pipeline();

    // overwrite the uniform's contents: same handle, no rebuild required
    let new_bytes = vec![7u8; 64];
    uniform.write(&mut gpu, &new_bytes);
    assert!(!brush.needs_update());
    assert_eq!(brush.get_pipeline(), pipeline_before);

    // the write went to the very buffer the brush's bind group references
    let last = gpu.ops().last().unwrap();
    match last {
        GpuOp::WriteBuffer { id, contents } => {
            assert_eq!(*id, uniform.get_handle());
            assert_eq!(contents, &new_bytes);
        }
        other => panic!("expected a buffer write, found {:?}", other),
    }

    // and the next draw uses the same cached pipeline and bind groups
    let mark = gpu.ops().len();
    let mut builder = RenderPassBuilder::new(&mut gpu);
    let mut pass = builder.build_render_pass(&mut gpu, RenderOptions::default());
    pass.render_shapes(&mut gpu, &mut brush, &buffer, None);
    pass.finish(&mut gpu);
    builder.finish_render(&mut gpu);
    let rebuilds = gpu.ops()[mark..]
        .iter()
        .filter(|op| matches!(op, GpuOp::CreateRenderPipeline { .. }))
        .count();
    assert_eq!(rebuilds, 0);
}

#[test]
fn rebuild_on_rebind_uses_new_buffer_and_new_pipeline() {
    let mut gpu = GpuCtx::new();
    let (mut brush, buffer, _uniform) = scenario(&mut gpu);

    // first draw
    let mut builder = RenderPassBuilder::new(&mut gpu);
    let mut pass = builder.build_render_pass(&mut gpu, RenderOptions::default());
    pass.render_shapes(&mut gpu, &mut brush, &buffer, None);
    pass.finish(&mut gpu);
    builder.finish_render(&mut gpu);
    let first_pipeline = brush.get_pipeline();

    // re-bind a different buffer at group 0, slot 0
    let different = GpuBuffer::init(&mut gpu, &vec![1u8; 64], uniform_usage());
    brush.bind(0, 0, BindAsset::Buffer(different));
    assert!(brush.needs_update());

    let mark = gpu.ops().len();
    let mut builder = RenderPassBuilder::new(&mut gpu);
    let mut pass = builder.build_render_pass(&mut gpu, RenderOptions::default());
    pass.render_shapes(&mut gpu, &mut brush, &buffer, None);
    pass.finish(&mut gpu);
    builder.finish_render(&mut gpu);

    assert!(!brush.needs_update());
    let second_pipeline = brush.get_pipeline();
    assert_ne!(first_pipeline, second_pipeline);

    // exactly one new pipeline was constructed, and the fresh bind group
    // references the different buffer
    let ops = &gpu.ops()[mark..];
    let rebuilds = ops
        .iter()
        .filter(|op| matches!(op, GpuOp::CreateRenderPipeline { .. }))
        .count();
    assert_eq!(rebuilds, 1);
    let mut referenced = None;
    for op in ops.iter() {
        if let GpuOp::CreateBindGroup { entries, .. } = op {
            assert_eq!(entries[0].binding, 0);
            referenced = Some(entries[0].resource);
        }
    }
    assert_eq!(
        referenced,
        Some(tridify_rs::binders::BindingResource::Buffer(different.get_handle()))
    );
}

#[test]
fn instanced_draw_binds_slot_one_and_counts_instances() {
    let mut gpu = GpuCtx::new();
    let (mut brush, buffer, _) = scenario(&mut gpu);
    let mut instances: InstanceBufferBuilder<[f32; 16]> = InstanceBufferBuilder::new();
    let id_matrix = [0.0f32; 16];
    instances.push_instance(id_matrix);
    instances.push_instance(id_matrix);
    instances.push_instance(id_matrix);
    let mut instance_bytes = Vec::new();
    for _ in 0..3 {
        for c in id_matrix.iter() {
            instance_bytes.extend_from_slice(&c.to_le_bytes());
        }
    }
    let instance_buffer = instances.bake(&mut gpu, &instance_bytes);
    assert_eq!(instance_buffer.length, 3);

    let mark = gpu.ops().len();
    let mut builder = RenderPassBuilder::new(&mut gpu);
    let mut pass = builder.build_render_pass(&mut gpu, RenderOptions::default());
    pass.render_shapes(&mut gpu, &mut brush, &buffer, Some(&instance_buffer));
    pass.finish(&mut gpu);
    builder.finish_render(&mut gpu);

    let ops = &gpu.ops()[mark..];
    assert!(ops.iter().any(|op| matches!(
        op,
        GpuOp::SetVertexBuffer { slot: 1, id } if *id == instance_buffer.buffer.get_handle()
    )));
    assert!(ops.iter().any(|op| matches!(
        op,
        GpuOp::DrawIndexed { index_count: 3, instance_count: 3 }
    )));
}

#[test]
fn pass_records_frame_and_pass_brackets() {
    let mut gpu = GpuCtx::new();
    let (mut brush, buffer, _) = scenario(&mut gpu);
    brush.update(&mut gpu);
    let mark = gpu.ops().len();
    let mut builder = RenderPassBuilder::new(&mut gpu);
    let mut pass = builder.build_render_pass(
        &mut gpu,
        RenderOptions { clear_color: Some(tridify_rs::Color::new(10, 20, 30, 255)) },
    );
    pass.set_scissor(&mut gpu, 0, 0, 100, 50);
    pass.render_shapes(&mut gpu, &mut brush, &buffer, None);
    pass.finish(&mut gpu);
    builder.finish_render(&mut gpu);

    let ops = &gpu.ops()[mark..];
    assert!(matches!(ops[0], GpuOp::BeginFrame));
    assert!(matches!(
        ops[1],
        GpuOp::BeginRenderPass { clear: Some(tridify_rs::Color { r: 10, g: 20, b: 30, a: 255 }) }
    ));
    assert!(matches!(ops[2], GpuOp::SetScissor { x: 0, y: 0, w: 100, h: 50 }));
    assert!(matches!(ops[ops.len() - 2], GpuOp::EndRenderPass));
    assert!(matches!(ops[ops.len() - 1], GpuOp::FinishFrame));
}

#[test]
fn take_ops_drains_journal() {
    let mut gpu = GpuCtx::new();
    let _ = GpuBuffer::new(&mut gpu, 8, uniform_usage());
    assert_eq!(gpu.pending(), 1);
    let drained = gpu.take_ops();
    assert_eq!(drained.len(), 1);
    assert_eq!(gpu.pending(), 0);
    assert!(matches!(drained[0], GpuOp::CreateBuffer { id: 0, size: 8, .. }));
}

#[test]
fn empty_brush_updates_and_draws() {
    // a brush with no bindings still compiles a pipeline (with an empty
    // pipeline layout) and draws without binding any group
    let mut gpu = GpuCtx::new();
    let mut brush =
        Brush::from_source(BrushDesc::default(), &mut gpu, PASS_THROUGH_SHADER.to_string())
            .unwrap();
    let mut builder: VertexBufferBuilder<[f32; 3]> = VertexBufferBuilder::new();
    builder.add_triangle([[-0.5, -0.5, 0.0], [0.5, -0.5, 0.0], [0.0, 0.5, 0.0]]);
    let buffer = builder.build_buffers(&mut gpu, &triangle_vertex_bytes());

    let mut pass_builder = RenderPassBuilder::new(&mut gpu);
    let mut pass = pass_builder.build_render_pass(&mut gpu, RenderOptions::default());
    pass.render_shapes(&mut gpu, &mut brush, &buffer, None);
    pass.finish(&mut gpu);
    pass_builder.finish_render(&mut gpu);

    assert!(!brush.needs_update());
    assert_eq!(brush.get_bind_groups().len(), 0);
    let ops = gpu.ops();
    assert!(ops
        .iter()
        .any(|op| matches!(op, GpuOp::CreatePipelineLayout { layouts, .. } if layouts.is_empty())));
    assert!(!ops.iter().any(|op| matches!(op, GpuOp::SetBindGroup { .. })));
    assert!(ops
        .iter()
        .any(|op| matches!(op, GpuOp::DrawIndexed { index_count: 3, instance_count: 1 })));
}

#[test]
fn draw_binds_groups_in_ascending_order() {
    let mut gpu = GpuCtx::new();
    let (mut brush, buffer, _) = scenario(&mut gpu);
    let second = GpuBuffer::init(&mut gpu, &[0u8; 16], uniform_usage());
    // bind the higher group first; the draw must still bind 0 before 2
    brush.bind(2, 0, tridify_rs::BindAsset::Buffer(second));
    brush.update(&mut gpu);
    let mark = gpu.ops().len();
    let mut pass_builder = RenderPassBuilder::new(&mut gpu);
    let mut pass = pass_builder.build_render_pass(&mut gpu, RenderOptions::default());
    pass.render_shapes_cached(&mut gpu, &brush, &buffer, None);
    pass.finish(&mut gpu);
    pass_builder.finish_render(&mut gpu);
    let bound: Vec<u32> = gpu.ops()[mark..]
        .iter()
        .filter_map(|op| match op {
            GpuOp::SetBindGroup { index, .. } => Some(*index),
            _ => None,
        })
        .collect();
    assert_eq!(bound, vec![0, 2]);
}
