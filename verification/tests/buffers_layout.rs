//! Builders, index encoding, input layouts and resource descriptions.

use tridify_rs::gpuctx::GpuOp;
use tridify_rs::blend::{BlendFactor, BlendOperation};
use tridify_rs::input_layout::{VertexFormat, VertexStepMode};
use tridify_rs::{
    AlphaBlend, BrushDesc, BufferUsages, Color, ColorBlend, GpuBuffer, GpuCtx, InputLayout,
    InputLayoutGroup, InputType, InstanceBufferBuilder, Sampler, Texture, TextureDesc,
    TextureSize, TextureUsage, VertexBufferBuilder, WindowSettings,
};

#[test]
fn add_triangle_appends_consecutive_indices() {
    let mut builder: VertexBufferBuilder<u32> = VertexBufferBuilder::new();
    builder.add_triangle([10, 11, 12]);
    builder.add_triangle([20, 21, 22]);
    assert_eq!(builder.vertices, vec![10, 11, 12, 20, 21, 22]);
    assert_eq!(builder.indices, vec![0, 1, 2, 3, 4, 5]);
    assert_eq!(builder.index_id_counter, 6);
}

#[test]
fn add_quad_appends_two_triangles() {
    let mut builder: VertexBufferBuilder<u32> = VertexBufferBuilder::new();
    builder.add_quad([1, 2, 3, 4]);
    assert_eq!(builder.vertices, vec![1, 2, 3, 4]);
    assert_eq!(builder.indices, vec![0, 1, 2, 2, 1, 3]);
    assert_eq!(builder.index_id_counter, 4);
}

#[test]
fn chained_builder_calls() {
    let mut builder: VertexBufferBuilder<u8> = VertexBufferBuilder::new();
    builder.add_triangle([1, 2, 3]).add_quad([4, 5, 6, 7]);
    assert_eq!(builder.vertices.len(), 7);
    assert_eq!(builder.indices, vec![0, 1, 2, 3, 4, 5, 5, 4, 6]);
}

#[test]
fn build_buffers_encodes_indices_little_endian() {
    let mut gpu = GpuCtx::new();
    let mut builder: VertexBufferBuilder<u32> = VertexBufferBuilder::new();
    builder.add_triangle([0, 0, 0]);
    let vertex_bytes = [9u8; 12];
    let vb = builder.build_buffers(&mut gpu, &vertex_bytes);
    assert_eq!(vb.index_len, 3);

    let ops = gpu.take_ops();
    assert_eq!(ops.len(), 2);
    match &ops[0] {
        GpuOp::CreateBufferInit { contents, usage, .. } => {
            assert_eq!(contents.as_slice(), &vertex_bytes);
            assert!(usage.vertex && !usage.index);
        }
        other => panic!("expected vertex buffer creation, found {:?}", other),
    }
    match &ops[1] {
        GpuOp::CreateBufferInit { contents, usage, .. } => {
            assert_eq!(
                contents.as_slice(),
                &[0, 0, 0, 0, 1, 0, 0, 0, 2, 0, 0, 0]
            );
            assert!(usage.index && !usage.vertex);
        }
        other => panic!("expected index buffer creation, found {:?}", other),
    }
}

#[test]
fn index_encoding_handles_large_values() {
    let mut gpu = GpuCtx::new();
    let builder = VertexBufferBuilder::<u32> {
        vertices: Vec::new(),
        indices: vec![0x0102_0304],
        index_id_counter: 0,
    };
    let vb = builder.build_buffers(&mut gpu, &[]);
    assert_eq!(vb.index_len, 1);
    let ops = gpu.take_ops();
    match &ops[1] {
        GpuOp::CreateBufferInit { contents, .. } => {
            assert_eq!(contents.as_slice(), &[0x04, 0x03, 0x02, 0x01]);
        }
        other => panic!("expected index buffer creation, found {:?}", other),
    }
}

#[test]
fn instance_builder_accumulates_and_clears() {
    let mut builder: InstanceBufferBuilder<u64> = InstanceBufferBuilder::new();
    assert_eq!(builder.len(), 0);
    builder.push_instance(5);
    builder.push_instance(6);
    assert_eq!(builder.len(), 2);
    builder.clear();
    assert_eq!(builder.len(), 0);
    builder.push_instance(7);

    let mut gpu = GpuCtx::new();
    let baked = builder.bake(&mut gpu, &[1, 2, 3]);
    assert_eq!(baked.length, 1);
    assert_eq!(baked.buffer.size(), 3);
}

#[test]
fn standard_vertex_layout_bakes_with_accumulated_offsets() {
    let layout = InputLayout::new_vertex_standard();
    let baked = layout.bake();
    assert_eq!(baked.len(), 1);
    let group = &baked[0];
    assert_eq!(group.step_mode, VertexStepMode::Vertex);
    // vec3 position, vec4 color, vec2 uv, vec3 normal
    assert_eq!(group.array_stride, 12 + 16 + 8 + 12);
    let offsets: Vec<u64> = group.attributes.iter().map(|a| a.offset).collect();
    assert_eq!(offsets, vec![0, 12, 28, 36]);
    let locations: Vec<u32> = group.attributes.iter().map(|a| a.shader_location).collect();
    assert_eq!(locations, vec![0, 1, 2, 3]);
    let formats: Vec<VertexFormat> = group.attributes.iter().map(|a| a.format).collect();
    assert_eq!(
        formats,
        vec![
            VertexFormat::Float32x3,
            VertexFormat::Float32x4,
            VertexFormat::Float32x2,
            VertexFormat::Float32x3
        ]
    );
}

#[test]
fn instance_group_locations_continue_after_vertex_group() {
    let mut layout = InputLayout::new_vertex_standard();
    let mut instance_group = InputLayoutGroup::new_instance();
    instance_group
        .add_input(InputType::Vec4)
        .add_input(InputType::Vec4)
        .add_input(InputType::Vec4)
        .add_input(InputType::Vec4);
    layout.set_instance_input(instance_group);
    let baked = layout.bake();
    assert_eq!(baked.len(), 2);
    assert_eq!(baked[1].step_mode, VertexStepMode::Instance);
    assert_eq!(baked[1].array_stride, 64);
    let locations: Vec<u32> = baked[1].attributes.iter().map(|a| a.shader_location).collect();
    assert_eq!(locations, vec![4, 5, 6, 7]);
}

#[test]
fn layout_bake_is_deterministic() {
    let layout = InputLayout::new_vertex_standard();
    assert_eq!(layout.bake(), layout.bake());
}

#[test]
fn input_sizes_match_float_widths() {
    assert_eq!(InputType::F32.get_size(), 4);
    assert_eq!(InputType::Vec2.get_size(), 8);
    assert_eq!(InputType::Vec3.get_size(), 12);
    assert_eq!(InputType::Vec4.get_size(), 16);
}

#[test]
fn blend_presets() {
    let desc = BrushDesc::new(ColorBlend::Additive, AlphaBlend::Multiplied);
    assert_eq!(desc.blend.color.src_factor, BlendFactor::One);
    assert_eq!(desc.blend.color.dst_factor, BlendFactor::One);
    assert_eq!(desc.blend.color.operation, BlendOperation::Add);
    assert_eq!(desc.blend.alpha.src_factor, BlendFactor::Dst);
    assert_eq!(desc.blend.alpha.dst_factor, BlendFactor::Zero);

    let default_desc = BrushDesc::default();
    assert_eq!(default_desc.blend.color.src_factor, BlendFactor::SrcAlpha);
    assert_eq!(default_desc.blend.color.dst_factor, BlendFactor::OneMinusSrcAlpha);
    // the default alpha component mirrors the color preset
    assert_eq!(default_desc.blend.alpha, default_desc.blend.color);
}

#[test]
fn color_round_trip() {
    let c = Color::new(1, 2, 3, 4);
    assert_eq!(c.to_rgba8(), [1, 2, 3, 4]);
    assert_eq!(Color::black(), Color::new(0, 0, 0, 255));
    assert_eq!(Color::white(), Color::new(255, 255, 255, 255));
    assert_eq!(Color::clear(), Color::new(0, 0, 0, 0));
}

#[test]
fn texture_sizes_pad_missing_axes() {
    assert_eq!(TextureSize::D1(7).get_size(), (7, 1, 1));
    assert_eq!(TextureSize::D2(7, 9).get_size(), (7, 9, 1));
    assert_eq!(TextureSize::D3(7, 9, 11).get_size(), (7, 9, 11));
}

#[test]
fn texture_init_records_create_then_write() {
    let mut gpu = GpuCtx::new();
    let desc = TextureDesc {
        size: TextureSize::D2(2, 2),
        usage: TextureUsage {
            texture_bind: true,
            destination: true,
            ..Default::default()
        },
    };
    let pixels = [255u8; 16];
    let tex = Texture::init(&mut gpu, desc, &pixels);
    assert_eq!(tex.get_desc(), desc);
    let ops = gpu.take_ops();
    assert_eq!(ops.len(), 2);
    assert!(matches!(&ops[0], GpuOp::CreateTexture { desc: d, .. } if *d == desc));
    match &ops[1] {
        GpuOp::WriteTexture { origin_x: 0, origin_y: 0, origin_z: 0, contents, .. } => {
            assert_eq!(contents.as_slice(), &pixels);
        }
        other => panic!("expected texture write, found {:?}", other),
    }
}

#[test]
fn texture_region_write_keeps_origin() {
    let mut gpu = GpuCtx::new();
    let desc = TextureDesc {
        size: TextureSize::D2(4, 4),
        usage: TextureUsage { destination: true, ..Default::default() },
    };
    let tex = Texture::new(&mut gpu, desc);
    tex.write_region_pixels(&mut gpu, &[1, 2, 3, 4], (1, 2, 0));
    let ops = gpu.take_ops();
    assert!(matches!(
        ops.last().unwrap(),
        GpuOp::WriteTexture { origin_x: 1, origin_y: 2, origin_z: 0, .. }
    ));
}

#[test]
fn buffer_creation_and_shared_handles() {
    let mut gpu = GpuCtx::new();
    let usage = BufferUsages { map_read: true, copy_dst: true, ..Default::default() };
    let buf = GpuBuffer::new(&mut gpu, 1024, usage);
    assert_eq!(buf.size(), 1024);
    assert_eq!(buf.usage(), usage);
    let copy = buf;
    assert_eq!(copy.get_handle(), buf.get_handle());
}

#[test]
fn sampler_records_creation() {
    let mut gpu = GpuCtx::new();
    let _sampler = Sampler::new_default(&mut gpu);
    let ops = gpu.take_ops();
    assert_eq!(ops.len(), 1);
    assert!(matches!(&ops[0], GpuOp::CreateSampler { id: 0 }));
}

#[test]
fn window_settings_keep_fps() {
    let settings = WindowSettings::new(144);
    assert_eq!(settings.max_fps(), 144);
}
