//! Dirty-flag tracking, binding replacement, and bake determinism.

use tridify_rs::gpuctx::GpuOp;
use tridify_rs::{
    BindAsset, Binder, Brush, BrushDesc, BufferUsages, GpuBuffer, GpuCtx,
};

fn uniform_usage() -> BufferUsages {
    BufferUsages {
        uniform: true,
        copy_dst: true,
        ..Default::default()
    }
}

fn new_brush(gpu: &mut GpuCtx) -> Brush {
    Brush::from_source(BrushDesc::default(), gpu, String::from("shader")).unwrap()
}

#[test]
fn dirty_after_construction() {
    let mut gpu = GpuCtx::new();
    let brush = new_brush(&mut gpu);
    assert!(brush.needs_update());
}

#[test]
fn dirty_invariant_across_bind_and_update() {
    let mut gpu = GpuCtx::new();
    let buf = GpuBuffer::new(&mut gpu, 64, uniform_usage());
    let other = GpuBuffer::new(&mut gpu, 64, uniform_usage());
    let mut brush = new_brush(&mut gpu);

    // bind -> dirty, update -> ready, repeatedly interleaved
    brush.bind(0, 0, BindAsset::Buffer(buf));
    assert!(brush.needs_update());
    brush.update(&mut gpu);
    assert!(!brush.needs_update());
    brush.bind(0, 1, BindAsset::Buffer(other));
    assert!(brush.needs_update());
    brush.bind(1, 0, BindAsset::Buffer(buf));
    assert!(brush.needs_update());
    brush.update(&mut gpu);
    assert!(!brush.needs_update());
    brush.update(&mut gpu);
    assert!(!brush.needs_update());
}

#[test]
fn set_input_layout_dirties() {
    let mut gpu = GpuCtx::new();
    let mut brush = new_brush(&mut gpu);
    brush.update(&mut gpu);
    assert!(!brush.needs_update());
    brush.set_input_layout(tridify_rs::InputLayout::new_vertex_standard());
    assert!(brush.needs_update());
}

/// The layout entries of the first `CreateBindGroupLayout` operation
/// recorded after `mark`.
fn layout_entries_after(gpu: &GpuCtx, mark: usize) -> Vec<tridify_rs::binders::BindGroupLayoutEntry> {
    for op in gpu.ops()[mark..].iter() {
        if let GpuOp::CreateBindGroupLayout { entries, .. } = op {
            return entries.clone();
        }
    }
    panic!("no bind group layout recorded");
}

#[test]
fn bake_idempotent_entries_equal() {
    let mut gpu = GpuCtx::new();
    let buf = GpuBuffer::new(&mut gpu, 16, uniform_usage());
    let mut binder = Binder::new();
    binder.bind(0, BindAsset::Buffer(buf));
    binder.bind(3, BindAsset::Buffer(buf));

    let mark1 = gpu.ops().len();
    let (layout1, group1) = binder.bake(&mut gpu);
    let mark2 = gpu.ops().len();
    let (layout2, group2) = binder.bake(&mut gpu);

    // fresh identities, identical entries
    assert_ne!(layout1, layout2);
    assert_ne!(group1, group2);
    assert_eq!(layout_entries_after(&gpu, mark1), layout_entries_after(&gpu, mark2));
}

#[test]
fn bake_order_independent() {
    let mut gpu = GpuCtx::new();
    let buf = GpuBuffer::new(&mut gpu, 16, uniform_usage());

    let mut scrambled = Binder::new();
    scrambled.bind(2, BindAsset::Buffer(buf));
    scrambled.bind(0, BindAsset::Buffer(buf));
    scrambled.bind(1, BindAsset::Buffer(buf));

    let mut ordered = Binder::new();
    ordered.bind(0, BindAsset::Buffer(buf));
    ordered.bind(1, BindAsset::Buffer(buf));
    ordered.bind(2, BindAsset::Buffer(buf));

    let mark1 = gpu.ops().len();
    scrambled.bake(&mut gpu);
    let mark2 = gpu.ops().len();
    ordered.bake(&mut gpu);

    let entries1 = layout_entries_after(&gpu, mark1);
    let entries2 = layout_entries_after(&gpu, mark2);
    assert_eq!(entries1, entries2);
    // and the entries come out slot-sorted
    let slots: Vec<u32> = entries1.iter().map(|e| e.binding).collect();
    assert_eq!(slots, vec![0, 1, 2]);
}

#[test]
fn bind_replaces_not_accumulates() {
    let mut gpu = GpuCtx::new();
    let a = GpuBuffer::new(&mut gpu, 16, uniform_usage());
    let b = GpuBuffer::new(&mut gpu, 32, uniform_usage());

    let mut binder = Binder::new();
    binder.bind(0, BindAsset::Buffer(a));
    binder.bind(0, BindAsset::Buffer(b));
    assert_eq!(binder.len(), 1);

    let mark = gpu.ops().len();
    binder.bake(&mut gpu);
    // the single recorded group entry references `b`
    let mut found = false;
    for op in gpu.ops()[mark..].iter() {
        if let GpuOp::CreateBindGroup { entries, .. } = op {
            assert_eq!(entries.len(), 1);
            assert_eq!(entries[0].binding, 0);
            assert_eq!(
                entries[0].resource,
                tridify_rs::binders::BindingResource::Buffer(b.get_handle())
            );
            found = true;
        }
    }
    assert!(found);
}

#[test]
fn brush_bind_same_slot_replaces() {
    let mut gpu = GpuCtx::new();
    let a = GpuBuffer::new(&mut gpu, 16, uniform_usage());
    let b = GpuBuffer::new(&mut gpu, 32, uniform_usage());
    let mut brush = new_brush(&mut gpu);
    brush.bind(0, 0, BindAsset::Buffer(a));
    brush.bind(0, 0, BindAsset::Buffer(b));
    brush.update(&mut gpu);
    assert_eq!(brush.get_bind_groups().len(), 1);
    // the bake recorded exactly one binding, referencing `b`
    let mut group_entries = None;
    for op in gpu.ops().iter() {
        if let GpuOp::CreateBindGroup { entries, .. } = op {
            group_entries = Some(entries.clone());
        }
    }
    let entries = group_entries.expect("no bind group recorded");
    assert_eq!(entries.len(), 1);
    assert_eq!(
        entries[0].resource,
        tridify_rs::binders::BindingResource::Buffer(b.get_handle())
    );
}

#[test]
fn update_rebuilds_all_groups_in_order() {
    let mut gpu = GpuCtx::new();
    let buf = GpuBuffer::new(&mut gpu, 16, uniform_usage());
    let mut brush = new_brush(&mut gpu);
    brush.bind(2, 0, BindAsset::Buffer(buf));
    brush.bind(0, 0, BindAsset::Buffer(buf));
    brush.bind(1, 5, BindAsset::Buffer(buf));
    brush.update(&mut gpu);
    let groups = brush.get_bind_groups();
    let indices: Vec<u32> = groups.iter().map(|g| g.0).collect();
    assert_eq!(indices, vec![0, 1, 2]);
    // the pipeline layout lists one layout per group
    let mut listed = None;
    for op in gpu.ops().iter() {
        if let GpuOp::CreatePipelineLayout { layouts, .. } = op {
            listed = Some(layouts.len());
        }
    }
    assert_eq!(listed, Some(3));
}

#[test]
fn error_message_kept() {
    let err = tridify_rs::LErr::new(String::from("boom"));
    assert_eq!(err.message().as_str(), "boom");
}
