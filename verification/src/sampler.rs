//! Sampler handles.
//!
//! A `Sampler` describes how a texture is filtered when sampled.  This
//! crate exposes one fixed configuration — clamp-to-edge addressing with
//! linear magnification and nearest minification — matching what the
//! executor creates for a `CreateSampler` journal entry.

use vstd::prelude::*;
use crate::binders::{BindGroupEntry, BindGroupLayoutEntry, BindingKind, BindingResource,
    ShaderStages, ToBinder};
use crate::gpuctx::{GpuCtx, GpuOp, GpuOpView};

verus! {

/// Handle to a device sampler.
#[derive(Clone, Copy, Debug, PartialEq, Eq, Structural)]
pub struct Sampler {
    id: u64,
}

impl Sampler {
    /// The handle's identity in the journal.
    pub closed spec fn id_spec(&self) -> u64 {
        self.id
    }

    /// Creates the default sampler.
    pub fn new_default(gpu: &mut GpuCtx) -> (s: Sampler)
        requires
            old(gpu).can_alloc(1),
        ensures
            s.id_spec() == old(gpu).next_id_spec(),
            final(gpu).next_id_spec() == old(gpu).next_id_spec() + 1,
            final(gpu).journal() == old(gpu).journal().push(
                GpuOpView::CreateSampler { id: s.id_spec() },
            ),
    {
        let id = gpu.alloc_id();
        gpu.record(GpuOp::CreateSampler { id });
        Sampler { id }
    }
}

impl ToBinder for Sampler {
    /// A sampler binds as a filtering sampler visible to the vertex and
    /// fragment stages.
    open spec fn layout_spec(&self, index: u32) -> BindGroupLayoutEntry {
        BindGroupLayoutEntry {
            binding: index,
            visibility: ShaderStages { vertex: true, fragment: true },
            ty: BindingKind::Sampler,
        }
    }

    open spec fn group_spec(&self, index: u32) -> BindGroupEntry {
        BindGroupEntry { binding: index, resource: BindingResource::Sampler(self.id_spec()) }
    }

    fn get_layout(&self, index: u32) -> (e: BindGroupLayoutEntry) {
        BindGroupLayoutEntry {
            binding: index,
            visibility: ShaderStages { vertex: true, fragment: true },
            ty: BindingKind::Sampler,
        }
    }

    fn get_group(&self, index: u32) -> (e: BindGroupEntry) {
        BindGroupEntry { binding: index, resource: BindingResource::Sampler(self.id) }
    }

    fn debug_name(&self) -> &'static str {
        "Sampler"
    }
}

} // verus!
