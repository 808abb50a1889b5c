//! Brushes: shader + bindings + cached pipeline.
//!
//! A `Brush` owns a compiled shader, an ordered collection of `Binder`s
//! keyed by group index, a vertex-input layout and a blend state.  It is a
//! two-state machine: **Dirty** (the caches do not reflect the current
//! bindings; the initial state, re-entered by every mutation) and
//! **Ready** (after a successful `update`, which rebuilds every bind
//! group and the full pipeline and replaces the caches wholesale).  The
//! cached pipeline and bind groups may be consumed only in the Ready
//! state; the render pass guarantees that by checking `needs_update`
//! before every draw.

use vstd::prelude::*;
use crate::binders::{lemma_seq_lookup_found, seq_lookup, slots_sorted, BindAsset, Binder};
use crate::blend::{AlphaBlend, BlendComponent, BlendState, ColorBlend};
use crate::err::LErr;
use crate::gpuctx::{GpuCtx, GpuOp, GpuOpView, PipelineDesc, PipelineDescView};
use crate::input_layout::{InputLayout, InputType};

verus! {

/// Creation-time configuration of a brush: its blend state.
#[derive(Clone, Copy, Debug, PartialEq, Eq, Structural)]
pub struct BrushDesc {
    pub blend: BlendState,
}

impl BrushDesc {
    /// A descriptor from a color preset and an alpha preset.
    pub fn new(color: ColorBlend, alpha: AlphaBlend) -> (r: BrushDesc)
        ensures
            r.blend == (BlendState {
                color: color.component_spec(),
                alpha: alpha.component_spec(),
            }),
    {
        BrushDesc {
            blend: BlendState { color: color.component(), alpha: alpha.component() },
        }
    }
}

impl Default for BrushDesc {
    /// The default blend uses the straight-alpha color equation for both
    /// the color and the alpha channels.
    fn default() -> (r: BrushDesc)
        ensures
            r.blend == (BlendState {
                color: ColorBlend::Default.component_spec(),
                alpha: ColorBlend::Default.component_spec(),
            }),
    {
        let c: BlendComponent = ColorBlend::Default.component();
        BrushDesc { blend: BlendState { color: c, alpha: c } }
    }
}

/// The two journal operations one binder bake appends.
pub open spec fn bake_ops_of(b: Binder, layout_id: u64, group_id: u64) -> Seq<GpuOpView> {
    seq![
        GpuOpView::CreateBindGroupLayout { id: layout_id, entries: b.layout_entries_spec() },
        GpuOpView::CreateBindGroup {
            id: group_id,
            layout: layout_id,
            entries: b.group_entries_spec(),
        },
    ]
}

/// The operations appended by baking every group in order, identities
/// allocated pairwise from `base`.
pub open spec fn groups_bake_ops(groups: Seq<(u32, Binder)>, base: int) -> Seq<GpuOpView>
    decreases groups.len(),
{
    if groups.len() == 0 {
        Seq::empty()
    } else {
        bake_ops_of(groups.first().1, base as u64, (base + 1) as u64) + groups_bake_ops(
            groups.drop_first(),
            base + 2,
        )
    }
}

/// The layout identities the bakes hand out, in group order.
pub open spec fn group_layout_ids(groups: Seq<(u32, Binder)>, base: int) -> Seq<u64> {
    Seq::new(groups.len(), |i: int| (base + 2 * i) as u64)
}

/// The cached (group index, bind group identity) pairs after an update.
pub open spec fn cached_groups(groups: Seq<(u32, Binder)>, base: int) -> Seq<(u32, u64)> {
    Seq::new(groups.len(), |i: int| (groups[i].0, (base + 2 * i + 1) as u64))
}

/// Everything one `update` appends to the journal: each group baked in
/// ascending group order, then the pipeline layout over all group
/// layouts, then the full render pipeline.
pub open spec fn update_ops(
    groups: Seq<(u32, Binder)>,
    layout: InputLayout,
    blend: BlendState,
    shader: u64,
    base: int,
) -> Seq<GpuOpView> {
    let n = groups.len() as int;
    groups_bake_ops(groups, base) + seq![
        GpuOpView::CreatePipelineLayout {
            id: (base + 2 * n) as u64,
            layouts: group_layout_ids(groups, base),
        },
        GpuOpView::CreateRenderPipeline {
            id: (base + 2 * n + 1) as u64,
            desc: PipelineDescView {
                shader,
                layout: (base + 2 * n) as u64,
                vertex_layouts: layout.baked_spec(),
                blend,
            },
        },
    ]
}

/// Splitting the bake of `groups` at its last element.
pub proof fn lemma_groups_bake_ops_snoc(groups: Seq<(u32, Binder)>, base: int)
    requires
        groups.len() > 0,
    ensures
        groups_bake_ops(groups, base) == groups_bake_ops(groups.drop_last(), base) + bake_ops_of(
            groups.last().1,
            (base + 2 * (groups.len() - 1)) as u64,
            (base + 2 * (groups.len() - 1) + 1) as u64,
        ),
    decreases groups.len(),
{
    if groups.len() == 1 {
        let single = bake_ops_of(groups.first().1, base as u64, (base + 1) as u64);
        assert(groups.drop_first().len() == 0);
        assert(groups.drop_last().len() == 0);
        assert(groups.first() == groups.last());
        assert(groups_bake_ops(groups.drop_first(), base + 2) == Seq::<GpuOpView>::empty());
        assert(groups_bake_ops(groups, base) == single + Seq::<GpuOpView>::empty());
        assert(groups_bake_ops(groups.drop_last(), base) == Seq::<GpuOpView>::empty());
        assert(single + Seq::<GpuOpView>::empty() =~= Seq::<GpuOpView>::empty() + single);
    } else {
        let tail = groups.drop_first();
        lemma_groups_bake_ops_snoc(tail, base + 2);
        assert(tail.last() == groups.last());
        assert(tail.drop_last() =~= groups.drop_last().drop_first());
        assert(groups.drop_last().len() > 0);
        assert(groups.drop_last().first() == groups.first());
        assert(groups_bake_ops(groups, base) =~= groups_bake_ops(groups.drop_last(), base)
            + bake_ops_of(
            groups.last().1,
            (base + 2 * (groups.len() - 1)) as u64,
            (base + 2 * (groups.len() - 1) + 1) as u64,
        ));
    }
}

/// Used to tell the GPU how to draw the shapes provided: a compiled
/// shader, the resources bound to it, and the cached pipeline built from
/// them.
pub struct Brush {
    desc: BrushDesc,
    compiled_shader: u64,
    assets_to_bind: Vec<(u32, Binder)>,
    input_layout: InputLayout,
    cached_pipeline: Option<u64>,
    cached_bindings: Vec<(u32, u64)>,
    needs_update: bool,
}

impl Brush {
    /// The configured blend state.
    pub closed spec fn desc_spec(&self) -> BrushDesc {
        self.desc
    }

    /// The journal identity of the compiled shader module.
    pub closed spec fn shader_spec(&self) -> u64 {
        self.compiled_shader
    }

    /// The (group index, binder) pairs, in ascending group order.
    pub closed spec fn groups(&self) -> Seq<(u32, Binder)> {
        self.assets_to_bind@
    }

    /// The configured vertex-input layout.
    pub closed spec fn input_layout_spec(&self) -> InputLayout {
        self.input_layout
    }

    /// The cached pipeline identity, if an update has completed.
    pub closed spec fn cached_pipeline_spec(&self) -> Option<u64> {
        self.cached_pipeline
    }

    /// The cached (group index, bind group identity) pairs.
    pub closed spec fn cached_bindings_spec(&self) -> Seq<(u32, u64)> {
        self.cached_bindings@
    }

    /// Whether the brush is Dirty: the caches do not reflect the current
    /// bindings.
    pub closed spec fn dirty(&self) -> bool {
        self.needs_update
    }

    /// Structural invariant: groups sorted strictly by index, every
    /// binder well formed, the input layout within bounds, and a Ready
    /// brush always holds a cached pipeline.
    pub open spec fn wf(&self) -> bool {
        &&& slots_sorted(self.groups())
        &&& forall|i: int| 0 <= i < self.groups().len() ==> (#[trigger] self.groups()[i]).1.wf()
        &&& self.input_layout_spec().wf()
        &&& !self.dirty() ==> self.cached_pipeline_spec() is Some
    }

    /// What is bound at group `g`, slot `s`.
    pub open spec fn slot(&self, g: u32, s: u32) -> Option<BindAsset> {
        match seq_lookup(self.groups(), g) {
            Some(binder) => binder.lookup(s),
            None => None,
        }
    }

    /// How many identities an `update` will allocate.
    pub open spec fn update_alloc(&self) -> int {
        2 * (self.groups().len() as int) + 2
    }

    /// Creates a brush directly from shader source text.  The shader is
    /// compiled eagerly — the journal's first operation for this brush —
    /// and the brush starts Dirty, with no bindings, the standard vertex
    /// layout, and empty caches.  Construction itself cannot fail; the
    /// executor surfaces shader compilation errors when it replays the
    /// journal.
    pub fn from_source(desc: BrushDesc, gpu: &mut GpuCtx, shader_source: String) -> (r: Result<
        Brush,
        LErr,
    >)
        requires
            old(gpu).can_alloc(1),
        ensures
            r matches Ok(b) && {
                &&& b.wf()
                &&& b.dirty()
                &&& b.desc_spec() == desc
                &&& b.shader_spec() == old(gpu).next_id_spec()
                &&& b.groups() == Seq::<(u32, Binder)>::empty()
                &&& b.input_layout_spec().vertex matches Some(g) && g.inputs_spec() == seq![
                    InputType::Vec3,
                    InputType::Vec4,
                    InputType::Vec2,
                    InputType::Vec3,
                ]
                &&& b.input_layout_spec().instance is None
                &&& b.cached_pipeline_spec() is None
                &&& b.cached_bindings_spec() == Seq::<(u32, u64)>::empty()
            },
            final(gpu).next_id_spec() == old(gpu).next_id_spec() + 1,
            final(gpu).journal() == old(gpu).journal().push(
                GpuOpView::CreateShaderModule {
                    id: old(gpu).next_id_spec(),
                    source: shader_source@,
                },
            ),
    {
        let id = gpu.alloc_id();
        gpu.record(GpuOp::CreateShaderModule { id, source: shader_source });
        let b = Brush {
            desc,
            compiled_shader: id,
            assets_to_bind: Vec::new(),
            input_layout: InputLayout::new_vertex_standard(),
            cached_pipeline: None,
            cached_bindings: Vec::new(),
            needs_update: true,
        };
        proof {
            assert(b.assets_to_bind@ =~= Seq::<(u32, Binder)>::empty());
            assert(b.cached_bindings@ =~= Seq::<(u32, u64)>::empty());
        }
        Ok(b)
    }

    /// Replaces the vertex-input description and marks the brush Dirty.
    pub fn set_input_layout(&mut self, layout: InputLayout)
        requires
            old(self).wf(),
            layout.wf(),
        ensures
            final(self).wf(),
            final(self).dirty(),
            final(self).input_layout_spec() == layout,
            final(self).groups() == old(self).groups(),
            final(self).desc_spec() == old(self).desc_spec(),
            final(self).shader_spec() == old(self).shader_spec(),
    {
        self.input_layout = layout;
        self.needs_update = true;
    }

    /// Whether the brush has been modified since its caches were last
    /// rebuilt.
    pub fn needs_update(&self) -> (r: bool)
        ensures
            r == self.dirty(),
    {
        self.needs_update
    }

    /// Binds `asset` at the given group and slot index, creating the
    /// group's binder on first use, and marks the brush Dirty.  Binding
    /// is insert-or-replace: afterwards exactly `asset` sits at that
    /// position and every other position is untouched.  Both indices must
    /// match the shader's own declarations; a mismatch surfaces as a
    /// validation failure in the executor, not here.
    pub fn bind(&mut self, group_index: u32, loc_index: u32, asset: BindAsset)
        requires
            old(self).wf(),
        ensures
            final(self).wf(),
            final(self).dirty(),
            final(self).slot(group_index, loc_index) == Some(asset),
            forall|g: u32, s: u32|
                !(g == group_index && s == loc_index) ==> final(self).slot(g, s) == old(
                    self,
                ).slot(g, s),
            forall|g: u32|
                g != group_index ==> seq_lookup(final(self).groups(), g) == seq_lookup(
                    old(self).groups(),
                    g,
                ),
            final(self).desc_spec() == old(self).desc_spec(),
            final(self).shader_spec() == old(self).shader_spec(),
            final(self).input_layout_spec() == old(self).input_layout_spec(),
            final(self).groups().len() == old(self).groups().len() + (
                if seq_lookup(old(self).groups(), group_index) is Some {
                    0int
                } else {
                    1int
                }
            ),
            seq_lookup(final(self).groups(), group_index) matches Some(b2) && b2.wf()
                && b2.lookup(loc_index) == Some(asset) && b2.pairs().len() == (
                match seq_lookup(old(self).groups(), group_index) {
                    Some(b1) => b1.pairs().len() + (
                        if b1.lookup(loc_index) is Some {
                            0int
                        } else {
                            1int
                        }
                    ),
                    None => 1int,
                }
            ),
    {
        let ghost orig = self.assets_to_bind@;
        let mut i: usize = 0;
        while i < self.assets_to_bind.len() && self.assets_to_bind[i].0 < group_index
            invariant
                self.assets_to_bind@ == orig,
                i <= orig.len(),
                forall|j: int| 0 <= j < i ==> (#[trigger] orig[j]).0 < group_index,
            decreases orig.len() - i,
        {
            i = i + 1;
        }
        if i < self.assets_to_bind.len() && self.assets_to_bind[i].0 == group_index {
            let mut pair = self.assets_to_bind.remove(i);
            let ghost before = pair.1;
            pair.1.bind(loc_index, asset);
            let ghost bound = pair.1;
            self.assets_to_bind.insert(i, pair);
            self.needs_update = true;
            proof {
                let s = self.assets_to_bind@;
                assert(s =~= orig.update(i as int, (group_index, bound)));
                assert(slots_sorted::<Binder>(s)) by {
                    assert(forall|j: int| 0 <= j < s.len() ==> (#[trigger] s[j]).0 == orig[j].0);
                }
                lemma_seq_lookup_found(s, i as int);
                assert forall|g: u32| g != group_index implies seq_lookup(s, g) == seq_lookup(
                    orig,
                    g,
                ) by {
                    crate::binders::lemma_lookup_update_other(orig, s, i as int, g);
                }
                lemma_seq_lookup_found(orig, i as int);
                assert(seq_lookup(orig, group_index) == Some(before));
                assert forall|g: u32, s2: u32|
                    !(g == group_index && s2 == loc_index) implies self.slot(g, s2) == old(
                    self,
                ).slot(g, s2) by {
                    if g == group_index {
                        assert(bound.lookup(s2) == before.lookup(s2));
                    }
                }
            }
        } else {
            let mut binder = Binder::new();
            binder.bind(loc_index, asset);
            let ghost bound = binder;
            self.assets_to_bind.insert(i, (group_index, binder));
            self.needs_update = true;
            proof {
                let s = self.assets_to_bind@;
                assert(s == orig.insert(i as int, (group_index, bound)));
                assert(slots_sorted::<Binder>(s)) by {
                    assert(forall|j: int| i <= j < orig.len() ==> group_index < (
                    #[trigger] orig[j]).0);
                    assert(forall|j: int| 0 <= j < i ==> (#[trigger] s[j]) == orig[j]);
                    assert(forall|j: int| i < j < s.len() ==> (#[trigger] s[j]) == orig[j - 1]);
                }
                lemma_seq_lookup_found(s, i as int);
                assert forall|g: u32| g != group_index implies seq_lookup(s, g) == seq_lookup(
                    orig,
                    g,
                ) by {
                    crate::binders::lemma_lookup_insert_other(orig, s, i as int, g);
                }
                assert(forall|j: int|
                    0 <= j < orig.len() ==> (#[trigger] orig[j]).0 != group_index);
                crate::binders::lemma_seq_lookup_absent(orig, group_index);
                assert(seq_lookup(orig, group_index) is None);
                assert forall|g: u32, s2: u32|
                    !(g == group_index && s2 == loc_index) implies self.slot(g, s2) == old(
                    self,
                ).slot(g, s2) by {
                    if g == group_index {
                        assert(bound.lookup(s2) is None);
                    }
                }
            }
        }
    }

    /// Rebuilds every bind group and the full pipeline from the current
    /// bindings, replaces both caches wholesale, and clears the dirty
    /// flag.  The groups are baked in ascending group order, and the
    /// pipeline layout lists their layouts in that same order, so the
    /// appended operations are a pure function of the brush's contents
    /// and the next free identity — updating an unchanged brush twice
    /// records two identical rebuilds.
    pub fn update(&mut self, gpu: &mut GpuCtx)
        requires
            old(self).wf(),
            old(gpu).can_alloc(old(self).update_alloc()),
        ensures
            final(self).wf(),
            !final(self).dirty(),
            final(self).groups() == old(self).groups(),
            final(self).desc_spec() == old(self).desc_spec(),
            final(self).shader_spec() == old(self).shader_spec(),
            final(self).input_layout_spec() == old(self).input_layout_spec(),
            final(self).cached_bindings_spec() == cached_groups(
                old(self).groups(),
                old(gpu).next_id_spec() as int,
            ),
            final(self).cached_pipeline_spec() == Some(
                (old(gpu).next_id_spec() + 2 * old(self).groups().len() + 1) as u64,
            ),
            final(gpu).next_id_spec() == old(gpu).next_id_spec() + old(self).update_alloc(),
            final(gpu).journal() == old(gpu).journal() + update_ops(
                old(self).groups(),
                old(self).input_layout_spec(),
                old(self).desc_spec().blend,
                old(self).shader_spec(),
                old(gpu).next_id_spec() as int,
            ),
    {
        let ghost j0 = gpu.journal();
        let ghost base = gpu.next_id_spec() as int;
        let ghost groups = self.assets_to_bind@;
        let n = self.assets_to_bind.len();
        let mut layout_ids: Vec<u64> = Vec::new();
        let mut new_bindings: Vec<(u32, u64)> = Vec::new();
        let mut i: usize = 0;
        while i < n
            invariant
                n == groups.len(),
                groups == self.assets_to_bind@,
                i <= n,
                base + 2 * (n as int) + 2 <= u64::MAX,
                gpu.next_id_spec() == base + 2 * (i as int),
                gpu.journal() == j0 + groups_bake_ops(groups.take(i as int), base),
                layout_ids@ == group_layout_ids(groups.take(i as int), base),
                new_bindings@ == cached_groups(groups.take(i as int), base),
            decreases n - i,
        {
            let pair = &self.assets_to_bind[i];
            let ids = pair.1.bake(gpu);
            layout_ids.push(ids.0);
            new_bindings.push((pair.0, ids.1));
            i = i + 1;
            proof {
                let taken = groups.take(i as int);
                assert(taken.drop_last() =~= groups.take(i as int - 1));
                assert(taken.last() == groups[i as int - 1]);
                lemma_groups_bake_ops_snoc(taken, base);
                assert(gpu.journal() =~= j0 + groups_bake_ops(taken, base));
                assert(layout_ids@ =~= group_layout_ids(taken, base));
                assert(new_bindings@ =~= cached_groups(taken, base));
            }
        }
        proof {
            assert(groups.take(n as int) =~= groups);
        }
        let layout_id = gpu.alloc_id();
        gpu.record(GpuOp::CreatePipelineLayout { id: layout_id, layouts: layout_ids });
        let pipeline_id = gpu.alloc_id();
        let vertex_layouts = self.input_layout.bake();
        gpu.record(GpuOp::CreateRenderPipeline {
            id: pipeline_id,
            desc: PipelineDesc {
                shader: self.compiled_shader,
                layout: layout_id,
                vertex_layouts,
                blend: self.desc.blend,
            },
        });
        self.cached_bindings = new_bindings;
        self.cached_pipeline = Some(pipeline_id);
        self.needs_update = false;
        proof {
            assert(gpu.journal() =~= j0 + update_ops(
                groups,
                old(self).input_layout_spec(),
                old(self).desc_spec().blend,
                old(self).shader_spec(),
                base,
            ));
        }
    }

    /// The cached pipeline.  Meaningful only in the Ready state: the
    /// caller must have seen `needs_update()` return false, or have
    /// called `update` itself.
    pub fn get_pipeline(&self) -> (r: u64)
        requires
            self.wf(),
            !self.dirty(),
        ensures
            Some(r) == self.cached_pipeline_spec(),
    {
        match self.cached_pipeline {
            Some(id) => id,
            None => {
                proof {
                    assert(false);
                }
                0
            },
        }
    }

    /// The cached bind groups, one per group index, in ascending group
    /// order.  Meaningful only in the Ready state.
    pub fn get_bind_groups(&self) -> (r: &Vec<(u32, u64)>)
        requires
            self.wf(),
            !self.dirty(),
        ensures
            r@ == self.cached_bindings_spec(),
    {
        &self.cached_bindings
    }

    /// How many bind groups the brush currently carries.
    pub fn group_count(&self) -> (r: usize)
        ensures
            r == self.groups().len(),
    {
        self.assets_to_bind.len()
    }
}

} // verus!
