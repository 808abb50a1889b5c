//! Resource bindings and bind groups.
//!
//! A `Binder` maps slot indices to bindable resources within one
//! bind-group.  Binding is insert-or-replace; baking compiles the current
//! contents into one layout and one group, walking the slots in ascending
//! order so that two binders with the same contents always bake to
//! bit-identical layouts, no matter the order the slots were bound in.

use vstd::prelude::*;
use crate::gpu_buffer::GpuBuffer;
use crate::gpuctx::{GpuCtx, GpuOp, GpuOpView};
use crate::sampler::Sampler;
use crate::texture::{Texture, TextureViewDimension};

verus! {

/// Which shader stages see a binding.
#[derive(Clone, Copy, Debug, PartialEq, Eq, Structural)]
pub struct ShaderStages {
    pub vertex: bool,
    pub fragment: bool,
}

/// The kind of resource a layout entry declares.
#[derive(Clone, Copy, Debug, PartialEq, Eq, Structural)]
pub enum BindingKind {
    /// A uniform buffer.
    UniformBuffer,
    /// A filterable, non-multisampled float texture.
    Texture { dimension: TextureViewDimension },
    /// A filtering sampler.
    Sampler,
}

/// One entry of a bind-group layout.
#[derive(Clone, Copy, Debug, PartialEq, Eq, Structural)]
pub struct BindGroupLayoutEntry {
    pub binding: u32,
    pub visibility: ShaderStages,
    pub ty: BindingKind,
}

/// The resource a group entry points at, by journal identity.
#[derive(Clone, Copy, Debug, PartialEq, Eq, Structural)]
pub enum BindingResource {
    Buffer(u64),
    TextureView(u64),
    Sampler(u64),
}

/// One entry of a bind group.
#[derive(Clone, Copy, Debug, PartialEq, Eq, Structural)]
pub struct BindGroupEntry {
    pub binding: u32,
    pub resource: BindingResource,
}

/// Capability of a resource to describe itself as a GPU binding at a
/// given slot index.  Both descriptions are pure functions of the
/// resource's current state.
pub trait ToBinder {
    /// The layout entry this resource produces at `index`.
    spec fn layout_spec(&self, index: u32) -> BindGroupLayoutEntry;

    /// The group entry this resource produces at `index`.
    spec fn group_spec(&self, index: u32) -> BindGroupEntry;

    /// Produces the layout entry for slot `index`.
    fn get_layout(&self, index: u32) -> (e: BindGroupLayoutEntry)
        ensures
            e == self.layout_spec(index),
    ;

    /// Produces the group entry for slot `index`.
    fn get_group(&self, index: u32) -> (e: BindGroupEntry)
        ensures
            e == self.group_spec(index),
    ;

    /// A short human-readable tag for diagnostics.
    fn debug_name(&self) -> &'static str;
}

/// The closed set of resources a binder can hold.
#[derive(Clone, Copy, Debug, PartialEq, Eq, Structural)]
pub enum BindAsset {
    Buffer(GpuBuffer),
    Texture(Texture),
    Sampler(Sampler),
}

impl ToBinder for BindAsset {
    open spec fn layout_spec(&self, index: u32) -> BindGroupLayoutEntry {
        match self {
            BindAsset::Buffer(b) => b.layout_spec(index),
            BindAsset::Texture(t) => t.layout_spec(index),
            BindAsset::Sampler(s) => s.layout_spec(index),
        }
    }

    open spec fn group_spec(&self, index: u32) -> BindGroupEntry {
        match self {
            BindAsset::Buffer(b) => b.group_spec(index),
            BindAsset::Texture(t) => t.group_spec(index),
            BindAsset::Sampler(s) => s.group_spec(index),
        }
    }

    fn get_layout(&self, index: u32) -> (e: BindGroupLayoutEntry) {
        match self {
            BindAsset::Buffer(b) => b.get_layout(index),
            BindAsset::Texture(t) => t.get_layout(index),
            BindAsset::Sampler(s) => s.get_layout(index),
        }
    }

    fn get_group(&self, index: u32) -> (e: BindGroupEntry) {
        match self {
            BindAsset::Buffer(b) => b.get_group(index),
            BindAsset::Texture(t) => t.get_group(index),
            BindAsset::Sampler(s) => s.get_group(index),
        }
    }

    fn debug_name(&self) -> &'static str {
        match self {
            BindAsset::Buffer(b) => b.debug_name(),
            BindAsset::Texture(t) => t.debug_name(),
            BindAsset::Sampler(s) => s.debug_name(),
        }
    }
}

/// A sequence of key/value pairs is strictly sorted by key.  Sorted
/// order makes the pair list a canonical form of its contents: keys are
/// unique, and equal contents mean equal sequences.
pub open spec fn slots_sorted<V>(s: Seq<(u32, V)>) -> bool {
    forall|i: int, j: int| 0 <= i < j < s.len() ==> s[i].0 < s[j].0
}

/// What a pair sequence associates with key `k`, if anything.
pub open spec fn seq_lookup<V>(s: Seq<(u32, V)>, k: u32) -> Option<V>
    decreases s.len(),
{
    if s.len() == 0 {
        None
    } else if s.last().0 == k {
        Some(s.last().1)
    } else {
        seq_lookup(s.drop_last(), k)
    }
}

/// A key no pair mentions has no association.
pub proof fn lemma_seq_lookup_absent<V>(s: Seq<(u32, V)>, k: u32)
    requires
        forall|i: int| 0 <= i < s.len() ==> (#[trigger] s[i]).0 != k,
    ensures
        seq_lookup(s, k) is None,
    decreases s.len(),
{
    if s.len() > 0 {
        lemma_seq_lookup_absent(s.drop_last(), k);
    }
}

/// In a sorted sequence, a pair at any position is what lookup finds.
pub proof fn lemma_seq_lookup_found<V>(s: Seq<(u32, V)>, idx: int)
    requires
        slots_sorted(s),
        0 <= idx < s.len(),
    ensures
        seq_lookup(s, s[idx].0) == Some(s[idx].1),
    decreases s.len(),
{
    if idx == s.len() - 1 {
    } else {
        assert(s[idx].0 < s.last().0);
        lemma_seq_lookup_found(s.drop_last(), idx);
    }
}

/// Sorted pair sequences are a canonical form: if two of them associate
/// the same value with every key, they are the same sequence.
pub proof fn lemma_sorted_canonical<V>(a: Seq<(u32, V)>, b: Seq<(u32, V)>)
    requires
        slots_sorted(a),
        slots_sorted(b),
        forall|k: u32| seq_lookup(a, k) == seq_lookup(b, k),
    ensures
        a == b,
    decreases a.len() + b.len(),
{
    if a.len() == 0 && b.len() == 0 {
        assert(a =~= b);
    } else if a.len() == 0 {
        lemma_seq_lookup_found(b, b.len() - 1);
        lemma_seq_lookup_absent(a, b.last().0);
        assert(false);
    } else if b.len() == 0 {
        lemma_seq_lookup_found(a, a.len() - 1);
        lemma_seq_lookup_absent(b, a.last().0);
        assert(false);
    } else {
        let ka = a.last().0;
        let kb = b.last().0;
        lemma_seq_lookup_found(a, a.len() - 1);
        lemma_seq_lookup_found(b, b.len() - 1);
        if ka < kb {
            // `kb` is larger than every slot of `a`, yet lookup must find it.
            assert(forall|i: int| 0 <= i < a.len() ==> (#[trigger] a[i]).0 != kb) by {
                assert(forall|i: int| 0 <= i < a.len() - 1 ==> (#[trigger] a[i]).0 < ka);
            }
            lemma_seq_lookup_absent(a, kb);
            assert(false);
        } else if kb < ka {
            assert(forall|i: int| 0 <= i < b.len() ==> (#[trigger] b[i]).0 != ka) by {
                assert(forall|i: int| 0 <= i < b.len() - 1 ==> (#[trigger] b[i]).0 < kb);
            }
            lemma_seq_lookup_absent(b, ka);
            assert(false);
        } else {
            assert(a.last() == b.last());
            assert(forall|k: u32| seq_lookup(a.drop_last(), k) == seq_lookup(
                b.drop_last(),
                k,
            )) by {
                assert forall|k: u32| seq_lookup(a.drop_last(), k) == seq_lookup(
                    b.drop_last(),
                    k,
                ) by {
                    if k == ka {
                        assert(forall|i: int|
                            0 <= i < a.len() - 1 ==> (#[trigger] a.drop_last()[i]).0 != k);
                        assert(forall|i: int|
                            0 <= i < b.len() - 1 ==> (#[trigger] b.drop_last()[i]).0 != k);
                        lemma_seq_lookup_absent(a.drop_last(), k);
                        lemma_seq_lookup_absent(b.drop_last(), k);
                    } else {
                        assert(seq_lookup(a, k) == seq_lookup(a.drop_last(), k));
                        assert(seq_lookup(b, k) == seq_lookup(b.drop_last(), k));
                    }
                }
            }
            lemma_sorted_canonical(a.drop_last(), b.drop_last());
            assert(a =~= a.drop_last().push(a.last()));
            assert(b =~= b.drop_last().push(b.last()));
        }
    }
}

/// A sorted one-pair sequence that associates `v` with `k` is exactly
/// the singleton `[(k, v)]`.
pub proof fn lemma_singleton_pairs<V>(s: Seq<(u32, V)>, k: u32, v: V)
    requires
        s.len() == 1,
        seq_lookup(s, k) == Some(v),
    ensures
        s == seq![(k, v)],
{
    assert(s.last() == s[0]);
    if s[0].0 != k {
        assert(seq_lookup(s.drop_last(), k) is None);
        assert(false);
    }
    assert(s =~= seq![(k, v)]);
}

/// Group of resource bindings, keyed by slot index, compiled on demand
/// into one bind-group layout and one bind group.
#[derive(Clone, Debug)]
pub struct Binder {
    bindings: Vec<(u32, BindAsset)>,
}

impl Binder {
    /// The slot/resource pairs, in ascending slot order.
    pub closed spec fn pairs(&self) -> Seq<(u32, BindAsset)> {
        self.bindings@
    }

    /// The pairs are strictly sorted by slot.
    pub open spec fn wf(&self) -> bool {
        slots_sorted(self.pairs())
    }

    /// What this binder associates with slot `k`.
    pub open spec fn lookup(&self, k: u32) -> Option<BindAsset> {
        seq_lookup(self.pairs(), k)
    }

    /// The layout entries baking produces: one per pair, in slot order.
    pub open spec fn layout_entries_spec(&self) -> Seq<BindGroupLayoutEntry> {
        self.pairs().map_values(|p: (u32, BindAsset)| p.1.layout_spec(p.0))
    }

    /// The group entries baking produces: one per pair, in slot order.
    pub open spec fn group_entries_spec(&self) -> Seq<BindGroupEntry> {
        self.pairs().map_values(|p: (u32, BindAsset)| p.1.group_spec(p.0))
    }

    /// An empty binder.
    pub fn new() -> (r: Binder)
        ensures
            r.pairs() == Seq::<(u32, BindAsset)>::empty(),
            r.wf(),
    {
        let r = Binder { bindings: Vec::new() };
        proof {
            assert(r.bindings@ =~= Seq::<(u32, BindAsset)>::empty());
        }
        r
    }

    /// How many slots are bound.
    pub fn len(&self) -> (n: usize)
        ensures
            n == self.pairs().len(),
    {
        self.bindings.len()
    }

    /// Adds or replaces the binding at slot `index`.  Afterwards the
    /// binder associates `binding` with `index` and is unchanged at every
    /// other slot: binding a slot twice leaves one binding, the second.
    pub fn bind(&mut self, index: u32, binding: BindAsset)
        requires
            old(self).wf(),
        ensures
            final(self).wf(),
            final(self).lookup(index) == Some(binding),
            forall|k: u32| k != index ==> final(self).lookup(k) == old(self).lookup(k),
            final(self).pairs().len() == old(self).pairs().len() + (
                if old(self).lookup(index) is Some {
                    0int
                } else {
                    1int
                }
            ),
    {
        let ghost orig = self.bindings@;
        let mut i: usize = 0;
        while i < self.bindings.len() && self.bindings[i].0 < index
            invariant
                self.bindings@ == orig,
                i <= orig.len(),
                forall|j: int| 0 <= j < i ==> (#[trigger] orig[j]).0 < index,
            decreases orig.len() - i,
        {
            i = i + 1;
        }
        if i < self.bindings.len() && self.bindings[i].0 == index {
            proof {
                lemma_seq_lookup_found(orig, i as int);
            }
            // replace in place
            self.bindings[i] = (index, binding);
            proof {
                let s = self.bindings@;
                assert(slots_sorted(s)) by {
                    assert(forall|p: int, q: int|
                        0 <= p < q < s.len() && p != i as int && q != i as int
                            ==> (#[trigger] s[p]).0 < (#[trigger] s[q]).0);
                }
                lemma_seq_lookup_found(s, i as int);
                assert forall|k: u32| k != index implies seq_lookup(s, k) == seq_lookup(orig, k) by {
                    lemma_lookup_update_other(orig, s, i as int, k);
                }
            }
        } else {
            proof {
                assert(forall|j: int|
                    0 <= j < orig.len() ==> (#[trigger] orig[j]).0 != index);
                lemma_seq_lookup_absent(orig, index);
            }
            self.bindings.insert(i, (index, binding));
            proof {
                let s = self.bindings@;
                assert(s == orig.insert(i as int, (index, binding)));
                assert(slots_sorted(s)) by {
                    assert(forall|j: int| i <= j < orig.len() ==> index < (#[trigger] orig[j]).0);
                    assert(forall|j: int| 0 <= j < i ==> (#[trigger] s[j]) == orig[j]);
                    assert(forall|j: int| i < j < s.len() ==> (#[trigger] s[j]) == orig[j - 1]);
                }
                lemma_seq_lookup_found(s, i as int);
                assert forall|k: u32| k != index implies seq_lookup(s, k) == seq_lookup(orig, k) by {
                    lemma_lookup_insert_other(orig, s, i as int, k);
                }
            }
        }
    }

    /// Compiles the current contents into a bind-group layout and a bind
    /// group, walking the slots in ascending order.  Returns the journal
    /// identities `(layout, group)`.  The recorded entries are a pure
    /// function of the binder's contents, so baking twice without an
    /// intervening `bind` records identical layouts and identical groups.
    pub fn bake(&self, gpu: &mut GpuCtx) -> (r: (u64, u64))
        requires
            old(gpu).can_alloc(2),
        ensures
            r.0 == old(gpu).next_id_spec(),
            r.1 == old(gpu).next_id_spec() + 1,
            final(gpu).next_id_spec() == old(gpu).next_id_spec() + 2,
            final(gpu).journal() == old(gpu).journal()
                .push(GpuOpView::CreateBindGroupLayout {
                    id: r.0,
                    entries: self.layout_entries_spec(),
                })
                .push(GpuOpView::CreateBindGroup {
                    id: r.1,
                    layout: r.0,
                    entries: self.group_entries_spec(),
                }),
    {
        let mut layout_entries: Vec<BindGroupLayoutEntry> = Vec::new();
        let mut group_entries: Vec<BindGroupEntry> = Vec::new();
        let mut i: usize = 0;
        while i < self.bindings.len()
            invariant
                i <= self.bindings@.len(),
                layout_entries@ =~= self.layout_entries_spec().take(i as int),
                group_entries@ =~= self.group_entries_spec().take(i as int),
            decreases self.bindings@.len() - i,
        {
            let (slot, asset) = self.bindings[i];
            layout_entries.push(asset.get_layout(slot));
            group_entries.push(asset.get_group(slot));
            i = i + 1;
            proof {
                assert(layout_entries@ =~= self.layout_entries_spec().take(i as int));
                assert(group_entries@ =~= self.group_entries_spec().take(i as int));
            }
        }
        proof {
            assert(self.layout_entries_spec().take(self.bindings@.len() as int)
                =~= self.layout_entries_spec());
            assert(self.group_entries_spec().take(self.bindings@.len() as int)
                =~= self.group_entries_spec());
        }
        let layout_id = gpu.alloc_id();
        let group_id = gpu.alloc_id();
        gpu.record(GpuOp::CreateBindGroupLayout { id: layout_id, entries: layout_entries });
        gpu.record(GpuOp::CreateBindGroup {
            id: group_id,
            layout: layout_id,
            entries: group_entries,
        });
        (layout_id, group_id)
    }
}

/// Replacing the pair at position `i` leaves lookup unchanged at every
/// other key, provided the replacement keeps the key.
pub proof fn lemma_lookup_update_other<V>(
    orig: Seq<(u32, V)>,
    s: Seq<(u32, V)>,
    i: int,
    k: u32,
)
    requires
        0 <= i < orig.len(),
        s.len() == orig.len(),
        forall|j: int| 0 <= j < orig.len() && j != i ==> #[trigger] s[j] == orig[j],
        k != s[i].0,
        s[i].0 == orig[i].0,
    ensures
        seq_lookup(s, k) == seq_lookup(orig, k),
    decreases s.len(),
{
    if s.len() > 0 {
        if i == s.len() - 1 {
            assert(s.drop_last() =~= orig.drop_last());
        } else {
            assert(s.last() == orig.last());
            if s.last().0 != k {
                lemma_lookup_update_other(orig.drop_last(), s.drop_last(), i, k);
            }
        }
    }
}

/// Inserting a pair at position `i` leaves lookup unchanged at every
/// other key.
pub proof fn lemma_lookup_insert_other<V>(
    orig: Seq<(u32, V)>,
    s: Seq<(u32, V)>,
    i: int,
    k: u32,
)
    requires
        0 <= i <= orig.len(),
        s == orig.insert(i, s[i]),
        k != s[i].0,
    ensures
        seq_lookup(s, k) == seq_lookup(orig, k),
    decreases s.len(),
{
    if i == orig.len() {
        assert(s.last() == s[i]);
        assert(s.drop_last() =~= orig);
    } else {
        assert(s.last() == orig.last());
        if s.last().0 != k {
            assert(s.drop_last() =~= orig.drop_last().insert(i, s[i]));
            assert(s.drop_last()[i] == s[i]);
            lemma_lookup_insert_other(orig.drop_last(), s.drop_last(), i, k);
        }
    }
}

} // verus!
