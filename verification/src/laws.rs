//! The crate's general guarantees, written out as proof functions.
//!
//! Each statement here is proved from the public contracts of the types
//! it speaks about.  The dirty-flag guarantee itself — `bind` leaves a
//! brush Dirty, a completed `update` leaves it Ready — is part of those
//! functions' own postconditions; the laws below cover what relates
//! several operations.

use vstd::prelude::*;
use crate::binders::{lemma_sorted_canonical, Binder, ToBinder};
use crate::brush::bake_ops_of;
use crate::gpuctx::GpuOpView;

verus! {

/// Deterministic ordering: what a binder bakes to depends only on which
/// resource sits at which slot, never on the order the slots were bound
/// in.  Two binders with the same contents record identical layout
/// entries and identical group entries.
pub proof fn lemma_bake_deterministic(a: Binder, b: Binder)
    requires
        a.wf(),
        b.wf(),
        forall|k: u32| a.lookup(k) == b.lookup(k),
    ensures
        a.layout_entries_spec() == b.layout_entries_spec(),
        a.group_entries_spec() == b.group_entries_spec(),
{
    assert forall|k: u32|
        crate::binders::seq_lookup(a.pairs(), k) == crate::binders::seq_lookup(
            b.pairs(),
            k,
        ) by {
        assert(a.lookup(k) == b.lookup(k));
    }
    lemma_sorted_canonical(a.pairs(), b.pairs());
}

/// Idempotent bake: baking a binder twice with no mutation in between
/// records the same layout entries and the same group entries both
/// times — the two recordings differ only in the fresh identities they
/// hand out, so the second bind group is layout-compatible with the
/// pipeline built from the first.
pub proof fn lemma_bake_idempotent(b: Binder, first: (u64, u64), second: (u64, u64))
    ensures
        bake_ops_of(b, first.0, first.1) == seq![
            GpuOpView::CreateBindGroupLayout { id: first.0, entries: b.layout_entries_spec() },
            GpuOpView::CreateBindGroup {
                id: first.1,
                layout: first.0,
                entries: b.group_entries_spec(),
            },
        ],
        bake_ops_of(b, second.0, second.1) == seq![
            GpuOpView::CreateBindGroupLayout { id: second.0, entries: b.layout_entries_spec() },
            GpuOpView::CreateBindGroup {
                id: second.1,
                layout: second.0,
                entries: b.group_entries_spec(),
            },
        ],
{
}

/// Replace, don't accumulate: a well-formed binder holds at most one
/// binding per slot, so re-binding a slot leaves exactly one binding
/// there — the newest.  Which resource that is comes from `bind`'s own
/// postcondition.
pub proof fn lemma_slots_unique(b: Binder)
    requires
        b.wf(),
    ensures
        forall|i: int, j: int|
            0 <= i < b.pairs().len() && 0 <= j < b.pairs().len() && i != j ==> (
            #[trigger] b.pairs()[i]).0 != (#[trigger] b.pairs()[j]).0,
{
}

/// A binder's baked entries list one entry per bound slot, in ascending
/// slot order, each produced by the resource bound there.
pub proof fn lemma_bake_entries_shape(b: Binder)
    ensures
        b.layout_entries_spec().len() == b.pairs().len(),
        b.group_entries_spec().len() == b.pairs().len(),
        forall|i: int|
            0 <= i < b.pairs().len() ==> #[trigger] b.layout_entries_spec()[i]
                == b.pairs()[i].1.layout_spec(b.pairs()[i].0),
        forall|i: int|
            0 <= i < b.pairs().len() ==> #[trigger] b.group_entries_spec()[i]
                == b.pairs()[i].1.group_spec(b.pairs()[i].0),
{
}

} // verus!
