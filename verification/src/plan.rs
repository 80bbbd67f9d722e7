//! Patch plans: the declarative list of writes a feature group installs.
//!
//! Each entry pairs a runtime address with the bytes to place there. Plans
//! are built by the feature groups' `init` functions and applied in order;
//! an entry that cannot be written is skipped and must not stop the entries
//! after it, matching the rule that one failing patch leaves unrelated
//! patches in force.

use crate::patcher::{overwrite, MemoryImage};
use vstd::prelude::*;

verus! {

/// One write of a patch plan: `bytes` placed at runtime address `address`.
#[derive(Debug)]
pub struct PatchWrite {
    pub address: usize,
    pub bytes: Vec<u8>,
}

/// Whether a write of `patch` at `address` into a span of `len` bytes based
/// at `base` can succeed.
pub open spec fn can_patch_at(len: nat, base: usize, address: usize, patch: Seq<u8>) -> bool {
    &&& patch.len() > 0
    &&& address != 0
    &&& base <= address
    &&& address - base + patch.len() <= len
}

/// The bytes of the span after applying every entry of `plan` in order,
/// skipping entries whose window does not fit.
pub open spec fn apply_plan_bytes(s: Seq<u8>, base: usize, plan: Seq<PatchWrite>) -> Seq<u8>
    decreases plan.len(),
{
    if plan.len() == 0 {
        s
    } else {
        let first = plan[0];
        let s1 = if can_patch_at(s.len(), base, first.address, first.bytes@) {
            overwrite(s, first.address - base, first.bytes@)
        } else {
            s
        };
        apply_plan_bytes(s1, base, plan.drop_first())
    }
}

/// How many entries of `plan` are applied (not skipped).
pub open spec fn apply_plan_count(s: Seq<u8>, base: usize, plan: Seq<PatchWrite>) -> int
    decreases plan.len(),
{
    if plan.len() == 0 {
        0int
    } else {
        let first = plan[0];
        let applied = if can_patch_at(s.len(), base, first.address, first.bytes@) {
            1int
        } else {
            0int
        };
        let s1 = if can_patch_at(s.len(), base, first.address, first.bytes@) {
            overwrite(s, first.address - base, first.bytes@)
        } else {
            s
        };
        applied + apply_plan_count(s1, base, plan.drop_first())
    }
}

/// Applying a plan never changes the span's length.
pub proof fn lemma_apply_plan_len(s: Seq<u8>, base: usize, plan: Seq<PatchWrite>)
    ensures
        apply_plan_bytes(s, base, plan).len() == s.len(),
    decreases plan.len(),
{
    if plan.len() > 0 {
        let first = plan[0];
        let s1 = if can_patch_at(s.len(), base, first.address, first.bytes@) {
            overwrite(s, first.address - base, first.bytes@)
        } else {
            s
        };
        lemma_apply_plan_len(s1, base, plan.drop_first());
    }
}

/// Extending a plan by one entry applies that entry to the result of the
/// shorter plan.
proof fn lemma_apply_plan_snoc(s: Seq<u8>, base: usize, plan: Seq<PatchWrite>, x: PatchWrite)
    ensures
        apply_plan_bytes(s, base, plan.push(x)) == (if can_patch_at(
            apply_plan_bytes(s, base, plan).len(),
            base,
            x.address,
            x.bytes@,
        ) {
            overwrite(apply_plan_bytes(s, base, plan), x.address - base, x.bytes@)
        } else {
            apply_plan_bytes(s, base, plan)
        }),
        apply_plan_count(s, base, plan.push(x)) == apply_plan_count(s, base, plan) + (
        if can_patch_at(apply_plan_bytes(s, base, plan).len(), base, x.address, x.bytes@) {
            1int
        } else {
            0int
        }),
    decreases plan.len(),
{
    if plan.len() == 0 {
        let p1 = plan.push(x);
        assert(p1.drop_first() =~= Seq::<PatchWrite>::empty());
        assert(p1[0] == x);
        let sx = if can_patch_at(s.len(), base, x.address, x.bytes@) {
            overwrite(s, x.address - base, x.bytes@)
        } else {
            s
        };
        assert(apply_plan_bytes(s, base, p1) == apply_plan_bytes(sx, base, p1.drop_first()));
        assert(apply_plan_bytes(sx, base, p1.drop_first()) == sx);
        assert(apply_plan_count(s, base, p1) == apply_plan_count(sx, base, p1.drop_first()) + (
        if can_patch_at(s.len(), base, x.address, x.bytes@) {
            1int
        } else {
            0int
        }));
        assert(apply_plan_count(sx, base, p1.drop_first()) == 0);
        assert(apply_plan_bytes(s, base, plan) == s);
        assert(apply_plan_count(s, base, plan) == 0);
    } else {
        let first = plan[0];
        let s1 = if can_patch_at(s.len(), base, first.address, first.bytes@) {
            overwrite(s, first.address - base, first.bytes@)
        } else {
            s
        };
        assert(plan.push(x)[0] == first);
        assert(plan.push(x).drop_first() =~= plan.drop_first().push(x));
        lemma_apply_plan_snoc(s1, base, plan.drop_first(), x);
    }
}

/// Applies every entry of `plan` to the image in order. An entry whose
/// window cannot be written is skipped; the entries after it are still
/// applied. Returns how many entries were applied.
pub fn apply_plan(mem: &mut MemoryImage, plan: &Vec<PatchWrite>) -> (applied: usize)
    requires
        old(mem).wf(),
    ensures
        final(mem).wf(),
        final(mem).base == old(mem).base,
        final(mem).protection == old(mem).protection,
        final(mem).bytes@ == apply_plan_bytes(old(mem).bytes@, old(mem).base, plan@),
        final(mem).bytes@.len() == old(mem).bytes@.len(),
        applied == apply_plan_count(old(mem).bytes@, old(mem).base, plan@),
        applied <= plan@.len(),
{
    let mut applied: usize = 0;
    let mut i: usize = 0;
    while i < plan.len()
        invariant
            old(mem).wf(),
            i <= plan@.len(),
            applied <= i,
            mem.wf(),
            mem.base == old(mem).base,
            mem.protection == old(mem).protection,
            mem.bytes@ == apply_plan_bytes(old(mem).bytes@, old(mem).base, plan@.take(i as int)),
            applied == apply_plan_count(old(mem).bytes@, old(mem).base, plan@.take(i as int)),
        decreases plan@.len() - i,
    {
        let entry = &plan[i];
        let ok = mem.patch_bytes(entry.address, entry.bytes.as_slice());
        if ok {
            applied = applied + 1;
        }
        proof {
            assert(plan@.take(i + 1) =~= plan@.take(i as int).push(plan@[i as int]));
            lemma_apply_plan_snoc(
                old(mem).bytes@,
                old(mem).base,
                plan@.take(i as int),
                plan@[i as int],
            );
        }
        i = i + 1;
    }
    proof {
        assert(plan@.take(plan@.len() as int) =~= plan@);
        lemma_apply_plan_len(old(mem).bytes@, old(mem).base, plan@);
    }
    applied
}

} // verus!
