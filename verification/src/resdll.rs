//! Interception of the resource-library storage location.
//!
//! The module downloads its resource library into a system folder that
//! needs administrative rights. Two call sites in its parameter handling
//! are rewritten: the domain check (answered by the host) and the query for
//! the storage path, which is redirected into a cache folder under the
//! user's temporary directory.

use crate::encoder::{call_rel32_bytes, make_call_rel32};
use crate::patcher::overwrite;
use crate::plan::PatchWrite;
use crate::reloc::{adjust_spec, PatchContext};
use vstd::prelude::*;

verus! {

/// Static address of the domain-check call site.
pub const ALLOWED_DOMAIN_CALL: usize = 0x372147F3;

/// Static address of the storage-path call site.
pub const CACHE_FOLDER_CALL: usize = 0x3721481E;

/// The cache folder appended to the user's temporary directory:
/// `\msnchat-rs.cache\` with a terminating zero.
pub open spec fn cache_dir_bytes() -> Seq<u8> {
    seq![
        0x5Cu8,
        0x6D,
        0x73,
        0x6E,
        0x63,
        0x68,
        0x61,
        0x74,
        0x2D,
        0x72,
        0x73,
        0x2E,
        0x63,
        0x61,
        0x63,
        0x68,
        0x65,
        0x5C,
        0x00,
    ]
}

/// Builds the storage path in the caller's buffer. The buffer already
/// holds the user's temporary directory path of `temp_len` bytes ending in
/// a separator; the cache folder is appended over that final separator.
/// Succeeds only if the whole folder name and its terminator fit strictly
/// inside the buffer; otherwise the buffer is left unchanged.
pub fn get_cache_folder(buf: &mut Vec<u8>, temp_len: usize) -> (ok: bool)
    requires
        temp_len >= 1,
    ensures
        ok == (temp_len + cache_dir_bytes().len() < old(buf)@.len()),
        final(buf)@.len() == old(buf)@.len(),
        ok ==> final(buf)@ == overwrite(old(buf)@, temp_len - 1, cache_dir_bytes()),
        !ok ==> final(buf)@ == old(buf)@,
{
    let dir: Vec<u8> = vec![
        0x5Cu8, 0x6D, 0x73, 0x6E, 0x63, 0x68, 0x61, 0x74, 0x2D, 0x72, 0x73, 0x2E, 0x63, 0x61,
        0x63, 0x68, 0x65, 0x5C, 0x00,
    ];
    proof {
        assert(dir@ =~= cache_dir_bytes());
    }
    if buf.len() < 1 || temp_len > buf.len() - 1 || dir.len() >= buf.len() - temp_len {
        return false;
    }
    let start = temp_len - 1;
    let mut i: usize = 0;
    while i < dir.len()
        invariant
            dir@ == cache_dir_bytes(),
            start + dir@.len() <= buf@.len(),
            start + dir@.len() <= usize::MAX,
            i <= dir@.len(),
            buf@.len() == old(buf)@.len(),
            forall|j: int|
                0 <= j < buf@.len() && !(start <= j < start + i) ==> buf@[j] == old(buf)@[j],
            forall|j: int| start <= j < start + i ==> buf@[j] == dir@[j - start],
        decreases dir@.len() - i,
    {
        let b = dir[i];
        buf.set(start + i, b);
        i = i + 1;
    }
    proof {
        assert(final(buf)@ =~= overwrite(old(buf)@, temp_len - 1, cache_dir_bytes()));
    }
    true
}

/// Plan for this group: rewrite the domain-check call site into a call of
/// the host's domain handler, and the storage-path call site into a call
/// of the host's cache-folder handler.
pub fn init(ctx: &PatchContext, domain_handler: usize, cache_handler: usize) -> (plan: Vec<
    PatchWrite,
>)
    ensures
        plan@.len() == 2,
        plan@[0].address == adjust_spec(ALLOWED_DOMAIN_CALL, ctx.spec_delta()),
        plan@[0].bytes@ == call_rel32_bytes(plan@[0].address, domain_handler),
        plan@[1].address == adjust_spec(CACHE_FOLDER_CALL, ctx.spec_delta()),
        plan@[1].bytes@ == call_rel32_bytes(plan@[1].address, cache_handler),
{
    let mut plan: Vec<PatchWrite> = Vec::new();
    let a0 = ctx.adjust(ALLOWED_DOMAIN_CALL);
    plan.push(PatchWrite { address: a0, bytes: make_call_rel32(a0, domain_handler) });
    let a1 = ctx.adjust(CACHE_FOLDER_CALL);
    plan.push(PatchWrite { address: a1, bytes: make_call_rel32(a1, cache_handler) });
    plan
}

} // verus!
