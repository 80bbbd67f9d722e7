//! Protected read-modify-write of the target module's mapped pages.
//!
//! `MemoryImage` models the span of the target module that patching may
//! touch: its load address, its bytes, and the protection state of its
//! pages. `patch_bytes` performs the write exactly as the host does it
//! against the real pages: make the range writable, copy the payload byte
//! for byte, restore the previous protection. The host's own copy of this
//! sequence additionally flushes the instruction cache; that step has no
//! observable effect on the bytes themselves and so does not appear in the
//! model. A write either fully succeeds or reports failure with the image
//! unchanged.

use vstd::prelude::*;

verus! {

/// Protection state of the modelled pages.
#[derive(Clone, Copy, Debug, PartialEq, Eq, Structural)]
pub enum PageProtection {
    /// Readable and executable; the normal state of the module's code.
    ReadExecute,
    /// Readable, writable and executable; only ever held inside a write.
    ReadWriteExecute,
}

/// The span of the target module that patches are written into.
#[derive(Debug)]
pub struct MemoryImage {
    /// Address of the first modelled byte; never zero.
    pub base: usize,
    /// The bytes of the span, starting at `base`.
    pub bytes: Vec<u8>,
    /// Current protection of the span's pages.
    pub protection: PageProtection,
}

/// A byte sequence with `patch` written over it at offset `off`.
pub open spec fn overwrite(s: Seq<u8>, off: int, patch: Seq<u8>) -> Seq<u8> {
    Seq::new(s.len(), |i: int| if off <= i < off + patch.len() { patch[i - off] } else { s[i] })
}

impl MemoryImage {
    /// A well-formed image: mapped above the null page and not wrapping
    /// around the end of the address space.
    pub open spec fn wf(&self) -> bool {
        &&& self.base > 0
        &&& self.base + self.bytes@.len() <= usize::MAX
    }

    /// Creates an image of `bytes` mapped at `base`.
    pub fn new(base: usize, bytes: Vec<u8>) -> (m: Self)
        requires
            base > 0,
            base + bytes@.len() <= usize::MAX,
        ensures
            m.wf(),
            m.base == base,
            m.bytes@ == bytes@,
            m.protection == PageProtection::ReadExecute,
    {
        MemoryImage { base, bytes, protection: PageProtection::ReadExecute }
    }

    /// Whether a write of `patch` at `address` can succeed: the payload is
    /// not empty, the address is not null, and the whole window lies inside
    /// the image.
    pub open spec fn can_patch(&self, address: usize, patch: Seq<u8>) -> bool {
        &&& patch.len() > 0
        &&& address != 0
        &&& self.base <= address
        &&& address - self.base + patch.len() <= self.bytes@.len()
    }

    /// Reads one byte of the image by address, for checking what a patch
    /// left behind.
    pub fn read_byte(&self, address: usize) -> (b: u8)
        requires
            self.wf(),
            self.base <= address,
            address - self.base < self.bytes@.len(),
        ensures
            b == self.bytes@[address - self.base],
    {
        self.bytes[address - self.base]
    }

    /// Writes `patch` over the image at `address`.
    ///
    /// On success the window holds the payload, every other byte is
    /// unchanged, and the pages are back at the protection they held before
    /// the write. On failure — an empty payload, a null address, or a window
    /// that leaves the image — nothing is changed and `false` is returned.
    pub fn patch_bytes(&mut self, address: usize, patch: &[u8]) -> (ok: bool)
        requires
            old(self).wf(),
        ensures
            final(self).wf(),
            ok == old(self).can_patch(address, patch@),
            final(self).base == old(self).base,
            final(self).protection == old(self).protection,
            ok ==> final(self).bytes@ == overwrite(
                old(self).bytes@,
                address - old(self).base,
                patch@,
            ),
            !ok ==> final(self).bytes@ == old(self).bytes@,
    {
        if patch.len() == 0 || address == 0 {
            return false;
        }
        if address < self.base {
            return false;
        }
        let off = address - self.base;
        if patch.len() > self.bytes.len() || off > self.bytes.len() - patch.len() {
            return false;
        }
        let saved = self.protection;
        self.protection = PageProtection::ReadWriteExecute;
        let mut i: usize = 0;
        while i < patch.len()
            invariant
                off + patch@.len() <= self.bytes@.len(),
                off + patch@.len() <= usize::MAX,
                i <= patch@.len(),
                self.bytes@.len() == old(self).bytes@.len(),
                forall|j: int|
                    0 <= j < self.bytes@.len() && !(off <= j < off + i) ==> self.bytes@[j] == old(
                        self,
                    ).bytes@[j],
                forall|j: int| off <= j < off + i ==> self.bytes@[j] == patch@[j - off],
                self.base == old(self).base,
            decreases patch@.len() - i,
        {
            let b = patch[i];
            self.bytes.set(off + i, b);
            i = i + 1;
        }
        self.protection = saved;
        proof {
            assert(self.bytes@ =~= overwrite(old(self).bytes@, off as int, patch@));
        }
        true
    }
}

/// Writing the same payload twice at the same address is idempotent: the
/// second write leaves exactly the bytes the first one produced, and inside
/// the window those bytes are the payload itself.
pub proof fn lemma_patch_idempotent(s: Seq<u8>, off: int, patch: Seq<u8>)
    requires
        0 <= off,
        off + patch.len() <= s.len(),
    ensures
        overwrite(overwrite(s, off, patch), off, patch) == overwrite(s, off, patch),
        overwrite(s, off, patch).subrange(off, off + patch.len()) == patch,
{
    assert(overwrite(overwrite(s, off, patch), off, patch) =~= overwrite(s, off, patch));
    assert(overwrite(s, off, patch).subrange(off, off + patch.len()) =~= patch);
}

} // verus!
