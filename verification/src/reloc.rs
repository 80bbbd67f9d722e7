//! Runtime relocation of static-analysis addresses.
//!
//! The target module is compiled for one preferred load address, and all
//! patch locations were determined by static analysis against that base.
//! At runtime the module may be mapped elsewhere; every static address must
//! be shifted by the difference before it is read or written.

use vstd::arithmetic::div_mod::{
    lemma_fundamental_div_mod_converse, lemma_mod_bound, lemma_mod_multiples_vanish, lemma_small_mod,
};
use vstd::prelude::*;

verus! {

/// The file name of the target module, matched case-insensitively.
pub const DLL_NAME: &'static str = "MSNChat45.ocx";

/// The base address assumed during static analysis of the target module.
pub const PREFERRED_BASE_ADDRESS: usize = 0x37200000;

/// The number of distinct address values; address arithmetic wraps modulo
/// this.
pub open spec fn addr_space() -> int {
    usize::MAX as int + 1
}

/// The delta added to every static address: the runtime base minus the
/// preferred base, wrapped to an address.
pub open spec fn delta_for(runtime_base: usize) -> usize {
    ((runtime_base - PREFERRED_BASE_ADDRESS) % addr_space()) as usize
}

/// Static-to-runtime address translation: static address plus delta, wrapped.
pub open spec fn adjust_spec(static_addr: usize, delta: usize) -> usize {
    ((static_addr + delta) % addr_space()) as usize
}

/// `x % m == x - k * m` whenever that difference lands in `[0, m)`.
proof fn lemma_mod_identity(x: int, m: int, k: int)
    requires
        m > 0,
        0 <= x - k * m < m,
    ensures
        x % m == x - k * m,
{
    lemma_fundamental_div_mod_converse(x, m, k, x - k * m);
}

/// Translation context for one run: carries the delta between the module's
/// runtime base and the preferred base used during static analysis.
/// Created once the module's base address is known; immutable afterwards.
#[derive(Clone, Copy, Debug)]
pub struct PatchContext {
    delta: usize,
}

impl PatchContext {
    /// The delta this context applies to every static address.
    pub closed spec fn spec_delta(&self) -> usize {
        self.delta
    }

    /// Builds the context from the base address at which the target module
    /// is actually mapped in this process.
    pub fn new(runtime_base: usize) -> (ctx: Self)
        ensures
            ctx.spec_delta() == delta_for(runtime_base),
    {
        let delta = runtime_base.wrapping_sub(PREFERRED_BASE_ADDRESS);
        proof {
            let diff = runtime_base - PREFERRED_BASE_ADDRESS as int;
            if diff < 0 {
                lemma_mod_identity(diff, addr_space(), -1);
            } else {
                lemma_small_mod(diff as nat, addr_space() as nat);
            }
        }
        PatchContext { delta }
    }

    /// Translates a static (disassembly-time) address to its runtime
    /// equivalent by adding the delta, wrapping at the end of the address
    /// space.
    pub fn adjust(&self, static_addr: usize) -> (r: usize)
        ensures
            r == adjust_spec(static_addr, self.spec_delta()),
    {
        proof {
            let sum = static_addr + self.delta;
            if sum > usize::MAX {
                lemma_mod_identity(sum, addr_space(), 1);
            } else {
                lemma_small_mod(sum as nat, addr_space() as nat);
            }
        }
        static_addr.wrapping_add(self.delta)
    }
}

/// One module mapped into the process: its file name (as the module list
/// reports it, possibly padded with trailing zero bytes) and its base
/// address.
#[derive(Debug)]
pub struct ModuleEntry {
    pub name: Vec<u8>,
    pub base: usize,
}

/// One byte lowered ASCII-case-insensitively.
pub open spec fn ascii_lower_byte(b: u8) -> u8 {
    if 0x41 <= b <= 0x5A {
        (b + 0x20) as u8
    } else {
        b
    }
}

/// A byte string lowered byte by byte.
pub open spec fn lower_bytes(s: Seq<u8>) -> Seq<u8> {
    s.map_values(|b: u8| ascii_lower_byte(b))
}

/// The name with its trailing zero padding removed.
pub open spec fn trim_trailing_nuls(s: Seq<u8>) -> Seq<u8>
    decreases s.len(),
{
    if s.len() > 0 && s.last() == 0 {
        trim_trailing_nuls(s.drop_last())
    } else {
        s
    }
}

/// Whether a reported module name refers to the target file: equal after
/// padding removal, ignoring ASCII case.
pub open spec fn module_name_matches_spec(name: Seq<u8>, target: Seq<u8>) -> bool {
    lower_bytes(trim_trailing_nuls(name)) == lower_bytes(target)
}

/// The base address of the first listed module whose name matches the
/// target.
pub open spec fn first_module_match(mods: Seq<ModuleEntry>, target: Seq<u8>) -> Option<usize>
    decreases mods.len(),
{
    if mods.len() == 0 {
        None
    } else if module_name_matches_spec(mods[0].name@, target) {
        Some(mods[0].base)
    } else {
        first_module_match(mods.drop_first(), target)
    }
}

/// The trimmed name is the prefix up to the last non-zero byte.
proof fn lemma_trim_is_prefix(s: Seq<u8>, end: int)
    requires
        0 <= end <= s.len(),
        forall|j: int| end <= j < s.len() ==> s[j] == 0,
        end > 0 ==> s[end - 1] != 0,
    ensures
        trim_trailing_nuls(s) == s.subrange(0, end),
    decreases s.len(),
{
    if s.len() > 0 && s.last() == 0 {
        assert(end < s.len());
        lemma_trim_is_prefix(s.drop_last(), end);
        assert(s.drop_last().subrange(0, end) =~= s.subrange(0, end));
    } else {
        assert(end == s.len());
        assert(s.subrange(0, end) =~= s);
    }
}

/// Whether a reported module name refers to the target file, exactly as
/// `module_name_matches_spec` states.
pub fn module_name_matches(name: &Vec<u8>, target: &Vec<u8>) -> (r: bool)
    ensures
        r == module_name_matches_spec(name@, target@),
{
    let mut end: usize = name.len();
    while end > 0 && name[end - 1] == 0
        invariant
            end <= name@.len(),
            forall|j: int| end <= j < name@.len() ==> name@[j] == 0,
        decreases end,
    {
        end = end - 1;
    }
    proof {
        lemma_trim_is_prefix(name@, end as int);
    }
    let ghost trimmed = trim_trailing_nuls(name@);
    if end != target.len() {
        assert(lower_bytes(trimmed).len() != lower_bytes(target@).len());
        return false;
    }
    let mut i: usize = 0;
    while i < end
        invariant
            trimmed == trim_trailing_nuls(name@),
            trimmed == name@.subrange(0, end as int),
            end <= name@.len(),
            end == target@.len(),
            i <= end,
            forall|j: int| 0 <= j < i ==> ascii_lower_byte(name@[j]) == ascii_lower_byte(target@[j]),
        decreases end - i,
    {
        let a = name[i];
        let b = target[i];
        let la = if 0x41 <= a && a <= 0x5A {
            a + 0x20
        } else {
            a
        };
        let lb = if 0x41 <= b && b <= 0x5A {
            b + 0x20
        } else {
            b
        };
        if la != lb {
            proof {
                assert(trimmed[i as int] == name@[i as int]);
                assert(lower_bytes(trimmed)[i as int] == ascii_lower_byte(trimmed[i as int]));
                assert(lower_bytes(target@)[i as int] == ascii_lower_byte(target@[i as int]));
                assert(lower_bytes(trimmed)[i as int] != lower_bytes(target@)[i as int]);
                assert(lower_bytes(trimmed) != lower_bytes(target@));
            }
            return false;
        }
        i = i + 1;
    }
    proof {
        assert forall|j: int| 0 <= j < end implies lower_bytes(trimmed)[j] == lower_bytes(
            target@,
        )[j] by {
            assert(trimmed[j] == name@[j]);
        }
        assert(lower_bytes(trimmed) =~= lower_bytes(target@));
    }
    true
}

/// Matching is unaffected by skipping past examined entries.
proof fn lemma_first_match_skip(mods: Seq<ModuleEntry>, target: Seq<u8>, i: int)
    requires
        0 <= i <= mods.len(),
        forall|k: int| 0 <= k < i ==> !module_name_matches_spec(mods[k].name@, target),
    ensures
        first_module_match(mods, target) == first_module_match(mods.skip(i), target),
    decreases i,
{
    if i > 0 {
        assert(!module_name_matches_spec(mods[0].name@, target));
        lemma_first_match_skip(mods.drop_first(), target, i - 1);
        assert(mods.drop_first().skip(i - 1) =~= mods.skip(i));
    } else {
        assert(mods.skip(0) =~= mods);
    }
}

/// Finds the base address of the target module among the modules mapped
/// into the process: the first entry whose file name matches the target
/// case-insensitively, or nothing if no entry does.
pub fn find_module_base(modules: &Vec<ModuleEntry>, target_name: &Vec<u8>) -> (r: Option<usize>)
    ensures
        r == first_module_match(modules@, target_name@),
{
    let mut i: usize = 0;
    while i < modules.len()
        invariant
            i <= modules@.len(),
            forall|k: int| 0 <= k < i ==> !module_name_matches_spec(modules@[k].name@, target_name@),
        decreases modules@.len() - i,
    {
        if module_name_matches(&modules[i].name, target_name) {
            proof {
                lemma_first_match_skip(modules@, target_name@, i as int);
                assert(modules@.skip(i as int)[0] == modules@[i as int]);
            }
            return Some(modules[i].base);
        }
        i = i + 1;
    }
    proof {
        lemma_first_match_skip(modules@, target_name@, modules@.len() as int);
        assert(modules@.skip(modules@.len() as int) =~= Seq::<ModuleEntry>::empty());
    }
    None
}

/// Address translation is exact modular arithmetic: for every runtime base
/// and every static address, the adjusted address equals
/// `static_addr + runtime_base - PREFERRED_BASE_ADDRESS` modulo the address
/// space, including when the runtime base is below the preferred base.
pub proof fn lemma_adjust_exact(runtime_base: usize, static_addr: usize)
    ensures
        adjust_spec(static_addr, delta_for(runtime_base)) as int == (static_addr + runtime_base
            - PREFERRED_BASE_ADDRESS) % addr_space(),
{
    let m = addr_space();
    let diff = runtime_base - PREFERRED_BASE_ADDRESS as int;
    let d = delta_for(runtime_base) as int;
    lemma_mod_bound(diff, m);
    if diff < 0 {
        lemma_mod_identity(diff, m, -1);
    } else {
        lemma_small_mod(diff as nat, m as nat);
    }
    // d == diff or d == diff + m; in either case static_addr + d differs from
    // static_addr + diff by a multiple of m.
    if d == diff {
        assert((static_addr + d) % m == (static_addr + diff) % m);
    } else {
        assert(d == diff + m);
        let x = static_addr + diff;
        lemma_mod_multiples_vanish(1, x, m);
        assert(m * 1 + x == static_addr + d);
    }
}

} // verus!
