//! Encoding of the raw instruction bytes written over the target module.
//!
//! All encoders are pure: they produce fixed-size byte sequences and leave
//! writing them to the patcher. Relative jumps and calls are five bytes, an
//! opcode followed by a signed 32-bit little-endian displacement taken from
//! the end of the rewritten instruction; immediate loads and pushes are the
//! opcode followed by the 32-bit little-endian operand. The caller guarantees
//! that the five-byte window it overwrites is exactly one original
//! instruction; the encoder does not validate that.

use vstd::arithmetic::div_mod::{
    lemma_fundamental_div_mod, lemma_fundamental_div_mod_converse, lemma_mod_bound,
    lemma_mod_multiples_vanish, lemma_small_mod,
};
use vstd::prelude::*;

verus! {

/// The number of values a 32-bit displacement or operand can take;
/// displacement arithmetic wraps modulo this.
pub open spec fn rel32_space() -> int {
    0x1_0000_0000
}

/// The four little-endian bytes of a 32-bit value.
pub open spec fn u32_le_bytes(v: u32) -> Seq<u8> {
    seq![
        (v % 256) as u8,
        ((v / 256) % 256) as u8,
        ((v / 0x10000) % 256) as u8,
        ((v / 0x1000000) % 256) as u8,
    ]
}

/// The value a four-byte little-endian sequence stands for.
pub open spec fn le_u32_value(b: Seq<u8>) -> int {
    b[0] + 256 * (b[1] + 256 * (b[2] + 256 * b[3]))
}

/// The 32-bit displacement placed after a relative jump or call opcode at
/// `from`: the target minus the address of the next instruction, modulo
/// 2^32. A negative distance wraps to the upper half of the range, which is
/// exactly the two's-complement encoding the processor sign-extends back.
pub open spec fn rel32_disp(from: usize, to: usize) -> int {
    (to - (from + 5)) % rel32_space()
}

/// The five bytes of a `JMP rel32` from `from` to `to`.
pub open spec fn jmp_rel32_bytes(from: usize, to: usize) -> Seq<u8> {
    seq![0xE9u8] + u32_le_bytes(rel32_disp(from, to) as u32)
}

/// The five bytes of a `CALL rel32` from `from` to `to`.
pub open spec fn call_rel32_bytes(from: usize, to: usize) -> Seq<u8> {
    seq![0xE8u8] + u32_le_bytes(rel32_disp(from, to) as u32)
}

/// Emits the four little-endian bytes of `v`.
pub fn u32_to_le_bytes(v: u32) -> (r: Vec<u8>)
    ensures
        r@ == u32_le_bytes(v),
{
    let b0 = (v % 256) as u8;
    let b1 = ((v / 256) % 256) as u8;
    let b2 = ((v / 0x10000) % 256) as u8;
    let b3 = ((v / 0x1000000) % 256) as u8;
    let r = vec![b0, b1, b2, b3];
    proof {
        assert(r@ =~= u32_le_bytes(v));
    }
    r
}

/// Computes the wrapped 32-bit displacement from the end of a five-byte
/// instruction at `from` to `to`.
pub fn rel32_displacement(from: usize, to: usize) -> (d: u32)
    ensures
        d as int == rel32_disp(from, to),
{
    let m: u64 = 0x1_0000_0000;
    let t: u64 = (to as u64) % m;
    let f: u64 = ((from as u64) % m + 5) % m;
    let d64: u64 = (t + m - f) % m;
    proof {
        lemma_rel32_displacement_math(from as int, to as int);
        assert(d64 < m);
    }
    d64 as u32
}

/// The u64 computation in `rel32_displacement` equals the specification's
/// modular displacement.
proof fn lemma_rel32_displacement_math(from: int, to: int)
    requires
        0 <= from,
        0 <= to,
    ensures
        ((to % rel32_space()) + rel32_space() - (((from % rel32_space()) + 5) % rel32_space()))
            % rel32_space() == (to - (from + 5)) % rel32_space(),
{
    let m = rel32_space();
    let t = to % m;
    let f = ((from % m) + 5) % m;
    lemma_mod_bound(to, m);
    lemma_mod_bound((from % m) + 5, m);
    lemma_mod_bound(from, m);
    // f == (from + 5) % m
    lemma_fundamental_div_mod(from, m);
    lemma_mod_multiples_vanish(from / m, (from % m) + 5, m);
    assert(m * (from / m) + ((from % m) + 5) == from + 5);
    assert(f == (from + 5) % m);
    // t + m - f differs from to - (from + 5) by a multiple of m.
    lemma_fundamental_div_mod(to, m);
    lemma_fundamental_div_mod(from + 5, m);
    let a = to / m;
    let b = (from + 5) / m;
    let k = b - a + 1;
    assert(t == to - m * a);
    assert(f == (from + 5) - m * b);
    assert(t + m - f == m * k + (to - (from + 5))) by (nonlinear_arith)
        requires
            t == to - m * a,
            f == (from + 5) - m * b,
            k == b - a + 1,
    ;
    lemma_mod_multiples_vanish(k, to - (from + 5), m);
}

/// Emits a five-byte `JMP rel32` that transfers control from the patched
/// instruction at `addr` to `dst`.
pub fn make_jmp_rel32(addr: usize, dst: usize) -> (r: Vec<u8>)
    ensures
        r@ == jmp_rel32_bytes(addr, dst),
{
    let d = rel32_displacement(addr, dst);
    let mut r = u32_to_le_bytes(d);
    r.insert(0, 0xE9);
    proof {
        assert(r@ =~= jmp_rel32_bytes(addr, dst));
    }
    r
}

/// Emits a five-byte `CALL rel32` that calls `dst` from the patched
/// instruction at `addr`.
pub fn make_call_rel32(addr: usize, dst: usize) -> (r: Vec<u8>)
    ensures
        r@ == call_rel32_bytes(addr, dst),
{
    let d = rel32_displacement(addr, dst);
    let mut r = u32_to_le_bytes(d);
    r.insert(0, 0xE8);
    proof {
        assert(r@ =~= call_rel32_bytes(addr, dst));
    }
    r
}

/// Emits `MOV EAX, imm32`: redirects which constant the original code loads
/// without altering control flow.
pub fn mov_eax_instr(value: u32) -> (r: Vec<u8>)
    ensures
        r@ == seq![0xB8u8] + u32_le_bytes(value),
{
    let mut r = u32_to_le_bytes(value);
    r.insert(0, 0xB8);
    proof {
        assert(r@ =~= seq![0xB8u8] + u32_le_bytes(value));
    }
    r
}

/// Emits `MOV EDI, imm32`: redirects which constant the original code loads
/// into its string register.
pub fn mov_edi_instr(value: u32) -> (r: Vec<u8>)
    ensures
        r@ == seq![0xBFu8] + u32_le_bytes(value),
{
    let mut r = u32_to_le_bytes(value);
    r.insert(0, 0xBF);
    proof {
        assert(r@ =~= seq![0xBFu8] + u32_le_bytes(value));
    }
    r
}

/// Emits `PUSH imm32`: pushes a replacement pointer as a call argument.
pub fn push_instr(value: u32) -> (r: Vec<u8>)
    ensures
        r@ == seq![0x68u8] + u32_le_bytes(value),
{
    let mut r = u32_to_le_bytes(value);
    r.insert(0, 0x68);
    proof {
        assert(r@ =~= seq![0x68u8] + u32_le_bytes(value));
    }
    r
}

/// Decoding the four little-endian bytes of a value gives the value back.
pub proof fn lemma_le_round_trip(v: u32)
    ensures
        le_u32_value(u32_le_bytes(v)) == v,
{
    let x = v as int;
    lemma_fundamental_div_mod(x, 256);
    lemma_fundamental_div_mod(x / 256, 256);
    lemma_fundamental_div_mod(x / 256 / 256, 256);
    assert(x / 256 / 256 == x / 0x10000) by (nonlinear_arith);
    assert(x / 256 / 256 / 256 == x / 0x1000000) by (nonlinear_arith);
    assert(x / 0x1000000 < 256);
    lemma_small_mod((x / 0x1000000) as nat, 256);
}

/// Simulated execution of an encoded relative jump lands exactly on its
/// target: the address after the five-byte instruction plus the decoded
/// displacement equals `to`, modulo 2^32, for `from` and `to` anywhere in
/// the address range, negative displacements included. A relative call
/// transfers control the same way.
pub proof fn lemma_relative_jump_lands(from: usize, to: usize)
    ensures
        jmp_rel32_bytes(from, to).len() == 5,
        jmp_rel32_bytes(from, to)[0] == 0xE9,
        call_rel32_bytes(from, to).len() == 5,
        call_rel32_bytes(from, to)[0] == 0xE8,
        (from + 5 + le_u32_value(jmp_rel32_bytes(from, to).subrange(1, 5))) % rel32_space() == (
        to as int) % rel32_space(),
        call_rel32_bytes(from, to).subrange(1, 5) == jmp_rel32_bytes(from, to).subrange(1, 5),
{
    let m = rel32_space();
    let d = rel32_disp(from, to);
    lemma_mod_bound(to - (from + 5), m);
    lemma_le_round_trip(d as u32);
    assert(jmp_rel32_bytes(from, to).subrange(1, 5) =~= u32_le_bytes(d as u32));
    assert(call_rel32_bytes(from, to).subrange(1, 5) =~= u32_le_bytes(d as u32));
    // from + 5 + d differs from to by a multiple of m.
    lemma_fundamental_div_mod(to - (from + 5), m);
    let q = (to - (from + 5)) / m;
    lemma_mod_multiples_vanish(q, from + 5 + d, m);
    assert(m * q + (from + 5 + d) == to);
}

} // verus!
