//! BPF programming utilities
//! -------------------------
//!
//! Functions that build single instructions of classic BPF, the byte code
//! that seccomp runs to decide on each system call.
use vstd::prelude::*;
use crate::abi::{
    SockFilter, BPF_ABS, BPF_IMM, BPF_JA, BPF_JMP, BPF_K, BPF_LD, BPF_RET, BPF_ST, BPF_W,
};

verus! {

/// The instruction with operation `code`, operand `k` and jump distances
/// `jt` (taken when the test holds) and `jf` (taken when it fails).
pub open spec fn spec_jump(code: u16, k: u32, jt: u8, jf: u8) -> SockFilter {
    SockFilter { code, jt, jf, k }
}

/// An instruction that is not a conditional jump: both distances are zero.
pub open spec fn spec_stmt(code: u16, k: u32) -> SockFilter {
    spec_jump(code, k, 0, 0)
}

/// Reading back the four fields of an encoded instruction gives the values
/// it was built from, for every operation code, operand and pair of
/// distances.
pub proof fn lemma_jump_fields_round_trip(code: u16, k: u32, jt: u8, jf: u8)
    ensures
        spec_jump(code, k, jt, jf).code == code,
        spec_jump(code, k, jt, jf).k == k,
        spec_jump(code, k, jt, jf).jt == jt,
        spec_jump(code, k, jt, jf).jf == jf,
        spec_stmt(code, k).code == code,
        spec_stmt(code, k).k == k,
        spec_stmt(code, k).jt == 0,
        spec_stmt(code, k).jf == 0,
{
}

/// Build a BPF statement with one 32-bit parameter.
///
/// This suits every instruction but the conditional jumps, which have
/// jump distances of their own.
pub fn stmt(code: u16, k: u32) -> (r: SockFilter)
    ensures
        r == spec_stmt(code, k),
{
    SockFilter { code, k, jt: 0, jf: 0 }
}

/// Build any BPF instruction, conditional jumps included.
///
/// This is the same as building a `SockFilter` from its parts.
pub fn jump(code: u16, k: u32, jt: u8, jf: u8) -> (r: SockFilter)
    ensures
        r == spec_jump(code, k, jt, jf),
{
    SockFilter { code, k, jt, jf }
}

/// Build an unconditional jump.
///
/// BPF jumps only go forward, so there are no loops: `k` counts the
/// instructions to skip. Same as `stmt(BPF_JMP + BPF_JA, k)`.
pub fn jump_always(k: u32) -> (r: SockFilter)
    ensures
        r == spec_stmt((BPF_JMP + BPF_JA) as u16, k),
{
    stmt(BPF_JMP + BPF_JA, k)
}

/// Build an instruction that loads a 32-bit immediate into the accumulator.
///
/// Same as `stmt(BPF_LD + BPF_W + BPF_IMM, k)`.
pub fn imm(k: u32) -> (r: SockFilter)
    ensures
        r == spec_stmt((BPF_LD + BPF_W + BPF_IMM) as u16, k),
{
    stmt(BPF_LD + BPF_W + BPF_IMM, k)
}

/// Build an instruction that returns a 32-bit constant.
///
/// Same as `stmt(BPF_RET + BPF_K, k)`.
pub fn ret(k: u32) -> (r: SockFilter)
    ensures
        r == spec_stmt((BPF_RET + BPF_K) as u16, k),
{
    stmt(BPF_RET + BPF_K, k)
}

/// Build an instruction that loads a 32-bit value from a constant offset.
///
/// Same as `stmt(BPF_LD + BPF_W + BPF_ABS, k)`; the offset keeps its low
/// 32 bits.
pub fn load(k: usize) -> (r: SockFilter)
    ensures
        r == spec_stmt((BPF_LD + BPF_W + BPF_ABS) as u16, k as u32),
{
    stmt(BPF_LD + BPF_W + BPF_ABS, k as u32)
}

/// Build an instruction that stores a 32-bit value at a constant offset.
///
/// Same as `stmt(BPF_ST, k)`; the offset keeps its low 32 bits.
pub fn store(k: usize) -> (r: SockFilter)
    ensures
        r == spec_stmt(BPF_ST, k as u32),
{
    stmt(BPF_ST, k as u32)
}

} // verus!
