//! Fixed-capacity buffer for seccomp BPF programs.
use vstd::prelude::*;
use vstd::slice::slice_subrange;
use crate::abi::{SockFilter, BPF_JA, BPF_JEQ, BPF_JMP, BPF_K, BPF_MAXINSNS, BPF_MAX_JUMP};
use crate::bpf::{jump, jump_always, spec_jump, spec_stmt};

verus! {

/// The operation code of the comparisons: jump if the accumulator equals `k`.
pub open spec fn jeq_code() -> u16 {
    (BPF_JMP + BPF_JEQ + BPF_K) as u16
}

/// What `if_eq(k, block)` appends: one comparison whose failing branch
/// skips the whole block, then the block.
pub open spec fn if_eq_code(k: usize, block: Seq<SockFilter>) -> Seq<SockFilter> {
    seq![spec_jump(jeq_code(), k as u32, 0, block.len() as u8)] + block
}

/// The comparisons of `if_any_eq`: the one at index `i` tests `ks[i]`, and
/// on a match skips the `ks.len() - 1 - i` comparisons after it and the
/// jump that follows them, landing on the first instruction of the block.
pub open spec fn comparisons(ks: Seq<usize>) -> Seq<SockFilter> {
    Seq::new(ks.len(), |i: int| spec_jump(jeq_code(), ks[i] as u32, (ks.len() - i) as u8, 0))
}

/// What `if_any_eq(ks, block)` appends: the comparisons, a jump over the
/// block for the case that none matched, then the block.
pub open spec fn if_any_eq_code(ks: Seq<usize>, block: Seq<SockFilter>) -> Seq<SockFilter> {
    comparisons(ks) + seq![spec_stmt((BPF_JMP + BPF_JA) as u16, block.len() as u32)] + block
}

/// Why a checked append was refused. The buffer is left unchanged.
#[derive(Debug, Clone, Copy, PartialEq, Eq, Structural)]
pub enum BufferError {
    /// The instructions would not fit in the buffer.
    Full,
    /// A block or a list of values is longer than an 8-bit jump can skip.
    JumpOutOfRange,
}

/// `if_eq` of a block of `N` instructions appends `N + 1` of them: the
/// comparison, whose jump on a match is 0 and whose jump on a mismatch is
/// `N`, and then the block unchanged.
pub proof fn lemma_if_eq_shape(k: usize, block: Seq<SockFilter>)
    requires
        block.len() <= BPF_MAX_JUMP,
    ensures
        if_eq_code(k, block).len() == block.len() + 1,
        if_eq_code(k, block)[0].code == jeq_code(),
        if_eq_code(k, block)[0].k == k as u32,
        if_eq_code(k, block)[0].jt == 0,
        if_eq_code(k, block)[0].jf == block.len(),
        if_eq_code(k, block).subrange(1, block.len() + 1 as int) == block,
{
    assert(if_eq_code(k, block).subrange(1, block.len() + 1 as int) =~= block);
}

/// `if_any_eq` of `M` values and a block of `N` instructions appends
/// `M + N + 1` of them. The comparison at index `i` tests the `i`-th value,
/// never jumps on a mismatch, and on a match jumps `M - i` forward, which
/// lands on the first instruction of the block. After the comparisons
/// stands a jump of `N`, which lands just past the block, and then the
/// block unchanged.
pub proof fn lemma_if_any_eq_shape(ks: Seq<usize>, block: Seq<SockFilter>)
    requires
        ks.len() <= BPF_MAX_JUMP,
        block.len() <= BPF_MAX_JUMP,
    ensures
        if_any_eq_code(ks, block).len() == ks.len() + block.len() + 1,
        forall|i: int|
            0 <= i < ks.len() ==> {
                let c = #[trigger] if_any_eq_code(ks, block)[i];
                &&& c.code == jeq_code()
                &&& c.k == ks[i] as u32
                &&& c.jt == ks.len() - i
                &&& c.jf == 0
                &&& i + 1 + c.jt == ks.len() + 1
            },
        if_any_eq_code(ks, block)[ks.len() as int] == spec_stmt(
            (BPF_JMP + BPF_JA) as u16,
            block.len() as u32,
        ),
        ks.len() + 1 + if_any_eq_code(ks, block)[ks.len() as int].k == ks.len() + 1
            + block.len(),
        if_any_eq_code(ks, block).subrange(ks.len() + 1 as int, ks.len() + 1 + block.len() as int) == block,
{
    let code = if_any_eq_code(ks, block);
    assert(code.subrange(ks.len() + 1 as int, ks.len() + 1 + block.len() as int) =~= block);
}

/// Fixed size buffer for building seccomp BPF programs
///
/// Like a `Vec<SockFilter>` that never allocates: a BPF program is at most
/// 4096 instructions long, so the buffer holds an array of that size and
/// the count of its slots in use. Instructions are only ever appended.
#[derive(PartialEq, Eq)]
pub struct ProgramBuffer {
    len: u16,
    array: [SockFilter; BPF_MAXINSNS],
}

impl View for ProgramBuffer {
    type V = Seq<SockFilter>;

    /// The instructions appended so far, in order.
    closed spec fn view(&self) -> Seq<SockFilter> {
        self.array@.subrange(0, self.len as int)
    }
}

impl Clone for ProgramBuffer {
    fn clone(&self) -> (r: Self)
        ensures
            r == *self,
    {
        ProgramBuffer { len: self.len, array: self.array }
    }
}

impl ProgramBuffer {
    /// The count of instructions never exceeds the kernel's limit.
    pub closed spec fn wf(&self) -> bool {
        self.len as usize <= BPF_MAXINSNS
    }

    /// Construct a new empty ProgramBuffer
    pub fn new() -> (r: Self)
        ensures
            r.wf(),
            r@ == Seq::<SockFilter>::empty(),
    {
        let empty = SockFilter { code: 0, k: 0, jt: 0, jf: 0 };
        let r = ProgramBuffer { len: 0, array: [empty; BPF_MAXINSNS] };
        proof {
            assert(r@ =~= Seq::<SockFilter>::empty());
        }
        r
    }

    /// Returns a slice referring to all instructions added to the buffer
    pub fn instructions(&self) -> (r: &[SockFilter])
        requires
            self.wf(),
        ensures
            r@ == self@,
            r@.len() <= BPF_MAXINSNS,
    {
        slice_subrange(self.array.as_slice(), 0, self.len as usize)
    }

    /// Copy an instruction to the end of the buffer
    ///
    /// The buffer must not be full.
    pub fn inst(&mut self, instruction: SockFilter)
        requires
            old(self).wf(),
            old(self)@.len() < BPF_MAXINSNS,
        ensures
            final(self).wf(),
            final(self)@ == old(self)@.push(instruction),
    {
        let i = self.len as usize;
        self.array[i] = instruction;
        self.len = self.len + 1;
        proof {
            assert(self@ =~= old(self)@.push(instruction));
        }
    }

    /// Copy a sequence of instructions to the end of the buffer
    ///
    /// The buffer must have room for all of them.
    pub fn block(&mut self, block: &[SockFilter])
        requires
            old(self).wf(),
            old(self)@.len() + block@.len() <= BPF_MAXINSNS,
        ensures
            final(self).wf(),
            final(self)@ == old(self)@ + block@,
    {
        let mut i: usize = 0;
        while i < block.len()
            invariant
                self.wf(),
                0 <= i <= block@.len(),
                old(self)@.len() + block@.len() <= BPF_MAXINSNS,
                self@ == old(self)@ + block@.subrange(0, i as int),
            decreases block@.len() - i,
        {
            self.inst(block[i]);
            i = i + 1;
            proof {
                assert(old(self)@ + block@.subrange(0, i as int) =~= old(self)@ + block@.subrange(
                    0,
                    i - 1,
                ) + seq![block@[i - 1]]);
            }
        }
        proof {
            assert(block@.subrange(0, block@.len() as int) =~= block@);
        }
    }
    /// Build a conditional instruction block
    ///
    /// Appends a comparison and then `block`, so that the block runs when
    /// the accumulator equals `k` (its low 32 bits) and is skipped otherwise.
    /// The block must be short enough to jump past at once, and the buffer
    /// must have room for the comparison and the block.
    pub fn if_eq(&mut self, k: usize, block: &[SockFilter])
        requires
            old(self).wf(),
            block@.len() <= BPF_MAX_JUMP,
            old(self)@.len() + block@.len() + 1 <= BPF_MAXINSNS,
        ensures
            final(self).wf(),
            final(self)@ == old(self)@ + if_eq_code(k, block@),
    {
        let to_end_of_block = block.len() as u8;
        self.inst(jump(BPF_JMP + BPF_JEQ + BPF_K, k as u32, 0, to_end_of_block));
        self.block(block);
        proof {
            assert(self@ =~= old(self)@ + if_eq_code(k, block@));
        }
    }

    /// Build a conditional block that checks multiple values
    ///
    /// Like a call of `if_eq` for each value, but the block is appended
    /// once: one comparison per value of `k_list`, in order, then a jump
    /// that skips the block when none of them matched, then the block.
    /// Both the list and the block must be short enough to jump past at
    /// once, and the buffer must have room for all of it.
    pub fn if_any_eq(&mut self, k_list: &[usize], block: &[SockFilter])
        requires
            old(self).wf(),
            k_list@.len() <= BPF_MAX_JUMP,
            block@.len() <= BPF_MAX_JUMP,
            old(self)@.len() + k_list@.len() + 1 + block@.len() <= BPF_MAXINSNS,
        ensures
            final(self).wf(),
            final(self)@ == old(self)@ + if_any_eq_code(k_list@, block@),
    {
        let mut to_block: u8 = k_list.len() as u8;
        let mut i: usize = 0;
        while i < k_list.len()
            invariant
                self.wf(),
                0 <= i <= k_list@.len(),
                k_list@.len() <= BPF_MAX_JUMP,
                to_block == k_list@.len() - i,
                old(self)@.len() + k_list@.len() + 1 + block@.len() <= BPF_MAXINSNS,
                self@ == old(self)@ + comparisons(k_list@).subrange(0, i as int),
            decreases k_list@.len() - i,
        {
            self.inst(jump(BPF_JMP + BPF_JEQ + BPF_K, k_list[i] as u32, to_block, 0));
            to_block = to_block - 1;
            i = i + 1;
            proof {
                assert(comparisons(k_list@).subrange(0, i as int) =~= comparisons(k_list@).subrange(
                    0,
                    i - 1,
                ).push(comparisons(k_list@)[i - 1]));
            }
        }
        self.inst(jump_always(block.len() as u32));
        self.block(block);
        proof {
            assert(comparisons(k_list@).subrange(0, k_list@.len() as int) =~= comparisons(k_list@));
            assert(self@ =~= old(self)@ + if_any_eq_code(k_list@, block@));
        }
    }
    /// Append an instruction, or report that the buffer is full.
    pub fn try_inst(&mut self, instruction: SockFilter) -> (r: Result<(), BufferError>)
        requires
            old(self).wf(),
        ensures
            final(self).wf(),
            r is Ok <==> old(self)@.len() < BPF_MAXINSNS,
            r is Ok ==> final(self)@ == old(self)@.push(instruction),
            r is Err ==> r == Err::<(), BufferError>(BufferError::Full) && final(self)@ == old(
                self,
            )@,
    {
        if self.len as usize == BPF_MAXINSNS {
            return Err(BufferError::Full);
        }
        self.inst(instruction);
        Ok(())
    }

    /// Append a sequence of instructions, or report that they do not all
    /// fit; then nothing is appended.
    pub fn try_block(&mut self, block: &[SockFilter]) -> (r: Result<(), BufferError>)
        requires
            old(self).wf(),
        ensures
            final(self).wf(),
            r is Ok <==> old(self)@.len() + block@.len() <= BPF_MAXINSNS,
            r is Ok ==> final(self)@ == old(self)@ + block@,
            r is Err ==> r == Err::<(), BufferError>(BufferError::Full) && final(self)@ == old(
                self,
            )@,
    {
        if block.len() > BPF_MAXINSNS - self.len as usize {
            return Err(BufferError::Full);
        }
        self.block(block);
        Ok(())
    }

    /// Checked form of `if_eq`: reports a block too long to jump past, or
    /// a buffer without room, and then appends nothing.
    pub fn try_if_eq(&mut self, k: usize, block: &[SockFilter]) -> (r: Result<(), BufferError>)
        requires
            old(self).wf(),
        ensures
            final(self).wf(),
            r == Err::<(), BufferError>(BufferError::JumpOutOfRange) <==> block@.len()
                > BPF_MAX_JUMP,
            r == Err::<(), BufferError>(BufferError::Full) <==> block@.len() <= BPF_MAX_JUMP
                && old(self)@.len() + block@.len() + 1 > BPF_MAXINSNS,
            r is Ok ==> final(self)@ == old(self)@ + if_eq_code(k, block@),
            r is Err ==> final(self)@ == old(self)@,
    {
        if block.len() > BPF_MAX_JUMP {
            return Err(BufferError::JumpOutOfRange);
        }
        if block.len() >= BPF_MAXINSNS - self.len as usize {
            return Err(BufferError::Full);
        }
        self.if_eq(k, block);
        Ok(())
    }

    /// Checked form of `if_any_eq`: reports a list of values or a block too
    /// long to jump past, or a buffer without room, and then appends
    /// nothing.
    pub fn try_if_any_eq(&mut self, k_list: &[usize], block: &[SockFilter]) -> (r: Result<
        (),
        BufferError,
    >)
        requires
            old(self).wf(),
        ensures
            final(self).wf(),
            r == Err::<(), BufferError>(BufferError::JumpOutOfRange) <==> k_list@.len()
                > BPF_MAX_JUMP || block@.len() > BPF_MAX_JUMP,
            r == Err::<(), BufferError>(BufferError::Full) <==> k_list@.len() <= BPF_MAX_JUMP
                && block@.len() <= BPF_MAX_JUMP && old(self)@.len() + k_list@.len() + 1
                + block@.len() > BPF_MAXINSNS,
            r is Ok ==> final(self)@ == old(self)@ + if_any_eq_code(k_list@, block@),
            r is Err ==> final(self)@ == old(self)@,
    {
        if k_list.len() > BPF_MAX_JUMP || block.len() > BPF_MAX_JUMP {
            return Err(BufferError::JumpOutOfRange);
        }
        if k_list.len() + block.len() >= BPF_MAXINSNS - self.len as usize {
            return Err(BufferError::Full);
        }
        self.if_any_eq(k_list, block);
        Ok(())
    }
}

} // verus!
