use seccomp_tiny::abi::{
    SockFilter, SockFilterProg, BPF_ABS, BPF_JA, BPF_JEQ, BPF_JMP, BPF_K, BPF_LD, BPF_MAXINSNS,
    BPF_RET, BPF_ST, BPF_W, SECCOMP_RET_ALLOW, SECCOMP_RET_KILL_PROCESS, SECCOMP_RET_TRACE,
};
use seccomp_tiny::bpf::{imm, jump, jump_always, load, ret, stmt, store};
use seccomp_tiny::seccomp::activation_result;
use seccomp_tiny::{BufferError, ProgramBuffer};

const JEQ: u16 = BPF_JMP + BPF_JEQ + BPF_K;

fn full_buffer() -> ProgramBuffer {
    let mut p = ProgramBuffer::new();
    for i in 0..BPF_MAXINSNS {
        p.inst(imm(i as u32));
    }
    p
}

#[test]
fn encoders_give_exact_records() {
    assert_eq!(stmt(0x15, 7), SockFilter { code: 0x15, jt: 0, jf: 0, k: 7 });
    assert_eq!(jump(JEQ, 9, 3, 4), SockFilter { code: 0x15, jt: 3, jf: 4, k: 9 });
    assert_eq!(jump_always(12), SockFilter { code: 0x05, jt: 0, jf: 0, k: 12 });
    assert_eq!(imm(0xdead), SockFilter { code: 0x00, jt: 0, jf: 0, k: 0xdead });
    assert_eq!(ret(SECCOMP_RET_ALLOW), SockFilter { code: 0x06, jt: 0, jf: 0, k: 0x7fff0000 });
    assert_eq!(load(4), SockFilter { code: BPF_LD + BPF_W + BPF_ABS, jt: 0, jf: 0, k: 4 });
    assert_eq!(load(4).code, 0x20);
    assert_eq!(store(2), SockFilter { code: BPF_ST, jt: 0, jf: 0, k: 2 });
}

#[test]
fn offsets_keep_their_low_32_bits() {
    assert_eq!(load(0x1_0000_0010).k, 0x10);
    assert_eq!(store(0x2_0000_0003).k, 3);
}

#[test]
fn jump_fields_round_trip() {
    for &(code, k, jt, jf) in &[(0u16, 0u32, 0u8, 0u8), (0xffff, 0xffff_ffff, 255, 255), (JEQ, 42, 1, 200)] {
        let j = jump(code, k, jt, jf);
        assert_eq!((j.code, j.k, j.jt, j.jf), (code, k, jt, jf));
        let s = stmt(code, k);
        assert_eq!((s.code, s.k, s.jt, s.jf), (code, k, 0, 0));
    }
}

#[test]
fn new_buffer_is_empty() {
    let p = ProgramBuffer::new();
    assert_eq!(p.instructions().len(), 0);
}

#[test]
fn single_return_allow() {
    let mut p = ProgramBuffer::new();
    p.inst(ret(SECCOMP_RET_ALLOW));
    assert_eq!(p.instructions().len(), 1);
    assert_eq!(p.instructions()[0], stmt(BPF_RET + BPF_K, SECCOMP_RET_ALLOW));
}

#[test]
fn appends_keep_count_and_order() {
    let mut p = ProgramBuffer::new();
    let mut expected = Vec::new();
    for i in 0..10u32 {
        let insn = jump(i as u16, i * 3, i as u8, 9 - i as u8);
        p.inst(insn);
        expected.push(insn);
    }
    let tail = [ret(1), load(8), store(3)];
    p.block(&tail);
    expected.extend_from_slice(&tail);
    assert_eq!(p.instructions(), &expected[..]);
}

#[test]
fn buffer_fills_to_the_limit() {
    let p = full_buffer();
    assert_eq!(p.instructions().len(), 4096);
    assert_eq!(p.instructions()[4095], imm(4095));
}

#[test]
fn append_to_full_buffer_is_rejected() {
    let mut p = full_buffer();
    assert_eq!(p.try_inst(ret(SECCOMP_RET_ALLOW)), Err(BufferError::Full));
    assert_eq!(p.instructions().len(), 4096);
    assert_eq!(p.instructions()[4095], imm(4095));
}

#[test]
fn checked_append_below_the_limit() {
    let mut p = ProgramBuffer::new();
    assert_eq!(p.try_inst(ret(SECCOMP_RET_TRACE)), Ok(()));
    assert_eq!(p.instructions(), &[ret(SECCOMP_RET_TRACE)][..]);
}

#[test]
fn checked_block_is_all_or_nothing() {
    let mut p = ProgramBuffer::new();
    for i in 0..4094u32 {
        p.inst(imm(i));
    }
    let three = [ret(1), ret(2), ret(3)];
    assert_eq!(p.try_block(&three), Err(BufferError::Full));
    assert_eq!(p.instructions().len(), 4094);
    assert_eq!(p.try_block(&three[..2]), Ok(()));
    assert_eq!(p.instructions().len(), 4096);
    assert_eq!(&p.instructions()[4094..], &three[..2]);
}

#[test]
fn if_eq_skips_block_on_mismatch() {
    let mut p = ProgramBuffer::new();
    let block = [load(16), ret(SECCOMP_RET_KILL_PROCESS), ret(SECCOMP_RET_ALLOW)];
    p.if_eq(59, &block);
    let code = p.instructions();
    assert_eq!(code.len(), 4);
    assert_eq!(code[0], jump(JEQ, 59, 0, 3));
    assert_eq!(&code[1..], &block[..]);
}

#[test]
fn if_eq_with_empty_block() {
    let mut p = ProgramBuffer::new();
    p.if_eq(1, &[]);
    assert_eq!(p.instructions(), &[jump(JEQ, 1, 0, 0)][..]);
}

#[test]
fn if_eq_with_longest_block() {
    let mut p = ProgramBuffer::new();
    let block = [imm(5); 255];
    p.if_eq(3, &block);
    assert_eq!(p.instructions().len(), 256);
    assert_eq!(p.instructions()[0].jf, 255);
    assert_eq!(p.instructions()[0].jt, 0);
}

#[test]
fn if_any_eq_two_values() {
    let mut p = ProgramBuffer::new();
    p.if_any_eq(&[10, 35], &[ret(SECCOMP_RET_KILL_PROCESS)]);
    p.inst(ret(SECCOMP_RET_ALLOW));
    let expected = [
        jump(JEQ, 10, 2, 0),
        jump(JEQ, 35, 1, 0),
        jump_always(1),
        ret(SECCOMP_RET_KILL_PROCESS),
        ret(SECCOMP_RET_ALLOW),
    ];
    assert_eq!(p.instructions(), &expected[..]);
}

#[test]
fn if_any_eq_matches_land_on_block() {
    let values = [1usize, 2, 3, 4, 5, 6, 7];
    let block = [load(0), load(4), ret(0)];
    let mut p = ProgramBuffer::new();
    p.if_any_eq(&values, &block);
    let code = p.instructions();
    let m = values.len();
    assert_eq!(code.len(), m + block.len() + 1);
    for i in 0..m {
        assert_eq!(code[i], jump(JEQ, values[i] as u32, (m - i) as u8, 0));
        assert_eq!(i + 1 + code[i].jt as usize, m + 1);
    }
    assert_eq!(code[m], stmt(BPF_JMP + BPF_JA, 3));
    assert_eq!(&code[m + 1..], &block[..]);
}

#[test]
fn if_any_eq_without_values() {
    let mut p = ProgramBuffer::new();
    p.if_any_eq(&[], &[ret(0), ret(1)]);
    assert_eq!(p.instructions(), &[jump_always(2), ret(0), ret(1)][..]);
}

#[test]
fn if_any_eq_with_longest_list() {
    let values = [9usize; 255];
    let mut p = ProgramBuffer::new();
    p.if_any_eq(&values, &[ret(0)]);
    let code = p.instructions();
    assert_eq!(code.len(), 257);
    assert_eq!(code[0].jt, 255);
    assert_eq!(code[254].jt, 1);
    assert_eq!(code[255], jump_always(1));
}

#[test]
fn checked_if_eq_rejects_long_block() {
    let mut p = ProgramBuffer::new();
    let block = [ret(0); 256];
    assert_eq!(p.try_if_eq(1, &block), Err(BufferError::JumpOutOfRange));
    assert_eq!(p.instructions().len(), 0);
    assert_eq!(p.try_if_eq(1, &block[..255]), Ok(()));
    assert_eq!(p.instructions().len(), 256);
}

#[test]
fn checked_if_eq_rejects_when_full() {
    let mut p = ProgramBuffer::new();
    for i in 0..4094u32 {
        p.inst(imm(i));
    }
    assert_eq!(p.try_if_eq(1, &[ret(0), ret(1)]), Err(BufferError::Full));
    assert_eq!(p.instructions().len(), 4094);
    assert_eq!(p.try_if_eq(1, &[ret(0)]), Ok(()));
    assert_eq!(p.instructions().len(), 4096);
}

#[test]
fn checked_if_any_eq_rejects_long_inputs() {
    let mut p = ProgramBuffer::new();
    let many = [1usize; 256];
    let long_block = [ret(0); 256];
    assert_eq!(p.try_if_any_eq(&many, &[ret(0)]), Err(BufferError::JumpOutOfRange));
    assert_eq!(p.try_if_any_eq(&[1], &long_block), Err(BufferError::JumpOutOfRange));
    assert_eq!(p.instructions().len(), 0);
    assert_eq!(p.try_if_any_eq(&many[..255], &long_block[..255]), Ok(()));
    assert_eq!(p.instructions().len(), 511);
}

#[test]
fn checked_if_any_eq_rejects_when_full() {
    let mut p = ProgramBuffer::new();
    for i in 0..4093u32 {
        p.inst(imm(i));
    }
    assert_eq!(p.try_if_any_eq(&[1, 2], &[ret(0)]), Err(BufferError::Full));
    assert_eq!(p.instructions().len(), 4093);
    assert_eq!(p.try_if_any_eq(&[1], &[ret(0)]), Ok(()));
    assert_eq!(p.instructions().len(), 4096);
}

#[test]
fn clone_keeps_contents() {
    let mut p = ProgramBuffer::new();
    p.if_eq(3, &[ret(1)]);
    let q = p.clone();
    assert!(q == p);
    assert_eq!(q.instructions(), p.instructions());
}

#[test]
fn program_descriptor_covers_instructions() {
    let mut p = ProgramBuffer::new();
    p.if_any_eq(&[1, 2, 3], &[ret(SECCOMP_RET_ALLOW)]);
    let prog = SockFilterProg::new(p.instructions());
    assert_eq!(prog.len, 5);
    assert_eq!(prog.filter, p.instructions());
    let full = full_buffer();
    assert_eq!(SockFilterProg::new(full.instructions()).len, 4096);
}

#[test]
fn activation_result_reads_kernel_answer() {
    assert_eq!(activation_result(0), Ok(()));
    assert_eq!(activation_result(-22), Err(-22));
    assert_eq!(activation_result(-1), Err(-1));
    assert_eq!(activation_result(13), Err(13));
}
