//! Laws of the instruction engine, proved once and for all from the cycle
//! relation: flag rules shared by whole instruction families, operand byte
//! order, and the stack's push/pop consistency.
use crate::cpu::{I8080, Outcome, Registers};
use crate::isa::{
    cond_holds, cycle_rel, is_cond_jump, is_dcr, is_inr, is_lxi, lemma_split_join, op_cond, op_dst,
    op_src, opcode_at, operand, spec_add_flags, spec_add_res, spec_sub_flags, spec_sub_res,
    src_value, wrap16, wrap8_dec, wrap8_inc,
};
use crate::utils::{spec_even_parity, spec_merge};
use vstd::prelude::*;

verus! {

/// For every increment instruction: the Carry flag is unaffected, and Zero,
/// Sign, Parity and Auxiliary Carry are recomputed by the shared flag rules
/// applied to the incremented value.
pub proof fn lemma_inr_flag_rules(pre: I8080, post: I8080, r: Outcome)
    requires
        pre.wf(),
        is_inr(opcode_at(pre)),
        cycle_rel(pre, post, r),
    ensures
        r == Outcome::Normal,
        post.flags.C == pre.flags.C,
        post.flags.Z == (wrap8_inc(src_value(pre, op_dst(opcode_at(pre)))) == 0),
        post.flags.S == (wrap8_inc(src_value(pre, op_dst(opcode_at(pre)))) & 0x80 != 0),
        post.flags.P == spec_even_parity(wrap8_inc(src_value(pre, op_dst(opcode_at(pre))))),
        post.flags.AC == ((src_value(pre, op_dst(opcode_at(pre))) & 0xf) + 1 > 0xf),
{
}

/// For every decrement instruction: the Carry flag is likewise unaffected,
/// and the other four follow the shared rules applied to the decremented
/// value, with the nibble borrow as Auxiliary Carry.
pub proof fn lemma_dcr_flag_rules(pre: I8080, post: I8080, r: Outcome)
    requires
        pre.wf(),
        is_dcr(opcode_at(pre)),
        cycle_rel(pre, post, r),
    ensures
        r == Outcome::Normal,
        post.flags.C == pre.flags.C,
        post.flags.Z == (wrap8_dec(src_value(pre, op_dst(opcode_at(pre)))) == 0),
        post.flags.S == (wrap8_dec(src_value(pre, op_dst(opcode_at(pre)))) & 0x80 != 0),
        post.flags.P == spec_even_parity(wrap8_dec(src_value(pre, op_dst(opcode_at(pre))))),
        post.flags.AC == ((src_value(pre, op_dst(opcode_at(pre))) & 0xf) == 0),
{
}

/// The opcodes that perform an 8-bit addition into the accumulator.
pub open spec fn is_addition(op: u8) -> bool {
    (0x80 <= op && op <= 0x8f) || op == 0xc6 || op == 0xce
}

/// The addend of an addition: the operand-table slot for the register
/// forms, the immediate byte for ADI and ACI.
pub open spec fn addition_operand(pre: I8080) -> u8 {
    if 0x80 <= opcode_at(pre) && opcode_at(pre) <= 0x8f {
        src_value(pre, op_src(opcode_at(pre)))
    } else {
        operand(pre, 1)
    }
}

/// The carry-in of an addition: 1 for the with-carry forms when Carry is
/// set, otherwise 0.
pub open spec fn addition_carry_in(pre: I8080) -> int {
    if ((0x88 <= opcode_at(pre) && opcode_at(pre) <= 0x8f) || opcode_at(pre) == 0xce)
        && pre.flags.C {
        1
    } else {
        0
    }
}

/// For every 8-bit addition: the accumulator receives the truncated sum;
/// Zero holds exactly when that result byte is 0, Carry exactly when the
/// unclamped sum exceeds 255, and Parity exactly when the number of set
/// bits in the result is even.
pub proof fn lemma_addition_flag_rules(pre: I8080, post: I8080, r: Outcome)
    requires
        pre.wf(),
        is_addition(opcode_at(pre)),
        cycle_rel(pre, post, r),
    ensures
        r == Outcome::Normal,
        post.registers.A == spec_add_res(pre.registers.A, addition_operand(pre), addition_carry_in(pre)),
        post.flags == spec_add_flags(pre.registers.A, addition_operand(pre), addition_carry_in(pre)),
        post.flags.Z == (post.registers.A == 0),
        post.flags.C == (pre.registers.A + addition_operand(pre) + addition_carry_in(pre) > 255),
        post.flags.P == spec_even_parity(post.registers.A),
{
}

/// The opcodes that perform an 8-bit subtraction from the accumulator.
pub open spec fn is_subtraction(op: u8) -> bool {
    (0x90 <= op && op <= 0x9f) || op == 0xd6 || op == 0xde
}

/// The subtrahend of a subtraction: the operand-table slot for the register
/// forms, the immediate byte for SUI and SBI.
pub open spec fn subtraction_operand(pre: I8080) -> u8 {
    if 0x90 <= opcode_at(pre) && opcode_at(pre) <= 0x9f {
        src_value(pre, op_src(opcode_at(pre)))
    } else {
        operand(pre, 1)
    }
}

/// The borrow-in of a subtraction: 1 for the with-borrow forms when Carry
/// is set, otherwise 0.
pub open spec fn subtraction_borrow_in(pre: I8080) -> int {
    if ((0x98 <= opcode_at(pre) && opcode_at(pre) <= 0x9f) || opcode_at(pre) == 0xde)
        && pre.flags.C {
        1
    } else {
        0
    }
}

/// For every 8-bit subtraction, addition's rules hold with borrow in place
/// of carry: the accumulator receives the truncated difference; Zero holds
/// exactly when that result byte is 0, Carry exactly when the subtrahend
/// (with the borrow) exceeds the accumulator, and Parity exactly when the
/// number of set bits in the result is even.
pub proof fn lemma_subtraction_flag_rules(pre: I8080, post: I8080, r: Outcome)
    requires
        pre.wf(),
        is_subtraction(opcode_at(pre)),
        cycle_rel(pre, post, r),
    ensures
        r == Outcome::Normal,
        post.registers.A == spec_sub_res(
            pre.registers.A,
            subtraction_operand(pre),
            subtraction_borrow_in(pre),
        ),
        post.flags == spec_sub_flags(
            pre.registers.A,
            subtraction_operand(pre),
            subtraction_borrow_in(pre),
        ),
        post.flags.Z == (post.registers.A == 0),
        post.flags.C == (subtraction_operand(pre) + subtraction_borrow_in(pre) > pre.registers.A),
        post.flags.P == spec_even_parity(post.registers.A),
{
}

/// A register-pair load takes its 16-bit immediate in little-endian order:
/// the byte right after the opcode lands in the low-order register, the next
/// one in the high-order register (for SP, their merge); nothing else moves.
pub proof fn lemma_lxi_little_endian(pre: I8080, post: I8080, r: Outcome)
    requires
        pre.wf(),
        is_lxi(opcode_at(pre)),
        cycle_rel(pre, post, r),
    ensures
        r == Outcome::Normal,
        opcode_at(pre) == 0x01 ==> post.registers.C == operand(pre, 1) && post.registers.B
            == operand(pre, 2),
        opcode_at(pre) == 0x11 ==> post.registers.E == operand(pre, 1) && post.registers.D
            == operand(pre, 2),
        opcode_at(pre) == 0x21 ==> post.registers.L == operand(pre, 1) && post.registers.H
            == operand(pre, 2),
        opcode_at(pre) == 0x31 ==> post.registers.SP == spec_merge(operand(pre, 2), operand(pre, 1)),
        post.flags == pre.flags,
        post.memory@ == pre.memory@,
{
    assert(((0x01u8 >> 4) & 3) == 0 && ((0x11u8 >> 4) & 3) == 1 && ((0x21u8 >> 4) & 3) == 2 && ((
    0x31u8 >> 4) & 3) == 3) by (bit_vector);
}

/// A move never alters a flag.
pub proof fn lemma_mov_preserves_flags(pre: I8080, post: I8080, r: Outcome)
    requires
        pre.wf(),
        0x40 <= opcode_at(pre) < 0x80,
        opcode_at(pre) != 0x76,
        cycle_rel(pre, post, r),
    ensures
        r == Outcome::Normal,
        post.flags == pre.flags,
{
}

/// A conditional jump whose condition does not hold advances the program
/// counter by exactly three — the opcode and its two operand bytes — and
/// performs no other state change.
pub proof fn lemma_cond_jump_not_taken(pre: I8080, post: I8080, r: Outcome)
    requires
        pre.wf(),
        is_cond_jump(opcode_at(pre)),
        !cond_holds(pre.flags, op_cond(opcode_at(pre))),
        cycle_rel(pre, post, r),
    ensures
        r == Outcome::Normal,
        post.registers == (Registers { PC: wrap16(pre.registers.PC + 3), ..pre.registers }),
        post.flags == pre.flags,
        post.memory@ == pre.memory@,
{
}

/// A call followed at its target by a return restores the program counter
/// to the instruction after the call and the stack pointer to its value
/// before the call: the byte order of the push is the exact inverse of the
/// pop.
/// The engine is deterministic: from one state, a cycle can end in only one
/// machine state and one outcome.
#[verifier::rlimit(100)]
#[verifier::spinoff_prover]
pub proof fn lemma_cycle_deterministic(
    pre: I8080,
    post1: I8080,
    r1: Outcome,
    post2: I8080,
    r2: Outcome,
)
    requires
        pre.wf(),
        cycle_rel(pre, post1, r1),
        cycle_rel(pre, post2, r2),
    ensures
        post1.registers == post2.registers,
        post1.flags == post2.flags,
        post1.memory@ == post2.memory@,
        r1 == r2,
{
}

pub proof fn lemma_call_ret_round_trip(s0: I8080, s1: I8080, s2: I8080, r1: Outcome, r2: Outcome)
    requires
        s0.wf(),
        opcode_at(s0) == 0xcd,
        s0.registers.SP >= 2,
        cycle_rel(s0, s1, r1),
        opcode_at(s1) == 0xc9,
        cycle_rel(s1, s2, r2),
    ensures
        r1 == Outcome::Normal,
        r2 == Outcome::Normal,
        s2.registers.PC == wrap16(s0.registers.PC + 3),
        s2.registers.SP == s0.registers.SP,
{
    lemma_split_join(wrap16(s0.registers.PC + 3));
}

} // verus!
