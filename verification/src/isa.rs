//! Specification model of the instruction set: what one fetch-decode-execute
//! cycle does to the machine, stated as a relation between the state before,
//! the state after, and the cycle's outcome.
use crate::cpu::{I8080, Outcome, Registers, StatusFlags};
use crate::utils::{spec_even_parity, spec_merge};
use vstd::prelude::*;

verus! {

/// A 16-bit quantity: addresses and the program counter wrap modulo 2^16.
pub open spec fn wrap16(x: int) -> u16 {
    (x % 0x10000) as u16
}

/// High byte of a 16-bit value.
pub open spec fn high_byte(x: u16) -> u8 {
    (x / 256) as u8
}

/// Low byte of a 16-bit value.
pub open spec fn low_byte(x: u16) -> u8 {
    (x % 256) as u8
}

/// An 8-bit value incremented, wrapping within the byte.
pub open spec fn wrap8_inc(v: u8) -> u8 {
    ((v + 1) % 256) as u8
}

/// An 8-bit value decremented, wrapping within the byte.
pub open spec fn wrap8_dec(v: u8) -> u8 {
    ((v + 255) % 256) as u8
}

/// The opcode byte: memory at the program counter.
pub open spec fn opcode_at(s: I8080) -> u8 {
    s.memory@[s.registers.PC as int]
}

/// The k-th byte after the opcode, the address reduced modulo 2^16.
pub open spec fn operand(s: I8080, k: int) -> u8 {
    s.memory@[wrap16(s.registers.PC + k) as int]
}

/// The 16-bit immediate following the opcode, fetched low byte first.
pub open spec fn imm16(s: I8080) -> u16 {
    spec_merge(operand(s, 2), operand(s, 1))
}

/// The 8-bit register selected by a 3-bit operand field. Slot 6, the
/// (HL)-memory slot, is not a register; see `src_value`.
pub open spec fn reg8(r: Registers, idx: u8) -> u8 {
    if idx == 0 {
        r.B
    } else if idx == 1 {
        r.C
    } else if idx == 2 {
        r.D
    } else if idx == 3 {
        r.E
    } else if idx == 4 {
        r.H
    } else if idx == 5 {
        r.L
    } else {
        r.A
    }
}

/// The register file with the register selected by `idx` replaced by `v`.
pub open spec fn regs_set(r: Registers, idx: u8, v: u8) -> Registers {
    if idx == 0 {
        (Registers { B: v, ..r })
    } else if idx == 1 {
        (Registers { C: v, ..r })
    } else if idx == 2 {
        (Registers { D: v, ..r })
    } else if idx == 3 {
        (Registers { E: v, ..r })
    } else if idx == 4 {
        (Registers { H: v, ..r })
    } else if idx == 5 {
        (Registers { L: v, ..r })
    } else {
        (Registers { A: v, ..r })
    }
}

/// The address held in the HL pair.
pub open spec fn hl_addr(s: I8080) -> int {
    spec_merge(s.registers.H, s.registers.L) as int
}

/// The value of an operand-table slot: one of the registers
/// {B, C, D, E, H, L, A}, or memory at HL for slot 6.
pub open spec fn src_value(s: I8080, idx: u8) -> u8 {
    if idx == 6 {
        s.memory@[hl_addr(s)]
    } else {
        reg8(s.registers, idx)
    }
}

/// The 16-bit value of a register pair: BC, DE, HL, or SP.
pub open spec fn pair_val(r: Registers, rp: u8) -> u16 {
    if rp == 0 {
        spec_merge(r.B, r.C)
    } else if rp == 1 {
        spec_merge(r.D, r.E)
    } else if rp == 2 {
        spec_merge(r.H, r.L)
    } else {
        r.SP
    }
}

/// The register file with the pair selected by `rp` replaced by `v`,
/// redistributed over the two constituent bytes (or written to SP whole).
pub open spec fn regs_set_pair(r: Registers, rp: u8, v: u16) -> Registers {
    if rp == 0 {
        (Registers { B: high_byte(v), C: low_byte(v), ..r })
    } else if rp == 1 {
        (Registers { D: high_byte(v), E: low_byte(v), ..r })
    } else if rp == 2 {
        (Registers { H: high_byte(v), L: low_byte(v), ..r })
    } else {
        (Registers { SP: v, ..r })
    }
}

/// Destination field of an opcode: bits 5-3.
pub open spec fn op_dst(op: u8) -> u8 {
    (op >> 3) & 7
}

/// Source field of an opcode: bits 2-0.
pub open spec fn op_src(op: u8) -> u8 {
    op & 7
}

/// Register-pair field of an opcode: bits 5-4.
pub open spec fn op_pair(op: u8) -> u8 {
    (op >> 4) & 3
}

/// Condition field of a conditional branch, call or return: bits 5-3.
pub open spec fn op_cond(op: u8) -> u8 {
    (op >> 3) & 7
}

/// Whether the branch condition encoded by the 3-bit field holds of the
/// flags: NZ, Z, NC, C, PO, PE, P (plus), M (minus), in that order.
pub open spec fn cond_holds(f: StatusFlags, ccc: u8) -> bool {
    if ccc == 0 {
        !f.Z
    } else if ccc == 1 {
        f.Z
    } else if ccc == 2 {
        !f.C
    } else if ccc == 3 {
        f.C
    } else if ccc == 4 {
        !f.P
    } else if ccc == 5 {
        f.P
    } else if ccc == 6 {
        !f.S
    } else {
        f.S
    }
}

// ---------------------------------------------------------------------------
// Flag recomputation rules, shared by the arithmetic and increment families.
// Zero, Sign and Parity come from the result byte; Carry from the unclamped
// sum or difference; Auxiliary Carry from the low nibbles of the operands.
// ---------------------------------------------------------------------------
/// The result byte of an 8-bit addition with a carry-in of 0 or 1.
pub open spec fn spec_add_res(a: u8, v: u8, cin: int) -> u8 {
    ((a + v + cin) % 256) as u8
}

/// Flags after an 8-bit addition: all five are recomputed.
pub open spec fn spec_add_flags(a: u8, v: u8, cin: int) -> StatusFlags {
    StatusFlags {
        Z: spec_add_res(a, v, cin) == 0,
        C: a + v + cin > 255,
        S: spec_add_res(a, v, cin) & 0x80 != 0,
        P: spec_even_parity(spec_add_res(a, v, cin)),
        AC: (a & 0xf) + (v & 0xf) + cin > 0xf,
    }
}

/// The result byte of an 8-bit subtraction with a borrow-in of 0 or 1.
pub open spec fn spec_sub_res(a: u8, v: u8, bin: int) -> u8 {
    ((512 + a - v - bin) % 256) as u8
}

/// Flags after an 8-bit subtraction: addition's rules with borrow in place
/// of carry. Carry is the borrow out of the top bit; Auxiliary Carry is the
/// borrow between the low nibbles.
pub open spec fn spec_sub_flags(a: u8, v: u8, bin: int) -> StatusFlags {
    StatusFlags {
        Z: spec_sub_res(a, v, bin) == 0,
        C: v + bin > a,
        S: spec_sub_res(a, v, bin) & 0x80 != 0,
        P: spec_even_parity(spec_sub_res(a, v, bin)),
        AC: (v & 0xf) + bin > (a & 0xf),
    }
}

/// Flags after an 8-bit increment: Carry is left as it was; the others follow
/// the addition rules applied to the incremented value.
pub open spec fn spec_inr_flags(v: u8, carry: bool) -> StatusFlags {
    StatusFlags {
        Z: wrap8_inc(v) == 0,
        C: carry,
        S: wrap8_inc(v) & 0x80 != 0,
        P: spec_even_parity(wrap8_inc(v)),
        AC: (v & 0xf) + 1 > 0xf,
    }
}

/// Flags after an 8-bit decrement: Carry is left as it was; Auxiliary Carry
/// is the nibble borrow of subtracting one.
pub open spec fn spec_dcr_flags(v: u8, carry: bool) -> StatusFlags {
    StatusFlags {
        Z: wrap8_dec(v) == 0,
        C: carry,
        S: wrap8_dec(v) & 0x80 != 0,
        P: spec_even_parity(wrap8_dec(v)),
        AC: (v & 0xf) == 0,
    }
}

/// Flags after a logical operation: Carry and Auxiliary Carry are cleared,
/// the rest come from the result byte.
pub open spec fn spec_logic_flags(res: u8) -> StatusFlags {
    StatusFlags {
        Z: res == 0,
        C: false,
        S: res & 0x80 != 0,
        P: spec_even_parity(res),
        AC: false,
    }
}

// ---------------------------------------------------------------------------
// Opcode families.
// ---------------------------------------------------------------------------
pub open spec fn is_mvi(op: u8) -> bool {
    op == 0x06 || op == 0x0e || op == 0x16 || op == 0x1e || op == 0x26 || op == 0x2e || op == 0x36
        || op == 0x3e
}

pub open spec fn is_lxi(op: u8) -> bool {
    op == 0x01 || op == 0x11 || op == 0x21 || op == 0x31
}

pub open spec fn is_inr(op: u8) -> bool {
    op == 0x04 || op == 0x0c || op == 0x14 || op == 0x1c || op == 0x24 || op == 0x2c || op == 0x34
        || op == 0x3c
}

pub open spec fn is_dcr(op: u8) -> bool {
    op == 0x05 || op == 0x0d || op == 0x15 || op == 0x1d || op == 0x25 || op == 0x2d || op == 0x35
        || op == 0x3d
}

pub open spec fn is_inx(op: u8) -> bool {
    op == 0x03 || op == 0x13 || op == 0x23 || op == 0x33
}

pub open spec fn is_dcx(op: u8) -> bool {
    op == 0x0b || op == 0x1b || op == 0x2b || op == 0x3b
}

pub open spec fn is_cond_jump(op: u8) -> bool {
    op == 0xc2 || op == 0xca || op == 0xd2 || op == 0xda || op == 0xe2 || op == 0xea || op == 0xf2
        || op == 0xfa
}

pub open spec fn is_cond_call(op: u8) -> bool {
    op == 0xc4 || op == 0xcc || op == 0xd4 || op == 0xdc || op == 0xe4 || op == 0xec || op == 0xf4
        || op == 0xfc
}

pub open spec fn is_cond_ret(op: u8) -> bool {
    op == 0xc0 || op == 0xc8 || op == 0xd0 || op == 0xd8 || op == 0xe0 || op == 0xe8 || op == 0xf0
        || op == 0xf8
}

pub open spec fn is_rst(op: u8) -> bool {
    op == 0xc7 || op == 0xcf || op == 0xd7 || op == 0xdf || op == 0xe7 || op == 0xef || op == 0xf7
        || op == 0xff
}

// ---------------------------------------------------------------------------
// Building blocks for the per-instruction relations.
// ---------------------------------------------------------------------------
/// Nothing changed at all.
pub open spec fn unchanged(pre: I8080, post: I8080) -> bool {
    &&& post.registers == pre.registers
    &&& post.flags == pre.flags
    &&& post.memory@ == pre.memory@
}

/// Only the program counter changed, to `pc`.
pub open spec fn only_pc(pre: I8080, post: I8080, pc: u16) -> bool {
    &&& post.registers == (Registers { PC: pc, ..pre.registers })
    &&& post.flags == pre.flags
    &&& post.memory@ == pre.memory@
}

/// Operand slot `dst` was written with `v` (a register, or memory at HL for
/// slot 6), the flags became `f`, the program counter `pc`.
pub open spec fn slot_flags_rel(pre: I8080, post: I8080, dst: u8, v: u8, f: StatusFlags, pc: u16) -> bool {
    &&& post.flags == f
    &&& if dst == 6 {
        &&& post.registers == (Registers { PC: pc, ..pre.registers })
        &&& post.memory@ == pre.memory@.update(hl_addr(pre), v)
    } else {
        &&& post.registers == (Registers { PC: pc, ..regs_set(pre.registers, dst, v) })
        &&& post.memory@ == pre.memory@
    }
}

/// As `slot_flags_rel`, with the flags untouched.
pub open spec fn write_slot_rel(pre: I8080, post: I8080, dst: u8, v: u8, pc: u16) -> bool {
    slot_flags_rel(pre, post, dst, v, pre.flags, pc)
}

/// The accumulator became `a`, the flags `f`, the program counter `pc`;
/// nothing else changed.
pub open spec fn acc_flags_rel(pre: I8080, post: I8080, a: u8, f: StatusFlags, pc: u16) -> bool {
    &&& post.registers == (Registers { A: a, PC: pc, ..pre.registers })
    &&& post.flags == f
    &&& post.memory@ == pre.memory@
}

// ---------------------------------------------------------------------------
// Per-instruction relations.
// ---------------------------------------------------------------------------
/// MOV: the destination slot receives the source slot's value; no flag moves.
pub open spec fn mov_rel(pre: I8080, post: I8080, op: u8) -> bool {
    write_slot_rel(
        pre,
        post,
        op_dst(op),
        src_value(pre, op_src(op)),
        wrap16(pre.registers.PC + 1),
    )
}

/// MVI: the destination slot receives the immediate byte.
pub open spec fn mvi_rel(pre: I8080, post: I8080, op: u8) -> bool {
    write_slot_rel(pre, post, op_dst(op), operand(pre, 1), wrap16(pre.registers.PC + 2))
}

/// LXI: the selected register pair receives the 16-bit immediate, whose low
/// byte stands first in the instruction stream.
pub open spec fn lxi_rel(pre: I8080, post: I8080, op: u8) -> bool {
    &&& post.registers == (Registers {
        PC: wrap16(pre.registers.PC + 3),
        ..regs_set_pair(pre.registers, op_pair(op), imm16(pre))
    })
    &&& post.flags == pre.flags
    &&& post.memory@ == pre.memory@
}

/// LDA: the accumulator receives memory at the direct address.
pub open spec fn lda_rel(pre: I8080, post: I8080) -> bool {
    &&& post.registers == (Registers {
        A: pre.memory@[imm16(pre) as int],
        PC: wrap16(pre.registers.PC + 3),
        ..pre.registers
    })
    &&& post.flags == pre.flags
    &&& post.memory@ == pre.memory@
}

/// STA: memory at the direct address receives the accumulator.
pub open spec fn sta_rel(pre: I8080, post: I8080) -> bool {
    &&& only_pc_regs(pre, post, wrap16(pre.registers.PC + 3))
    &&& post.flags == pre.flags
    &&& post.memory@ == pre.memory@.update(imm16(pre) as int, pre.registers.A)
}

/// The registers changed only in the program counter; says nothing of memory.
pub open spec fn only_pc_regs(pre: I8080, post: I8080, pc: u16) -> bool {
    post.registers == (Registers { PC: pc, ..pre.registers })
}

/// LHLD: L and H receive memory at the direct address and its successor.
pub open spec fn lhld_rel(pre: I8080, post: I8080) -> bool {
    &&& post.registers == (Registers {
        L: pre.memory@[imm16(pre) as int],
        H: pre.memory@[wrap16(imm16(pre) + 1) as int],
        PC: wrap16(pre.registers.PC + 3),
        ..pre.registers
    })
    &&& post.flags == pre.flags
    &&& post.memory@ == pre.memory@
}

/// SHLD: memory at the direct address and its successor receive L and H.
pub open spec fn shld_rel(pre: I8080, post: I8080) -> bool {
    &&& only_pc_regs(pre, post, wrap16(pre.registers.PC + 3))
    &&& post.flags == pre.flags
    &&& post.memory@ == pre.memory@.update(imm16(pre) as int, pre.registers.L).update(
        wrap16(imm16(pre) + 1) as int,
        pre.registers.H,
    )
}

/// LDAX: the accumulator receives memory at the BC or DE address.
pub open spec fn ldax_rel(pre: I8080, post: I8080, op: u8) -> bool {
    &&& post.registers == (Registers {
        A: pre.memory@[pair_val(pre.registers, op_pair(op)) as int],
        PC: wrap16(pre.registers.PC + 1),
        ..pre.registers
    })
    &&& post.flags == pre.flags
    &&& post.memory@ == pre.memory@
}

/// STAX: memory at the BC or DE address receives the accumulator.
pub open spec fn stax_rel(pre: I8080, post: I8080, op: u8) -> bool {
    &&& only_pc_regs(pre, post, wrap16(pre.registers.PC + 1))
    &&& post.flags == pre.flags
    &&& post.memory@ == pre.memory@.update(
        pair_val(pre.registers, op_pair(op)) as int,
        pre.registers.A,
    )
}

/// XCHG: HL and DE swap contents.
pub open spec fn xchg_rel(pre: I8080, post: I8080) -> bool {
    &&& post.registers == (Registers {
        H: pre.registers.D,
        L: pre.registers.E,
        D: pre.registers.H,
        E: pre.registers.L,
        PC: wrap16(pre.registers.PC + 1),
        ..pre.registers
    })
    &&& post.flags == pre.flags
    &&& post.memory@ == pre.memory@
}

/// An addition into the accumulator: ADD/ADC take a source slot, ADI/ACI the
/// immediate byte; `cin` is 1 when the instruction adds the incoming Carry.
pub open spec fn add_rel(pre: I8080, post: I8080, v: u8, cin: int, pc: u16) -> bool {
    acc_flags_rel(
        pre,
        post,
        spec_add_res(pre.registers.A, v, cin),
        spec_add_flags(pre.registers.A, v, cin),
        pc,
    )
}

/// A subtraction from the accumulator: SUB/SBB and SUI/SBI; `bin` is 1 when
/// the instruction subtracts the incoming Carry as a borrow.
pub open spec fn sub_rel(pre: I8080, post: I8080, v: u8, bin: int, pc: u16) -> bool {
    acc_flags_rel(
        pre,
        post,
        spec_sub_res(pre.registers.A, v, bin),
        spec_sub_flags(pre.registers.A, v, bin),
        pc,
    )
}

/// A comparison: the flags of the subtraction, the accumulator kept.
pub open spec fn cmp_rel(pre: I8080, post: I8080, v: u8, pc: u16) -> bool {
    &&& only_pc_regs(pre, post, pc)
    &&& post.flags == spec_sub_flags(pre.registers.A, v, 0)
    &&& post.memory@ == pre.memory@
}

/// A logical operation into the accumulator, its result already computed.
pub open spec fn logic_rel(pre: I8080, post: I8080, res: u8, pc: u16) -> bool {
    acc_flags_rel(pre, post, res, spec_logic_flags(res), pc)
}

/// INR: the slot is incremented; Carry is untouched.
pub open spec fn inr_rel(pre: I8080, post: I8080, op: u8) -> bool {
    slot_flags_rel(
        pre,
        post,
        op_dst(op),
        wrap8_inc(src_value(pre, op_dst(op))),
        spec_inr_flags(src_value(pre, op_dst(op)), pre.flags.C),
        wrap16(pre.registers.PC + 1),
    )
}

/// DCR: the slot is decremented; Carry is untouched.
pub open spec fn dcr_rel(pre: I8080, post: I8080, op: u8) -> bool {
    slot_flags_rel(
        pre,
        post,
        op_dst(op),
        wrap8_dec(src_value(pre, op_dst(op))),
        spec_dcr_flags(src_value(pre, op_dst(op)), pre.flags.C),
        wrap16(pre.registers.PC + 1),
    )
}

/// INX: the register pair is incremented, wrapping within 16 bits; no flag
/// is touched.
pub open spec fn inx_rel(pre: I8080, post: I8080, op: u8) -> bool {
    &&& post.registers == (Registers {
        PC: wrap16(pre.registers.PC + 1),
        ..regs_set_pair(
            pre.registers,
            op_pair(op),
            wrap16(pair_val(pre.registers, op_pair(op)) + 1),
        )
    })
    &&& post.flags == pre.flags
    &&& post.memory@ == pre.memory@
}

/// DCX: the register pair is decremented, wrapping within 16 bits; no flag
/// is touched.
pub open spec fn dcx_rel(pre: I8080, post: I8080, op: u8) -> bool {
    &&& post.registers == (Registers {
        PC: wrap16(pre.registers.PC + 1),
        ..regs_set_pair(
            pre.registers,
            op_pair(op),
            wrap16(pair_val(pre.registers, op_pair(op)) + 0xffff),
        )
    })
    &&& post.flags == pre.flags
    &&& post.memory@ == pre.memory@
}

/// A jump: taken, the program counter becomes the immediate address; not
/// taken, it advances past the two operand bytes, and nothing else changes.
pub open spec fn jmp_rel(pre: I8080, post: I8080, taken: bool) -> bool {
    if taken {
        only_pc(pre, post, imm16(pre))
    } else {
        only_pc(pre, post, wrap16(pre.registers.PC + 3))
    }
}

/// A call: taken, the return address (past the two operand bytes) is pushed
/// high byte at SP-1, low byte at SP-2, SP drops by two, and control moves to
/// the immediate address. A taken call with SP below 2 would cross the memory
/// bounds: the machine is left unchanged and the cycle reports the fault.
pub open spec fn call_rel(pre: I8080, post: I8080, r: Outcome, taken: bool) -> bool {
    if !taken {
        &&& only_pc(pre, post, wrap16(pre.registers.PC + 3))
        &&& r == Outcome::Normal
    } else if pre.registers.SP < 2 {
        &&& unchanged(pre, post)
        &&& r == (Outcome::OutOfBounds { pc: pre.registers.PC, sp: pre.registers.SP })
    } else {
        &&& post.memory@ == pre.memory@.update(
            pre.registers.SP - 1,
            high_byte(wrap16(pre.registers.PC + 3)),
        ).update(pre.registers.SP - 2, low_byte(wrap16(pre.registers.PC + 3)))
        &&& post.registers == (Registers {
            PC: imm16(pre),
            SP: (pre.registers.SP - 2) as u16,
            ..pre.registers
        })
        &&& post.flags == pre.flags
        &&& r == Outcome::Normal
    }
}

/// A return: taken, the program counter is reassembled from memory at SP (low
/// byte) and SP+1 (high byte) and SP rises by two. A taken return with SP
/// above 0xfffd would cross the memory bounds: the machine is left unchanged
/// and the cycle reports the fault.
pub open spec fn ret_rel(pre: I8080, post: I8080, r: Outcome, taken: bool) -> bool {
    if !taken {
        &&& only_pc(pre, post, wrap16(pre.registers.PC + 1))
        &&& r == Outcome::Normal
    } else if pre.registers.SP > 0xfffd {
        &&& unchanged(pre, post)
        &&& r == (Outcome::OutOfBounds { pc: pre.registers.PC, sp: pre.registers.SP })
    } else {
        &&& post.registers == (Registers {
            PC: spec_merge(
                pre.memory@[pre.registers.SP + 1],
                pre.memory@[pre.registers.SP as int],
            ),
            SP: (pre.registers.SP + 2) as u16,
            ..pre.registers
        })
        &&& post.flags == pre.flags
        &&& post.memory@ == pre.memory@
        &&& r == Outcome::Normal
    }
}

/// RST: a call to the fixed low-memory vector held in opcode bits 5-3; the
/// return address is the byte after the opcode.
pub open spec fn rst_rel(pre: I8080, post: I8080, r: Outcome, op: u8) -> bool {
    if pre.registers.SP < 2 {
        &&& unchanged(pre, post)
        &&& r == (Outcome::OutOfBounds { pc: pre.registers.PC, sp: pre.registers.SP })
    } else {
        &&& post.memory@ == pre.memory@.update(
            pre.registers.SP - 1,
            high_byte(wrap16(pre.registers.PC + 1)),
        ).update(pre.registers.SP - 2, low_byte(wrap16(pre.registers.PC + 1)))
        &&& post.registers == (Registers {
            PC: (op & 0x38) as u16,
            SP: (pre.registers.SP - 2) as u16,
            ..pre.registers
        })
        &&& post.flags == pre.flags
        &&& r == Outcome::Normal
    }
}

// ---------------------------------------------------------------------------
// The whole cycle.
// ---------------------------------------------------------------------------
/// What one fetch-decode-execute cycle does: `post` and `r` are the state and
/// outcome after executing the instruction whose opcode `pre`'s memory holds
/// at `pre`'s program counter. A fault (an unimplemented opcode, a stack
/// operation crossing the memory bounds) leaves the machine exactly as it
/// was.
pub open spec fn cycle_rel(pre: I8080, post: I8080, r: Outcome) -> bool {
    let op = opcode_at(pre);
    let pc1 = wrap16(pre.registers.PC + 1);
    let pc2 = wrap16(pre.registers.PC + 2);
    if op == 0x00 {
        // NOP
        only_pc(pre, post, pc1) && r == Outcome::Normal
    } else if op == 0x76 {
        // HLT: fetching stops, the state stays for inspection
        only_pc(pre, post, pc1) && r == Outcome::Halted
    } else if 0x40 <= op && op <= 0x7f {
        // MOV
        mov_rel(pre, post, op) && r == Outcome::Normal
    } else if is_mvi(op) {
        mvi_rel(pre, post, op) && r == Outcome::Normal
    } else if is_lxi(op) {
        lxi_rel(pre, post, op) && r == Outcome::Normal
    } else if op == 0x3a {
        lda_rel(pre, post) && r == Outcome::Normal
    } else if op == 0x32 {
        sta_rel(pre, post) && r == Outcome::Normal
    } else if op == 0x2a {
        lhld_rel(pre, post) && r == Outcome::Normal
    } else if op == 0x22 {
        shld_rel(pre, post) && r == Outcome::Normal
    } else if op == 0x0a || op == 0x1a {
        ldax_rel(pre, post, op) && r == Outcome::Normal
    } else if op == 0x02 || op == 0x12 {
        stax_rel(pre, post, op) && r == Outcome::Normal
    } else if op == 0xeb {
        xchg_rel(pre, post) && r == Outcome::Normal
    } else if 0x80 <= op && op <= 0x87 {
        // ADD
        add_rel(pre, post, src_value(pre, op_src(op)), 0, pc1) && r == Outcome::Normal
    } else if 0x88 <= op && op <= 0x8f {
        // ADC
        add_rel(pre, post, src_value(pre, op_src(op)), if pre.flags.C { 1int } else { 0int }, pc1)
            && r == Outcome::Normal
    } else if op == 0xc6 {
        // ADI
        add_rel(pre, post, operand(pre, 1), 0, pc2) && r == Outcome::Normal
    } else if op == 0xce {
        // ACI
        add_rel(pre, post, operand(pre, 1), if pre.flags.C { 1int } else { 0int }, pc2)
            && r == Outcome::Normal
    } else if 0x90 <= op && op <= 0x97 {
        // SUB
        sub_rel(pre, post, src_value(pre, op_src(op)), 0, pc1) && r == Outcome::Normal
    } else if 0x98 <= op && op <= 0x9f {
        // SBB
        sub_rel(pre, post, src_value(pre, op_src(op)), if pre.flags.C { 1int } else { 0int }, pc1)
            && r == Outcome::Normal
    } else if op == 0xd6 {
        // SUI
        sub_rel(pre, post, operand(pre, 1), 0, pc2) && r == Outcome::Normal
    } else if op == 0xde {
        // SBI
        sub_rel(pre, post, operand(pre, 1), if pre.flags.C { 1int } else { 0int }, pc2)
            && r == Outcome::Normal
    } else if 0xa0 <= op && op <= 0xa7 {
        // ANA
        logic_rel(pre, post, pre.registers.A & src_value(pre, op_src(op)), pc1)
            && r == Outcome::Normal
    } else if 0xa8 <= op && op <= 0xaf {
        // XRA
        logic_rel(pre, post, pre.registers.A ^ src_value(pre, op_src(op)), pc1)
            && r == Outcome::Normal
    } else if 0xb0 <= op && op <= 0xb7 {
        // ORA
        logic_rel(pre, post, pre.registers.A | src_value(pre, op_src(op)), pc1)
            && r == Outcome::Normal
    } else if 0xb8 <= op && op <= 0xbf {
        // CMP
        cmp_rel(pre, post, src_value(pre, op_src(op)), pc1) && r == Outcome::Normal
    } else if op == 0xe6 {
        // ANI
        logic_rel(pre, post, pre.registers.A & operand(pre, 1), pc2) && r == Outcome::Normal
    } else if op == 0xee {
        // XRI
        logic_rel(pre, post, pre.registers.A ^ operand(pre, 1), pc2) && r == Outcome::Normal
    } else if op == 0xf6 {
        // ORI
        logic_rel(pre, post, pre.registers.A | operand(pre, 1), pc2) && r == Outcome::Normal
    } else if op == 0xfe {
        // CPI
        cmp_rel(pre, post, operand(pre, 1), pc2) && r == Outcome::Normal
    } else if is_inr(op) {
        inr_rel(pre, post, op) && r == Outcome::Normal
    } else if is_dcr(op) {
        dcr_rel(pre, post, op) && r == Outcome::Normal
    } else if is_inx(op) {
        inx_rel(pre, post, op) && r == Outcome::Normal
    } else if is_dcx(op) {
        dcx_rel(pre, post, op) && r == Outcome::Normal
    } else if op == 0xc3 {
        // JMP
        jmp_rel(pre, post, true) && r == Outcome::Normal
    } else if is_cond_jump(op) {
        jmp_rel(pre, post, cond_holds(pre.flags, op_cond(op))) && r == Outcome::Normal
    } else if op == 0xcd {
        // CALL
        call_rel(pre, post, r, true)
    } else if is_cond_call(op) {
        call_rel(pre, post, r, cond_holds(pre.flags, op_cond(op)))
    } else if op == 0xc9 {
        // RET
        ret_rel(pre, post, r, true)
    } else if is_cond_ret(op) {
        ret_rel(pre, post, r, cond_holds(pre.flags, op_cond(op)))
    } else if is_rst(op) {
        rst_rel(pre, post, r, op)
    } else if op == 0xe9 {
        // PCHL
        only_pc(pre, post, spec_merge(pre.registers.H, pre.registers.L)) && r == Outcome::Normal
    } else {
        unchanged(pre, post) && r == (Outcome::Unimplemented { opcode: op, pc: pre.registers.PC })
    }
}

/// Advancing the program counter in two wrapped steps lands where one
/// wrapped step by the whole distance does.
pub proof fn lemma_wrap16_add(a: int, b: int, c: int)
    requires
        0 <= a,
        0 <= b,
        0 <= c,
        c < 0x10000,
    ensures
        wrap16(wrap16(a + b) as int + c) == wrap16(a + b + c),
{
    vstd::arithmetic::div_mod::lemma_mod_bound(a + b, 0x10000);
    vstd::arithmetic::div_mod::lemma_small_mod(c as nat, 0x10000nat);
    vstd::arithmetic::div_mod::lemma_add_mod_noop(a + b, c, 0x10000);
}

/// Splitting a 16-bit value into bytes and merging them gives it back.
pub proof fn lemma_split_join(v: u16)
    ensures
        spec_merge(high_byte(v), low_byte(v)) == v,
{
    vstd::arithmetic::div_mod::lemma_fundamental_div_mod(v as int, 256);
}

/// The bit fields extracted from an opcode are in range of the operand and
/// register-pair tables.
pub proof fn lemma_op_fields(op: u8)
    ensures
        op_dst(op) < 8,
        op_src(op) < 8,
        op_pair(op) < 4,
        op_cond(op) < 8,
{
    assert(((op >> 3) & 7) < 8 && (op & 7) < 8 && ((op >> 4) & 3) < 4) by (bit_vector);
}

/// The condition fields of the conditional jump, call and return opcodes.
pub proof fn lemma_cond_field_values()
    ensures
        op_cond(0xc2) == 0 && op_cond(0xca) == 1 && op_cond(0xd2) == 2 && op_cond(0xda) == 3
            && op_cond(0xe2) == 4 && op_cond(0xea) == 5 && op_cond(0xf2) == 6 && op_cond(0xfa)
            == 7,
        op_cond(0xc4) == 0 && op_cond(0xcc) == 1 && op_cond(0xd4) == 2 && op_cond(0xdc) == 3
            && op_cond(0xe4) == 4 && op_cond(0xec) == 5 && op_cond(0xf4) == 6 && op_cond(0xfc)
            == 7,
        op_cond(0xc0) == 0 && op_cond(0xc8) == 1 && op_cond(0xd0) == 2 && op_cond(0xd8) == 3
            && op_cond(0xe0) == 4 && op_cond(0xe8) == 5 && op_cond(0xf0) == 6 && op_cond(0xf8)
            == 7,
{
    assert(((0xc2u8 >> 3) & 7) == 0 && ((0xcau8 >> 3) & 7) == 1 && ((0xd2u8 >> 3) & 7) == 2 && ((
    0xdau8 >> 3) & 7) == 3 && ((0xe2u8 >> 3) & 7) == 4 && ((0xeau8 >> 3) & 7) == 5 && ((0xf2u8
        >> 3) & 7) == 6 && ((0xfau8 >> 3) & 7) == 7) by (bit_vector);
    assert(((0xc4u8 >> 3) & 7) == 0 && ((0xccu8 >> 3) & 7) == 1 && ((0xd4u8 >> 3) & 7) == 2 && ((
    0xdcu8 >> 3) & 7) == 3 && ((0xe4u8 >> 3) & 7) == 4 && ((0xecu8 >> 3) & 7) == 5 && ((0xf4u8
        >> 3) & 7) == 6 && ((0xfcu8 >> 3) & 7) == 7) by (bit_vector);
    assert(((0xc0u8 >> 3) & 7) == 0 && ((0xc8u8 >> 3) & 7) == 1 && ((0xd0u8 >> 3) & 7) == 2 && ((
    0xd8u8 >> 3) & 7) == 3 && ((0xe0u8 >> 3) & 7) == 4 && ((0xe8u8 >> 3) & 7) == 5 && ((0xf0u8
        >> 3) & 7) == 6 && ((0xf8u8 >> 3) & 7) == 7) by (bit_vector);
}

/// A run trace: consecutive states are related by normally completed cycles.
pub open spec fn trace_ok(t: Seq<I8080>) -> bool {
    forall|i: int| 0 <= i < t.len() - 1 ==> #[trigger] cycle_rel(t[i], t[i + 1], Outcome::Normal)
}

/// `end` and `r` are reachable from `start` by a chain of normally completed
/// cycles followed by one cycle that ends with `r`.
pub open spec fn runs_to(start: I8080, end: I8080, r: Outcome) -> bool {
    exists|t: Seq<I8080>|
        t.len() >= 1 && t[0] == start && trace_ok(t) && cycle_rel(t[t.len() - 1], end, r)
}

/// `end` is reached from `start` by exactly `n` normally completed cycles.
pub open spec fn reaches(start: I8080, end: I8080, n: int) -> bool {
    exists|t: Seq<I8080>| t.len() == n + 1 && t[0] == start && trace_ok(t) && t[t.len() - 1] == end
}

/// A machine freshly built and loaded with `program`: every register and
/// flag cleared, the program at the bottom of memory, zeroes above it.
pub open spec fn initial_state(s: I8080, program: Seq<u8>) -> bool {
    &&& s.wf()
    &&& s.registers == (Registers { A: 0, B: 0, C: 0, D: 0, E: 0, H: 0, L: 0, PC: 0, SP: 0 })
    &&& s.flags == (StatusFlags { Z: false, C: false, S: false, P: false, AC: false })
    &&& forall|i: int| 0 <= i < program.len() ==> s.memory@[i] == program[i]
    &&& forall|i: int| program.len() <= i < crate::cpu::MEMORY_SIZE ==> s.memory@[i] == 0
}

} // verus!
