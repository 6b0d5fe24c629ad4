use crate::isa::{
    cycle_rel, high_byte, hl_addr, lemma_cond_field_values, lemma_op_fields, lemma_split_join,
    lemma_wrap16_add, low_byte, pair_val, regs_set, regs_set_pair, slot_flags_rel,
    spec_add_flags, spec_add_res, spec_dcr_flags, spec_inr_flags, spec_logic_flags, spec_sub_flags,
    spec_sub_res, src_value, wrap16, wrap8_dec, wrap8_inc,
};
use crate::utils::{check_even_parity, merge_bytes, spec_merge};
use vstd::prelude::*;

verus! {

/// Size of the flat memory image: the full 16-bit address space, so that every
/// address formed from a 16-bit value is inside the array.
pub const MEMORY_SIZE: usize = 65536;

/// The five status flags. Arithmetic, logical and increment instructions
/// recompute a subset of them; the others are left untouched.
#[allow(non_snake_case)]
#[derive(Clone, Copy, Debug, PartialEq, Eq, Structural)]
pub struct StatusFlags {
    pub Z: bool,
    pub C: bool,
    pub S: bool,
    pub P: bool,
    pub AC: bool,
}

/// The register file: seven 8-bit registers plus the 16-bit program counter
/// and stack pointer. BC, DE and HL act as 16-bit pairs, high byte first.
#[allow(non_snake_case)]
#[derive(Clone, Copy, Debug, PartialEq, Eq, Structural)]
pub struct Registers {
    pub A: u8,
    pub B: u8,
    pub C: u8,
    pub D: u8,
    pub E: u8,
    pub H: u8,
    pub L: u8,
    pub PC: u16,
    // Decrements when data is pushed on, increments when popped.
    pub SP: u16,
}

/// How one fetch-decode-execute cycle ended.
///
/// A fatal outcome carries the opcode and the address it was fetched from; the
/// machine itself is the register and flag snapshot, left exactly as it was
/// before the faulting instruction.
#[derive(Clone, Copy, Debug, PartialEq, Eq, Structural)]
pub enum Outcome {
    /// The instruction completed; fetching may continue.
    Normal,
    /// A halt instruction was executed: fetching must stop, the state stays
    /// inspectable.
    Halted,
    /// An opcode with no defined handler; the machine state is unchanged.
    Unimplemented { opcode: u8, pc: u16 },
    /// A stack operation would have crossed the memory bounds; the machine
    /// state is unchanged.
    OutOfBounds { pc: u16, sp: u16 },
}

/// The processor: registers, flags, and the flat byte-addressable memory.
pub struct I8080 {
    pub flags: StatusFlags,
    pub registers: Registers,
    pub memory: Vec<u8>,
}

impl I8080 {
    /// The one structural invariant: memory covers the whole address space.
    pub open spec fn wf(self) -> bool {
        self.memory@.len() == MEMORY_SIZE
    }

    /// A machine with every register and flag cleared and memory zero-filled.
    pub fn new() -> (m: I8080)
        ensures
            m.wf(),
            m.registers == (Registers { A: 0, B: 0, C: 0, D: 0, E: 0, H: 0, L: 0, PC: 0, SP: 0 }),
            m.flags == (StatusFlags { Z: false, C: false, S: false, P: false, AC: false }),
            forall|i: int| 0 <= i < MEMORY_SIZE ==> m.memory@[i] == 0,
    {
        let mut memory: Vec<u8> = Vec::new();
        let mut i: usize = 0;
        while i < MEMORY_SIZE
            invariant
                i <= MEMORY_SIZE,
                memory@.len() == i,
                forall|j: int| 0 <= j < i ==> memory@[j] == 0,
            decreases MEMORY_SIZE - i,
        {
            memory.push(0);
            i = i + 1;
        }
        I8080 {
            registers: Registers { A: 0, B: 0, C: 0, D: 0, E: 0, H: 0, L: 0, PC: 0, SP: 0 },
            flags: StatusFlags { Z: false, C: false, S: false, P: false, AC: false },
            memory,
        }
    }

    /// Copies a program image byte-for-byte into memory starting at address 0.
    /// Reading the same offsets back returns the image unchanged; memory past
    /// the image, the registers and the flags are untouched.
    pub fn load(&mut self, buffer: &Vec<u8>)
        requires
            old(self).wf(),
            buffer@.len() <= MEMORY_SIZE,
        ensures
            final(self).wf(),
            forall|i: int| 0 <= i < buffer@.len() ==> final(self).memory@[i] == buffer@[i],
            forall|i: int|
                buffer@.len() <= i < MEMORY_SIZE ==> final(self).memory@[i] == old(self).memory@[i],
            final(self).registers == old(self).registers,
            final(self).flags == old(self).flags,
    {
        let mut pos: usize = 0;
        while pos < buffer.len()
            invariant
                self.wf(),
                pos <= buffer@.len(),
                buffer@.len() <= MEMORY_SIZE,
                forall|i: int| 0 <= i < pos ==> self.memory@[i] == buffer@[i],
                forall|i: int| pos <= i < MEMORY_SIZE ==> self.memory@[i] == old(self).memory@[i],
                self.registers == old(self).registers,
                self.flags == old(self).flags,
            decreases buffer@.len() - pos,
        {
            let byte: u8 = buffer[pos];
            self.memory.set(pos, byte);
            pos = pos + 1;
        }
    }

    /// Moves the program counter forward by `n`, wrapping modulo 2^16.
    fn advance_pc(&mut self, n: u16)
        ensures
            final(self).registers == (Registers {
                PC: wrap16(old(self).registers.PC + n),
                ..old(self).registers
            }),
            final(self).flags == old(self).flags,
            final(self).memory == old(self).memory,
    {
        let widened: u32 = self.registers.PC as u32 + n as u32;
        self.registers.PC = (widened % 0x10000) as u16;
    }

    /// Reads the byte pointed to by the PC and moves the PC past it.
    fn get_next_byte(&mut self) -> (b: u8)
        requires
            old(self).wf(),
        ensures
            final(self).wf(),
            b == old(self).memory@[old(self).registers.PC as int],
            final(self).registers == (Registers {
                PC: wrap16(old(self).registers.PC + 1),
                ..old(self).registers
            }),
            final(self).flags == old(self).flags,
            final(self).memory == old(self).memory,
    {
        let pc = self.registers.PC;
        let byte = self.memory[pc as usize];
        self.advance_pc(1);
        byte
    }

    /// Reads an operand-table slot: a register, or memory at HL for slot 6.
    fn get_source(&self, source: u8) -> (v: u8)
        requires
            self.wf(),
            source < 8,
        ensures
            v == src_value(*self, source),
    {
        match source {
            0b000 => self.registers.B,
            0b001 => self.registers.C,
            0b010 => self.registers.D,
            0b011 => self.registers.E,
            0b100 => self.registers.H,
            0b101 => self.registers.L,
            0b110 => self.memory[merge_bytes(self.registers.H, self.registers.L) as usize],
            _ => self.registers.A,
        }
    }

    /// Writes an operand-table slot: a register, or memory at HL for slot 6.
    fn set_dest(&mut self, dest: u8, data: u8)
        requires
            old(self).wf(),
            dest < 8,
        ensures
            final(self).wf(),
            final(self).flags == old(self).flags,
            if dest == 6 {
                final(self).registers == old(self).registers
                    && final(self).memory@ == old(self).memory@.update(hl_addr(*old(self)), data)
            } else {
                final(self).registers == regs_set(old(self).registers, dest, data)
                    && final(self).memory == old(self).memory
            },
    {
        match dest {
            0b000 => self.registers.B = data,
            0b001 => self.registers.C = data,
            0b010 => self.registers.D = data,
            0b011 => self.registers.E = data,
            0b100 => self.registers.H = data,
            0b101 => self.registers.L = data,
            0b110 => {
                let addr = merge_bytes(self.registers.H, self.registers.L);
                self.memory.set(addr as usize, data);
            },
            _ => self.registers.A = data,
        };
    }

    /// Reads a register pair as its high and low bytes: BC, DE, HL, or SP.
    fn get_source_pair(&self, source: u8) -> (r: (u8, u8))
        requires
            source < 4,
        ensures
            r.0 == high_byte(pair_val(self.registers, source)),
            r.1 == low_byte(pair_val(self.registers, source)),
    {
        match source {
            0b00 => (self.registers.B, self.registers.C),
            0b01 => (self.registers.D, self.registers.E),
            0b10 => (self.registers.H, self.registers.L),
            _ => {
                let sp = self.registers.SP;
                ((sp / 256) as u8, (sp % 256) as u8)
            },
        }
    }

    /// Writes a register pair from its high and low bytes: BC, DE, HL, or SP.
    fn set_pair(&mut self, rp: u8, high: u8, low: u8)
        requires
            rp < 4,
        ensures
            final(self).registers == regs_set_pair(old(self).registers, rp, spec_merge(high, low)),
            final(self).flags == old(self).flags,
            final(self).memory == old(self).memory,
    {
        match rp {
            0b00 => {
                self.registers.B = high;
                self.registers.C = low;
            },
            0b01 => {
                self.registers.D = high;
                self.registers.E = low;
            },
            0b10 => {
                self.registers.H = high;
                self.registers.L = low;
            },
            _ => {
                self.registers.SP = merge_bytes(high, low);
            },
        };
    }

    /// Adds `value` (plus the incoming Carry when `carry_in`) into the
    /// accumulator and recomputes all five flags from the unclamped sum and
    /// the operands' low nibbles.
    fn add(&mut self, value: u8, carry_in: bool)
        ensures
            final(self).registers == (Registers {
                A: spec_add_res(old(self).registers.A, value, if carry_in { 1int } else { 0int }),
                ..old(self).registers
            }),
            final(self).flags == spec_add_flags(
                old(self).registers.A,
                value,
                if carry_in { 1int } else { 0int },
            ),
            final(self).memory == old(self).memory,
    {
        let cin: u8 = if carry_in { 1 } else { 0 };
        let a = self.registers.A;
        let result: u16 = a as u16 + value as u16 + cin as u16;
        let result_u8: u8 = (result % 256) as u8;
        self.flags.Z = result_u8 == 0;
        self.flags.S = result_u8 & 0x80 != 0;
        self.flags.C = result > 0xff;
        self.flags.P = check_even_parity(result_u8);
        self.flags.AC = (a & 0x0f) as u16 + (value & 0x0f) as u16 + cin as u16 > 0x0f;
        self.registers.A = result_u8;
    }

    /// Subtracts `value` (plus the incoming Carry as a borrow when
    /// `borrow_in`) from the accumulator, mirroring addition's flag rules
    /// with borrow in place of carry.
    fn sub(&mut self, value: u8, borrow_in: bool)
        ensures
            final(self).registers == (Registers {
                A: spec_sub_res(old(self).registers.A, value, if borrow_in { 1int } else { 0int }),
                ..old(self).registers
            }),
            final(self).flags == spec_sub_flags(
                old(self).registers.A,
                value,
                if borrow_in { 1int } else { 0int },
            ),
            final(self).memory == old(self).memory,
    {
        let bin: u8 = if borrow_in { 1 } else { 0 };
        let a = self.registers.A;
        let result: u16 = 512 + a as u16 - value as u16 - bin as u16;
        let result_u8: u8 = (result % 256) as u8;
        self.flags.Z = result_u8 == 0;
        self.flags.S = result_u8 & 0x80 != 0;
        self.flags.C = value as u16 + bin as u16 > a as u16;
        self.flags.P = check_even_parity(result_u8);
        self.flags.AC = (value & 0x0f) as u16 + bin as u16 > (a & 0x0f) as u16;
        self.registers.A = result_u8;
    }

    /// Sets the flags of comparing the accumulator with `value`: the
    /// subtraction's flags, with the accumulator kept.
    fn compare(&mut self, value: u8)
        ensures
            final(self).registers == old(self).registers,
            final(self).flags == spec_sub_flags(old(self).registers.A, value, 0),
            final(self).memory == old(self).memory,
    {
        let a = self.registers.A;
        self.sub(value, false);
        self.registers.A = a;
    }

    /// Stores a logical operation's result in the accumulator: Carry and
    /// Auxiliary Carry are cleared, the other flags follow the result byte.
    fn set_logic_result(&mut self, res: u8)
        ensures
            final(self).registers == (Registers { A: res, ..old(self).registers }),
            final(self).flags == spec_logic_flags(res),
            final(self).memory == old(self).memory,
    {
        self.flags.Z = res == 0;
        self.flags.S = res & 0x80 != 0;
        self.flags.C = false;
        self.flags.P = check_even_parity(res);
        self.flags.AC = false;
        self.registers.A = res;
    }

    /// Increments an operand-table slot; Carry is left untouched.
    fn inr(&mut self, dest: u8)
        requires
            old(self).wf(),
            dest < 8,
        ensures
            final(self).wf(),
            slot_flags_rel(
                *old(self),
                *final(self),
                dest,
                wrap8_inc(src_value(*old(self), dest)),
                spec_inr_flags(src_value(*old(self), dest), old(self).flags.C),
                old(self).registers.PC,
            ),
    {
        let value = self.get_source(dest);
        let result: u8 = if value == 255 {
            0
        } else {
            value + 1
        };
        self.set_dest(dest, result);
        self.flags.Z = result == 0;
        self.flags.S = result & 0x80 != 0;
        self.flags.P = check_even_parity(result);
        self.flags.AC = (value & 0x0f) as u16 + 1 > 0x0f;
    }

    /// Decrements an operand-table slot; Carry is left untouched.
    fn dcr(&mut self, dest: u8)
        requires
            old(self).wf(),
            dest < 8,
        ensures
            final(self).wf(),
            slot_flags_rel(
                *old(self),
                *final(self),
                dest,
                wrap8_dec(src_value(*old(self), dest)),
                spec_dcr_flags(src_value(*old(self), dest), old(self).flags.C),
                old(self).registers.PC,
            ),
    {
        let value = self.get_source(dest);
        let result: u8 = if value == 0 {
            255
        } else {
            value - 1
        };
        self.set_dest(dest, result);
        self.flags.Z = result == 0;
        self.flags.S = result & 0x80 != 0;
        self.flags.P = check_even_parity(result);
        self.flags.AC = value & 0x0f == 0;
    }

    /// Reads the two operand bytes, low byte first, and jumps to the address
    /// they form.
    fn jmp(&mut self)
        requires
            old(self).wf(),
        ensures
            final(self).wf(),
            final(self).registers == (Registers {
                PC: spec_merge(
                    old(self).memory@[wrap16(old(self).registers.PC + 1) as int],
                    old(self).memory@[old(self).registers.PC as int],
                ),
                ..old(self).registers
            }),
            final(self).flags == old(self).flags,
            final(self).memory == old(self).memory,
    {
        let b2 = self.get_next_byte();
        let b3 = self.get_next_byte();
        self.registers.PC = merge_bytes(b3, b2);
    }

    /// Reads the two operand bytes, pushes the address past them (high byte
    /// at SP-1, low byte at SP-2, then SP falls by two) and jumps to the
    /// address the operands form.
    fn call(&mut self)
        requires
            old(self).wf(),
            old(self).registers.SP >= 2,
        ensures
            final(self).wf(),
            final(self).memory@ == old(self).memory@.update(
                old(self).registers.SP - 1,
                high_byte(wrap16(old(self).registers.PC + 2)),
            ).update(old(self).registers.SP - 2, low_byte(wrap16(old(self).registers.PC + 2))),
            final(self).registers == (Registers {
                PC: spec_merge(
                    old(self).memory@[wrap16(old(self).registers.PC + 1) as int],
                    old(self).memory@[old(self).registers.PC as int],
                ),
                SP: (old(self).registers.SP - 2) as u16,
                ..old(self).registers
            }),
            final(self).flags == old(self).flags,
    {
        let low = self.get_next_byte();
        let high = self.get_next_byte();
        let sp = self.registers.SP;
        let ret = self.registers.PC;
        self.memory.set((sp - 1) as usize, (ret / 256) as u8);
        self.memory.set((sp - 2) as usize, (ret % 256) as u8);
        self.registers.SP = sp - 2;
        self.registers.PC = merge_bytes(high, low);
    }

    /// Reassembles the resume address from memory at SP (low byte) and SP+1
    /// (high byte), jumps there, and raises SP by two.
    fn ret(&mut self)
        requires
            old(self).wf(),
            old(self).registers.SP <= 0xfffd,
        ensures
            final(self).wf(),
            final(self).registers == (Registers {
                PC: spec_merge(
                    old(self).memory@[old(self).registers.SP + 1],
                    old(self).memory@[old(self).registers.SP as int],
                ),
                SP: (old(self).registers.SP + 2) as u16,
                ..old(self).registers
            }),
            final(self).flags == old(self).flags,
            final(self).memory == old(self).memory,
    {
        let sp = self.registers.SP;
        let sp_low = self.memory[sp as usize];
        let sp_high = self.memory[(sp + 1) as usize];
        self.registers.PC = merge_bytes(sp_high, sp_low);
        self.registers.SP = sp + 2;
    }

    /// Pushes the current program counter like a call and jumps to the fixed
    /// vector held in opcode bits 5-3.
    fn rst(&mut self, opcode: u8)
        requires
            old(self).wf(),
            old(self).registers.SP >= 2,
        ensures
            final(self).wf(),
            final(self).memory@ == old(self).memory@.update(
                old(self).registers.SP - 1,
                high_byte(old(self).registers.PC),
            ).update(old(self).registers.SP - 2, low_byte(old(self).registers.PC)),
            final(self).registers == (Registers {
                PC: (opcode & 0x38) as u16,
                SP: (old(self).registers.SP - 2) as u16,
                ..old(self).registers
            }),
            final(self).flags == old(self).flags,
    {
        let sp = self.registers.SP;
        let pc = self.registers.PC;
        self.memory.set((sp - 1) as usize, (pc / 256) as u8);
        self.memory.set((sp - 2) as usize, (pc % 256) as u8);
        self.registers.SP = sp - 2;
        self.registers.PC = (opcode & 0b111000) as u16;
    }

    /// One fetch-decode-execute cycle: reads the opcode at the program
    /// counter, executes exactly one instruction's semantics (consuming its
    /// operand bytes), and reports how the cycle ended. On a fault — an
    /// unimplemented opcode, or a stack operation that would cross the
    /// memory bounds — no register, flag or memory cell is touched, so the
    /// machine itself is the diagnostic snapshot.
    pub fn execute_cycle(&mut self) -> (r: Outcome)
        requires
            old(self).wf(),
        ensures
            final(self).wf(),
            cycle_rel(*old(self), *final(self), r),
    {
        let opcode = self.memory[self.registers.PC as usize];
        if opcode < 0x40 {
            self.cycle_data_low(opcode)
        } else if opcode < 0x80 {
            self.cycle_mov(opcode)
        } else if opcode < 0xc0 {
            self.cycle_alu(opcode)
        } else {
            self.cycle_ctrl(opcode)
        }
    }

    /// The 0x00-0x3f quadrant: NOP, the immediate loads, the direct and
    /// indirect transfers, and the increment family.
    #[verifier::rlimit(100)]
    #[verifier::spinoff_prover]
    fn cycle_data_low(&mut self, opcode: u8) -> (r: Outcome)
        requires
            old(self).wf(),
            opcode == crate::isa::opcode_at(*old(self)),
            opcode < 0x40,
        ensures
            final(self).wf(),
            cycle_rel(*old(self), *final(self), r),
    {
        proof {
            let pc0 = old(self).registers.PC as int;
            lemma_wrap16_add(pc0, 1, 1);
            lemma_wrap16_add(pc0, 2, 1);
            lemma_op_fields(opcode);
        }
        match opcode {
            0x00 => {
                // NOP
                self.advance_pc(1);
                Outcome::Normal
            },
            0x06 | 0x0e | 0x16 | 0x1e | 0x26 | 0x2e | 0x36 | 0x3e => {
                // MVI
                self.advance_pc(1);
                let data = self.get_next_byte();
                let dest = (opcode >> 3) & 0b111;
                self.set_dest(dest, data);
                Outcome::Normal
            },
            0x01 | 0x11 | 0x21 | 0x31 => {
                // LXI
                self.advance_pc(1);
                let low = self.get_next_byte();
                let high = self.get_next_byte();
                let rp = (opcode >> 4) & 0b11;
                self.set_pair(rp, high, low);
                Outcome::Normal
            },
            0x3a => {
                // LDA
                self.advance_pc(1);
                let low = self.get_next_byte();
                let high = self.get_next_byte();
                let addr = merge_bytes(high, low);
                self.registers.A = self.memory[addr as usize];
                Outcome::Normal
            },
            0x32 => {
                // STA
                self.advance_pc(1);
                let low = self.get_next_byte();
                let high = self.get_next_byte();
                let addr = merge_bytes(high, low);
                let a = self.registers.A;
                self.memory.set(addr as usize, a);
                Outcome::Normal
            },
            0x2a => {
                // LHLD
                self.advance_pc(1);
                let low = self.get_next_byte();
                let high = self.get_next_byte();
                let addr = merge_bytes(high, low);
                self.registers.L = self.memory[addr as usize];
                let addr2: u16 = if addr == 0xffff {
                    0
                } else {
                    addr + 1
                };
                self.registers.H = self.memory[addr2 as usize];
                Outcome::Normal
            },
            0x22 => {
                // SHLD
                self.advance_pc(1);
                let low = self.get_next_byte();
                let high = self.get_next_byte();
                let addr = merge_bytes(high, low);
                let l = self.registers.L;
                self.memory.set(addr as usize, l);
                let addr2: u16 = if addr == 0xffff {
                    0
                } else {
                    addr + 1
                };
                let h = self.registers.H;
                self.memory.set(addr2 as usize, h);
                Outcome::Normal
            },
            0x0a | 0x1a => {
                // LDAX
                self.advance_pc(1);
                let rp = (opcode >> 4) & 0b11;
                let (high, low) = self.get_source_pair(rp);
                let addr = merge_bytes(high, low);
                proof {
                    lemma_split_join(pair_val(old(self).registers, (opcode >> 4) & 0b11));
                }
                self.registers.A = self.memory[addr as usize];
                Outcome::Normal
            },
            0x02 | 0x12 => {
                // STAX
                self.advance_pc(1);
                let rp = (opcode >> 4) & 0b11;
                let (high, low) = self.get_source_pair(rp);
                let addr = merge_bytes(high, low);
                proof {
                    lemma_split_join(pair_val(old(self).registers, (opcode >> 4) & 0b11));
                }
                let a = self.registers.A;
                self.memory.set(addr as usize, a);
                Outcome::Normal
            },
            // Increment and decrement
            0x04 | 0x0c | 0x14 | 0x1c | 0x24 | 0x2c | 0x34 | 0x3c => {
                // INR
                self.advance_pc(1);
                let dest = (opcode >> 3) & 0b111;
                self.inr(dest);
                Outcome::Normal
            },
            0x05 | 0x0d | 0x15 | 0x1d | 0x25 | 0x2d | 0x35 | 0x3d => {
                // DCR
                self.advance_pc(1);
                let dest = (opcode >> 3) & 0b111;
                self.dcr(dest);
                Outcome::Normal
            },
            0x03 | 0x13 | 0x23 | 0x33 => {
                // INX
                self.advance_pc(1);
                let rp = (opcode >> 4) & 0b11;
                let (high, low) = self.get_source_pair(rp);
                let merged = merge_bytes(high, low);
                proof {
                    lemma_split_join(pair_val(old(self).registers, (opcode >> 4) & 0b11));
                }
                let sum: u16 = if merged == 0xffff {
                    0
                } else {
                    merged + 1
                };
                proof {
                    lemma_split_join(sum);
                }
                self.set_pair(rp, (sum / 256) as u8, (sum % 256) as u8);
                Outcome::Normal
            },
            0x0b | 0x1b | 0x2b | 0x3b => {
                // DCX
                self.advance_pc(1);
                let rp = (opcode >> 4) & 0b11;
                let (high, low) = self.get_source_pair(rp);
                let merged = merge_bytes(high, low);
                proof {
                    lemma_split_join(pair_val(old(self).registers, (opcode >> 4) & 0b11));
                }
                let sum: u16 = if merged == 0 {
                    0xffff
                } else {
                    merged - 1
                };
                proof {
                    lemma_split_join(sum);
                }
                self.set_pair(rp, (sum / 256) as u8, (sum % 256) as u8);
                Outcome::Normal
            },
            _ => Outcome::Unimplemented { opcode, pc: self.registers.PC },
        }
    }

    /// The 0x40-0x7f quadrant: the register-to-register move family, with
    /// the halt encoding in its midst.
    #[verifier::rlimit(100)]
    #[verifier::spinoff_prover]
    fn cycle_mov(&mut self, opcode: u8) -> (r: Outcome)
        requires
            old(self).wf(),
            opcode == crate::isa::opcode_at(*old(self)),
            0x40 <= opcode < 0x80,
        ensures
            final(self).wf(),
            cycle_rel(*old(self), *final(self), r),
    {
        proof {
            lemma_op_fields(opcode);
        }
        if opcode == 0x76 {
            // HLT: stop fetching, leave the state for inspection
            self.advance_pc(1);
            Outcome::Halted
        } else {
            // MOV r1, r2 (copy r2 to r1)
            self.advance_pc(1);
            let dest = (opcode >> 3) & 0b111;
            let src = opcode & 0b111;
            let r2 = self.get_source(src);
            self.set_dest(dest, r2);
            Outcome::Normal
        }
    }

    /// The 0x80-0xbf quadrant: the register forms of the arithmetic,
    /// logical and compare families.
    #[verifier::rlimit(100)]
    #[verifier::spinoff_prover]
    fn cycle_alu(&mut self, opcode: u8) -> (r: Outcome)
        requires
            old(self).wf(),
            opcode == crate::isa::opcode_at(*old(self)),
            0x80 <= opcode < 0xc0,
        ensures
            final(self).wf(),
            cycle_rel(*old(self), *final(self), r),
    {
        proof {
            lemma_op_fields(opcode);
        }
        let src = opcode & 0b111;
        let r2 = self.get_source(src);
        self.advance_pc(1);
        match opcode {
            0x80..=0x87 => {
                // ADD
                self.add(r2, false);
                Outcome::Normal
            },
            0x88..=0x8f => {
                // ADC
                let carry = self.flags.C;
                self.add(r2, carry);
                Outcome::Normal
            },
            0x90..=0x97 => {
                // SUB
                self.sub(r2, false);
                Outcome::Normal
            },
            0x98..=0x9f => {
                // SBB
                let carry = self.flags.C;
                self.sub(r2, carry);
                Outcome::Normal
            },
            0xa0..=0xa7 => {
                // ANA
                let res = self.registers.A & r2;
                self.set_logic_result(res);
                Outcome::Normal
            },
            0xa8..=0xaf => {
                // XRA
                let res = self.registers.A ^ r2;
                self.set_logic_result(res);
                Outcome::Normal
            },
            0xb0..=0xb7 => {
                // ORA
                let res = self.registers.A | r2;
                self.set_logic_result(res);
                Outcome::Normal
            },
            _ => {
                // CMP
                self.compare(r2);
                Outcome::Normal
            },
        }
    }

    /// The 0xc0-0xff quadrant: branches, calls, returns and restarts, the
    /// immediate forms of the arithmetic and logical families, the exchange,
    /// and the indirect jump through HL.
    #[verifier::rlimit(100)]
    #[verifier::spinoff_prover]
    fn cycle_ctrl(&mut self, opcode: u8) -> (r: Outcome)
        requires
            old(self).wf(),
            opcode == crate::isa::opcode_at(*old(self)),
            opcode >= 0xc0,
        ensures
            final(self).wf(),
            cycle_rel(*old(self), *final(self), r),
    {
        proof {
            let pc0 = old(self).registers.PC as int;
            lemma_wrap16_add(pc0, 1, 1);
            lemma_wrap16_add(pc0, 1, 2);
            lemma_op_fields(opcode);
            lemma_cond_field_values();
        }
        match opcode {
            0xc6 => {
                // ADI
                self.advance_pc(1);
                let data = self.get_next_byte();
                self.add(data, false);
                Outcome::Normal
            },
            0xce => {
                // ACI
                self.advance_pc(1);
                let data = self.get_next_byte();
                let carry = self.flags.C;
                self.add(data, carry);
                Outcome::Normal
            },
            0xd6 => {
                // SUI
                self.advance_pc(1);
                let data = self.get_next_byte();
                self.sub(data, false);
                Outcome::Normal
            },
            0xde => {
                // SBI
                self.advance_pc(1);
                let data = self.get_next_byte();
                let carry = self.flags.C;
                self.sub(data, carry);
                Outcome::Normal
            },
            0xe6 => {
                // ANI
                self.advance_pc(1);
                let data = self.get_next_byte();
                let res = self.registers.A & data;
                self.set_logic_result(res);
                Outcome::Normal
            },
            0xee => {
                // XRI
                self.advance_pc(1);
                let data = self.get_next_byte();
                let res = self.registers.A ^ data;
                self.set_logic_result(res);
                Outcome::Normal
            },
            0xf6 => {
                // ORI
                self.advance_pc(1);
                let data = self.get_next_byte();
                let res = self.registers.A | data;
                self.set_logic_result(res);
                Outcome::Normal
            },
            0xfe => {
                // CPI
                self.advance_pc(1);
                let data = self.get_next_byte();
                self.compare(data);
                Outcome::Normal
            },
            0xeb => {
                // XCHG
                self.advance_pc(1);
                let h = self.registers.H;
                let l = self.registers.L;
                self.registers.H = self.registers.D;
                self.registers.L = self.registers.E;
                self.registers.D = h;
                self.registers.E = l;
                Outcome::Normal
            },
            0xc3 => {
                // JMP
                self.advance_pc(1);
                self.jmp();
                Outcome::Normal
            },
            0xc2 | 0xca | 0xd2 | 0xda | 0xe2 | 0xea | 0xf2 | 0xfa => {
                // conditional jumps: JNZ JZ JNC JC JPO JPE JP JM
                if self.test_condition((opcode >> 3) & 0b111) {
                    self.advance_pc(1);
                    self.jmp();
                } else {
                    self.advance_pc(3);
                }
                Outcome::Normal
            },
            0xcd => {
                // CALL
                if self.registers.SP < 2 {
                    return Outcome::OutOfBounds { pc: self.registers.PC, sp: self.registers.SP };
                }
                self.advance_pc(1);
                self.call();
                Outcome::Normal
            },
            0xc4 | 0xcc | 0xd4 | 0xdc | 0xe4 | 0xec | 0xf4 | 0xfc => {
                // conditional calls: CNZ CZ CNC CC CPO CPE CP CM
                if self.test_condition((opcode >> 3) & 0b111) {
                    if self.registers.SP < 2 {
                        return Outcome::OutOfBounds {
                            pc: self.registers.PC,
                            sp: self.registers.SP,
                        };
                    }
                    self.advance_pc(1);
                    self.call();
                } else {
                    self.advance_pc(3);
                }
                Outcome::Normal
            },
            0xc9 => {
                // RET
                if self.registers.SP > 0xfffd {
                    return Outcome::OutOfBounds { pc: self.registers.PC, sp: self.registers.SP };
                }
                self.advance_pc(1);
                self.ret();
                Outcome::Normal
            },
            0xc0 | 0xc8 | 0xd0 | 0xd8 | 0xe0 | 0xe8 | 0xf0 | 0xf8 => {
                // conditional returns: RNZ RZ RNC RC RPO RPE RP RM
                if self.test_condition((opcode >> 3) & 0b111) {
                    if self.registers.SP > 0xfffd {
                        return Outcome::OutOfBounds {
                            pc: self.registers.PC,
                            sp: self.registers.SP,
                        };
                    }
                    self.advance_pc(1);
                    self.ret();
                } else {
                    self.advance_pc(1);
                }
                Outcome::Normal
            },
            0xc7 | 0xcf | 0xd7 | 0xdf | 0xe7 | 0xef | 0xf7 | 0xff => {
                // RST
                if self.registers.SP < 2 {
                    return Outcome::OutOfBounds { pc: self.registers.PC, sp: self.registers.SP };
                }
                self.advance_pc(1);
                self.rst(opcode);
                Outcome::Normal
            },
            0xe9 => {
                // PCHL
                let addr = merge_bytes(self.registers.H, self.registers.L);
                self.registers.PC = addr;
                Outcome::Normal
            },
            _ => Outcome::Unimplemented { opcode, pc: self.registers.PC },
        }
    }

    /// Drives the engine cycle after cycle until one does not complete
    /// normally — a halt, an unimplemented opcode, or a stack operation
    /// crossing the memory bounds — or until `max_cycles` cycles have run.
    /// An abnormal outcome says how the run stopped; a normal one says the
    /// budget ran out with the machine still running, ready for another
    /// call. Either way the machine holds a snapshot reached from the
    /// starting state by a chain of normally completed cycles.
    pub fn run(&mut self, max_cycles: u64) -> (r: Outcome)
        requires
            old(self).wf(),
        ensures
            final(self).wf(),
            r != Outcome::Normal ==> crate::isa::runs_to(*old(self), *final(self), r),
            r == Outcome::Normal ==> crate::isa::reaches(*old(self), *final(self), max_cycles as int),
    {
        let ghost mut t: Seq<I8080> = seq![*self];
        let mut cycles: u64 = 0;
        loop
            invariant
                self.wf(),
                cycles <= max_cycles,
                t.len() == cycles + 1,
                t[0] == *old(self),
                crate::isa::trace_ok(t),
                t[t.len() - 1] == *self,
            decreases max_cycles - cycles,
        {
            if cycles >= max_cycles {
                proof {
                    assert(t.len() == max_cycles + 1 && t[0] == *old(self) && crate::isa::trace_ok(
                        t,
                    ) && t[t.len() - 1] == *self);
                }
                return Outcome::Normal;
            }
            cycles = cycles + 1;
            let ghost prev: I8080 = *self;
            let r = self.execute_cycle();
            match r {
                Outcome::Normal => {
                    proof {
                        let t2 = t + seq![*self];
                        assert forall|i: int|
                            0 <= i < t2.len() - 1 implies #[trigger] cycle_rel(
                            t2[i],
                            t2[i + 1],
                            Outcome::Normal,
                        ) by {
                            if i < t.len() - 1 {
                                assert(t2[i] == t[i] && t2[i + 1] == t[i + 1]);
                            } else {
                                assert(t2[i] == prev && t2[i + 1] == *self);
                            }
                        }
                        t = t2;
                    }
                },
                _ => {
                    proof {
                        assert(t.len() >= 1 && t[0] == *old(self) && crate::isa::trace_ok(t)
                            && cycle_rel(t[t.len() - 1], *self, r));
                    }
                    return r;
                },
            }
        }
    }

    /// Tests the flag selected by a 3-bit condition field: NZ, Z, NC, C,
    /// PO, PE, P (plus), M (minus), in that order.
    fn test_condition(&self, ccc: u8) -> (taken: bool)
        requires
            ccc < 8,
        ensures
            taken == crate::isa::cond_holds(self.flags, ccc),
    {
        match ccc {
            0 => !self.flags.Z,
            1 => self.flags.Z,
            2 => !self.flags.C,
            3 => self.flags.C,
            4 => !self.flags.P,
            5 => self.flags.P,
            6 => !self.flags.S,
            _ => self.flags.S,
        }
    }
}

} // verus!
