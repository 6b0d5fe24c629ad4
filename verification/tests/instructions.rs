use i8080::cpu::{I8080, Outcome};

/// A machine with `program` loaded at address 0.
fn boot(program: &[u8]) -> I8080 {
    let mut m = I8080::new();
    m.load(&program.to_vec());
    m
}

#[test]
fn mov_register_to_register() {
    let mut m = boot(&[0x41]); // MOV B,C
    m.registers.C = 0x5a;
    let r = m.execute_cycle();
    assert_eq!(r, Outcome::Normal);
    assert_eq!(m.registers.B, 0x5a);
    assert_eq!(m.registers.C, 0x5a);
    assert_eq!(m.registers.PC, 1);
}

#[test]
fn mov_a_from_memory() {
    // MOV A,M with H=0x20, L=0x00 and memory[0x2000]=0x99 sets A to 0x99
    // without altering any flag.
    let mut m = boot(&[0x7e]);
    m.registers.H = 0x20;
    m.registers.L = 0x00;
    m.memory[0x2000] = 0x99;
    m.flags.Z = true;
    m.flags.C = true;
    m.flags.S = false;
    m.flags.P = true;
    m.flags.AC = false;
    let r = m.execute_cycle();
    assert_eq!(r, Outcome::Normal);
    assert_eq!(m.registers.A, 0x99);
    assert_eq!(m.registers.PC, 1);
    assert!(m.flags.Z);
    assert!(m.flags.C);
    assert!(!m.flags.S);
    assert!(m.flags.P);
    assert!(!m.flags.AC);
}

#[test]
fn mov_memory_from_register() {
    let mut m = boot(&[0x77]); // MOV M,A
    m.registers.A = 0xab;
    m.registers.H = 0x12;
    m.registers.L = 0x34;
    let r = m.execute_cycle();
    assert_eq!(r, Outcome::Normal);
    assert_eq!(m.memory[0x1234], 0xab);
}

#[test]
fn mvi_register_and_memory() {
    let mut m = boot(&[0x06, 0x77]); // MVI B, 0x77
    let r = m.execute_cycle();
    assert_eq!(r, Outcome::Normal);
    assert_eq!(m.registers.B, 0x77);
    assert_eq!(m.registers.PC, 2);

    let mut m = boot(&[0x36, 0x5c]); // MVI M, 0x5c
    m.registers.H = 0x40;
    m.registers.L = 0x01;
    let r = m.execute_cycle();
    assert_eq!(r, Outcome::Normal);
    assert_eq!(m.memory[0x4001], 0x5c);
    assert_eq!(m.registers.PC, 2);
}

#[test]
fn lxi_is_little_endian() {
    // Opcode 0x01 with bytes [0x34, 0x12] following sets C (low-order) to
    // 0x34 and B (high-order) to 0x12.
    let mut m = boot(&[0x01, 0x34, 0x12]);
    let r = m.execute_cycle();
    assert_eq!(r, Outcome::Normal);
    assert_eq!(m.registers.C, 0x34);
    assert_eq!(m.registers.B, 0x12);
    assert_eq!(m.registers.PC, 3);
}

#[test]
fn lxi_sp_loads_whole_word() {
    let mut m = boot(&[0x31, 0xcd, 0xab]); // LXI SP, 0xabcd
    let r = m.execute_cycle();
    assert_eq!(r, Outcome::Normal);
    assert_eq!(m.registers.SP, 0xabcd);
    assert_eq!(m.registers.PC, 3);
}

#[test]
fn lda_and_sta_use_direct_address() {
    let mut m = boot(&[0x3a, 0x34, 0x12]); // LDA 0x1234
    m.memory[0x1234] = 0x42;
    let r = m.execute_cycle();
    assert_eq!(r, Outcome::Normal);
    assert_eq!(m.registers.A, 0x42);
    assert_eq!(m.registers.PC, 3);

    let mut m = boot(&[0x32, 0x00, 0x80]); // STA 0x8000
    m.registers.A = 0x9f;
    let r = m.execute_cycle();
    assert_eq!(r, Outcome::Normal);
    assert_eq!(m.memory[0x8000], 0x9f);
    assert_eq!(m.registers.PC, 3);
}

#[test]
fn lhld_and_shld_move_both_bytes() {
    let mut m = boot(&[0x2a, 0x34, 0x12]); // LHLD 0x1234
    m.memory[0x1234] = 0xcd;
    m.memory[0x1235] = 0xab;
    let r = m.execute_cycle();
    assert_eq!(r, Outcome::Normal);
    assert_eq!(m.registers.L, 0xcd);
    assert_eq!(m.registers.H, 0xab);

    let mut m = boot(&[0x22, 0x00, 0x40]); // SHLD 0x4000
    m.registers.H = 0x12;
    m.registers.L = 0x34;
    let r = m.execute_cycle();
    assert_eq!(r, Outcome::Normal);
    assert_eq!(m.memory[0x4000], 0x34);
    assert_eq!(m.memory[0x4001], 0x12);
}

#[test]
fn lhld_wraps_at_top_of_memory() {
    let mut m = boot(&[0x2a, 0xff, 0xff]); // LHLD 0xffff
    m.memory[0xffff] = 0x42;
    let r = m.execute_cycle();
    assert_eq!(r, Outcome::Normal);
    assert_eq!(m.registers.L, 0x42);
    // the second byte comes from address 0, which holds the opcode itself
    assert_eq!(m.registers.H, 0x2a);
}

#[test]
fn ldax_and_stax_use_register_pair() {
    let mut m = boot(&[0x0a]); // LDAX B
    m.registers.B = 0x20;
    m.registers.C = 0x05;
    m.memory[0x2005] = 0x7b;
    let r = m.execute_cycle();
    assert_eq!(r, Outcome::Normal);
    assert_eq!(m.registers.A, 0x7b);

    let mut m = boot(&[0x12]); // STAX D
    m.registers.D = 0x30;
    m.registers.E = 0x09;
    m.registers.A = 0x66;
    let r = m.execute_cycle();
    assert_eq!(r, Outcome::Normal);
    assert_eq!(m.memory[0x3009], 0x66);
}

#[test]
fn xchg_swaps_hl_and_de() {
    let mut m = boot(&[0xeb]);
    m.registers.H = 1;
    m.registers.L = 2;
    m.registers.D = 3;
    m.registers.E = 4;
    let r = m.execute_cycle();
    assert_eq!(r, Outcome::Normal);
    assert_eq!((m.registers.H, m.registers.L), (3, 4));
    assert_eq!((m.registers.D, m.registers.E), (1, 2));
}

#[test]
fn add_sets_flags_from_unclamped_sum() {
    // 200 + 100 = 300: result byte 44, carry out, odd parity.
    let mut m = boot(&[0x80]); // ADD B
    m.registers.A = 200;
    m.registers.B = 100;
    let r = m.execute_cycle();
    assert_eq!(r, Outcome::Normal);
    assert_eq!(m.registers.A, 44);
    assert!(!m.flags.Z);
    assert!(m.flags.C);
    assert!(!m.flags.S);
    assert!(!m.flags.P); // 44 = 0b00101100 has three set bits
    assert!(!m.flags.AC); // low nibbles 8 + 4 do not carry
}

#[test]
fn add_to_zero_sets_zero_and_carry() {
    let mut m = boot(&[0x87]); // ADD A
    m.registers.A = 0x80;
    let r = m.execute_cycle();
    assert_eq!(r, Outcome::Normal);
    assert_eq!(m.registers.A, 0);
    assert!(m.flags.Z);
    assert!(m.flags.C);
    assert!(m.flags.P); // zero set bits is even
    assert!(!m.flags.S);
}

#[test]
fn add_nibble_carry_sets_auxiliary() {
    let mut m = boot(&[0x80]); // ADD B
    m.registers.A = 0x0f;
    m.registers.B = 0x01;
    let r = m.execute_cycle();
    assert_eq!(r, Outcome::Normal);
    assert_eq!(m.registers.A, 0x10);
    assert!(m.flags.AC);
    assert!(!m.flags.C);
}

#[test]
fn adc_adds_the_carry_bit() {
    let mut m = boot(&[0x88]); // ADC B
    m.registers.A = 1;
    m.registers.B = 2;
    m.flags.C = true;
    let r = m.execute_cycle();
    assert_eq!(r, Outcome::Normal);
    assert_eq!(m.registers.A, 4);
    assert!(!m.flags.C);
}

#[test]
fn adi_and_aci_take_immediates() {
    let mut m = boot(&[0xc6, 0x05]); // ADI 5
    m.registers.A = 7;
    let r = m.execute_cycle();
    assert_eq!(r, Outcome::Normal);
    assert_eq!(m.registers.A, 12);
    assert_eq!(m.registers.PC, 2);

    let mut m = boot(&[0xce, 0xff]); // ACI 0xff with carry: 1 + 255 + 1 = 257
    m.registers.A = 1;
    m.flags.C = true;
    let r = m.execute_cycle();
    assert_eq!(r, Outcome::Normal);
    assert_eq!(m.registers.A, 1);
    assert!(m.flags.C);
}

#[test]
fn sub_borrow_and_flags() {
    let mut m = boot(&[0x90]); // SUB B
    m.registers.A = 10;
    m.registers.B = 20;
    let r = m.execute_cycle();
    assert_eq!(r, Outcome::Normal);
    assert_eq!(m.registers.A, 246);
    assert!(m.flags.C); // borrow
    assert!(m.flags.S); // 0xf6 has its top bit set
    assert!(m.flags.P); // 0xf6 = 0b11110110 has six set bits
    assert!(!m.flags.Z);
    assert!(!m.flags.AC); // low nibble 4 does not out-borrow 10
}

#[test]
fn sub_self_is_zero() {
    let mut m = boot(&[0x97]); // SUB A
    m.registers.A = 0x3c;
    let r = m.execute_cycle();
    assert_eq!(r, Outcome::Normal);
    assert_eq!(m.registers.A, 0);
    assert!(m.flags.Z);
    assert!(!m.flags.C);
}

#[test]
fn sbb_subtracts_the_borrow() {
    let mut m = boot(&[0x98]); // SBB B
    m.registers.A = 5;
    m.registers.B = 2;
    m.flags.C = true;
    let r = m.execute_cycle();
    assert_eq!(r, Outcome::Normal);
    assert_eq!(m.registers.A, 2);
    assert!(!m.flags.C);
}

#[test]
fn sui_and_sbi_take_immediates() {
    let mut m = boot(&[0xd6, 0x01]); // SUI 1
    m.registers.A = 0;
    let r = m.execute_cycle();
    assert_eq!(r, Outcome::Normal);
    assert_eq!(m.registers.A, 0xff);
    assert!(m.flags.C);

    let mut m = boot(&[0xde, 0x01]); // SBI 1 with carry: 10 - 1 - 1
    m.registers.A = 10;
    m.flags.C = true;
    let r = m.execute_cycle();
    assert_eq!(r, Outcome::Normal);
    assert_eq!(m.registers.A, 8);
}

#[test]
fn logical_family_clears_carry() {
    let mut m = boot(&[0xa0]); // ANA B
    m.registers.A = 0xcc;
    m.registers.B = 0xaa;
    m.flags.C = true;
    m.flags.AC = true;
    let r = m.execute_cycle();
    assert_eq!(r, Outcome::Normal);
    assert_eq!(m.registers.A, 0x88);
    assert!(!m.flags.C);
    assert!(!m.flags.AC);
    assert!(m.flags.S);
    assert!(m.flags.P); // two set bits

    let mut m = boot(&[0xaf]); // XRA A: the classic clear idiom
    m.registers.A = 0x5f;
    m.flags.C = true;
    let r = m.execute_cycle();
    assert_eq!(r, Outcome::Normal);
    assert_eq!(m.registers.A, 0);
    assert!(m.flags.Z);
    assert!(!m.flags.C);

    let mut m = boot(&[0xb0]); // ORA B
    m.registers.A = 0x0f;
    m.registers.B = 0xf0;
    let r = m.execute_cycle();
    assert_eq!(r, Outcome::Normal);
    assert_eq!(m.registers.A, 0xff);
    assert!(m.flags.S);
    assert!(m.flags.P); // eight set bits
}

#[test]
fn ani_xri_ori_take_immediates() {
    let mut m = boot(&[0xe6, 0x0f]); // ANI 0x0f
    m.registers.A = 0x3c;
    let r = m.execute_cycle();
    assert_eq!(r, Outcome::Normal);
    assert_eq!(m.registers.A, 0x0c);

    let mut m = boot(&[0xee, 0xff]); // XRI 0xff
    m.registers.A = 0x55;
    let r = m.execute_cycle();
    assert_eq!(r, Outcome::Normal);
    assert_eq!(m.registers.A, 0xaa);

    let mut m = boot(&[0xf6, 0x80]); // ORI 0x80
    m.registers.A = 0x01;
    let r = m.execute_cycle();
    assert_eq!(r, Outcome::Normal);
    assert_eq!(m.registers.A, 0x81);
}

#[test]
fn cmp_and_cpi_keep_the_accumulator() {
    let mut m = boot(&[0xb8]); // CMP B
    m.registers.A = 5;
    m.registers.B = 9;
    let r = m.execute_cycle();
    assert_eq!(r, Outcome::Normal);
    assert_eq!(m.registers.A, 5);
    assert!(m.flags.C); // 5 < 9 borrows
    assert!(!m.flags.Z);

    let mut m = boot(&[0xfe, 0x05]); // CPI 5
    m.registers.A = 5;
    let r = m.execute_cycle();
    assert_eq!(r, Outcome::Normal);
    assert_eq!(m.registers.A, 5);
    assert!(m.flags.Z);
    assert!(!m.flags.C);
}

#[test]
fn inr_leaves_carry_and_sets_the_rest() {
    let mut m = boot(&[0x3c]); // INR A
    m.registers.A = 0x0f;
    m.flags.C = true;
    let r = m.execute_cycle();
    assert_eq!(r, Outcome::Normal);
    assert_eq!(m.registers.A, 0x10);
    assert!(m.flags.C); // untouched
    assert!(m.flags.AC); // nibble carry out of 0x0f + 1
    assert!(!m.flags.Z);
    assert!(!m.flags.S);
    assert!(!m.flags.P); // one set bit
}

#[test]
fn inr_wraps_to_zero() {
    let mut m = boot(&[0x04]); // INR B
    m.registers.B = 0xff;
    m.flags.C = false;
    let r = m.execute_cycle();
    assert_eq!(r, Outcome::Normal);
    assert_eq!(m.registers.B, 0);
    assert!(!m.flags.C); // still untouched
    assert!(m.flags.Z);
    assert!(m.flags.AC);
    assert!(m.flags.P);
}

#[test]
fn inr_on_memory_slot() {
    let mut m = boot(&[0x34]); // INR M
    m.registers.H = 0x21;
    m.registers.L = 0x00;
    m.memory[0x2100] = 9;
    let r = m.execute_cycle();
    assert_eq!(r, Outcome::Normal);
    assert_eq!(m.memory[0x2100], 10);
}

#[test]
fn dcr_borrows_from_the_nibble() {
    let mut m = boot(&[0x05]); // DCR B
    m.registers.B = 0x10;
    m.flags.C = true;
    let r = m.execute_cycle();
    assert_eq!(r, Outcome::Normal);
    assert_eq!(m.registers.B, 0x0f);
    assert!(m.flags.C); // untouched
    assert!(m.flags.AC); // low nibble was 0
    assert!(m.flags.P); // four set bits
    assert!(!m.flags.Z);

    let mut m = boot(&[0x0d]); // DCR C
    m.registers.C = 0;
    let r = m.execute_cycle();
    assert_eq!(r, Outcome::Normal);
    assert_eq!(m.registers.C, 0xff);
    assert!(m.flags.S);
}

#[test]
fn inx_redistributes_across_the_pair() {
    let mut m = boot(&[0x03]); // INX B
    m.registers.B = 0x38;
    m.registers.C = 0xff;
    let r = m.execute_cycle();
    assert_eq!(r, Outcome::Normal);
    assert_eq!(m.registers.B, 0x39);
    assert_eq!(m.registers.C, 0x00);
}

#[test]
fn inx_wraps_within_sixteen_bits() {
    let mut m = boot(&[0x23]); // INX H
    m.registers.H = 0xff;
    m.registers.L = 0xff;
    m.flags.C = false;
    let r = m.execute_cycle();
    assert_eq!(r, Outcome::Normal);
    assert_eq!(m.registers.H, 0);
    assert_eq!(m.registers.L, 0);
    assert!(!m.flags.C); // register-pair increments touch no flag

    let mut m = boot(&[0x33]); // INX SP
    m.registers.SP = 0xffff;
    let r = m.execute_cycle();
    assert_eq!(r, Outcome::Normal);
    assert_eq!(m.registers.SP, 0);
}

#[test]
fn add_from_memory_slot() {
    let mut m = boot(&[0x86]); // ADD M
    m.registers.A = 1;
    m.registers.H = 0x25;
    m.registers.L = 0x80;
    m.memory[0x2580] = 41;
    let r = m.execute_cycle();
    assert_eq!(r, Outcome::Normal);
    assert_eq!(m.registers.A, 42);
}

#[test]
fn dcr_on_memory_slot() {
    let mut m = boot(&[0x35]); // DCR M
    m.registers.H = 0x30;
    m.registers.L = 0x00;
    m.memory[0x3000] = 1;
    let r = m.execute_cycle();
    assert_eq!(r, Outcome::Normal);
    assert_eq!(m.memory[0x3000], 0);
    assert!(m.flags.Z);
}

#[test]
fn unimplemented_opcodes_in_every_quadrant() {
    for opcode in [0x08u8, 0x27, 0x3f, 0xc1, 0xf5, 0xd3] {
        let mut m = boot(&[opcode]);
        let r = m.execute_cycle();
        assert_eq!(r, Outcome::Unimplemented { opcode, pc: 0 });
        assert_eq!(m.registers.PC, 0);
    }
}

#[test]
fn dcx_wraps_within_sixteen_bits() {
    let mut m = boot(&[0x0b]); // DCX B
    m.registers.B = 0;
    m.registers.C = 0;
    let r = m.execute_cycle();
    assert_eq!(r, Outcome::Normal);
    assert_eq!(m.registers.B, 0xff);
    assert_eq!(m.registers.C, 0xff);

    let mut m = boot(&[0x1b]); // DCX D
    m.registers.D = 0x12;
    m.registers.E = 0x00;
    let r = m.execute_cycle();
    assert_eq!(r, Outcome::Normal);
    assert_eq!(m.registers.D, 0x11);
    assert_eq!(m.registers.E, 0xff);
}
