//! Base integer ISA tests: each runs a small machine-code program through
//! the full fetch-decode-execute loop at RAM base 0x8000_0000 and expects
//! gp = 1 (test number 0) at the first ecall, in the convention of the
//! architectural self-test programs.
use riscv_sim::{run_for_or_until_ecall, Reg, System};

const RAM: usize = 0x10_0000;
const BASE: u32 = 0x8000_0000;

fn enc_r(f7: u32, rs2: u32, rs1: u32, f3: u32, rd: u32, op: u32) -> u32 {
    (f7 << 25) | (rs2 << 20) | (rs1 << 15) | (f3 << 12) | (rd << 7) | op
}

fn enc_i(imm: i32, rs1: u32, f3: u32, rd: u32, op: u32) -> u32 {
    (((imm as u32) & 0xfff) << 20) | (rs1 << 15) | (f3 << 12) | (rd << 7) | op
}

fn enc_s(imm: i32, rs2: u32, rs1: u32, f3: u32, op: u32) -> u32 {
    let imm = (imm as u32) & 0xfff;
    ((imm >> 5) << 25) | (rs2 << 20) | (rs1 << 15) | (f3 << 12) | ((imm & 0x1f) << 7) | op
}

fn enc_b(off: i32, rs2: u32, rs1: u32, f3: u32) -> u32 {
    let o = (off as u32) & 0x1fff;
    ((o >> 12) << 31) | (((o >> 5) & 0x3f) << 25) | (rs2 << 20) | (rs1 << 15) | (f3 << 12)
        | (((o >> 1) & 0xf) << 8) | (((o >> 11) & 1) << 7) | 0x63
}

fn enc_j(off: i32, rd: u32) -> u32 {
    let o = (off as u32) & 0x1f_ffff;
    ((o >> 20) << 31) | (((o >> 1) & 0x3ff) << 21) | (((o >> 11) & 1) << 20)
        | (((o >> 12) & 0xff) << 12) | (rd << 7) | 0x6f
}

fn enc_lui(rd: u32, imm_high: u32) -> u32 {
    (imm_high << 12) | (rd << 7) | 0x37
}

fn enc_addi(rd: u32, rs1: u32, imm: i32) -> u32 {
    enc_i(imm, rs1, 0, rd, 0x13)
}

fn ecall() -> u32 {
    0x0000_0073
}

/// Load a 32-bit constant: lui + addi.
fn li(prog: &mut Vec<u32>, rd: u32, v: u32) {
    let hi = v.wrapping_add(0x800) >> 12;
    let lo = ((v & 0xfff) as i32 ^ 0x800) - 0x800;
    prog.push(enc_lui(rd, hi));
    prog.push(enc_addi(rd, rd, lo));
}

/// Start a program: a jump over the failure block, which sets gp to the
/// odd failure value and stops.
fn prog_start() -> Vec<u32> {
    vec![
        enc_j(12, 0),  // over the failure block
        enc_addi(3, 0, 3),  // gp = failure
        ecall(),
    ]
}

/// Compare rd against the expected value, branching to the failure block
/// on a mismatch.
fn check(prog: &mut Vec<u32>, rd: u32, expected: u32) {
    li(prog, 29, expected);
    let off = 4 * (1 - (prog.len() as i32));
    prog.push(enc_b(off, 29, rd, 1));  // bne rd, x29, fail
}

/// Finish a program: gp = 1 and stop.
fn prog_end(prog: &mut Vec<u32>) {
    prog.push(enc_addi(3, 0, 1));
    prog.push(ecall());
}

fn run_words(words: &[u32]) -> System {
    let mut sys = System::with_base(RAM, BASE);
    let mut image: Vec<u8> = Vec::new();
    for w in words {
        image.extend_from_slice(&w.to_le_bytes());
    }
    sys.load_image(&image, 0).unwrap();
    let res = run_for_or_until_ecall(&mut sys, 10_000);
    assert!(res.is_err(), "no ecall reached");
    let gp = sys.reg(&Reg::new(3)) >> 1;
    assert_eq!(gp, 0, "test number {} failed", gp);
    sys
}

/// Run cases of one R-type operation against expected values computed here.
fn run_rtype(f3: u32, f7: u32, cases: &[(u32, u32, u32)]) {
    let mut p = prog_start();
    for &(a, b, expect) in cases {
        li(&mut p, 1, a);
        li(&mut p, 2, b);
        p.push(enc_r(f7, 2, 1, f3, 28, 0x33));
        check(&mut p, 28, expect);
    }
    prog_end(&mut p);
    run_words(&p);
}

/// Run cases of one I-type ALU operation.
fn run_itype(f3: u32, cases: &[(u32, i32, u32)]) {
    let mut p = prog_start();
    for &(a, imm, expect) in cases {
        li(&mut p, 1, a);
        p.push(enc_i(imm, 1, f3, 28, 0x13));
        check(&mut p, 28, expect);
    }
    prog_end(&mut p);
    run_words(&p);
}

/// Run cases of one shift-immediate operation (funct7 in the high bits).
fn run_shamt(f3: u32, f7: u32, cases: &[(u32, u32, u32)]) {
    let mut p = prog_start();
    for &(a, sh, expect) in cases {
        li(&mut p, 1, a);
        p.push(enc_i(((f7 << 5) | sh) as i32, 1, f3, 28, 0x13));
        check(&mut p, 28, expect);
    }
    prog_end(&mut p);
    run_words(&p);
}

/// Run cases of one branch: for each, take it (checking it lands on the
/// taken side) with the roles of taken and not-taken both exercised.
fn run_branch(f3: u32, cases: &[(u32, u32, bool)]) {
    let mut p = prog_start();
    for &(a, b, taken) in cases {
        li(&mut p, 1, a);
        li(&mut p, 2, b);
        p.push(enc_b(12, 2, 1, f3));  // branch +12 over the next two words
        p.push(enc_addi(28, 0, 0));  // fall-through: x28 = 0
        p.push(enc_j(8, 0));  // skip the taken side
        p.push(enc_addi(28, 0, 1));  // taken: x28 = 1
        check(&mut p, 28, if taken { 1 } else { 0 });
    }
    prog_end(&mut p);
    run_words(&p);
}

const A: u32 = 0xbcfe_c832;
const B: u32 = 0x5129_0ce3;

#[test]
fn simple() {
    let mut p = prog_start();
    prog_end(&mut p);
    run_words(&p);
}

#[test]
fn add() {
    run_rtype(0, 0x00, &[
        (A, B, A.wrapping_add(B)),
        (0, 0, 0),
        (0xffff_ffff, 1, 0),
        (0x7fff_ffff, 1, 0x8000_0000),
    ]);
}

#[test]
fn sub() {
    run_rtype(0, 0x20, &[
        (A, B, A.wrapping_sub(B)),
        (0, 1, 0xffff_ffff),
        (0x8000_0000, 1, 0x7fff_ffff),
    ]);
}

#[test]
fn and() {
    run_rtype(7, 0x00, &[(A, B, A & B), (A, 0, 0), (A, 0xffff_ffff, A)]);
}

#[test]
fn or() {
    run_rtype(6, 0x00, &[(A, B, A | B), (A, 0, A), (0, 0, 0)]);
}

#[test]
fn xor() {
    run_rtype(4, 0x00, &[(A, B, A ^ B), (A, A, 0), (A, 0xffff_ffff, !A)]);
}

#[test]
fn slt() {
    run_rtype(2, 0x00, &[
        (A, B, 1),  // negative < positive
        (B, A, 0),
        (A, A, 0),
        (1, 2, 1),
    ]);
}

#[test]
fn sltu() {
    run_rtype(3, 0x00, &[(A, B, 0), (B, A, 1), (A, A, 0), (0, 1, 1)]);
}

#[test]
fn sll() {
    run_rtype(1, 0x00, &[(A, 3, A << 3), (A, 0, A), (A, 31, A << 31), (A, 35, A << 3)]);
}

#[test]
fn srl() {
    run_rtype(5, 0x00, &[(A, 3, A >> 3), (A, 0, A), (A, 31, A >> 31), (A, 35, A >> 3)]);
}

#[test]
fn sra() {
    run_rtype(5, 0x20, &[
        (A, 3, ((A as i32) >> 3) as u32),
        (B, 5, ((B as i32) >> 5) as u32),
        (A, 31, 0xffff_ffff),
    ]);
}

#[test]
fn addi() {
    run_itype(0, &[(A, 0x21, A.wrapping_add(0x21)), (A, -0x21, A.wrapping_sub(0x21)), (0, -1, 0xffff_ffff)]);
}

#[test]
fn andi() {
    run_itype(7, &[(A, 0x7ff, A & 0x7ff), (A, -1, A), (A, 0, 0)]);
}

#[test]
fn ori() {
    run_itype(6, &[(A, 0x7ff, A | 0x7ff), (A, 0, A), (A, -1, 0xffff_ffff)]);
}

#[test]
fn xori() {
    run_itype(4, &[(A, 0x7ff, A ^ 0x7ff), (A, 0, A), (A, -1, !A)]);
}

#[test]
fn slti() {
    run_itype(2, &[(A, 0, 1), (B, 0, 0), (5, 6, 1), (6, 5, 0)]);
}

#[test]
fn sltiu() {
    run_itype(3, &[(A, 0, 0), (5, 6, 1), (B, -1, 1)]);
}

#[test]
fn slli() {
    run_shamt(1, 0x00, &[(A, 3, A << 3), (A, 0, A), (A, 31, A << 31)]);
}

#[test]
fn srli() {
    run_shamt(5, 0x00, &[(A, 3, A >> 3), (A, 0, A), (A, 31, A >> 31)]);
}

#[test]
fn srai() {
    run_shamt(5, 0x20, &[(A, 3, ((A as i32) >> 3) as u32), (B, 5, ((B as i32) >> 5) as u32)]);
}

#[test]
fn lui() {
    let mut p = prog_start();
    p.push(enc_lui(28, 0xbcfec));
    check(&mut p, 28, 0xbcfe_c000);
    p.push(enc_lui(28, 0x00001));
    check(&mut p, 28, 0x0000_1000);
    prog_end(&mut p);
    run_words(&p);
}

#[test]
fn auipc() {
    // x28 = pc + (1 << 12); the auipc sits a known distance into the program
    let mut p = prog_start();
    let at = p.len() as u32;
    p.push((1 << 12) | (28 << 7) | 0x17);
    check(&mut p, 28, BASE + at * 4 + 0x1000);
    prog_end(&mut p);
    run_words(&p);
}

#[test]
fn jal() {
    // Jump over a failure write, landing on the success side
    let mut p = prog_start();
    p.push(enc_addi(28, 0, 0));
    p.push(enc_j(12, 1));  // jal ra, +12
    p.push(enc_addi(28, 0, 7));  // must be skipped
    p.push(enc_j(8, 0));  // (unreached)
    p.push(enc_addi(28, 28, 1));  // landing site
    check(&mut p, 28, 1);
    // ra holds the return address of the jal
    let ra_expect = BASE + 4 * 4 + 4 * 1;
    check(&mut p, 1, ra_expect);
    prog_end(&mut p);
    run_words(&p);
}

#[test]
fn jalr() {
    // Jump through a register, landing past a failure write
    let mut p = prog_start();
    let target_idx = 9;  // index of the landing instruction
    li(&mut p, 5, BASE + 4 * target_idx);  // at indices 3 and 4
    p.push(enc_addi(28, 0, 0));  // 5
    p.push(enc_i(0, 5, 0, 1, 0x67));  // 6: jalr ra, 0(x5)
    p.push(enc_addi(28, 0, 7));  // 7: must be skipped
    p.push(enc_j(8, 0));  // 8: (unreached)
    p.push(enc_addi(28, 28, 1));  // 9: landing site
    check(&mut p, 28, 1);
    check(&mut p, 1, BASE + 4 * 7);
    prog_end(&mut p);
    run_words(&p);
}

#[test]
fn beq() {
    run_branch(0, &[(A, A, true), (A, B, false), (0, 0, true)]);
}

#[test]
fn bne() {
    run_branch(1, &[(A, A, false), (A, B, true), (0, 1, true)]);
}

#[test]
fn blt() {
    run_branch(4, &[(A, B, true), (B, A, false), (A, A, false), (1, 2, true)]);
}

#[test]
fn bge() {
    run_branch(5, &[(A, B, false), (B, A, true), (A, A, true), (2, 1, true)]);
}

#[test]
fn bltu() {
    run_branch(6, &[(A, B, false), (B, A, true), (0, 1, true), (A, A, false)]);
}

#[test]
fn bgeu() {
    run_branch(7, &[(A, B, true), (B, A, false), (A, A, true), (1, 0, true)]);
}

#[test]
fn lb() {
    run_load(0, 3, 0xffff_ff83);
}

#[test]
fn lbu() {
    run_load(4, 3, 0x0000_0083);
}

#[test]
fn rv32ui_lh() {
    run_load(1, 2, 0xffff_8365);
}

#[test]
fn lhu() {
    run_load(5, 2, 0x0000_8365);
}

#[test]
fn rv32ui_lw() {
    run_load(2, 0, 0x8365_12f4);
}

/// Store a known word at a data address, then load a part of it back with
/// the given width and offset.
fn run_load(f3: u32, offset: i32, expect: u32) {
    let mut p = prog_start();
    li(&mut p, 5, BASE + 0x1000);  // data address
    li(&mut p, 6, 0x8365_12f4);  // known pattern
    p.push(enc_s(0, 6, 5, 2, 0x23));  // sw
    p.push(enc_i(offset, 5, f3, 28, 0x03));  // load back
    check(&mut p, 28, expect);
    prog_end(&mut p);
    run_words(&p);
}

#[test]
fn sb() {
    run_store(0, 1, 0x8365_f5f4);
}

#[test]
fn rv32ui_sh() {
    run_store(1, 2, 0x8af5_12f4);
}

#[test]
fn rv32ui_sw() {
    run_store(2, 0, 0x8765_8af5);
}

/// Fill a word, overwrite part of it at the given width and offset with the
/// low bytes of a second pattern, and read the whole word back.
fn run_store(f3: u32, offset: i32, expect: u32) {
    let mut p = prog_start();
    li(&mut p, 5, BASE + 0x1000);
    li(&mut p, 6, 0x8365_12f4);
    p.push(enc_s(0, 6, 5, 2, 0x23));  // sw pattern
    li(&mut p, 7, 0x8765_8af5);
    p.push(enc_s(offset, 7, 5, f3, 0x23));  // partial store
    p.push(enc_i(0, 5, 2, 28, 0x03));  // lw whole word
    check(&mut p, 28, expect);
    prog_end(&mut p);
    run_words(&p);
}

#[test]
fn fence_i() {
    let mut p = prog_start();
    p.push(0x0ff0_000f);  // fence
    p.push(0x0000_100f);  // fence.i
    p.push(enc_addi(28, 0, 5));
    check(&mut p, 28, 5);
    prog_end(&mut p);
    run_words(&p);
}
