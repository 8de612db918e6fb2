//! A-extension ISA tests: the atomic memory operations and LR/SC run
//! through the full step loop.
use riscv_sim::{run_for_or_until_ecall, Reg, System};

const RAM: usize = 0x10_0000;
const BASE: u32 = 0x8000_0000;

fn enc_r(f7: u32, rs2: u32, rs1: u32, f3: u32, rd: u32, op: u32) -> u32 {
    (f7 << 25) | (rs2 << 20) | (rs1 << 15) | (f3 << 12) | (rd << 7) | op
}

fn enc_i(imm: i32, rs1: u32, f3: u32, rd: u32, op: u32) -> u32 {
    (((imm as u32) & 0xfff) << 20) | (rs1 << 15) | (f3 << 12) | (rd << 7) | op
}

fn enc_s(imm: i32, rs2: u32, rs1: u32, f3: u32, op: u32) -> u32 {
    let imm = (imm as u32) & 0xfff;
    ((imm >> 5) << 25) | (rs2 << 20) | (rs1 << 15) | (f3 << 12) | ((imm & 0x1f) << 7) | op
}

fn enc_b(off: i32, rs2: u32, rs1: u32, f3: u32) -> u32 {
    let o = (off as u32) & 0x1fff;
    ((o >> 12) << 31) | (((o >> 5) & 0x3f) << 25) | (rs2 << 20) | (rs1 << 15) | (f3 << 12)
        | (((o >> 1) & 0xf) << 8) | (((o >> 11) & 1) << 7) | 0x63
}

fn enc_j(off: i32, rd: u32) -> u32 {
    let o = (off as u32) & 0x1f_ffff;
    ((o >> 20) << 31) | (((o >> 1) & 0x3ff) << 21) | (((o >> 11) & 1) << 20)
        | (((o >> 12) & 0xff) << 12) | (rd << 7) | 0x6f
}

fn enc_lui(rd: u32, imm_high: u32) -> u32 {
    (imm_high << 12) | (rd << 7) | 0x37
}

fn enc_addi(rd: u32, rs1: u32, imm: i32) -> u32 {
    enc_i(imm, rs1, 0, rd, 0x13)
}

fn li(prog: &mut Vec<u32>, rd: u32, v: u32) {
    let hi = v.wrapping_add(0x800) >> 12;
    let lo = ((v & 0xfff) as i32 ^ 0x800) - 0x800;
    prog.push(enc_lui(rd, hi));
    prog.push(enc_addi(rd, rd, lo));
}

fn prog_start() -> Vec<u32> {
    vec![enc_j(12, 0), enc_addi(3, 0, 3), 0x0000_0073]
}

fn check(prog: &mut Vec<u32>, rd: u32, expected: u32) {
    li(prog, 29, expected);
    let off = 4 * (1 - (prog.len() as i32));
    prog.push(enc_b(off, 29, rd, 1));
}

fn prog_end(prog: &mut Vec<u32>) {
    prog.push(enc_addi(3, 0, 1));
    prog.push(0x0000_0073);
}

fn run_words(words: &[u32]) -> System {
    let mut sys = System::with_base(RAM, BASE);
    let mut image: Vec<u8> = Vec::new();
    for w in words {
        image.extend_from_slice(&w.to_le_bytes());
    }
    sys.load_image(&image, 0).unwrap();
    let res = run_for_or_until_ecall(&mut sys, 10_000);
    assert!(res.is_err(), "no ecall reached");
    let gp = sys.reg(&Reg::new(3)) >> 1;
    assert_eq!(gp, 0, "test number {} failed", gp);
    sys
}

/// One AMO over a seeded word: rd gets the old word, memory the operation's
/// result.
fn run_amo(f7: u32, init: u32, operand: u32, result: u32) {
    let mut p = prog_start();
    li(&mut p, 5, BASE + 0x1000);
    li(&mut p, 6, init);
    p.push(enc_s(0, 6, 5, 2, 0x23));  // sw init
    li(&mut p, 7, operand);
    p.push(enc_r(f7, 7, 5, 2, 28, 0x2f));  // the AMO under test
    check(&mut p, 28, init);
    p.push(enc_i(0, 5, 2, 30, 0x03));  // lw the result
    check(&mut p, 30, result);
    prog_end(&mut p);
    run_words(&p);
}

const A: u32 = 0xbcfe_c832;
const B: u32 = 0x5129_0ce3;

#[test]
fn amoadd_w() {
    run_amo(0x00, A, B, A.wrapping_add(B));
}

#[test]
fn amoswap_w() {
    run_amo(0x04, A, B, B);
}

#[test]
fn amoxor_w() {
    run_amo(0x10, A, B, A ^ B);
}

#[test]
fn amoor_w() {
    run_amo(0x20, A, B, A | B);
}

#[test]
fn amoand_w() {
    run_amo(0x30, A, B, A & B);
}

#[test]
fn amomin_w() {
    run_amo(0x40, A, B, A);  // A is negative
}

#[test]
fn amomax_w() {
    run_amo(0x50, A, B, B);
}

#[test]
fn amominu_w() {
    run_amo(0x60, A, B, B);
}

#[test]
fn amomaxu_w() {
    run_amo(0x70, A, B, A);
}

#[test]
fn lrsc() {
    let mut p = prog_start();
    li(&mut p, 5, BASE + 0x1000);
    li(&mut p, 6, A);
    p.push(enc_s(0, 6, 5, 2, 0x23));  // sw A
    li(&mut p, 7, B);
    p.push(enc_r(0x08, 0, 5, 2, 28, 0x2f));  // lr.w x28, (x5)
    check(&mut p, 28, A);
    p.push(enc_r(0x0c, 7, 5, 2, 28, 0x2f));  // sc.w x28, x7, (x5)
    check(&mut p, 28, 0);  // committed
    p.push(enc_i(0, 5, 2, 30, 0x03));  // lw
    check(&mut p, 30, B);
    p.push(enc_r(0x0c, 6, 5, 2, 28, 0x2f));  // a second sc.w
    check(&mut p, 28, 1);  // refused
    p.push(enc_i(0, 5, 2, 30, 0x03));  // lw: unchanged
    check(&mut p, 30, B);
    prog_end(&mut p);
    run_words(&p);
}
