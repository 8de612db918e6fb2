//! Machine-mode ISA tests: CSR access, illegal instructions, misaligned
//! accesses and environment traps, delivered through a machine trap handler
//! that checks mcause and resumes past the faulting instruction.
use riscv_sim::sys::control::MPriv;
use riscv_sim::trap::TrapCause;
use riscv_sim::{run_for_or_until_ecall, Exception, Reg, System};

const RAM: usize = 0x10_0000;
const BASE: u32 = 0x8000_0000;

fn enc_r(f7: u32, rs2: u32, rs1: u32, f3: u32, rd: u32, op: u32) -> u32 {
    (f7 << 25) | (rs2 << 20) | (rs1 << 15) | (f3 << 12) | (rd << 7) | op
}

fn enc_i(imm: i32, rs1: u32, f3: u32, rd: u32, op: u32) -> u32 {
    (((imm as u32) & 0xfff) << 20) | (rs1 << 15) | (f3 << 12) | (rd << 7) | op
}

fn enc_s(imm: i32, rs2: u32, rs1: u32, f3: u32, op: u32) -> u32 {
    let imm = (imm as u32) & 0xfff;
    ((imm >> 5) << 25) | (rs2 << 20) | (rs1 << 15) | (f3 << 12) | ((imm & 0x1f) << 7) | op
}

fn enc_b(off: i32, rs2: u32, rs1: u32, f3: u32) -> u32 {
    let o = (off as u32) & 0x1fff;
    ((o >> 12) << 31) | (((o >> 5) & 0x3f) << 25) | (rs2 << 20) | (rs1 << 15) | (f3 << 12)
        | (((o >> 1) & 0xf) << 8) | (((o >> 11) & 1) << 7) | 0x63
}

fn enc_j(off: i32, rd: u32) -> u32 {
    let o = (off as u32) & 0x1f_ffff;
    ((o >> 20) << 31) | (((o >> 1) & 0x3ff) << 21) | (((o >> 11) & 1) << 20)
        | (((o >> 12) & 0xff) << 12) | (rd << 7) | 0x6f
}

fn enc_lui(rd: u32, imm_high: u32) -> u32 {
    (imm_high << 12) | (rd << 7) | 0x37
}

fn enc_addi(rd: u32, rs1: u32, imm: i32) -> u32 {
    enc_i(imm, rs1, 0, rd, 0x13)
}

fn csrrw(rd: u32, csr: u32, rs1: u32) -> u32 {
    enc_i(csr as i32, rs1, 1, rd, 0x73)
}

fn csrrs(rd: u32, csr: u32, rs1: u32) -> u32 {
    enc_i(csr as i32, rs1, 2, rd, 0x73)
}

fn csrrc(rd: u32, csr: u32, rs1: u32) -> u32 {
    enc_i(csr as i32, rs1, 3, rd, 0x73)
}

fn csrrwi(rd: u32, csr: u32, imm5: u32) -> u32 {
    enc_i(csr as i32, imm5, 5, rd, 0x73)
}

fn csrrsi(rd: u32, csr: u32, imm5: u32) -> u32 {
    enc_i(csr as i32, imm5, 6, rd, 0x73)
}

fn csrrci(rd: u32, csr: u32, imm5: u32) -> u32 {
    enc_i(csr as i32, imm5, 7, rd, 0x73)
}

fn li(prog: &mut Vec<u32>, rd: u32, v: u32) {
    let hi = v.wrapping_add(0x800) >> 12;
    let lo = ((v & 0xfff) as i32 ^ 0x800) - 0x800;
    prog.push(enc_lui(rd, hi));
    prog.push(enc_addi(rd, rd, lo));
}

/// The common frame: a jump over the failure block and a machine trap
/// handler that requires mcause == x31 and resumes at mepc + 4. The start
/// code installs the handler in mtvec.
fn prog_start() -> Vec<u32> {
    let mut p = vec![
        enc_j(36, 0),  // 0: over failure block and handler
        enc_addi(3, 0, 3),  // 1: fail: gp = 3
        0x0000_0073,  // 2: ecall
        csrrs(5, 0x342, 0),  // 3: handler: x5 = mcause
        enc_b(4 * (1 - 4), 31, 5, 1),  // 4: wrong cause: fail
        csrrs(5, 0x341, 0),  // 5: x5 = mepc
        enc_addi(5, 5, 4),  // 6: skip the trapping instruction
        csrrw(0, 0x341, 5),  // 7: mepc = x5
        0x3020_0073,  // 8: mret
    ];
    li(&mut p, 5, BASE + 12);  // 9, 10
    p.push(csrrw(0, 0x305, 5));  // 11: mtvec = handler
    p
}

fn check(prog: &mut Vec<u32>, rd: u32, expected: u32) {
    li(prog, 29, expected);
    let off = 4 * (1 - (prog.len() as i32));
    prog.push(enc_b(off, 29, rd, 1));
}

fn prog_end(prog: &mut Vec<u32>) {
    prog.push(enc_addi(3, 0, 1));
    prog.push(0x0000_0073);
}

fn run_words(words: &[u32]) -> System {
    let mut sys = System::with_base(RAM, BASE);
    let mut image: Vec<u8> = Vec::new();
    for w in words {
        image.extend_from_slice(&w.to_le_bytes());
    }
    sys.load_image(&image, 0).unwrap();
    let res = run_for_or_until_ecall(&mut sys, 10_000);
    assert!(res.is_err(), "no ecall reached");
    let gp = sys.reg(&Reg::new(3)) >> 1;
    assert_eq!(gp, 0, "test number {} failed", gp);
    sys
}

const A: u32 = 0xbcfe_c832;

#[test]
fn rv32mi_csr() {
    let mut p = prog_start();
    li(&mut p, 1, A);
    p.push(csrrw(0, 0x340, 1));  // mscratch = A
    p.push(csrrs(28, 0x340, 0));
    check(&mut p, 28, A);
    p.push(csrrwi(0, 0x340, 0x15));
    p.push(csrrs(28, 0x340, 0));
    check(&mut p, 28, 0x15);
    p.push(csrrsi(0, 0x340, 0x0a));
    p.push(csrrs(28, 0x340, 0));
    check(&mut p, 28, 0x1f);
    p.push(csrrci(0, 0x340, 0x05));
    p.push(csrrs(28, 0x340, 0));
    check(&mut p, 28, 0x1a);
    prog_end(&mut p);
    run_words(&p);
}

#[test]
fn mcsr() {
    let mut p = prog_start();
    p.push(csrrs(28, 0x301, 0));  // misa
    check(&mut p, 28, 0x4014_1101);
    p.push(csrrs(28, 0xf11, 0));  // mvendorid
    check(&mut p, 28, 0);
    p.push(csrrs(28, 0xf14, 0));  // mhartid
    check(&mut p, 28, 0);
    li(&mut p, 1, 0x1800);  // MPP = M
    p.push(csrrw(0, 0x300, 1));
    p.push(csrrs(28, 0x300, 0));
    check(&mut p, 28, 0x1800);
    prog_end(&mut p);
    run_words(&p);
}

#[test]
fn illegal() {
    let mut p = prog_start();
    p.push(enc_addi(31, 0, 2));  // expect IllegalInstr
    p.push(0x0000_0000);  // an unrecognized word
    p.push(enc_addi(28, 0, 5));
    check(&mut p, 28, 5);
    prog_end(&mut p);
    run_words(&p);
}

#[test]
fn rv32mi_ma_fetch() {
    let mut p = prog_start();
    p.push(enc_addi(31, 0, 0));  // expect InstrAddrMisaligned
    li(&mut p, 6, BASE + 0x100);
    p.push(enc_i(2, 6, 0, 0, 0x67));  // jalr x0, 2(x6): misaligned target
    p.push(enc_addi(28, 0, 1));  // resumed here by the handler
    check(&mut p, 28, 1);
    prog_end(&mut p);
    run_words(&p);
}

#[test]
fn ma_addr() {
    let mut p = prog_start();
    li(&mut p, 6, BASE + 0x1001);
    p.push(enc_addi(31, 0, 4));  // LoadAddrMisaligned
    p.push(enc_i(0, 6, 1, 7, 0x03));  // lh from an odd address
    p.push(enc_addi(31, 0, 6));  // StoreAddrMisaligned
    p.push(enc_s(0, 7, 6, 1, 0x23));  // sh to an odd address
    p.push(enc_addi(31, 0, 4));
    p.push(enc_i(1, 6, 2, 7, 0x03));  // lw from address % 4 == 2
    p.push(enc_addi(31, 0, 6));
    p.push(enc_s(1, 7, 6, 2, 0x23));  // sw to address % 4 == 2
    p.push(enc_addi(28, 0, 1));
    check(&mut p, 28, 1);
    prog_end(&mut p);
    run_words(&p);
}

#[test]
fn rv32mi_scall() {
    // The first ecall ends the run, so its delivery is checked from outside
    let mut p = prog_start();
    p.push(enc_addi(3, 0, 1));  // gp = 1 before the call under test
    p.push(0x0000_0073);  // ecall
    let sys = run_words(&p);
    assert_eq!(sys.ctrl.mtrap.cause, TrapCause::Exception(Exception::EcallFromM));
    assert_eq!(sys.ctrl.mtrap.val, 0);
    assert_eq!(sys.ctrl.privilege, MPriv::M);
    assert_eq!(sys.pc(), BASE + 12);  // at the handler
}

#[test]
fn rv32mi_sbreak() {
    let mut p = prog_start();
    p.push(enc_addi(31, 0, 3));  // expect Breakpoint
    p.push(0x0010_0073);  // ebreak
    p.push(enc_addi(28, 0, 1));
    check(&mut p, 28, 1);
    prog_end(&mut p);
    run_words(&p);
}

#[test]
fn shamt() {
    let mut p = prog_start();
    p.push(enc_addi(31, 0, 2));  // expect IllegalInstr
    p.push(enc_i(0x7e3, 1, 1, 28, 0x13));  // slli with a bad funct7
    p.push(enc_addi(28, 0, 1));
    check(&mut p, 28, 1);
    prog_end(&mut p);
    run_words(&p);
}

#[test]
fn zicntr() {
    let mut p = prog_start();
    // Two back-to-back reads of instret differ by the one instruction
    // retired between them; the same holds for cycle and time here, where
    // every step retires.
    p.push(csrrs(5, 0xc02, 0));
    p.push(csrrs(6, 0xc02, 0));
    p.push(enc_r(0x20, 5, 6, 0, 28, 0x33));  // x28 = x6 - x5
    check(&mut p, 28, 1);
    p.push(csrrs(5, 0xc00, 0));
    p.push(csrrs(6, 0xc00, 0));
    p.push(enc_r(0x20, 5, 6, 0, 28, 0x33));
    check(&mut p, 28, 1);
    p.push(csrrs(5, 0xc01, 0));
    p.push(csrrs(6, 0xc01, 0));
    p.push(enc_r(0x20, 5, 6, 0, 28, 0x33));
    check(&mut p, 28, 1);
    prog_end(&mut p);
    run_words(&p);
}

#[test]
fn rv32mi_lw() {
    let mut p = prog_start();
    p.push(enc_addi(31, 0, 4));
    li(&mut p, 6, BASE + 0x1002);
    p.push(enc_i(0, 6, 2, 7, 0x03));  // lw from address % 4 == 2
    p.push(enc_addi(28, 0, 1));
    check(&mut p, 28, 1);
    prog_end(&mut p);
    run_words(&p);
}

#[test]
fn rv32mi_lh() {
    let mut p = prog_start();
    p.push(enc_addi(31, 0, 4));
    li(&mut p, 6, BASE + 0x1001);
    p.push(enc_i(0, 6, 1, 7, 0x03));  // lh from an odd address
    p.push(enc_addi(28, 0, 1));
    check(&mut p, 28, 1);
    prog_end(&mut p);
    run_words(&p);
}

#[test]
fn rv32mi_sh() {
    let mut p = prog_start();
    p.push(enc_addi(31, 0, 6));
    li(&mut p, 6, BASE + 0x1001);
    p.push(enc_s(0, 7, 6, 1, 0x23));  // sh to an odd address
    p.push(enc_addi(28, 0, 1));
    check(&mut p, 28, 1);
    prog_end(&mut p);
    run_words(&p);
}

#[test]
fn rv32mi_sw() {
    let mut p = prog_start();
    p.push(enc_addi(31, 0, 6));
    li(&mut p, 6, BASE + 0x1002);
    p.push(enc_s(0, 7, 6, 2, 0x23));  // sw to address % 4 == 2
    p.push(enc_addi(28, 0, 1));
    check(&mut p, 28, 1);
    prog_end(&mut p);
    run_words(&p);
}
