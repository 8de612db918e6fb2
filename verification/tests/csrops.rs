//! Executor tests for the CSR read-modify-write instructions.
use riscv_sim::exec::csr::execute_csr;
use riscv_sim::instr::csr::{CsrReg, CsrRegM, CsrSrc};
use riscv_sim::instr::funct::CsrFunct;
use riscv_sim::{Reg, System};

fn assert_csr_reg(sys: &mut System, rd: u8, rs1: u8, csr: CsrReg, f: CsrFunct, expect: u32) {
    execute_csr(sys, &Reg::new(rd), &CsrSrc::Reg(Reg::new(rs1)), &csr, &f).unwrap();
    assert_eq!(sys.state.reg(&Reg::new(rd)), expect as i32);
}

fn assert_csr_imm(sys: &mut System, rd: u8, imm: u8, csr: CsrReg, f: CsrFunct, expect: u32) {
    execute_csr(sys, &Reg::new(rd), &CsrSrc::Imm(imm), &csr, &f).unwrap();
    assert_eq!(sys.state.reg(&Reg::new(rd)), expect as i32);
}

#[test]
fn test_execute_csr() {
    // mscratch behaves like a plain register
    let mut sys = System::new(0);
    *sys.state.reg_mut(&Reg::new(1)) = 0xbcfec832_u32 as i32;
    *sys.state.reg_mut(&Reg::new(2)) = 0x51290ce3_u32 as i32;
    sys.ctrl.mscratch = 0x0e27d515;

    assert_csr_reg(&mut sys, 3, 1, CsrReg::M(CsrRegM::MScratch), CsrFunct::Rw, 0x0e27d515);
    assert_csr_reg(&mut sys, 3, 2, CsrReg::M(CsrRegM::MScratch), CsrFunct::Rs, 0xbcfec832);
    assert_csr_reg(&mut sys, 3, 1, CsrReg::M(CsrRegM::MScratch), CsrFunct::Rc, 0xfdffccf3);

    assert_csr_imm(&mut sys, 3, 0b10011, CsrReg::M(CsrRegM::MScratch), CsrFunct::Rw, 0x410104c1);
    assert_csr_reg(&mut sys, 3, 2, CsrReg::M(CsrRegM::MScratch), CsrFunct::Rw, 0b10011);

    assert_csr_imm(&mut sys, 3, 0b00111, CsrReg::M(CsrRegM::MScratch), CsrFunct::Rs, 0x51290ce3);
    assert_csr_imm(&mut sys, 3, 0b11101, CsrReg::M(CsrRegM::MScratch), CsrFunct::Rc, 0x51290ce7);
    assert_csr_imm(&mut sys, 3, 0, CsrReg::M(CsrRegM::MScratch), CsrFunct::Rs, 0x51290ce2);

    assert_eq!(sys.state.pc(), 8 * 4);
}

#[test]
fn test_execute_csr_same_reg() {
    // Everything through one register, to check that writes follow reads
    let mut sys = System::new(0);
    sys.ctrl.mscratch = 0x0e27d515;

    *sys.state.reg_mut(&Reg::new(1)) = 0xbcfec832_u32 as i32;
    assert_csr_reg(&mut sys, 1, 1, CsrReg::M(CsrRegM::MScratch), CsrFunct::Rw, 0x0e27d515);

    *sys.state.reg_mut(&Reg::new(1)) = 0x51290ce3_u32 as i32;
    assert_csr_reg(&mut sys, 1, 1, CsrReg::M(CsrRegM::MScratch), CsrFunct::Rs, 0xbcfec832);

    *sys.state.reg_mut(&Reg::new(1)) = 0xbcfec832_u32 as i32;
    assert_csr_reg(&mut sys, 1, 1, CsrReg::M(CsrRegM::MScratch), CsrFunct::Rc, 0xfdffccf3);

    assert_csr_imm(&mut sys, 1, 0b10011, CsrReg::M(CsrRegM::MScratch), CsrFunct::Rw, 0x410104c1);

    *sys.state.reg_mut(&Reg::new(1)) = 0x51290ce3_u32 as i32;
    assert_csr_reg(&mut sys, 1, 1, CsrReg::M(CsrRegM::MScratch), CsrFunct::Rw, 0b10011);

    assert_csr_imm(&mut sys, 1, 0b00111, CsrReg::M(CsrRegM::MScratch), CsrFunct::Rs, 0x51290ce3);
    assert_csr_imm(&mut sys, 1, 0b11101, CsrReg::M(CsrRegM::MScratch), CsrFunct::Rc, 0x51290ce7);
    assert_csr_imm(&mut sys, 1, 0, CsrReg::M(CsrRegM::MScratch), CsrFunct::Rs, 0x51290ce2);

    assert_eq!(sys.state.pc(), 8 * 4);
}
