//! Executor tests for the register-register and immediate ALU classes.
use riscv_sim::exec::auipc::execute_auipc;
use riscv_sim::exec::lui::execute_lui;
use riscv_sim::exec::op::execute_op;
use riscv_sim::exec::opimm::execute_opimm;
use riscv_sim::instr::funct::{OpFunct, OpIFunct, OpImmFunct, OpMFunct};
use riscv_sim::{Reg, System};

fn assert_op_i(sys: &mut System, rd: u8, rs1: u8, rs2: u8, f: OpIFunct, expect: u32) {
    execute_op(sys, &Reg::new(rd), &Reg::new(rs1), &Reg::new(rs2), &OpFunct::I(f));
    assert_eq!(sys.state.reg(&Reg::new(rd)), expect as i32);
}

fn assert_op_m(sys: &mut System, rd: u8, rs1: u8, rs2: u8, f: OpMFunct, expect: u32) {
    execute_op(sys, &Reg::new(rd), &Reg::new(rs1), &Reg::new(rs2), &OpFunct::M(f));
    assert_eq!(sys.state.reg(&Reg::new(rd)), expect as i32);
}

fn assert_opimm(sys: &mut System, rd: u8, rs1: u8, imm: i32, f: OpImmFunct, expect: u32) {
    execute_opimm(sys, &Reg::new(rd), &Reg::new(rs1), imm, &f);
    assert_eq!(sys.reg(&Reg::new(rd)), expect as i32);
}

#[test]
fn test_execute_op_i() {
    let mut sys = System::new(0);
    *sys.state.reg_mut(&Reg::new(1)) = 0xbcfec832_u32 as i32;
    *sys.state.reg_mut(&Reg::new(2)) = 0x51290ce3_u32 as i32;

    assert_op_i(&mut sys, 3, 1, 2, OpIFunct::Add, 0x0e27d515);
    assert_op_i(&mut sys, 4, 1, 2, OpIFunct::Sub, 0x6bd5bb4f);
    assert_op_i(&mut sys, 5, 2, 1, OpIFunct::Sub, 0x942a44b1);
    assert_op_i(&mut sys, 6, 1, 2, OpIFunct::Xor, 0xedd7c4d1);
    assert_op_i(&mut sys, 7, 1, 2, OpIFunct::Or, 0xfdffccf3);
    assert_op_i(&mut sys, 8, 1, 2, OpIFunct::And, 0x10280822);
    assert_op_i(&mut sys, 9, 1, 2, OpIFunct::Slt, 1);
    assert_op_i(&mut sys, 10, 2, 1, OpIFunct::Slt, 0);
    assert_op_i(&mut sys, 11, 1, 1, OpIFunct::Slt, 0);
    assert_op_i(&mut sys, 12, 2, 2, OpIFunct::Slt, 0);
    assert_op_i(&mut sys, 13, 1, 2, OpIFunct::Sltu, 0);
    assert_op_i(&mut sys, 14, 2, 1, OpIFunct::Sltu, 1);
    assert_op_i(&mut sys, 15, 1, 2, OpIFunct::Sll, 0xe7f64190);
    assert_op_i(&mut sys, 16, 2, 1, OpIFunct::Sll, 0x338c0000);
    assert_op_i(&mut sys, 17, 1, 2, OpIFunct::Srl, 0x179fd906);
    assert_op_i(&mut sys, 18, 2, 1, OpIFunct::Srl, 0x0000144a);
    assert_op_i(&mut sys, 19, 1, 2, OpIFunct::Sra, 0xf79fd906);
    assert_op_i(&mut sys, 20, 2, 1, OpIFunct::Sra, 0x0000144a);

    assert_eq!(sys.state.pc(), 18 * 4);
}

#[test]
fn test_execute_op_mul() {
    let mut sys = System::new(0);
    *sys.state.reg_mut(&Reg::new(1)) = 0xbcfec832_u32 as i32;
    *sys.state.reg_mut(&Reg::new(2)) = 0x51290ce3_u32 as i32;

    assert_op_m(&mut sys, 3, 1, 2, OpMFunct::Mul, 0x694fdc56);
    assert_op_m(&mut sys, 3, 1, 2, OpMFunct::Mulh, 0xeac1dec6);
    assert_op_m(&mut sys, 3, 1, 2, OpMFunct::Mulhu, 0x3beaeba9);
    assert_op_m(&mut sys, 3, 1, 2, OpMFunct::Mulhsu, 0xeac1dec6);
    assert_op_m(&mut sys, 3, 2, 1, OpMFunct::Mulhsu, 0x3beaeba9);

    assert_op_m(&mut sys, 3, 1, 1, OpMFunct::Mul, 0x4fc629c4);
    assert_op_m(&mut sys, 3, 1, 1, OpMFunct::Mulh, 0x1189a337);
    assert_op_m(&mut sys, 3, 1, 1, OpMFunct::Mulhu, 0x8b87339b);
    assert_op_m(&mut sys, 3, 1, 1, OpMFunct::Mulhsu, 0xce886b69);

    assert_op_m(&mut sys, 3, 2, 2, OpMFunct::Mul, 0xc75c1149);
    assert_op_m(&mut sys, 3, 2, 2, OpMFunct::Mulh, 0x19bb00bc);
    assert_op_m(&mut sys, 3, 2, 2, OpMFunct::Mulhu, 0x19bb00bc);
    assert_op_m(&mut sys, 3, 2, 2, OpMFunct::Mulhsu, 0x19bb00bc);

    assert_eq!(sys.state.pc(), 13 * 4);
}

#[test]
fn test_execute_op_divrem() {
    let mut sys = System::new(0);
    *sys.state.reg_mut(&Reg::new(1)) = 0xbcfec832_u32 as i32;
    *sys.state.reg_mut(&Reg::new(2)) = 0xff290ce3_u32 as i32;

    assert_op_m(&mut sys, 3, 1, 2, OpMFunct::Div, 0x4f);
    assert_op_m(&mut sys, 3, 2, 1, OpMFunct::Div, 0x00);
    assert_op_m(&mut sys, 3, 1, 2, OpMFunct::Divu, 0x00);
    assert_op_m(&mut sys, 3, 2, 1, OpMFunct::Divu, 0x01);

    assert_op_m(&mut sys, 3, 1, 2, OpMFunct::Rem, 0xff53ce25);
    assert_op_m(&mut sys, 3, 2, 1, OpMFunct::Rem, 0xff290ce3);
    assert_op_m(&mut sys, 3, 1, 2, OpMFunct::Remu, 0xbcfec832);
    assert_op_m(&mut sys, 3, 2, 1, OpMFunct::Remu, 0x422a44b1);

    assert_eq!(sys.state.pc(), 8 * 4);
}

#[test]
fn test_execute_op_div_zero() {
    let mut sys = System::new(0);
    *sys.state.reg_mut(&Reg::new(1)) = 0xbcfec832_u32 as i32;
    *sys.state.reg_mut(&Reg::new(2)) = 0x51290ce3_u32 as i32;

    assert_op_m(&mut sys, 3, 1, 0, OpMFunct::Div, 0xffffffff);
    assert_op_m(&mut sys, 3, 2, 0, OpMFunct::Div, 0xffffffff);
    assert_op_m(&mut sys, 3, 1, 0, OpMFunct::Divu, 0xffffffff);
    assert_op_m(&mut sys, 3, 2, 0, OpMFunct::Divu, 0xffffffff);

    assert_op_m(&mut sys, 3, 1, 0, OpMFunct::Rem, 0xbcfec832);
    assert_op_m(&mut sys, 3, 2, 0, OpMFunct::Rem, 0x51290ce3);
    assert_op_m(&mut sys, 3, 1, 0, OpMFunct::Remu, 0xbcfec832);
    assert_op_m(&mut sys, 3, 2, 0, OpMFunct::Remu, 0x51290ce3);

    assert_eq!(sys.state.pc(), 8 * 4);
}

#[test]
fn test_execute_op_div_overflow() {
    let mut sys = System::new(0);
    *sys.state.reg_mut(&Reg::new(1)) = 0x80000000_u32 as i32;
    *sys.state.reg_mut(&Reg::new(2)) = 0xffffffff_u32 as i32;

    assert_op_m(&mut sys, 3, 1, 2, OpMFunct::Div, 0x80000000);
    assert_op_m(&mut sys, 3, 1, 2, OpMFunct::Divu, 0x00000000);

    assert_op_m(&mut sys, 3, 1, 2, OpMFunct::Rem, 0x00000000);
    assert_op_m(&mut sys, 3, 1, 2, OpMFunct::Remu, 0x80000000);

    assert_eq!(sys.state.pc(), 4 * 4);
}

#[test]
fn test_execute_opimm() {
    let mut sys = System::new(0);
    *sys.state.reg_mut(&Reg::new(1)) = 0xbcfec832_u32 as i32;
    *sys.state.reg_mut(&Reg::new(2)) = 0x51290ce3_u32 as i32;

    let a = 0xfffff89b_u32 as i32;
    let b = 0x3b2;

    assert_opimm(&mut sys, 3, 1, a, OpImmFunct::Add, 0xbcfec0cd);
    assert_opimm(&mut sys, 4, 2, b, OpImmFunct::Add, 0x51291095);
    assert_opimm(&mut sys, 5, 1, a, OpImmFunct::Xor, 0x430130a9);
    assert_opimm(&mut sys, 6, 2, b, OpImmFunct::Xor, 0x51290f51);
    assert_opimm(&mut sys, 7, 1, a, OpImmFunct::Or, 0xfffff8bb);
    assert_opimm(&mut sys, 8, 2, b, OpImmFunct::Or, 0x51290ff3);
    assert_opimm(&mut sys, 9, 1, a, OpImmFunct::And, 0xbcfec812);
    assert_opimm(&mut sys, 10, 2, b, OpImmFunct::And, 0x000000a2);
    assert_opimm(&mut sys, 11, 1, a, OpImmFunct::Slt, 1);
    assert_opimm(&mut sys, 12, 1, b, OpImmFunct::Slt, 1);
    assert_opimm(&mut sys, 13, 2, a, OpImmFunct::Slt, 0);
    assert_opimm(&mut sys, 14, 2, b, OpImmFunct::Slt, 0);
    assert_opimm(&mut sys, 15, 1, a, OpImmFunct::Sltu, 1);
    assert_opimm(&mut sys, 16, 1, b, OpImmFunct::Sltu, 0);
    assert_opimm(&mut sys, 17, 2, a, OpImmFunct::Sltu, 1);
    assert_opimm(&mut sys, 18, 2, b, OpImmFunct::Sltu, 0);
    assert_opimm(&mut sys, 19, 1, 11, OpImmFunct::Sll, 0xf6419000);
    assert_opimm(&mut sys, 20, 2, 2, OpImmFunct::Sll, 0x44a4338c);
    assert_opimm(&mut sys, 21, 1, 11, OpImmFunct::Srl, 0x00179fd9);
    assert_opimm(&mut sys, 22, 2, 2, OpImmFunct::Srl, 0x144a4338);
    assert_opimm(&mut sys, 23, 1, 11, OpImmFunct::Sra, 0xfff79fd9);
    assert_opimm(&mut sys, 24, 2, 2, OpImmFunct::Sra, 0x144a4338);

    assert_eq!(sys.state.pc(), 22 * 4);
}

#[test]
fn test_execute_lui() {
    let mut sys = System::new(0);
    execute_lui(&mut sys, &Reg::new(1), 0xc43bd000_u32 as i32);
    assert_eq!(sys.state.reg(&Reg::new(1)), 0xc43bd000_u32 as i32);
    assert_eq!(sys.state.pc(), 0x4);
}

#[test]
fn test_execute_auipc() {
    let mut sys = System::new(0);
    sys.state.pc = 0x164;
    execute_auipc(&mut sys, &Reg::new(1), 0xc43bd000_u32 as i32);
    assert_eq!(sys.state.reg(&Reg::new(1)), 0xc43bd164_u32 as i32);
    assert_eq!(sys.state.pc(), 0x168);
}
