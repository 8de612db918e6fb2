//! The OP-IMM class: integer operations with an immediate second operand.
use vstd::prelude::*;

verus! {

use crate::arith::wadd32;
use crate::exec::advance_pc;
use crate::exec::op::base::{alu_op_i, op_i_result};
use crate::instr::funct::{OpIFunct, OpImmFunct};
use crate::instr::reg::Reg;
use crate::sys::System;
use crate::sys::state::reg_spec;

/// The register-register operation that an immediate form computes, with
/// the immediate in place of the second register.
pub open spec fn op_imm_as_op_i(f: OpImmFunct) -> OpIFunct {
    match f {
        OpImmFunct::Add => OpIFunct::Add,
        OpImmFunct::Slt => OpIFunct::Slt,
        OpImmFunct::Sltu => OpIFunct::Sltu,
        OpImmFunct::And => OpIFunct::And,
        OpImmFunct::Or => OpIFunct::Or,
        OpImmFunct::Xor => OpIFunct::Xor,
        OpImmFunct::Sll => OpIFunct::Sll,
        OpImmFunct::Srl => OpIFunct::Srl,
        OpImmFunct::Sra => OpIFunct::Sra,
    }
}

/// What an OP-IMM instruction writes to rd.
pub open spec fn op_imm_result(a: i32, imm: i32, f: OpImmFunct) -> i32 {
    op_i_result(a, imm, op_imm_as_op_i(f))
}

/// rd receives the ALU result of rs1 and the immediate and the PC advances;
/// nothing else changes.
pub fn execute_opimm(sys: &mut System, rd: &Reg, rs1: &Reg, imm: i32, f: &OpImmFunct)
    requires
        rd.wf(),
        rs1.wf(),
    ensures
        final(sys).state.regs@ == old(sys).state.regs@.update(
            rd.index as int,
            op_imm_result(reg_spec(old(sys).state, rs1.index), imm, *f),
        ),
        final(sys).state.pc == wadd32(old(sys).state.pc, 4),
        final(sys).mem == old(sys).mem,
        final(sys).ctrl == old(sys).ctrl,
        final(sys).code == old(sys).code,
{
    let a = sys.reg(rs1);
    let fi = match f {
        OpImmFunct::Add => OpIFunct::Add,
        OpImmFunct::Slt => OpIFunct::Slt,
        OpImmFunct::Sltu => OpIFunct::Sltu,
        OpImmFunct::And => OpIFunct::And,
        OpImmFunct::Or => OpIFunct::Or,
        OpImmFunct::Xor => OpIFunct::Xor,
        OpImmFunct::Sll => OpIFunct::Sll,
        OpImmFunct::Srl => OpIFunct::Srl,
        OpImmFunct::Sra => OpIFunct::Sra,
    };
    let v = alu_op_i(a, imm, &fi);
    *sys.reg_mut(rd) = v;
    advance_pc(sys);
}

} // verus!
