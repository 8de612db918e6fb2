//! The OP class: register-register integer and M-extension operations.
use vstd::prelude::*;

pub mod base;
pub mod muldiv;

verus! {

use crate::arith::wadd32;
use crate::exec::advance_pc;
use crate::instr::funct::OpFunct;
use crate::instr::reg::Reg;
use crate::sys::System;
use crate::sys::state::reg_spec;

/// What an OP instruction writes to rd.
pub open spec fn op_result(a: i32, b: i32, f: OpFunct) -> i32 {
    match f {
        OpFunct::I(fi) => base::op_i_result(a, b, fi),
        OpFunct::M(fm) => muldiv::op_m_result(a, b, fm),
    }
}

/// rd receives the ALU result of the two source registers and the PC
/// advances; nothing else changes.
pub fn execute_op(sys: &mut System, rd: &Reg, rs1: &Reg, rs2: &Reg, f: &OpFunct)
    requires
        rd.wf(),
        rs1.wf(),
        rs2.wf(),
    ensures
        final(sys).state.regs@ == old(sys).state.regs@.update(
            rd.index as int,
            op_result(
                reg_spec(old(sys).state, rs1.index),
                reg_spec(old(sys).state, rs2.index),
                *f,
            ),
        ),
        final(sys).state.pc == wadd32(old(sys).state.pc, 4),
        final(sys).mem == old(sys).mem,
        final(sys).ctrl == old(sys).ctrl,
        final(sys).code == old(sys).code,
{
    match f {
        OpFunct::I(fi) => base::execute_op_i(sys, rd, rs1, rs2, fi),
        OpFunct::M(fm) => muldiv::execute_op_m(sys, rd, rs1, rs2, fm),
    }
    advance_pc(sys);
}

} // verus!
