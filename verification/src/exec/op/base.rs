//! The base integer register-register operations.
use vstd::prelude::*;

verus! {

use crate::arith::{i32_of_u32, to_i32, to_u32, u32_of_i32};
use crate::instr::funct::OpIFunct;
use crate::instr::reg::Reg;
use crate::sys::System;
use crate::sys::state::reg_spec;
use vstd::wrapping::i32_specs;

/// The base integer ALU over two register values: wrapping add/sub, the
/// signed and unsigned comparisons, the bitwise operations, and shifts by
/// the low five bits of the second operand.
pub open spec fn op_i_result(a: i32, b: i32, f: OpIFunct) -> i32 {
    match f {
        OpIFunct::Add => i32_specs::wrapping_add(a, b),
        OpIFunct::Sub => i32_specs::wrapping_sub(a, b),
        OpIFunct::Slt => if a < b {
            1
        } else {
            0
        },
        OpIFunct::Sltu => if u32_of_i32(a) < u32_of_i32(b) {
            1
        } else {
            0
        },
        OpIFunct::Xor => i32_of_u32(u32_of_i32(a) ^ u32_of_i32(b)),
        OpIFunct::Or => i32_of_u32(u32_of_i32(a) | u32_of_i32(b)),
        OpIFunct::And => i32_of_u32(u32_of_i32(a) & u32_of_i32(b)),
        OpIFunct::Sll => i32_of_u32(u32_of_i32(a) << (u32_of_i32(b) % 32)),
        OpIFunct::Srl => i32_of_u32(u32_of_i32(a) >> (u32_of_i32(b) % 32)),
        OpIFunct::Sra => a >> (u32_of_i32(b) % 32),
    }
}

pub fn alu_op_i(a: i32, b: i32, f: &OpIFunct) -> (r: i32)
    ensures
        r == op_i_result(a, b, *f),
{
    match f {
        OpIFunct::Add => a.wrapping_add(b),
        OpIFunct::Sub => a.wrapping_sub(b),
        OpIFunct::Slt => if a < b {
            1
        } else {
            0
        },
        OpIFunct::Sltu => if to_u32(a) < to_u32(b) {
            1
        } else {
            0
        },
        OpIFunct::Xor => to_i32(to_u32(a) ^ to_u32(b)),
        OpIFunct::Or => to_i32(to_u32(a) | to_u32(b)),
        OpIFunct::And => to_i32(to_u32(a) & to_u32(b)),
        OpIFunct::Sll => to_i32(to_u32(a) << (to_u32(b) % 32)),
        OpIFunct::Srl => to_i32(to_u32(a) >> (to_u32(b) % 32)),
        OpIFunct::Sra => a >> (to_u32(b) % 32),
    }
}

pub fn execute_op_i(sys: &mut System, rd: &Reg, rs1: &Reg, rs2: &Reg, f: &OpIFunct)
    requires
        rd.wf(),
        rs1.wf(),
        rs2.wf(),
    ensures
        final(sys).state.regs@ == old(sys).state.regs@.update(
            rd.index as int,
            op_i_result(
                reg_spec(old(sys).state, rs1.index),
                reg_spec(old(sys).state, rs2.index),
                *f,
            ),
        ),
        final(sys).state.pc == old(sys).state.pc,
        final(sys).mem == old(sys).mem,
        final(sys).ctrl == old(sys).ctrl,
        final(sys).code == old(sys).code,
{
    let a = sys.reg(rs1);
    let b = sys.reg(rs2);
    let v = alu_op_i(a, b, f);
    *sys.reg_mut(rd) = v;
}

} // verus!
