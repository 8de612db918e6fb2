//! The M-extension multiply and divide operations.
use vstd::prelude::*;

verus! {

use crate::arith::{
    div_i32, div_trunc, i32_of_u32, mulh_i32, mulh_spec, mulhsu_i32, mulhsu_spec, mulhu_spec,
    mulhu_u32, rem_i32, rem_trunc, to_i32, to_u32, u32_of_i32,
};
use crate::instr::funct::OpMFunct;
use crate::instr::reg::Reg;
use crate::sys::System;
use crate::sys::state::reg_spec;
use vstd::wrapping::i32_specs;

/// The M-extension ALU: the low or high half of the 64-bit product with the
/// chosen signedness, and division/remainder truncating toward zero with
/// the architectural special cases — a zero divisor yields all-ones for
/// DIV[U] and the dividend for REM[U], and the signed overflow pair yields
/// the minimum for DIV and zero for REM.
pub open spec fn op_m_result(a: i32, b: i32, f: OpMFunct) -> i32 {
    match f {
        OpMFunct::Mul => i32_specs::wrapping_mul(a, b),
        OpMFunct::Mulh => mulh_spec(a, b),
        OpMFunct::Mulhsu => mulhsu_spec(a, u32_of_i32(b)),
        OpMFunct::Mulhu => i32_of_u32(mulhu_spec(u32_of_i32(a), u32_of_i32(b))),
        OpMFunct::Div => if b == 0 {
            -1i32
        } else if a == i32::MIN && b == -1 {
            i32::MIN
        } else {
            div_trunc(a as int, b as int) as i32
        },
        OpMFunct::Divu => if b == 0 {
            -1i32
        } else {
            i32_of_u32((u32_of_i32(a) / u32_of_i32(b)) as u32)
        },
        OpMFunct::Rem => if b == 0 {
            a
        } else if a == i32::MIN && b == -1 {
            0
        } else {
            rem_trunc(a as int, b as int) as i32
        },
        OpMFunct::Remu => if b == 0 {
            a
        } else {
            i32_of_u32((u32_of_i32(a) % u32_of_i32(b)) as u32)
        },
    }
}

pub fn alu_op_m(a: i32, b: i32, f: &OpMFunct) -> (r: i32)
    ensures
        r == op_m_result(a, b, *f),
{
    match f {
        OpMFunct::Mul => a.wrapping_mul(b),
        OpMFunct::Mulh => mulh_i32(a, b),
        OpMFunct::Mulhsu => mulhsu_i32(a, to_u32(b)),
        OpMFunct::Mulhu => to_i32(mulhu_u32(to_u32(a), to_u32(b))),
        OpMFunct::Div => {
            if b == 0 {
                -1
            } else if a == i32::MIN && b == -1 {
                i32::MIN
            } else {
                div_i32(a, b)
            }
        }
        OpMFunct::Divu => {
            if b == 0 {
                -1
            } else {
                to_i32(to_u32(a) / to_u32(b))
            }
        }
        OpMFunct::Rem => {
            if b == 0 {
                a
            } else if a == i32::MIN && b == -1 {
                0
            } else {
                rem_i32(a, b)
            }
        }
        OpMFunct::Remu => {
            if b == 0 {
                a
            } else {
                to_i32(to_u32(a) % to_u32(b))
            }
        }
    }
}

pub fn execute_op_m(sys: &mut System, rd: &Reg, rs1: &Reg, rs2: &Reg, f: &OpMFunct)
    requires
        rd.wf(),
        rs1.wf(),
        rs2.wf(),
    ensures
        final(sys).state.regs@ == old(sys).state.regs@.update(
            rd.index as int,
            op_m_result(
                reg_spec(old(sys).state, rs1.index),
                reg_spec(old(sys).state, rs2.index),
                *f,
            ),
        ),
        final(sys).state.pc == old(sys).state.pc,
        final(sys).mem == old(sys).mem,
        final(sys).ctrl == old(sys).ctrl,
        final(sys).code == old(sys).code,
{
    let a = sys.reg(rs1);
    let b = sys.reg(rs2);
    let v = alu_op_m(a, b, f);
    *sys.reg_mut(rd) = v;
}

} // verus!
