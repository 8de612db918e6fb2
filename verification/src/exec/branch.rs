//! The conditional branches.
use vstd::prelude::*;

verus! {

use crate::arith::{u32_of_i32, w_add32_signed, wadd32_signed};
use crate::instr::funct::BranchFunct;
use crate::instr::reg::Reg;
use crate::sys::System;
use crate::sys::state::reg_spec;
use crate::trap::{Exception, Trap};

/// Whether the branch condition holds of the two source values.
pub open spec fn branch_taken(a: i32, b: i32, f: BranchFunct) -> bool {
    match f {
        BranchFunct::Eq => a == b,
        BranchFunct::Ne => a != b,
        BranchFunct::Lt => a < b,
        BranchFunct::Ge => a >= b,
        BranchFunct::Ltu => u32_of_i32(a) < u32_of_i32(b),
        BranchFunct::Geu => u32_of_i32(a) >= u32_of_i32(b),
    }
}

/// Where the branch goes: the target on a taken condition, the next
/// instruction otherwise.
pub open spec fn branch_next(pc: u32, a: i32, b: i32, imm: i32, f: BranchFunct) -> u32 {
    wadd32_signed(
        pc,
        if branch_taken(a, b, f) {
            imm
        } else {
            4
        },
    )
}

/// For every state and branch: when the taken-or-fall-through target is
/// 4-aligned, the PC moves there, no register changes, and no trap occurs;
/// otherwise the state is unchanged and the instruction traps with
/// instruction-address-misaligned carrying the misaligned target.
pub fn execute_branch(sys: &mut System, rs1: &Reg, rs2: &Reg, imm: i32, f: &BranchFunct) -> (r:
    Result<(), Trap>)
    requires
        rs1.wf(),
        rs2.wf(),
    ensures
        ({
            let next = branch_next(
                old(sys).state.pc,
                reg_spec(old(sys).state, rs1.index),
                reg_spec(old(sys).state, rs2.index),
                imm,
                *f,
            );
            if next % 4 == 0 {
                &&& r is Ok
                &&& final(sys).state.pc == next
                &&& final(sys).state.regs == old(sys).state.regs
                &&& final(sys).mem == old(sys).mem
                &&& final(sys).ctrl == old(sys).ctrl
                &&& final(sys).code == old(sys).code
            } else {
                &&& r == Err::<(), Trap>(
                    Trap::spec_from_exception(Exception::InstrAddrMisaligned, next),
                )
                &&& *final(sys) == *old(sys)
            }
        }),
{
    let pc = sys.pc();
    let a = sys.reg(rs1);
    let b = sys.reg(rs2);
    let branch_cond = match f {
        BranchFunct::Eq => a == b,
        BranchFunct::Ne => a != b,
        BranchFunct::Lt => a < b,
        BranchFunct::Ge => a >= b,
        BranchFunct::Ltu => crate::arith::to_u32(a) < crate::arith::to_u32(b),
        BranchFunct::Geu => crate::arith::to_u32(a) >= crate::arith::to_u32(b),
    };
    let pc_next = w_add32_signed(
        pc,
        if branch_cond {
            imm
        } else {
            4
        },
    );
    if pc_next % 4 != 0 {
        return Err(Trap::from_exception(Exception::InstrAddrMisaligned, pc_next));
    }
    *sys.pc_mut() = pc_next;
    Ok(())
}

} // verus!
