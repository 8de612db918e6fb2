//! JALR: jump and link through a register.
use vstd::prelude::*;

verus! {

use crate::arith::{i32_of_u32, to_i32, to_u32, u32_of_i32, w_add32, wadd32};
use crate::instr::reg::Reg;
use crate::sys::System;
use crate::sys::state::reg_spec;
use crate::trap::{Exception, Trap};
use vstd::wrapping::i32_specs;

/// The JALR target: rs1 plus the immediate, with the lowest bit masked off
/// before the alignment check.
pub open spec fn jalr_target(a: i32, imm: i32) -> u32 {
    u32_of_i32(i32_specs::wrapping_add(a, imm)) & 0xffff_fffe
}

/// On a 4-aligned masked target, rd receives the link value PC+4 (written
/// after the target is computed, so rs1 and rd may alias) and the PC moves
/// to the target; on a misaligned target nothing changes and the
/// instruction traps with the target as the value.
pub fn execute_jalr(sys: &mut System, rd: &Reg, rs1: &Reg, imm: i32) -> (r: Result<(), Trap>)
    requires
        rd.wf(),
        rs1.wf(),
    ensures
        ({
            let target = jalr_target(reg_spec(old(sys).state, rs1.index), imm);
            if target % 4 == 0 {
                &&& r is Ok
                &&& final(sys).state.regs@ == old(sys).state.regs@.update(
                    rd.index as int,
                    i32_of_u32(wadd32(old(sys).state.pc, 4)),
                )
                &&& final(sys).state.pc == target
                &&& final(sys).mem == old(sys).mem
                &&& final(sys).ctrl == old(sys).ctrl
                &&& final(sys).code == old(sys).code
            } else {
                &&& r == Err::<(), Trap>(
                    Trap::spec_from_exception(Exception::InstrAddrMisaligned, target),
                )
                &&& *final(sys) == *old(sys)
            }
        }),
{
    let pc = sys.pc();
    let a = sys.reg(rs1);
    let pc_jump = to_u32(a.wrapping_add(imm)) & 0xffff_fffe;
    if pc_jump % 4 != 0 {
        return Err(Trap::from_exception(Exception::InstrAddrMisaligned, pc_jump));
    }
    let link = to_i32(w_add32(pc, 4));
    *sys.reg_mut(rd) = link;
    *sys.pc_mut() = pc_jump;
    Ok(())
}

} // verus!
