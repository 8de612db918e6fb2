//! JAL: jump and link.
use vstd::prelude::*;

verus! {

use crate::arith::{i32_of_u32, to_i32, w_add32, w_add32_signed, wadd32, wadd32_signed};
use crate::instr::reg::Reg;
use crate::sys::System;
use crate::trap::{Exception, Trap};

/// The jump target is PC plus the immediate. On a 4-aligned target, rd
/// receives the link value PC+4 and the PC moves to the target; on a
/// misaligned target nothing changes and the instruction traps with the
/// target as the value.
pub fn execute_jal(sys: &mut System, rd: &Reg, imm: i32) -> (r: Result<(), Trap>)
    requires
        rd.wf(),
    ensures
        ({
            let target = wadd32_signed(old(sys).state.pc, imm);
            if target % 4 == 0 {
                &&& r is Ok
                &&& final(sys).state.regs@ == old(sys).state.regs@.update(
                    rd.index as int,
                    i32_of_u32(wadd32(old(sys).state.pc, 4)),
                )
                &&& final(sys).state.pc == target
                &&& final(sys).mem == old(sys).mem
                &&& final(sys).ctrl == old(sys).ctrl
                &&& final(sys).code == old(sys).code
            } else {
                &&& r == Err::<(), Trap>(
                    Trap::spec_from_exception(Exception::InstrAddrMisaligned, target),
                )
                &&& *final(sys) == *old(sys)
            }
        }),
{
    let pc = sys.pc();
    let pc_jump = w_add32_signed(pc, imm);
    if pc_jump % 4 != 0 {
        return Err(Trap::from_exception(Exception::InstrAddrMisaligned, pc_jump));
    }
    let link = to_i32(w_add32(pc, 4));
    *sys.reg_mut(rd) = link;
    *sys.pc_mut() = pc_jump;
    Ok(())
}

} // verus!
