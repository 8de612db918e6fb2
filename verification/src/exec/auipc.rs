//! AUIPC: add the upper immediate to the PC.
use vstd::prelude::*;

verus! {

use crate::arith::{i32_of_u32, to_i32, w_add32_signed, wadd32, wadd32_signed};
use crate::exec::advance_pc;
use crate::instr::reg::Reg;
use crate::sys::System;

/// rd receives PC plus the upper immediate (wrapping) and the PC advances.
pub fn execute_auipc(sys: &mut System, rd: &Reg, imm: i32)
    requires
        rd.wf(),
    ensures
        final(sys).state.regs@ == old(sys).state.regs@.update(
            rd.index as int,
            i32_of_u32(wadd32_signed(old(sys).state.pc, imm)),
        ),
        final(sys).state.pc == wadd32(old(sys).state.pc, 4),
        final(sys).mem == old(sys).mem,
        final(sys).ctrl == old(sys).ctrl,
        final(sys).code == old(sys).code,
{
    let pc = sys.pc();
    let v = to_i32(w_add32_signed(pc, imm));
    *sys.reg_mut(rd) = v;
    advance_pc(sys);
}

} // verus!
