//! LUI: load the upper immediate.
use vstd::prelude::*;

verus! {

use crate::arith::wadd32;
use crate::exec::advance_pc;
use crate::instr::reg::Reg;
use crate::sys::System;

/// rd receives the upper immediate as decoded (already shifted into place)
/// and the PC advances.
pub fn execute_lui(sys: &mut System, rd: &Reg, imm: i32)
    requires
        rd.wf(),
    ensures
        final(sys).state.regs@ == old(sys).state.regs@.update(rd.index as int, imm),
        final(sys).state.pc == wadd32(old(sys).state.pc, 4),
        final(sys).mem == old(sys).mem,
        final(sys).ctrl == old(sys).ctrl,
        final(sys).code == old(sys).code,
{
    *sys.reg_mut(rd) = imm;
    advance_pc(sys);
}

} // verus!
