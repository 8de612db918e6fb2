//! Hart state: the program counter and the 32 integer registers, with x0
//! hard-wired to zero.
use vstd::prelude::*;

verus! {

use crate::instr::reg::Reg;

#[derive(Debug)]
pub struct State {
    pub pc: u32,
    pub regs: [i32; 32],
}

/// What a register read yields: x0 is always zero, every other register
/// holds its stored value.
pub open spec fn reg_spec(s: State, idx: u8) -> i32
    recommends
        idx < 32,
{
    if idx == 0 {
        0
    } else {
        s.regs[idx as int]
    }
}

impl State {
    pub fn new() -> (r: State)
        ensures
            r.pc == 0,
            forall|i: u8| i < 32 ==> reg_spec(r, i) == 0,
    {
        State { pc: 0, regs: [0; 32] }
    }

    pub fn reg(&self, r: &Reg) -> (v: i32)
        requires
            r.wf(),
        ensures
            v == reg_spec(*self, r.index),
    {
        if r.index() == 0 {
            0
        } else {
            self.regs[r.index() as usize]
        }
    }

    pub fn reg_mut(&mut self, r: &Reg) -> (v: &mut i32)
        requires
            old(self).wf_reg(*r),
        ensures
            *v == old(self).regs[r.index as int],
            final(self).regs@ == old(self).regs@.update(r.index as int, *final(v)),
            final(self).pc == old(self).pc,
    {
        &mut self.regs[r.index() as usize]
    }

    /// A register name that indexes this file.
    pub open spec fn wf_reg(&self, r: Reg) -> bool {
        r.index < 32
    }

    pub fn pc(&self) -> (v: u32)
        ensures
            v == self.pc,
    {
        self.pc
    }

    pub fn pc_mut(&mut self) -> (v: &mut u32)
        ensures
            *v == old(self).pc,
            final(self).pc == *final(v),
            final(self).regs == old(self).regs,
    {
        &mut self.pc
    }
}

/// Writing a register then reading it back: x0 still reads zero, any other
/// register yields the written value unchanged, and the rest of the file is
/// untouched.
pub proof fn lemma_reg_write_read(s1: State, s2: State, i: u8, v: i32)
    requires
        i < 32,
        s2.regs@ == s1.regs@.update(i as int, v),
    ensures
        reg_spec(s2, 0) == 0,
        i != 0 ==> reg_spec(s2, i) == v,
        forall|j: u8| j < 32 && j != i ==> reg_spec(s2, j) == reg_spec(s1, j),
{
    assert(forall|j: u8| j < 32 && j != i ==> s2.regs@[j as int] == s1.regs@[j as int]);
}

} // verus!
