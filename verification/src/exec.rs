//! The executor: one function per instruction class, and the dispatch that
//! applies a decoded instruction to the system.
use vstd::prelude::*;

pub mod atomic;
pub mod auipc;
pub mod branch;
pub mod csr;
pub mod env;
pub mod jal;
pub mod jalr;
pub mod load;
pub mod lui;
pub mod op;
pub mod opimm;
pub mod store;

verus! {

use crate::arith::{i32_of_u32, w_add32, wadd32, wadd32_signed};
use crate::instr::Instr;
use crate::instr::format::{BType, IType, JType, RType, SType, UType};
use crate::instr::funct::{AtomicFunct, LrScFunct};
use crate::sys::System;
use crate::sys::state::reg_spec;
use crate::trap::{Exception, Trap};

/// The whole per-instruction relation: for each class, what the instruction
/// does to the system and when it traps, as the class modules state it.
pub open spec fn exec_post(o: System, n: System, instr: Instr, r: Result<(), Trap>) -> bool {
    match instr {
        Instr::Op(rt, f) => {
            &&& r is Ok
            &&& n.state.regs@ == o.state.regs@.update(
                rt.rd.index as int,
                op::op_result(reg_spec(o.state, rt.rs1.index), reg_spec(o.state, rt.rs2.index), f),
            )
            &&& n.state.pc == wadd32(o.state.pc, 4)
            &&& n.mem == o.mem
            &&& n.ctrl == o.ctrl
            &&& n.code == o.code
        },
        Instr::OpImm(it, f) => {
            &&& r is Ok
            &&& n.state.regs@ == o.state.regs@.update(
                it.rd.index as int,
                opimm::op_imm_result(reg_spec(o.state, it.rs1.index), it.imm, f),
            )
            &&& n.state.pc == wadd32(o.state.pc, 4)
            &&& n.mem == o.mem
            &&& n.ctrl == o.ctrl
            &&& n.code == o.code
        },
        Instr::Lui(ut) => {
            &&& r is Ok
            &&& n.state.regs@ == o.state.regs@.update(ut.rd.index as int, ut.imm)
            &&& n.state.pc == wadd32(o.state.pc, 4)
            &&& n.mem == o.mem
            &&& n.ctrl == o.ctrl
            &&& n.code == o.code
        },
        Instr::Auipc(ut) => {
            &&& r is Ok
            &&& n.state.regs@ == o.state.regs@.update(
                ut.rd.index as int,
                i32_of_u32(wadd32_signed(o.state.pc, ut.imm)),
            )
            &&& n.state.pc == wadd32(o.state.pc, 4)
            &&& n.mem == o.mem
            &&& n.ctrl == o.ctrl
            &&& n.code == o.code
        },
        Instr::Load(it, f) => load::load_post(o, n, it.rd, it.rs1, it.imm, f, r),
        Instr::Store(st, f) => store::store_post(o, n, st.rs1, st.rs2, st.imm, f, r),
        Instr::Jal(jt) => {
            let target = wadd32_signed(o.state.pc, jt.imm);
            if target % 4 == 0 {
                &&& r is Ok
                &&& n.state.regs@ == o.state.regs@.update(
                    jt.rd.index as int,
                    i32_of_u32(wadd32(o.state.pc, 4)),
                )
                &&& n.state.pc == target
                &&& n.mem == o.mem
                &&& n.ctrl == o.ctrl
                &&& n.code == o.code
            } else {
                r == Err::<(), Trap>(
                    Trap::spec_from_exception(Exception::InstrAddrMisaligned, target),
                ) && n == o
            }
        },
        Instr::Jalr(it) => {
            let target = jalr::jalr_target(reg_spec(o.state, it.rs1.index), it.imm);
            if target % 4 == 0 {
                &&& r is Ok
                &&& n.state.regs@ == o.state.regs@.update(
                    it.rd.index as int,
                    i32_of_u32(wadd32(o.state.pc, 4)),
                )
                &&& n.state.pc == target
                &&& n.mem == o.mem
                &&& n.ctrl == o.ctrl
                &&& n.code == o.code
            } else {
                r == Err::<(), Trap>(
                    Trap::spec_from_exception(Exception::InstrAddrMisaligned, target),
                ) && n == o
            }
        },
        Instr::Branch(bt, f) => {
            let next = branch::branch_next(
                o.state.pc,
                reg_spec(o.state, bt.rs1.index),
                reg_spec(o.state, bt.rs2.index),
                bt.imm,
                f,
            );
            if next % 4 == 0 {
                &&& r is Ok
                &&& n.state.pc == next
                &&& n.state.regs == o.state.regs
                &&& n.mem == o.mem
                &&& n.ctrl == o.ctrl
                &&& n.code == o.code
            } else {
                r == Err::<(), Trap>(
                    Trap::spec_from_exception(Exception::InstrAddrMisaligned, next),
                ) && n == o
            }
        },
        Instr::Atomic(rt, f) => match f {
            AtomicFunct::LrSc(LrScFunct::Lr) => atomic::lr_post(o, n, rt.rd, rt.rs1, r),
            AtomicFunct::LrSc(LrScFunct::Sc) => atomic::sc_post(o, n, rt.rd, rt.rs1, rt.rs2, r),
            AtomicFunct::Amo(af) => atomic::amo_post(o, n, rt.rd, rt.rs1, rt.rs2, af, r),
        },
        Instr::Fence => {
            &&& r is Ok
            &&& n == (System { state: n.state, ..o })
            &&& n.state.pc == wadd32(o.state.pc, 4)
            &&& n.state.regs == o.state.regs
        },
        Instr::Env(f) => env::env_post(o, n, f, r),
        Instr::Csr(ct, f) => csr::csr_instr_post(o, n, ct.rd, ct.src, ct.csr, f, r),
    }
}

/// Apply one decoded instruction to the system: the per-class relation
/// holds of the old and new state and the result.
pub fn execute(sys: &mut System, instr: &Instr) -> (r: Result<(), Trap>)
    requires
        old(sys).wf(),
        instr.wf(),
    ensures
        final(sys).wf(),
        exec_post(*old(sys), *final(sys), *instr, r),
{
    match instr {
        Instr::Op(RType { rd, rs1, rs2 }, f) => {
            op::execute_op(sys, rd, rs1, rs2, f);
            Ok(())
        }
        Instr::OpImm(IType { rd, rs1, imm }, f) => {
            opimm::execute_opimm(sys, rd, rs1, *imm, f);
            Ok(())
        }
        Instr::Lui(UType { rd, imm }) => {
            lui::execute_lui(sys, rd, *imm);
            Ok(())
        }
        Instr::Auipc(UType { rd, imm }) => {
            auipc::execute_auipc(sys, rd, *imm);
            Ok(())
        }
        Instr::Load(IType { rd, rs1, imm }, f) => load::execute_load(sys, rd, rs1, *imm, f),
        Instr::Store(SType { rs1, rs2, imm }, f) => store::execute_store(sys, rs1, rs2, *imm, f),
        Instr::Jal(JType { rd, imm }) => jal::execute_jal(sys, rd, *imm),
        Instr::Jalr(IType { rd, rs1, imm }) => jalr::execute_jalr(sys, rd, rs1, *imm),
        Instr::Branch(BType { rs1, rs2, imm }, f) => branch::execute_branch(sys, rs1, rs2, *imm, f),
        Instr::Atomic(RType { rd, rs1, rs2 }, f) => atomic::execute_atomic(sys, rd, rs1, rs2, f),
        Instr::Fence => {
            advance_pc(sys);
            Ok(())
        }
        Instr::Env(f) => env::execute_env(sys, f),
        Instr::Csr(ct, f) => csr::execute_csr(sys, &ct.rd, &ct.src, &ct.csr, f),
    }
}

/// Move to the next sequential instruction.
pub fn advance_pc(sys: &mut System)
    ensures
        final(sys).state.pc == wadd32(old(sys).state.pc, 4),
        final(sys).state.regs == old(sys).state.regs,
        final(sys).mem == old(sys).mem,
        final(sys).ctrl == old(sys).ctrl,
        final(sys).code == old(sys).code,
{
    let pc = sys.pc();
    *sys.pc_mut() = w_add32(pc, 4);
}

} // verus!
