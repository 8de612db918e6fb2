//! The environment instructions: ECALL, EBREAK, the trap returns, WFI and
//! SFENCE.VMA.
use vstd::prelude::*;

verus! {

use crate::arith::wadd32;
use crate::exec::advance_pc;
use crate::instr::funct::EnvFunct;
use crate::proc::{pop_m_ctrl, pop_s_ctrl, pop_trap_m, pop_trap_s};
use crate::sys::control::MPriv;
use crate::sys::mem_map::MemMap;
use crate::sys::{System, make_illegal, spec_make_illegal};
use crate::trap::{Exception, Trap};

/// The ecall exception of the current privilege.
pub open spec fn ecall_exception(p: MPriv) -> Exception {
    match p {
        MPriv::U => Exception::EcallFromU,
        MPriv::S => Exception::EcallFromS,
        MPriv::M => Exception::EcallFromM,
    }
}

/// The environment-instruction relation.
///
/// ECALL raises the ecall of the current privilege and EBREAK raises a
/// breakpoint, both with a zero value and no state change. MRET is allowed
/// only in M and SRET in S (with TSR clear) or M; both pop their trap frame,
/// return to the saved PC and clear the reservation. WFI is a no-op unless
/// TW traps it below M; SFENCE.VMA is a no-op in M, and in S unless TVM
/// traps it; both are illegal where trapped, as is every case in U.
pub open spec fn env_post(o: System, n: System, f: EnvFunct, r: Result<(), Trap>) -> bool {
    match f {
                EnvFunct::Call => r == Err::<(), Trap>(
                    Trap::spec_from_exception(ecall_exception(o.ctrl.privilege), 0),
                ) && n == o,
                EnvFunct::Break => r == Err::<(), Trap>(
                    Trap::spec_from_exception(Exception::Breakpoint, 0),
                ) && n == o,
                EnvFunct::Mret => if o.ctrl.privilege != MPriv::M {
                    r == Err::<(), Trap>(spec_make_illegal(&o)) && n == o
                } else {
                    &&& r is Ok
                    &&& n.ctrl == pop_m_ctrl(o.ctrl)
                    &&& n.state.pc == o.ctrl.mepc
                    &&& n.state.regs == o.state.regs
                    &&& n.mem == (MemMap { reserved_word: None, ..o.mem })
                    &&& n.code == o.code
                },
                EnvFunct::Sret => if o.ctrl.privilege == MPriv::U || (o.ctrl.tsr
                    && o.ctrl.privilege == MPriv::S) {
                    r == Err::<(), Trap>(spec_make_illegal(&o)) && n == o
                } else {
                    &&& r is Ok
                    &&& n.ctrl == pop_s_ctrl(o.ctrl)
                    &&& n.state.pc == o.ctrl.sepc
                    &&& n.state.regs == o.state.regs
                    &&& n.mem == (MemMap { reserved_word: None, ..o.mem })
                    &&& n.code == o.code
                },
                EnvFunct::Wfi => if o.ctrl.tw && o.ctrl.privilege != MPriv::M {
                    r == Err::<(), Trap>(spec_make_illegal(&o)) && n == o
                } else {
                    r is Ok && n == (System { state: n.state, ..o }) && n.state.pc == wadd32(
                        o.state.pc,
                        4,
                    ) && n.state.regs == o.state.regs
                },
                EnvFunct::SfenceVma => if o.ctrl.privilege == MPriv::U || (o.ctrl.tvm
                    && o.ctrl.privilege == MPriv::S) {
                    r == Err::<(), Trap>(spec_make_illegal(&o)) && n == o
                } else {
                    r is Ok && n == (System { state: n.state, ..o }) && n.state.pc == wadd32(
                        o.state.pc,
                        4,
                    ) && n.state.regs == o.state.regs
        },
    }
}

pub fn execute_env(sys: &mut System, f: &EnvFunct) -> (r: Result<(), Trap>)
    ensures
        env_post(*old(sys), *final(sys), *f, r),
{
    match f {
        EnvFunct::Call => {
            match sys.ctrl.privilege {
                MPriv::U => Err(Trap::from_exception(Exception::EcallFromU, 0)),
                MPriv::S => Err(Trap::from_exception(Exception::EcallFromS, 0)),
                MPriv::M => Err(Trap::from_exception(Exception::EcallFromM, 0)),
            }
        }
        EnvFunct::Break => Err(Trap::from_exception(Exception::Breakpoint, 0)),
        EnvFunct::Mret => {
            // Only available in M-mode
            if !matches!(sys.ctrl.privilege, MPriv::M) {
                return Err(make_illegal(sys));
            }
            // The PC comes from mepc, not from advancing
            pop_trap_m(sys);
            Ok(())
        }
        EnvFunct::Sret => {
            // Only available in S-mode and M-mode
            if matches!(sys.ctrl.privilege, MPriv::U) {
                return Err(make_illegal(sys));
            }
            // With TSR set it traps in S-mode as well
            if sys.ctrl.tsr && matches!(sys.ctrl.privilege, MPriv::S) {
                return Err(make_illegal(sys));
            }
            // The PC comes from sepc, not from advancing
            pop_trap_s(sys);
            Ok(())
        }
        EnvFunct::Wfi => {
            // A no-op, unless TW traps it below M
            if sys.ctrl.tw && !matches!(sys.ctrl.privilege, MPriv::M) {
                Err(make_illegal(sys))
            } else {
                advance_pc(sys);
                Ok(())
            }
        }
        EnvFunct::SfenceVma => {
            // Only available in S-mode and M-mode
            if matches!(sys.ctrl.privilege, MPriv::U) {
                return Err(make_illegal(sys));
            }
            // With TVM set it traps in S-mode as well
            if sys.ctrl.tvm && matches!(sys.ctrl.privilege, MPriv::S) {
                return Err(make_illegal(sys));
            }
            // Otherwise a no-op: there is no TLB to flush
            advance_pc(sys);
            Ok(())
        }
    }
}

} // verus!
