//! The privilege and trap engine: trap-frame push and pop for M and S mode,
//! delegation routing, vector computation, and the interrupt arbiter.
use vstd::prelude::*;

verus! {

use crate::arith::{w_add32, wadd32};
use crate::sys::System;
use crate::sys::control::{Control, InterruptMap, MPriv, SPriv, TvecMode};
use crate::sys::mem_map::MemMap;
use crate::trap::{Interrupt, Trap, TrapCause, interrupt_code};

/// Where a trap vectors to: the base, except for an interrupt under a
/// vectored mode, which lands at base + 4 * code.
pub open spec fn trap_vector_addr_spec(trap: Trap, base: u32, mode: TvecMode) -> u32 {
    match mode {
        TvecMode::Direct => base,
        TvecMode::Vectored => match trap.cause {
            TrapCause::Exception(_) => base,
            TrapCause::Interrupt(i) => wadd32(base, (interrupt_code(i) * 4) as u32),
        },
    }
}

pub fn trap_vector_addr(trap: &Trap, base: u32, mode: &TvecMode) -> (r: u32)
    ensures
        r == trap_vector_addr_spec(*trap, base, *mode),
{
    match mode {
        TvecMode::Direct => base,
        TvecMode::Vectored => match trap.cause {
            TrapCause::Exception(_) => base,
            TrapCause::Interrupt(i) => w_add32(base, i.to_int() * 4),
        },
    }
}

// ------------ Interrupt condition -------------
/// The control state after refreshing the timer-pending bit from the timer.
pub open spec fn update_interrupt_spec(c: Control, pending: bool) -> Control {
    Control {
        ip: InterruptMap(
            crate::sys::control::set_bit(c.ip.0, interrupt_code(Interrupt::MTimer), pending),
        ),
        ..c
    }
}

pub fn update_interrupt(sys: &mut System)
    ensures
        final(sys).ctrl == update_interrupt_spec(
            old(sys).ctrl,
            old(sys).mem.timer.time >= old(sys).mem.timer.timecmp,
        ),
        final(sys).state == old(sys).state,
        final(sys).mem == old(sys).mem,
        final(sys).code == old(sys).code,
{
    // Update the timer interrupt
    let pending = sys.mem.timer.is_interrupt_set();
    sys.ctrl.ip.set(&Interrupt::MTimer, pending);
}

/// Whether an M-level interrupt may be taken: always below M, under MIE in M.
pub open spec fn int_cond_m_spec(c: Control) -> bool {
    c.privilege != MPriv::M || c.mie
}

/// Whether a delegated (S-level) interrupt may be taken: always in U, under
/// SIE in S, never in M.
pub open spec fn int_cond_s_spec(c: Control) -> bool {
    c.privilege == MPriv::U || (c.privilege == MPriv::S && c.sie)
}

/// Whether this interrupt is enabled, pending, and allowed by the privilege
/// condition of the mode it would be taken in.
pub open spec fn int_ready(c: Control, i: Interrupt) -> bool {
    &&& c.ie.spec_get(i)
    &&& c.ip.spec_get(i)
    &&& (if c.mideleg.spec_get(i) {
        int_cond_s_spec(c)
    } else {
        int_cond_m_spec(c)
    })
}

/// The interrupt the arbiter takes: the first ready one in the fixed
/// priority order MExt, MSoft, MTimer, SExt, SSoft, STimer.
pub open spec fn pending_interrupt(c: Control) -> Option<Interrupt> {
    if int_ready(c, Interrupt::MExt) {
        Some(Interrupt::MExt)
    } else if int_ready(c, Interrupt::MSoft) {
        Some(Interrupt::MSoft)
    } else if int_ready(c, Interrupt::MTimer) {
        Some(Interrupt::MTimer)
    } else if int_ready(c, Interrupt::SExt) {
        Some(Interrupt::SExt)
    } else if int_ready(c, Interrupt::SSoft) {
        Some(Interrupt::SSoft)
    } else if int_ready(c, Interrupt::STimer) {
        Some(Interrupt::STimer)
    } else {
        None
    }
}

pub fn check_interrupt(sys: &mut System) -> (r: Result<(), Trap>)
    ensures
        *final(sys) == *old(sys),
        r == match pending_interrupt(old(sys).ctrl) {
            Some(i) => Err::<(), Trap>(Trap::spec_from_interrupt(i, 0)),
            None => Ok::<(), Trap>(()),
        },
{
    let cond_m = int_cond_m(sys);
    let cond_s = int_cond_s(sys);
    match check_one(sys, Interrupt::MExt, cond_m, cond_s) {
        Some(t) => return Err(t),
        None => {}
    }
    match check_one(sys, Interrupt::MSoft, cond_m, cond_s) {
        Some(t) => return Err(t),
        None => {}
    }
    match check_one(sys, Interrupt::MTimer, cond_m, cond_s) {
        Some(t) => return Err(t),
        None => {}
    }
    match check_one(sys, Interrupt::SExt, cond_m, cond_s) {
        Some(t) => return Err(t),
        None => {}
    }
    match check_one(sys, Interrupt::SSoft, cond_m, cond_s) {
        Some(t) => return Err(t),
        None => {}
    }
    match check_one(sys, Interrupt::STimer, cond_m, cond_s) {
        Some(t) => return Err(t),
        None => {}
    }
    Ok(())
}

fn check_one(sys: &System, i: Interrupt, cond_m: bool, cond_s: bool) -> (r: Option<Trap>)
    requires
        cond_m == int_cond_m_spec(sys.ctrl),
        cond_s == int_cond_s_spec(sys.ctrl),
    ensures
        r == if int_ready(sys.ctrl, i) {
            Some(Trap::spec_from_interrupt(i, 0))
        } else {
            None::<Trap>
        },
{
    if sys.ctrl.ie.get(&i) && sys.ctrl.ip.get(&i) {
        if sys.ctrl.mideleg.get(&i) {
            // Delegated: the S-mode condition decides
            if cond_s {
                return Some(Trap::from_interrupt(i, 0));
            }
        } else {
            // Not delegated: the M-mode condition decides
            if cond_m {
                return Some(Trap::from_interrupt(i, 0));
            }
        }
    }
    None
}

fn int_cond_m(sys: &System) -> (r: bool)
    ensures
        r == int_cond_m_spec(sys.ctrl),
{
    match sys.ctrl.privilege {
        MPriv::M => sys.ctrl.mie,
        _ => true,
    }
}

fn int_cond_s(sys: &System) -> (r: bool)
    ensures
        r == int_cond_s_spec(sys.ctrl),
{
    match sys.ctrl.privilege {
        MPriv::U => true,
        MPriv::S => sys.ctrl.sie,
        MPriv::M => false,
    }
}

// ---------------- Trap stack ------------------
/// The control state after an M-mode trap push: the previous interrupt
/// enable and privilege saved, interrupts off, privilege M, and the trap
/// recorded in mepc/mcause/mtval.
pub open spec fn push_m_ctrl(c: Control, pc: u32, trap: Trap) -> Control {
    Control {
        mpie: c.mie,
        mpp: c.privilege,
        mie: false,
        privilege: MPriv::M,
        mepc: pc,
        mtrap: trap,
        ..c
    }
}

pub fn push_trap_m(sys: &mut System, trap: Trap)
    ensures
        final(sys).ctrl == push_m_ctrl(old(sys).ctrl, old(sys).state.pc, trap),
        final(sys).state.pc == trap_vector_addr_spec(
            trap,
            old(sys).ctrl.mtvec_base,
            old(sys).ctrl.mtvec_mode,
        ),
        final(sys).state.regs == old(sys).state.regs,
        final(sys).mem == old(sys).mem,
        final(sys).code == old(sys).code,
{
    let pc = sys.pc();
    // Save the previous status, push the new one, and record the trap
    sys.ctrl = Control {
        mpie: sys.ctrl.mie,
        mpp: sys.ctrl.privilege,
        mie: false,
        privilege: MPriv::M,
        mepc: pc,
        mtrap: trap,
        ..sys.ctrl
    };
    // Jump to the trap vector
    *sys.pc_mut() = trap_vector_addr(&sys.ctrl.mtrap, sys.ctrl.mtvec_base, &sys.ctrl.mtvec_mode);
}

/// The control state after MRET: interrupt enable and privilege restored
/// from their stacked copies, the stack reset to enabled/U, and MPRV cleared
/// when dropping below M.
pub open spec fn pop_m_ctrl(c: Control) -> Control {
    Control {
        mie: c.mpie,
        privilege: c.mpp,
        mpie: true,
        mpp: MPriv::U,
        mprv: if c.mpp != MPriv::M {
            false
        } else {
            c.mprv
        },
        ..c
    }
}

pub fn pop_trap_m(sys: &mut System)
    ensures
        final(sys).ctrl == pop_m_ctrl(old(sys).ctrl),
        final(sys).state.pc == old(sys).ctrl.mepc,
        final(sys).state.regs == old(sys).state.regs,
        final(sys).mem == (MemMap { reserved_word: None, ..old(sys).mem }),
        final(sys).code == old(sys).code,
{
    // Restore the previous status and reset the stacked one; moving to a
    // less privileged mode clears MPRV
    sys.ctrl = Control {
        mie: sys.ctrl.mpie,
        privilege: sys.ctrl.mpp,
        mpie: true,
        mpp: MPriv::U,
        mprv: if !matches!(sys.ctrl.mpp, MPriv::M) {
            false
        } else {
            sys.ctrl.mprv
        },
        ..sys.ctrl
    };
    // Jump back to the original PC
    *sys.pc_mut() = sys.ctrl.mepc;
    // Also clear the LR reservation
    sys.mem.clear_reservation();
}

/// The control state after an S-mode trap push.
pub open spec fn push_s_ctrl(c: Control, pc: u32, trap: Trap) -> Control {
    Control {
        spie: c.sie,
        spp: if c.privilege == MPriv::S {
            SPriv::S
        } else {
            SPriv::U
        },
        sie: false,
        privilege: MPriv::S,
        sepc: pc,
        strap: trap,
        ..c
    }
}

pub fn push_trap_s(sys: &mut System, trap: Trap)
    requires
        old(sys).ctrl.privilege != MPriv::M,
    ensures
        final(sys).ctrl == push_s_ctrl(old(sys).ctrl, old(sys).state.pc, trap),
        final(sys).state.pc == trap_vector_addr_spec(
            trap,
            old(sys).ctrl.stvec_base,
            old(sys).ctrl.stvec_mode,
        ),
        final(sys).state.regs == old(sys).state.regs,
        final(sys).mem == old(sys).mem,
        final(sys).code == old(sys).code,
{
    let pc = sys.pc();
    // Save the previous status (a trap cannot land in S from M), push the
    // new one, and record the trap
    sys.ctrl = Control {
        spie: sys.ctrl.sie,
        spp: match sys.ctrl.privilege {
            MPriv::S => SPriv::S,
            _ => SPriv::U,
        },
        sie: false,
        privilege: MPriv::S,
        sepc: pc,
        strap: trap,
        ..sys.ctrl
    };
    // Jump to the trap vector
    *sys.pc_mut() = trap_vector_addr(&sys.ctrl.strap, sys.ctrl.stvec_base, &sys.ctrl.stvec_mode);
}

/// The control state after SRET: as MRET over the S stack; SRET always
/// lands in S or U, so MPRV is always cleared.
pub open spec fn pop_s_ctrl(c: Control) -> Control {
    Control {
        sie: c.spie,
        privilege: if c.spp == SPriv::S {
            MPriv::S
        } else {
            MPriv::U
        },
        spie: true,
        spp: SPriv::U,
        mprv: false,
        ..c
    }
}

pub fn pop_trap_s(sys: &mut System)
    ensures
        final(sys).ctrl == pop_s_ctrl(old(sys).ctrl),
        final(sys).state.pc == old(sys).ctrl.sepc,
        final(sys).state.regs == old(sys).state.regs,
        final(sys).mem == (MemMap { reserved_word: None, ..old(sys).mem }),
        final(sys).code == old(sys).code,
{
    // Restore the previous status and reset the stacked one; SRET always
    // moves to S or U, so MPRV is cleared
    sys.ctrl = Control {
        sie: sys.ctrl.spie,
        privilege: MPriv::from_s(sys.ctrl.spp),
        spie: true,
        spp: SPriv::U,
        mprv: false,
        ..sys.ctrl
    };
    // Jump back to the original PC
    *sys.pc_mut() = sys.ctrl.sepc;
    // Also clear the LR reservation
    sys.mem.clear_reservation();
}

// -------------- Trap handling -----------------
/// Whether a trap is handled in M: always from M, and otherwise whenever
/// its cause is not delegated.
pub open spec fn trap_to_m(c: Control, trap: Trap) -> bool {
    match trap.cause {
        TrapCause::Exception(ex) => c.privilege == MPriv::M || !c.medeleg.spec_get(ex),
        TrapCause::Interrupt(i) => c.privilege == MPriv::M || !c.mideleg.spec_get(i),
    }
}

/// The trap-delivery relation: the frame is pushed in M or S as delegation
/// routes it, the PC moves to the chosen vector, and nothing else changes.
pub open spec fn handle_post(o: System, n: System, trap: Trap) -> bool {
    &&& (if trap_to_m(o.ctrl, trap) {
        &&& n.ctrl == push_m_ctrl(o.ctrl, o.state.pc, trap)
        &&& n.state.pc == trap_vector_addr_spec(trap, o.ctrl.mtvec_base, o.ctrl.mtvec_mode)
    } else {
        &&& n.ctrl == push_s_ctrl(o.ctrl, o.state.pc, trap)
        &&& n.state.pc == trap_vector_addr_spec(trap, o.ctrl.stvec_base, o.ctrl.stvec_mode)
    })
    &&& n.state.regs == o.state.regs
    &&& n.mem == o.mem
    &&& n.code == o.code
}

pub fn handle_trap(sys: &mut System, trap: Trap)
    ensures
        handle_post(*old(sys), *final(sys), trap),
{
    // Determine the mode (M or S) that handles the trap
    let to_m = match trap.cause {
        TrapCause::Exception(ex) => matches!(sys.ctrl.privilege, MPriv::M) || !sys.ctrl.medeleg.get(
            &ex,
        ),
        TrapCause::Interrupt(i) => matches!(sys.ctrl.privilege, MPriv::M) || !sys.ctrl.mideleg.get(
            &i,
        ),
    };
    if to_m {
        push_trap_m(sys, trap);
    } else {
        push_trap_s(sys, trap);
    }
}

} // verus!
