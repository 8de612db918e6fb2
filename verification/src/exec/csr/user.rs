//! The unprivileged counter and timer CSRs: read-only windows onto the
//! machine counters and the timer, gated by mcounteren and scounteren.
use vstd::prelude::*;

verus! {

use crate::instr::csr::CsrRegU;
use crate::sys::System;
use crate::sys::control::{Control, MPriv};
use crate::sys::make_illegal;
use crate::trap::Trap;

/// Whether the current privilege may read a counter with the given enable
/// bits: M always may; S needs the machine enable; U needs both.
pub open spec fn counter_ok(c: Control, m_en: bool, s_en: bool) -> bool {
    c.privilege == MPriv::M || (m_en && (c.privilege == MPriv::S || s_en))
}

/// What an unprivileged CSR read yields: a counter half under the enable
/// rule (time reads the timer device), and illegal otherwise; the
/// hardware-performance counters are not implemented.
pub open spec fn csr_read_u_val(s: System, csr: CsrRegU) -> Result<u32, Trap> {
    let c = s.ctrl;
    match csr {
        CsrRegU::Cycle => if counter_ok(c, c.mcycle_en, c.scycle_en) {
            Ok((c.mcycle % 0x1_0000_0000) as u32)
        } else {
            Err(crate::sys::spec_make_illegal(&s))
        },
        CsrRegU::Time => if counter_ok(c, c.mtime_en, c.stime_en) {
            Ok((s.mem.timer.time % 0x1_0000_0000) as u32)
        } else {
            Err(crate::sys::spec_make_illegal(&s))
        },
        CsrRegU::InstRet => if counter_ok(c, c.minstret_en, c.sinstret_en) {
            Ok((c.minstret % 0x1_0000_0000) as u32)
        } else {
            Err(crate::sys::spec_make_illegal(&s))
        },
        CsrRegU::HpmCounter(_) => Err(crate::sys::spec_make_illegal(&s)),
        CsrRegU::Cycleh => if counter_ok(c, c.mcycle_en, c.scycle_en) {
            Ok((c.mcycle / 0x1_0000_0000) as u32)
        } else {
            Err(crate::sys::spec_make_illegal(&s))
        },
        CsrRegU::Timeh => if counter_ok(c, c.mtime_en, c.stime_en) {
            Ok((s.mem.timer.time / 0x1_0000_0000) as u32)
        } else {
            Err(crate::sys::spec_make_illegal(&s))
        },
        CsrRegU::InstReth => if counter_ok(c, c.minstret_en, c.sinstret_en) {
            Ok((c.minstret / 0x1_0000_0000) as u32)
        } else {
            Err(crate::sys::spec_make_illegal(&s))
        },
        CsrRegU::HpmCounterh(_) => Err(crate::sys::spec_make_illegal(&s)),
    }
}

pub fn csr_read_u(sys: &mut System, csr: &CsrRegU) -> (r: Result<u32, Trap>)
    ensures
        *final(sys) == *old(sys),
        r == csr_read_u_val(*old(sys), *csr),
{
    match csr {
        CsrRegU::Cycle => {
            if counter_allowed(sys, sys.ctrl.mcycle_en, sys.ctrl.scycle_en) {
                Ok((sys.ctrl.mcycle % 0x1_0000_0000) as u32)
            } else {
                Err(make_illegal(sys))
            }
        }
        CsrRegU::Time => {
            if counter_allowed(sys, sys.ctrl.mtime_en, sys.ctrl.stime_en) {
                Ok((sys.mem.timer.time % 0x1_0000_0000) as u32)
            } else {
                Err(make_illegal(sys))
            }
        }
        CsrRegU::InstRet => {
            if counter_allowed(sys, sys.ctrl.minstret_en, sys.ctrl.sinstret_en) {
                Ok((sys.ctrl.minstret % 0x1_0000_0000) as u32)
            } else {
                Err(make_illegal(sys))
            }
        }
        CsrRegU::HpmCounter(_) => Err(make_illegal(sys)),
        CsrRegU::Cycleh => {
            if counter_allowed(sys, sys.ctrl.mcycle_en, sys.ctrl.scycle_en) {
                Ok((sys.ctrl.mcycle / 0x1_0000_0000) as u32)
            } else {
                Err(make_illegal(sys))
            }
        }
        CsrRegU::Timeh => {
            if counter_allowed(sys, sys.ctrl.mtime_en, sys.ctrl.stime_en) {
                Ok((sys.mem.timer.time / 0x1_0000_0000) as u32)
            } else {
                Err(make_illegal(sys))
            }
        }
        CsrRegU::InstReth => {
            if counter_allowed(sys, sys.ctrl.minstret_en, sys.ctrl.sinstret_en) {
                Ok((sys.ctrl.minstret / 0x1_0000_0000) as u32)
            } else {
                Err(make_illegal(sys))
            }
        }
        CsrRegU::HpmCounterh(_) => Err(make_illegal(sys)),
    }
}

/// The unprivileged counters are read-only: every write traps.
pub fn csr_write_u(sys: &mut System, csr: &CsrRegU, _val: u32) -> (r: Result<(), Trap>)
    ensures
        *final(sys) == *old(sys),
        r == Err::<(), Trap>(crate::sys::spec_make_illegal(old(sys))),
{
    match csr {
        CsrRegU::Cycle => Err(make_illegal(sys)),
        CsrRegU::Time => Err(make_illegal(sys)),
        CsrRegU::InstRet => Err(make_illegal(sys)),
        CsrRegU::HpmCounter(_) => Err(make_illegal(sys)),
        CsrRegU::Cycleh => Err(make_illegal(sys)),
        CsrRegU::Timeh => Err(make_illegal(sys)),
        CsrRegU::InstReth => Err(make_illegal(sys)),
        CsrRegU::HpmCounterh(_) => Err(make_illegal(sys)),
    }
}

fn counter_allowed(sys: &System, m_en: bool, s_en: bool) -> (r: bool)
    ensures
        r == counter_ok(sys.ctrl, m_en, s_en),
{
    match sys.ctrl.privilege {
        MPriv::M => true,
        MPriv::S => m_en,
        MPriv::U => m_en && s_en,
    }
}

} // verus!
