//! The machine-level CSRs: each architectural register is composed from the
//! named control fields on read and decomposed, with its WARL masking, on
//! write.
use vstd::prelude::*;

verus! {

use crate::sys::System;
use crate::sys::control::{Control, MPriv, SPriv, TvecMode};
use crate::sys::make_illegal;
use crate::instr::csr::CsrRegM;
use crate::trap::{Trap, TrapCause, cause_of_code};

pub const MISA: u32 = 0x4014_1101;  // RV32 with I, M, A, S and U

pub const EDELEG_MASK: u32 = 0xcbeff;  // Every exception except M-mode ecall
pub const IDELEG_MASK: u32 = 0x222;  // The S-mode interrupts


/// The delegation registers hold only their writable bits. The reset state
/// (`Control::new`, which zeroes both) has this, and the lemma below shows
/// every machine CSR write keeps it, so it holds in every reachable state.
pub open spec fn deleg_wf(c: Control) -> bool {
    c.medeleg.0 & !EDELEG_MASK == 0 && c.mideleg.0 & !IDELEG_MASK == 0
}

/// In a state whose delegation registers hold only writable bits, a
/// delegation write stores exactly the value masked to the allowed bits,
/// and every machine CSR write preserves the property.
pub proof fn lemma_deleg_write_masked(s: System, val: u32)
    requires
        deleg_wf(s.ctrl),
    ensures
        csr_write_m_res(s, CsrRegM::MEdeleg, val) matches Ok(c) && c.medeleg.0 == val
            & EDELEG_MASK,
        csr_write_m_res(s, CsrRegM::MIdeleg, val) matches Ok(c) && c.mideleg.0 == val
            & IDELEG_MASK,
        forall|csr: CsrRegM, v: u32|
            (#[trigger] csr_write_m_res(s, csr, v)) matches Ok(c) ==> deleg_wf(c),
{
    assert(forall|x: u32, v: u32, m: u32| x & !m == 0 ==> (x & !m | v & m) == (v & m))
        by (bit_vector);
    assert(forall|v: u32, m: u32| ((v & m) & !m) == 0) by (bit_vector);
}

/// A flag as a bit at the given weight.
pub open spec fn bitv(b: bool, w: u32) -> u32 {
    if b {
        w
    } else {
        0
    }
}

/// The interrupt-enable and previous-privilege part of mstatus.
pub open spec fn mstatus_lo(c: Control) -> u32 {
    (bitv(c.sie, 0x2) + bitv(c.mie, 0x8) + bitv(c.spie, 0x20) + bitv(c.mpie, 0x80)
        + c.spp.spec_code() * 0x100 + c.mpp.spec_code() * 0x800) as u32
}

/// The memory- and trap-control part of mstatus.
pub open spec fn mstatus_hi(c: Control) -> u32 {
    (bitv(c.mprv, 0x2_0000) + bitv(c.sum, 0x4_0000) + bitv(c.mxr, 0x8_0000) + bitv(
        c.tvm,
        0x10_0000,
    ) + bitv(c.tw, 0x20_0000) + bitv(c.tsr, 0x40_0000)) as u32
}

/// The architectural mstatus word.
pub open spec fn mstatus_of(c: Control) -> u32 {
    (mstatus_lo(c) + mstatus_hi(c)) as u32
}

/// The control state after an mstatus write: every writable field takes the
/// corresponding bit, and MPP keeps its old value when the written pair is
/// not a privilege.
pub open spec fn write_mstatus_ctrl(c: Control, val: u32) -> Control {
    Control {
        sie: (val / 0x2) % 2 == 1,
        mie: (val / 0x8) % 2 == 1,
        spie: (val / 0x20) % 2 == 1,
        mpie: (val / 0x80) % 2 == 1,
        mprv: (val / 0x2_0000) % 2 == 1,
        sum: (val / 0x4_0000) % 2 == 1,
        mxr: (val / 0x8_0000) % 2 == 1,
        tvm: (val / 0x10_0000) % 2 == 1,
        tw: (val / 0x20_0000) % 2 == 1,
        tsr: (val / 0x40_0000) % 2 == 1,
        mpp: match ((val / 0x800) % 4) as u32 {
            0u32 => MPriv::U,
            1u32 => MPriv::S,
            3u32 => MPriv::M,
            _ => c.mpp,
        },
        spp: if (val / 0x100) % 2 == 1 {
            SPriv::S
        } else {
            SPriv::U
        },
        ..c
    }
}

/// The architectural mtvec word: the aligned base with the mode in the low
/// bits.
pub open spec fn mtvec_of(c: Control) -> u32 {
    c.mtvec_base | c.mtvec_mode.spec_code()
}

/// The control state after an mtvec write: the base is aligned down, and a
/// mode outside Direct/Vectored leaves the mode unchanged.
pub open spec fn write_mtvec_ctrl(c: Control, val: u32) -> Control {
    Control {
        mtvec_base: val & 0xffff_fffc,
        mtvec_mode: match (val & 0x3) as u32 {
            0u32 => TvecMode::Direct,
            1u32 => TvecMode::Vectored,
            _ => c.mtvec_mode,
        },
        ..c
    }
}

/// The architectural mcounteren word.
pub open spec fn mcounteren_of(c: Control) -> u32 {
    (bitv(c.mcycle_en, 1) + bitv(c.mtime_en, 2) + bitv(c.minstret_en, 4)) as u32
}

/// The architectural mcountinhibit word.
pub open spec fn mcountinhibit_of(c: Control) -> u32 {
    (bitv(c.mcycle_inhibit, 1) + bitv(c.minstret_inhibit, 4)) as u32
}

/// What a machine-level CSR read yields: the composed word, or an
/// illegal-instruction trap for a write-only or unrecognized case (none
/// here: every recognized machine CSR reads).
pub open spec fn csr_read_m_val(s: System, csr: CsrRegM) -> Result<u32, Trap> {
    let c = s.ctrl;
    match csr {
        CsrRegM::MVendorId => Ok(0),
        CsrRegM::MArchId => Ok(0),
        CsrRegM::MImpId => Ok(0),
        CsrRegM::MHartId => Ok(0),
        CsrRegM::MConfigPtr => Ok(0),
        CsrRegM::MStatus => Ok(mstatus_of(c)),
        CsrRegM::MIsa => Ok(MISA),
        CsrRegM::MEdeleg => Ok(c.medeleg.0 & EDELEG_MASK),
        CsrRegM::MIdeleg => Ok(c.mideleg.0 & IDELEG_MASK),
        CsrRegM::MIe => Ok(c.ie.0 & 0xaaa),
        CsrRegM::MTvec => Ok(mtvec_of(c)),
        CsrRegM::MCounterEn => Ok(mcounteren_of(c)),
        CsrRegM::MStatush => Ok(0),
        CsrRegM::MEdelegh => Ok(0),
        CsrRegM::MScratch => Ok(c.mscratch),
        CsrRegM::MEpc => Ok(c.mepc & 0xffff_fffc),
        CsrRegM::MCause => Ok(crate::trap::cause_code(c.mtrap.cause)),
        CsrRegM::MTval => Ok(c.mtrap.val),
        CsrRegM::MIp => Ok(c.ip.0 & 0xaaa),
        CsrRegM::MEnvCfg => Ok(bitv(c.mfiom, 1)),
        CsrRegM::MEnvCfgh => Ok(0),
        CsrRegM::PmpCfg(_) => Ok(0),
        CsrRegM::PmpAddr(_) => Ok(0),
        CsrRegM::MCycle => Ok((c.mcycle % 0x1_0000_0000) as u32),
        CsrRegM::MInstRet => Ok((c.minstret % 0x1_0000_0000) as u32),
        CsrRegM::MHpmCounter(_) => Ok(0),
        CsrRegM::MCycleh => Ok((c.mcycle / 0x1_0000_0000) as u32),
        CsrRegM::MInstReth => Ok((c.minstret / 0x1_0000_0000) as u32),
        CsrRegM::MHpmCounterh(_) => Ok(0),
        CsrRegM::MCountInhibit => Ok(mcountinhibit_of(c)),
        CsrRegM::MHpmEvent(_) => Ok(0),
        CsrRegM::MHpmEventh(_) => Ok(0),
    }
}

/// What a machine-level CSR write does to the control state: the masked
/// field updates, a silently ignored write for the WARL registers with no
/// writable bits, and an illegal-instruction trap for the read-only
/// machine-information registers and for an unrecognized mcause value.
pub open spec fn csr_write_m_res(s: System, csr: CsrRegM, val: u32) -> Result<Control, Trap> {
    let c = s.ctrl;
    match csr {
        CsrRegM::MVendorId => Err(crate::sys::spec_make_illegal(&s)),
        CsrRegM::MArchId => Err(crate::sys::spec_make_illegal(&s)),
        CsrRegM::MImpId => Err(crate::sys::spec_make_illegal(&s)),
        CsrRegM::MHartId => Err(crate::sys::spec_make_illegal(&s)),
        CsrRegM::MConfigPtr => Err(crate::sys::spec_make_illegal(&s)),
        CsrRegM::MStatus => Ok(write_mstatus_ctrl(c, val)),
        CsrRegM::MIsa => Ok(c),
        CsrRegM::MEdeleg => Ok(
            Control {
                medeleg: crate::sys::control::ExceptionMap(
                    c.medeleg.0 & !EDELEG_MASK | val & EDELEG_MASK,
                ),
                ..c
            },
        ),
        CsrRegM::MIdeleg => Ok(
            Control {
                mideleg: crate::sys::control::InterruptMap(
                    c.mideleg.0 & !IDELEG_MASK | val & IDELEG_MASK,
                ),
                ..c
            },
        ),
        CsrRegM::MIe => Ok(Control { ie: crate::sys::control::InterruptMap(val & 0xaaa), ..c }),
        CsrRegM::MTvec => Ok(write_mtvec_ctrl(c, val)),
        CsrRegM::MCounterEn => Ok(
            Control {
                mcycle_en: val % 2 == 1,
                mtime_en: (val / 2) % 2 == 1,
                minstret_en: (val / 4) % 2 == 1,
                ..c
            },
        ),
        CsrRegM::MStatush => Ok(c),
        CsrRegM::MEdelegh => Ok(c),
        CsrRegM::MScratch => Ok(Control { mscratch: val, ..c }),
        CsrRegM::MEpc => Ok(Control { mepc: val & 0xffff_fffc, ..c }),
        CsrRegM::MCause => match cause_of_code(val) {
            Some(cause) => Ok(Control { mtrap: Trap { cause, val: c.mtrap.val }, ..c }),
            None => Err(crate::sys::spec_make_illegal(&s)),
        },
        CsrRegM::MTval => Ok(Control { mtrap: Trap { cause: c.mtrap.cause, val }, ..c }),
        CsrRegM::MIp => Ok(
            Control { ip: crate::sys::control::InterruptMap(c.ip.0 & !0x222 | val & 0x222), ..c },
        ),
        CsrRegM::MEnvCfg => Ok(Control { mfiom: val % 2 == 1, ..c }),
        CsrRegM::MEnvCfgh => Ok(c),
        CsrRegM::PmpCfg(_) => Ok(c),
        CsrRegM::PmpAddr(_) => Ok(c),
        CsrRegM::MCycle => Ok(
            Control { mcycle: ((c.mcycle / 0x1_0000_0000) * 0x1_0000_0000 + val) as u64, ..c },
        ),
        CsrRegM::MInstRet => Ok(
            Control { minstret: ((c.minstret / 0x1_0000_0000) * 0x1_0000_0000 + val) as u64, ..c },
        ),
        CsrRegM::MHpmCounter(_) => Ok(c),
        CsrRegM::MCycleh => Ok(
            Control { mcycle: (c.mcycle % 0x1_0000_0000 + val * 0x1_0000_0000) as u64, ..c },
        ),
        CsrRegM::MInstReth => Ok(
            Control { minstret: (c.minstret % 0x1_0000_0000 + val * 0x1_0000_0000) as u64, ..c },
        ),
        CsrRegM::MHpmCounterh(_) => Ok(c),
        CsrRegM::MCountInhibit => Ok(
            Control { mcycle_inhibit: val % 2 == 1, minstret_inhibit: (val / 4) % 2 == 1, ..c },
        ),
        CsrRegM::MHpmEvent(_) => Ok(c),
        CsrRegM::MHpmEventh(_) => Ok(c),
    }
}

pub fn csr_read_m(sys: &mut System, csr: &CsrRegM) -> (r: Result<u32, Trap>)
    ensures
        *final(sys) == *old(sys),
        r == csr_read_m_val(*old(sys), *csr),
{
    match csr {
        CsrRegM::MVendorId => Ok(0),
        CsrRegM::MArchId => Ok(0),
        CsrRegM::MImpId => Ok(0),
        CsrRegM::MHartId => Ok(0),
        CsrRegM::MConfigPtr => Ok(0),
        CsrRegM::MStatus => Ok(read_mstatus(sys)),
        CsrRegM::MIsa => Ok(MISA),
        CsrRegM::MEdeleg => Ok(sys.ctrl.medeleg.0 & EDELEG_MASK),
        CsrRegM::MIdeleg => Ok(sys.ctrl.mideleg.0 & IDELEG_MASK),
        CsrRegM::MIe => Ok(sys.ctrl.ie.0 & 0xaaa),
        CsrRegM::MTvec => Ok(sys.ctrl.mtvec_base | sys.ctrl.mtvec_mode.to_int()),
        CsrRegM::MCounterEn => Ok(
            bit(sys.ctrl.mcycle_en, 1) + bit(sys.ctrl.mtime_en, 2) + bit(sys.ctrl.minstret_en, 4),
        ),
        CsrRegM::MStatush => Ok(0),
        CsrRegM::MEdelegh => Ok(0),
        CsrRegM::MScratch => Ok(sys.ctrl.mscratch),
        CsrRegM::MEpc => Ok(sys.ctrl.mepc & 0xffff_fffc),
        CsrRegM::MCause => Ok(sys.ctrl.mtrap.cause.to_int()),
        CsrRegM::MTval => Ok(sys.ctrl.mtrap.val),
        CsrRegM::MIp => Ok(sys.ctrl.ip.0 & 0xaaa),
        CsrRegM::MEnvCfg => Ok(bit(sys.ctrl.mfiom, 1)),
        CsrRegM::MEnvCfgh => Ok(0),
        CsrRegM::PmpCfg(_) => Ok(0),
        CsrRegM::PmpAddr(_) => Ok(0),
        CsrRegM::MCycle => Ok((sys.ctrl.mcycle % 0x1_0000_0000) as u32),
        CsrRegM::MInstRet => Ok((sys.ctrl.minstret % 0x1_0000_0000) as u32),
        CsrRegM::MHpmCounter(_) => Ok(0),
        CsrRegM::MCycleh => Ok((sys.ctrl.mcycle / 0x1_0000_0000) as u32),
        CsrRegM::MInstReth => Ok((sys.ctrl.minstret / 0x1_0000_0000) as u32),
        CsrRegM::MHpmCounterh(_) => Ok(0),
        CsrRegM::MCountInhibit => Ok(
            bit(sys.ctrl.mcycle_inhibit, 1) + bit(sys.ctrl.minstret_inhibit, 4),
        ),
        CsrRegM::MHpmEvent(_) => Ok(0),
        CsrRegM::MHpmEventh(_) => Ok(0),
    }
}

/// The machine CSR write relation: the new control state or the trap, with
/// nothing else changed.
pub open spec fn write_m_post(o: System, n: System, csr: CsrRegM, val: u32, r: Result<
    (),
    Trap,
>) -> bool {
    &&& n.state == o.state
    &&& n.mem == o.mem
    &&& n.code == o.code
    &&& match csr_write_m_res(o, csr, val) {
        Ok(c) => r is Ok && n.ctrl == c,
        Err(t) => r == Err::<(), Trap>(t) && n.ctrl == o.ctrl,
    }
}

#[verifier::rlimit(100)]
pub fn csr_write_m(sys: &mut System, csr: &CsrRegM, val: u32) -> (r: Result<(), Trap>)
    ensures
        write_m_post(*old(sys), *final(sys), *csr, val, r),
{
    match csr {
        CsrRegM::MVendorId => Err(make_illegal(sys)),
        CsrRegM::MArchId => Err(make_illegal(sys)),
        CsrRegM::MImpId => Err(make_illegal(sys)),
        CsrRegM::MHartId => Err(make_illegal(sys)),
        CsrRegM::MConfigPtr => Err(make_illegal(sys)),
        CsrRegM::MStatus => {
            write_mstatus(sys, val);
            Ok(())
        }
        CsrRegM::MIsa => Ok(()),
        CsrRegM::MEdeleg => {
            sys.ctrl = Control {
                medeleg: crate::sys::control::ExceptionMap(
                    sys.ctrl.medeleg.0 & !EDELEG_MASK | val & EDELEG_MASK,
                ),
                ..sys.ctrl
            };
            Ok(())
        }
        CsrRegM::MIdeleg => {
            sys.ctrl = Control {
                mideleg: crate::sys::control::InterruptMap(
                    sys.ctrl.mideleg.0 & !IDELEG_MASK | val & IDELEG_MASK,
                ),
                ..sys.ctrl
            };
            Ok(())
        }
        CsrRegM::MIe => {
            sys.ctrl = Control { ie: crate::sys::control::InterruptMap(val & 0xaaa), ..sys.ctrl };
            Ok(())
        }
        CsrRegM::MTvec => {
            proof {
                assert(val & 0x3 == 0 || val & 0x3 == 1 || val & 0x3 == 2 || val & 0x3 == 3)
                    by (bit_vector);
            }
            let mode = match TvecMode::from(val & 0x3) {
                Some(mode) => mode,
                None => sys.ctrl.mtvec_mode,
            };
            sys.ctrl = Control { mtvec_base: val & 0xffff_fffc, mtvec_mode: mode, ..sys.ctrl };
            Ok(())
        }
        CsrRegM::MCounterEn => {
            sys.ctrl = Control {
                mcycle_en: val % 2 == 1,
                mtime_en: (val / 2) % 2 == 1,
                minstret_en: (val / 4) % 2 == 1,
                ..sys.ctrl
            };
            Ok(())
        }
        CsrRegM::MStatush => Ok(()),
        CsrRegM::MEdelegh => Ok(()),
        CsrRegM::MScratch => {
            sys.ctrl = Control { mscratch: val, ..sys.ctrl };
            Ok(())
        }
        CsrRegM::MEpc => {
            sys.ctrl = Control { mepc: val & 0xffff_fffc, ..sys.ctrl };
            Ok(())
        }
        CsrRegM::MCause => {
            match TrapCause::from(val) {
                Some(cause) => {
                    sys.ctrl = Control {
                        mtrap: Trap { cause, val: sys.ctrl.mtrap.val },
                        ..sys.ctrl
                    };
                    Ok(())
                }
                None => Err(make_illegal(sys)),
            }
        }
        CsrRegM::MTval => {
            sys.ctrl = Control {
                mtrap: Trap { cause: sys.ctrl.mtrap.cause, val },
                ..sys.ctrl
            };
            Ok(())
        }
        CsrRegM::MIp => {
            sys.ctrl = Control {
                ip: crate::sys::control::InterruptMap(sys.ctrl.ip.0 & !0x222 | val & 0x222),
                ..sys.ctrl
            };
            Ok(())
        }
        CsrRegM::MEnvCfg => {
            sys.ctrl = Control { mfiom: val % 2 == 1, ..sys.ctrl };
            Ok(())
        }
        CsrRegM::MEnvCfgh => Ok(()),
        CsrRegM::PmpCfg(_) => Ok(()),
        CsrRegM::PmpAddr(_) => Ok(()),
        CsrRegM::MCycle => {
            sys.ctrl = Control {
                mcycle: (sys.ctrl.mcycle / 0x1_0000_0000) * 0x1_0000_0000 + val as u64,
                ..sys.ctrl
            };
            Ok(())
        }
        CsrRegM::MInstRet => {
            sys.ctrl = Control {
                minstret: (sys.ctrl.minstret / 0x1_0000_0000) * 0x1_0000_0000 + val as u64,
                ..sys.ctrl
            };
            Ok(())
        }
        CsrRegM::MHpmCounter(_) => Ok(()),
        CsrRegM::MCycleh => {
            sys.ctrl = Control {
                mcycle: sys.ctrl.mcycle % 0x1_0000_0000 + val as u64 * 0x1_0000_0000,
                ..sys.ctrl
            };
            Ok(())
        }
        CsrRegM::MInstReth => {
            sys.ctrl = Control {
                minstret: sys.ctrl.minstret % 0x1_0000_0000 + val as u64 * 0x1_0000_0000,
                ..sys.ctrl
            };
            Ok(())
        }
        CsrRegM::MHpmCounterh(_) => Ok(()),
        CsrRegM::MCountInhibit => {
            sys.ctrl = Control {
                mcycle_inhibit: val % 2 == 1,
                minstret_inhibit: (val / 4) % 2 == 1,
                ..sys.ctrl
            };
            Ok(())
        }
        CsrRegM::MHpmEvent(_) => Ok(()),
        CsrRegM::MHpmEventh(_) => Ok(()),
    }
}

/// A flag as a bit at the given weight.
fn bit(b: bool, w: u32) -> (r: u32)
    ensures
        r == bitv(b, w),
{
    if b {
        w
    } else {
        0
    }
}

fn read_mstatus(sys: &System) -> (r: u32)
    ensures
        r == mstatus_of(sys.ctrl),
{
    read_mstatus_lo(sys) + read_mstatus_hi(sys)
}

fn read_mstatus_lo(sys: &System) -> (r: u32)
    ensures
        r == mstatus_lo(sys.ctrl),
{
    let c = &sys.ctrl;
    bit(c.sie, 0x2) + bit(c.mie, 0x8) + bit(c.spie, 0x20) + bit(c.mpie, 0x80) + c.spp.to_int()
        * 0x100 + c.mpp.to_int() * 0x800
}

fn read_mstatus_hi(sys: &System) -> (r: u32)
    ensures
        r == mstatus_hi(sys.ctrl),
{
    let c = &sys.ctrl;
    bit(c.mprv, 0x2_0000) + bit(c.sum, 0x4_0000) + bit(c.mxr, 0x8_0000) + bit(c.tvm, 0x10_0000)
        + bit(c.tw, 0x20_0000) + bit(c.tsr, 0x40_0000)
}

fn write_mstatus(sys: &mut System, val: u32)
    ensures
        final(sys).ctrl == write_mstatus_ctrl(old(sys).ctrl, val),
        final(sys).state == old(sys).state,
        final(sys).mem == old(sys).mem,
        final(sys).code == old(sys).code,
{
    let mpp = match MPriv::from((val / 0x800) % 4) {
        Some(p) => p,
        None => sys.ctrl.mpp,
    };
    let spp = if (val / 0x100) % 2 == 1 {
        SPriv::S
    } else {
        SPriv::U
    };
    sys.ctrl = Control {
        sie: (val / 0x2) % 2 == 1,
        mie: (val / 0x8) % 2 == 1,
        spie: (val / 0x20) % 2 == 1,
        mpie: (val / 0x80) % 2 == 1,
        mprv: (val / 0x2_0000) % 2 == 1,
        sum: (val / 0x4_0000) % 2 == 1,
        mxr: (val / 0x8_0000) % 2 == 1,
        tvm: (val / 0x10_0000) % 2 == 1,
        tw: (val / 0x20_0000) % 2 == 1,
        tsr: (val / 0x40_0000) % 2 == 1,
        mpp,
        spp,
        ..sys.ctrl
    };
}

} // verus!
