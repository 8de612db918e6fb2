//! The supervisor-level CSRs.
use vstd::prelude::*;

verus! {

use crate::exec::csr::machine::bitv;
use crate::instr::csr::CsrRegS;
use crate::sys::System;
use crate::sys::control::{Control, SPriv, SatpMode, TvecMode};
use crate::sys::make_illegal;
use crate::trap::{Trap, TrapCause, cause_of_code};

/// The architectural sstatus word: the S-level view of mstatus.
pub open spec fn sstatus_of(c: Control) -> u32 {
    (bitv(c.sie, 0x2) + bitv(c.spie, 0x20) + c.spp.spec_code() * 0x100 + bitv(c.sum, 0x4_0000)
        + bitv(c.mxr, 0x8_0000)) as u32
}

/// The architectural satp word: the mode bit and the root page number.
pub open spec fn satp_of(c: Control) -> u32 {
    ((if c.satp_mode == SatpMode::Sv32 {
        0x8000_0000u32
    } else {
        0u32
    }) + c.satp_ppn % 0x40_0000) as u32
}

/// What a supervisor-level CSR read yields; satp traps under TVM in S mode.
pub open spec fn csr_read_s_val(s: System, csr: CsrRegS) -> Result<u32, Trap> {
    let c = s.ctrl;
    match csr {
        CsrRegS::SStatus => Ok(sstatus_of(c)),
        CsrRegS::SIe => Ok(c.ie.0 & 0x222),
        CsrRegS::STvec => Ok(c.stvec_base | c.stvec_mode.spec_code()),
        CsrRegS::SCounterEn => Ok(
            (bitv(c.scycle_en, 1) + bitv(c.stime_en, 2) + bitv(c.sinstret_en, 4)) as u32,
        ),
        CsrRegS::SEnvCfg => Ok(bitv(c.sfiom, 1)),
        CsrRegS::SScratch => Ok(c.sscratch),
        CsrRegS::SEpc => Ok(c.sepc & 0xffff_fffc),
        CsrRegS::SCause => Ok(crate::trap::cause_code(c.strap.cause)),
        CsrRegS::STval => Ok(c.strap.val),
        CsrRegS::SIp => Ok(c.ip.0 & 0x222),
        CsrRegS::SAtp => if c.tvm && c.privilege == crate::sys::control::MPriv::S {
            Err(crate::sys::spec_make_illegal(&s))
        } else {
            Ok(satp_of(c))
        },
    }
}

/// What a supervisor-level CSR write does to the control state; only SSIP
/// is writable in sip, and satp traps under TVM in S mode.
pub open spec fn csr_write_s_res(s: System, csr: CsrRegS, val: u32) -> Result<Control, Trap> {
    let c = s.ctrl;
    match csr {
        CsrRegS::SStatus => Ok(
            Control {
                sie: (val / 0x2) % 2 == 1,
                spie: (val / 0x20) % 2 == 1,
                sum: (val / 0x4_0000) % 2 == 1,
                mxr: (val / 0x8_0000) % 2 == 1,
                spp: if (val / 0x100) % 2 == 1 {
                    SPriv::S
                } else {
                    SPriv::U
                },
                ..c
            },
        ),
        CsrRegS::SIe => Ok(
            Control { ie: crate::sys::control::InterruptMap(c.ie.0 & !0x222 | val & 0x222), ..c },
        ),
        CsrRegS::STvec => Ok(
            Control {
                stvec_base: val & 0xffff_fffc,
                stvec_mode: match (val & 0x3) as u32 {
                    0u32 => TvecMode::Direct,
                    1u32 => TvecMode::Vectored,
                    _ => c.stvec_mode,
                },
                ..c
            },
        ),
        CsrRegS::SCounterEn => Ok(
            Control {
                scycle_en: val % 2 == 1,
                stime_en: (val / 2) % 2 == 1,
                sinstret_en: (val / 4) % 2 == 1,
                ..c
            },
        ),
        CsrRegS::SEnvCfg => Ok(Control { sfiom: val % 2 == 1, ..c }),
        CsrRegS::SScratch => Ok(Control { sscratch: val, ..c }),
        CsrRegS::SEpc => Ok(Control { sepc: val & 0xffff_fffc, ..c }),
        CsrRegS::SCause => match cause_of_code(val) {
            Some(cause) => Ok(Control { strap: Trap { cause, val: c.strap.val }, ..c }),
            None => Err(crate::sys::spec_make_illegal(&s)),
        },
        CsrRegS::STval => Ok(Control { strap: Trap { cause: c.strap.cause, val }, ..c }),
        CsrRegS::SIp => Ok(
            Control { ip: crate::sys::control::InterruptMap(c.ip.0 & !0x2 | val & 0x2), ..c },
        ),
        CsrRegS::SAtp => if c.tvm && c.privilege == crate::sys::control::MPriv::S {
            Err(crate::sys::spec_make_illegal(&s))
        } else {
            Ok(
                Control {
                    satp_mode: if val / 0x8000_0000 == 1 {
                        SatpMode::Sv32
                    } else {
                        SatpMode::Bare
                    },
                    satp_ppn: (val % 0x40_0000) as u32,
                    ..c
                },
            )
        },
    }
}

pub fn csr_read_s(sys: &mut System, csr: &CsrRegS) -> (r: Result<u32, Trap>)
    ensures
        *final(sys) == *old(sys),
        r == csr_read_s_val(*old(sys), *csr),
{
    let c = &sys.ctrl;
    match csr {
        CsrRegS::SStatus => Ok(
            bit(c.sie, 0x2) + bit(c.spie, 0x20) + c.spp.to_int() * 0x100 + bit(c.sum, 0x4_0000)
                + bit(c.mxr, 0x8_0000),
        ),
        CsrRegS::SIe => Ok(c.ie.0 & 0x222),
        CsrRegS::STvec => Ok(c.stvec_base | c.stvec_mode.to_int()),
        CsrRegS::SCounterEn => Ok(
            bit(c.scycle_en, 1) + bit(c.stime_en, 2) + bit(c.sinstret_en, 4),
        ),
        CsrRegS::SEnvCfg => Ok(bit(c.sfiom, 1)),
        CsrRegS::SScratch => Ok(c.sscratch),
        CsrRegS::SEpc => Ok(c.sepc & 0xffff_fffc),
        CsrRegS::SCause => Ok(c.strap.cause.to_int()),
        CsrRegS::STval => Ok(c.strap.val),
        CsrRegS::SIp => Ok(c.ip.0 & 0x222),
        CsrRegS::SAtp => {
            if sys.ctrl.tvm && matches!(sys.ctrl.privilege, crate::sys::control::MPriv::S) {
                Err(make_illegal(sys))
            } else {
                let mode: u32 = match sys.ctrl.satp_mode {
                    SatpMode::Sv32 => 0x8000_0000,
                    SatpMode::Bare => 0,
                };
                Ok(mode + sys.ctrl.satp_ppn % 0x40_0000)
            }
        }
    }
}

/// The supervisor CSR write relation: the new control state or the trap,
/// with nothing else changed.
pub open spec fn write_s_post(o: System, n: System, csr: CsrRegS, val: u32, r: Result<
    (),
    Trap,
>) -> bool {
    &&& n.state == o.state
    &&& n.mem == o.mem
    &&& n.code == o.code
    &&& match csr_write_s_res(o, csr, val) {
        Ok(c) => r is Ok && n.ctrl == c,
        Err(t) => r == Err::<(), Trap>(t) && n.ctrl == o.ctrl,
    }
}

#[verifier::rlimit(100)]
pub fn csr_write_s(sys: &mut System, csr: &CsrRegS, val: u32) -> (r: Result<(), Trap>)
    ensures
        write_s_post(*old(sys), *final(sys), *csr, val, r),
{
    match csr {
        CsrRegS::SStatus => {
            sys.ctrl = Control {
                sie: (val / 0x2) % 2 == 1,
                spie: (val / 0x20) % 2 == 1,
                sum: (val / 0x4_0000) % 2 == 1,
                mxr: (val / 0x8_0000) % 2 == 1,
                spp: if (val / 0x100) % 2 == 1 {
                    SPriv::S
                } else {
                    SPriv::U
                },
                ..sys.ctrl
            };
            Ok(())
        }
        CsrRegS::SIe => {
            sys.ctrl = Control {
                ie: crate::sys::control::InterruptMap(sys.ctrl.ie.0 & !0x222 | val & 0x222),
                ..sys.ctrl
            };
            Ok(())
        }
        CsrRegS::STvec => {
            proof {
                assert(val & 0x3 == 0 || val & 0x3 == 1 || val & 0x3 == 2 || val & 0x3 == 3)
                    by (bit_vector);
            }
            let mode = match TvecMode::from(val & 0x3) {
                Some(mode) => mode,
                None => sys.ctrl.stvec_mode,
            };
            sys.ctrl = Control { stvec_base: val & 0xffff_fffc, stvec_mode: mode, ..sys.ctrl };
            Ok(())
        }
        CsrRegS::SCounterEn => {
            sys.ctrl = Control {
                scycle_en: val % 2 == 1,
                stime_en: (val / 2) % 2 == 1,
                sinstret_en: (val / 4) % 2 == 1,
                ..sys.ctrl
            };
            Ok(())
        }
        CsrRegS::SEnvCfg => {
            sys.ctrl = Control { sfiom: val % 2 == 1, ..sys.ctrl };
            Ok(())
        }
        CsrRegS::SScratch => {
            sys.ctrl = Control { sscratch: val, ..sys.ctrl };
            Ok(())
        }
        CsrRegS::SEpc => {
            sys.ctrl = Control { sepc: val & 0xffff_fffc, ..sys.ctrl };
            Ok(())
        }
        CsrRegS::SCause => {
            match TrapCause::from(val) {
                Some(cause) => {
                    sys.ctrl = Control {
                        strap: Trap { cause, val: sys.ctrl.strap.val },
                        ..sys.ctrl
                    };
                    Ok(())
                }
                None => Err(make_illegal(sys)),
            }
        }
        CsrRegS::STval => {
            sys.ctrl = Control {
                strap: Trap { cause: sys.ctrl.strap.cause, val },
                ..sys.ctrl
            };
            Ok(())
        }
        CsrRegS::SIp => {
            sys.ctrl = Control {
                ip: crate::sys::control::InterruptMap(sys.ctrl.ip.0 & !0x2 | val & 0x2),
                ..sys.ctrl
            };
            Ok(())
        }
        CsrRegS::SAtp => {
            if sys.ctrl.tvm && matches!(sys.ctrl.privilege, crate::sys::control::MPriv::S) {
                Err(make_illegal(sys))
            } else {
                sys.ctrl = Control {
                    satp_mode: if val / 0x8000_0000 == 1 {
                        SatpMode::Sv32
                    } else {
                        SatpMode::Bare
                    },
                    satp_ppn: val % 0x40_0000,
                    ..sys.ctrl
                };
                Ok(())
            }
        }
    }
}

fn bit(b: bool, w: u32) -> (r: u32)
    ensures
        r == bitv(b, w),
{
    if b {
        w
    } else {
        0
    }
}

} // verus!
