//! The CSR instructions: privilege-checked dispatch to the machine,
//! supervisor and unprivileged banks, and the read-modify-write semantics
//! of CSRRW/CSRRS/CSRRC and their immediate forms.
use vstd::prelude::*;

pub mod machine;
pub mod supervisor;
pub mod user;

verus! {

use crate::arith::{i32_of_u32, to_i32, u32_of_i32, wadd32};
use crate::exec::advance_pc;
use crate::exec::csr::machine::{csr_read_m, csr_read_m_val, csr_write_m, csr_write_m_res};
use crate::exec::csr::supervisor::{csr_read_s, csr_read_s_val, csr_write_s, csr_write_s_res};
use crate::sys::state::reg_spec;
use crate::exec::csr::user::{csr_read_u, csr_read_u_val, csr_write_u};
use crate::instr::csr::{CsrReg, CsrSrc};
use crate::instr::funct::CsrFunct;
use crate::instr::reg::Reg;
use crate::sys::control::{Control, MPriv};
use crate::sys::{System, make_illegal, spec_make_illegal};
use crate::trap::Trap;

/// The source operand: the register's unsigned value, or the zero-extended
/// five-bit immediate.
pub open spec fn src_val(s: System, src: CsrSrc) -> u32 {
    match src {
        CsrSrc::Reg(r) => u32_of_i32(crate::sys::state::reg_spec(s.state, r.index)),
        CsrSrc::Imm(i) => i as u32,
    }
}

/// What a CSR read yields: M-level CSRs need privilege M, S-level CSRs need
/// privilege at least S; anything else traps as an illegal instruction.
pub open spec fn csr_read_val(s: System, csr: CsrReg) -> Result<u32, Trap> {
    match csr {
        CsrReg::U(u) => csr_read_u_val(s, u),
        CsrReg::S(sr) => if s.ctrl.privilege == MPriv::U {
            Err(spec_make_illegal(&s))
        } else {
            csr_read_s_val(s, sr)
        },
        CsrReg::M(m) => if s.ctrl.privilege == MPriv::M {
            csr_read_m_val(s, m)
        } else {
            Err(spec_make_illegal(&s))
        },
    }
}

/// What a CSR write does to the control state, under the same privilege
/// rule; the unprivileged counters are read-only.
pub open spec fn csr_write_res(s: System, csr: CsrReg, val: u32) -> Result<Control, Trap> {
    match csr {
        CsrReg::U(_) => Err(spec_make_illegal(&s)),
        CsrReg::S(sr) => if s.ctrl.privilege == MPriv::U {
            Err(spec_make_illegal(&s))
        } else {
            csr_write_s_res(s, sr, val)
        },
        CsrReg::M(m) => if s.ctrl.privilege == MPriv::M {
            csr_write_m_res(s, m, val)
        } else {
            Err(spec_make_illegal(&s))
        },
    }
}

/// The outcome of a whole CSR instruction: the control state afterwards and
/// the value written to rd, or the trap. CSRRW with rd = x0 skips the read
/// (avoiding read side effects); CSRRS/CSRRC with a zero source skip the
/// write.
pub open spec fn csr_step(s: System, rd: Reg, src: CsrSrc, csr: CsrReg, f: CsrFunct) -> Result<
    (Control, Option<i32>),
    Trap,
> {
    match f {
        CsrFunct::Rw => {
            if rd.index != 0 {
                match csr_read_val(s, csr) {
                    Err(t) => Err(t),
                    Ok(v) => match csr_write_res(s, csr, src_val(s, src)) {
                        Err(t) => Err(t),
                        Ok(c) => Ok((c, Some(i32_of_u32(v)))),
                    },
                }
            } else {
                match csr_write_res(s, csr, src_val(s, src)) {
                    Err(t) => Err(t),
                    Ok(c) => Ok((c, None)),
                }
            }
        },
        CsrFunct::Rs => match csr_read_val(s, csr) {
            Err(t) => Err(t),
            Ok(v) => if !src.spec_is_zero() {
                match csr_write_res(s, csr, v | src_val(s, src)) {
                    Err(t) => Err(t),
                    Ok(c) => Ok((c, Some(i32_of_u32(v)))),
                }
            } else {
                Ok((s.ctrl, Some(i32_of_u32(v))))
            },
        },
        CsrFunct::Rc => match csr_read_val(s, csr) {
            Err(t) => Err(t),
            Ok(v) => if !src.spec_is_zero() {
                match csr_write_res(s, csr, v & !src_val(s, src)) {
                    Err(t) => Err(t),
                    Ok(c) => Ok((c, Some(i32_of_u32(v)))),
                }
            } else {
                Ok((s.ctrl, Some(i32_of_u32(v))))
            },
        },
    }
}

/// Execute a CSR instruction: on success the control state takes the
/// written fields, rd takes the old CSR value where one is read, and the
/// PC advances; on a trap nothing changes.
/// The whole-instruction relation: on success the control state takes the
/// written fields, rd takes the old CSR value where one is read, the PC
/// advances, and nothing else changes; on a trap nothing changes.
pub open spec fn csr_instr_post(
    o: System,
    n: System,
    rd: Reg,
    src: CsrSrc,
    csr: CsrReg,
    f: CsrFunct,
    r: Result<(), Trap>,
) -> bool {
    match csr_step(o, rd, src, csr, f) {
        Err(t) => r == Err::<(), Trap>(t) && n == o,
        Ok((c, wrote)) => {
            &&& r is Ok
            &&& n.ctrl == c
            &&& n.state.pc == wadd32(o.state.pc, 4)
            &&& n.state.regs@ == match wrote {
                Some(v) => o.state.regs@.update(rd.index as int, v),
                None => o.state.regs@,
            }
            &&& n.mem == o.mem
            &&& n.code == o.code
        },
    }
}

pub fn execute_csr(sys: &mut System, rd: &Reg, src: &CsrSrc, csr: &CsrReg, f: &CsrFunct) -> (r:
    Result<(), Trap>)
    requires
        rd.wf(),
        src matches CsrSrc::Reg(rr) ==> rr.wf(),
    ensures
        csr_instr_post(*old(sys), *final(sys), *rd, *src, *csr, *f, r),
{
    match f {
        CsrFunct::Rw => do_csrrw(sys, rd, src, csr),
        CsrFunct::Rs => do_csrrs(sys, rd, src, csr),
        CsrFunct::Rc => do_csrrc(sys, rd, src, csr),
    }
}

#[verifier::rlimit(100)]
fn do_csrrw(sys: &mut System, rd: &Reg, src: &CsrSrc, csr: &CsrReg) -> (r: Result<(), Trap>)
    requires
        rd.wf(),
        src matches CsrSrc::Reg(rr) ==> rr.wf(),
    ensures
        csr_instr_post(*old(sys), *final(sys), *rd, *src, *csr, CsrFunct::Rw, r),
{
    if rd.index() != 0 {
        let val = match csr_read(sys, csr) {
            Ok(v) => v,
            Err(t) => {
                return Err(t);
            }
        };
        let sv = get_src(sys, src);
        match csr_write(sys, csr, sv) {
            Ok(()) => {}
            Err(t) => {
                return Err(t);
            }
        }
        *sys.reg_mut(rd) = to_i32(val);
    } else {
        let sv = get_src(sys, src);
        match csr_write(sys, csr, sv) {
            Ok(()) => {}
            Err(t) => {
                return Err(t);
            }
        }
    }
    advance_pc(sys);
    Ok(())
}

#[verifier::rlimit(100)]
fn do_csrrs(sys: &mut System, rd: &Reg, src: &CsrSrc, csr: &CsrReg) -> (r: Result<(), Trap>)
    requires
        rd.wf(),
        src matches CsrSrc::Reg(rr) ==> rr.wf(),
    ensures
        csr_instr_post(*old(sys), *final(sys), *rd, *src, *csr, CsrFunct::Rs, r),
{
    let val = match csr_read(sys, csr) {
        Ok(v) => v,
        Err(t) => {
            return Err(t);
        }
    };
    if !src.is_zero() {
        let sv = get_src(sys, src);
        match csr_write(sys, csr, val | sv) {
            Ok(()) => {}
            Err(t) => {
                return Err(t);
            }
        }
    }
    *sys.reg_mut(rd) = to_i32(val);
    advance_pc(sys);
    Ok(())
}

#[verifier::rlimit(100)]
fn do_csrrc(sys: &mut System, rd: &Reg, src: &CsrSrc, csr: &CsrReg) -> (r: Result<(), Trap>)
    requires
        rd.wf(),
        src matches CsrSrc::Reg(rr) ==> rr.wf(),
    ensures
        csr_instr_post(*old(sys), *final(sys), *rd, *src, *csr, CsrFunct::Rc, r),
{
    let val = match csr_read(sys, csr) {
        Ok(v) => v,
        Err(t) => {
            return Err(t);
        }
    };
    if !src.is_zero() {
        let sv = get_src(sys, src);
        match csr_write(sys, csr, val & !sv) {
            Ok(()) => {}
            Err(t) => {
                return Err(t);
            }
        }
    }
    *sys.reg_mut(rd) = to_i32(val);
    advance_pc(sys);
    Ok(())
}

fn get_src(sys: &System, src: &CsrSrc) -> (r: u32)
    requires
        match *src {
            CsrSrc::Reg(rr) => rr.wf(),
            CsrSrc::Imm(_) => true,
        },
    ensures
        r == src_val(*sys, *src),
{
    match src {
        CsrSrc::Reg(r) => crate::arith::to_u32(sys.reg(r)),
        CsrSrc::Imm(i) => *i as u32,
    }
}

fn csr_read(sys: &mut System, csr: &CsrReg) -> (r: Result<u32, Trap>)
    ensures
        *final(sys) == *old(sys),
        r == csr_read_val(*old(sys), *csr),
{
    match csr {
        CsrReg::U(u) => csr_read_u(sys, u),
        CsrReg::S(s) => {
            // Requires at least S-mode
            if matches!(sys.ctrl.privilege, MPriv::U) {
                Err(make_illegal(sys))
            } else {
                csr_read_s(sys, s)
            }
        }
        CsrReg::M(m) => {
            // Requires M-mode
            if matches!(sys.ctrl.privilege, MPriv::M) {
                csr_read_m(sys, m)
            } else {
                Err(make_illegal(sys))
            }
        }
    }
}

/// The CSR write relation: the new control state or the trap, with nothing
/// else changed.
pub open spec fn csr_write_post(o: System, n: System, csr: CsrReg, val: u32, r: Result<
    (),
    Trap,
>) -> bool {
    &&& n.state == o.state
    &&& n.mem == o.mem
    &&& n.code == o.code
    &&& match csr_write_res(o, csr, val) {
        Ok(c) => r is Ok && n.ctrl == c,
        Err(t) => r == Err::<(), Trap>(t) && n.ctrl == o.ctrl,
    }
}

fn csr_write(sys: &mut System, csr: &CsrReg, val: u32) -> (r: Result<(), Trap>)
    ensures
        csr_write_post(*old(sys), *final(sys), *csr, val, r),
{
    match csr {
        CsrReg::U(u) => csr_write_u(sys, u, val),
        CsrReg::S(s) => {
            // Requires at least S-mode
            if matches!(sys.ctrl.privilege, MPriv::U) {
                Err(make_illegal(sys))
            } else {
                csr_write_s(sys, s, val)
            }
        }
        CsrReg::M(m) => {
            // Requires M-mode
            if matches!(sys.ctrl.privilege, MPriv::M) {
                csr_write_m(sys, m, val)
            } else {
                Err(make_illegal(sys))
            }
        }
    }
}

} // verus!
