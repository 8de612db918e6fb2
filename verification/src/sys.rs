//! The simulated system: hart state, control state and the memory map, with
//! the step loop that drives them.
use vstd::prelude::*;

pub mod control;
pub mod mem;
pub mod mem_map;
pub mod state;

verus! {

use crate::instr::reg::Reg;
use crate::sys::control::Control;
use crate::sys::mem_map::MemMap;
use crate::sys::state::{State, reg_spec};
use crate::trap::{Exception, Trap};

#[derive(Debug)]
pub struct System {
    pub state: State,
    pub mem: MemMap,
    pub ctrl: Control,
    pub code: u32,
}

pub const DTB_BASE: u32 = 0xf000_0000;

impl System {
    pub open spec fn wf(self) -> bool {
        self.mem.wf()
    }

    /// A system at the boot contract with RAM based at 0: PC at the base,
    /// a0 = hart id (0), a1 = the device-tree base, everything else at its
    /// reset value.
    pub fn new(ram_size: usize) -> (r: System)
        requires
            ram_size % 4 == 0,
            ram_size <= 0x1_0000_0000,
        ensures
            r.wf(),
            r.state.pc == 0,
            r.mem.ram_base == 0,
            r.mem.ram_contents().len() == ram_size,
            forall|i: int| 0 <= i < ram_size ==> r.mem.ram_contents()[i] == 0,
            r.mem.dtb.contents().len() == 0,
            r.mem.uart_base == 0xc000_0000,
            r.mem.dtb_base == 0xf000_0000,
            r.mem.time_base == 0xd000_0000,
            r.mem.timecmp_base == 0xd000_1000,
            r.ctrl.privilege == control::MPriv::M,
            r.ctrl.mie == false && r.ctrl.mpie == false && r.ctrl.mpp == control::MPriv::U,
            r.ctrl.sie == false && r.ctrl.spie == false && r.ctrl.spp == control::SPriv::U,
            r.ctrl.mprv == false,
            r.ctrl.satp_mode == control::SatpMode::Bare && r.ctrl.satp_ppn == 0,
            r.ctrl.ip.0 == 0 && r.ctrl.ie.0 == 0,
            r.ctrl.medeleg.0 == 0 && r.ctrl.mideleg.0 == 0,
            r.ctrl.mcycle == 0 && r.ctrl.minstret == 0,
            r.ctrl.mcycle_inhibit == false && r.ctrl.minstret_inhibit == false,
            r.ctrl.mcycle_en == false && r.ctrl.mtime_en == false && r.ctrl.minstret_en == false,
            r.ctrl.scycle_en == false && r.ctrl.stime_en == false && r.ctrl.sinstret_en == false,
            r.ctrl.mtvec_base == 0x100 && r.ctrl.stvec_base == 0x100,
            r.ctrl.mtvec_mode == control::TvecMode::Direct,
            r.ctrl.stvec_mode == control::TvecMode::Direct,
            r.ctrl.tsr == false && r.ctrl.tw == false && r.ctrl.tvm == false,
            r.ctrl.sum == false && r.ctrl.mxr == false,
            r.ctrl.mepc == 0 && r.ctrl.sepc == 0,
            r.ctrl.mscratch == 0 && r.ctrl.sscratch == 0,
            r.ctrl.mtrap == Trap::spec_from_exception(Exception::InstrAddrMisaligned, 0),
            r.ctrl.strap == Trap::spec_from_exception(Exception::InstrAddrMisaligned, 0),
            r.ctrl.mfiom == false && r.ctrl.sfiom == false,
            r.mem.reserved_word is None,
            r.mem.timer.time == 0,
            r.mem.timer.timecmp == u64::MAX,
            r.code == 0,
            reg_spec(r.state, 10) == 0,
            reg_spec(r.state, 11) == crate::arith::i32_of_u32(DTB_BASE),
            forall|i: u8| i < 32 && i != 11 ==> reg_spec(r.state, i) == 0,
    {
        Self::with_base(ram_size, 0)
    }

    /// A system with RAM at the given word-aligned base; the boot contract
    /// otherwise.
    pub fn with_base(ram_size: usize, ram_base: u32) -> (r: System)
        requires
            ram_size % 4 == 0,
            ram_size <= 0x1_0000_0000,
            ram_base % 4 == 0,
        ensures
            r.wf(),
            r.state.pc == ram_base,
            r.mem.ram_base == ram_base,
            r.mem.ram_contents().len() == ram_size,
            forall|i: int| 0 <= i < ram_size ==> r.mem.ram_contents()[i] == 0,
            r.mem.dtb.contents().len() == 0,
            r.mem.uart_base == 0xc000_0000,
            r.mem.dtb_base == 0xf000_0000,
            r.mem.time_base == 0xd000_0000,
            r.mem.timecmp_base == 0xd000_1000,
            r.ctrl.privilege == control::MPriv::M,
            r.ctrl.mie == false && r.ctrl.mpie == false && r.ctrl.mpp == control::MPriv::U,
            r.ctrl.sie == false && r.ctrl.spie == false && r.ctrl.spp == control::SPriv::U,
            r.ctrl.mprv == false,
            r.ctrl.satp_mode == control::SatpMode::Bare && r.ctrl.satp_ppn == 0,
            r.ctrl.ip.0 == 0 && r.ctrl.ie.0 == 0,
            r.ctrl.medeleg.0 == 0 && r.ctrl.mideleg.0 == 0,
            r.ctrl.mcycle == 0 && r.ctrl.minstret == 0,
            r.ctrl.mcycle_inhibit == false && r.ctrl.minstret_inhibit == false,
            r.ctrl.mcycle_en == false && r.ctrl.mtime_en == false && r.ctrl.minstret_en == false,
            r.ctrl.scycle_en == false && r.ctrl.stime_en == false && r.ctrl.sinstret_en == false,
            r.ctrl.mtvec_base == 0x100 && r.ctrl.stvec_base == 0x100,
            r.ctrl.mtvec_mode == control::TvecMode::Direct,
            r.ctrl.stvec_mode == control::TvecMode::Direct,
            r.ctrl.tsr == false && r.ctrl.tw == false && r.ctrl.tvm == false,
            r.ctrl.sum == false && r.ctrl.mxr == false,
            r.ctrl.mepc == 0 && r.ctrl.sepc == 0,
            r.ctrl.mscratch == 0 && r.ctrl.sscratch == 0,
            r.ctrl.mtrap == Trap::spec_from_exception(Exception::InstrAddrMisaligned, 0),
            r.ctrl.strap == Trap::spec_from_exception(Exception::InstrAddrMisaligned, 0),
            r.ctrl.mfiom == false && r.ctrl.sfiom == false,
            r.mem.reserved_word is None,
            r.mem.timer.time == 0,
            r.mem.timer.timecmp == u64::MAX,
            r.code == 0,
            reg_spec(r.state, 10) == 0,
            reg_spec(r.state, 11) == crate::arith::i32_of_u32(DTB_BASE),
            forall|i: u8| i < 32 && i != 11 ==> reg_spec(r.state, i) == 0,
    {
        let mut state = State::new();
        let ghost s0 = state;
        let mut mem = MemMap::new(ram_size);
        mem.ram_base = ram_base as u64;
        state.pc = ram_base;
        // a0 = hart id (0), a1 = device-tree base
        let a1 = crate::arith::to_i32(DTB_BASE);
        *state.reg_mut(&Reg::new(11)) = a1;
        proof {
            assert forall|i: u8| i < 32 && i != 11 implies reg_spec(state, i) == 0 by {
                assert(reg_spec(s0, i) == 0);
                if i != 0 {
                    assert(state.regs@[i as int] == s0.regs@[i as int]);
                }
            }
        }
        let ctrl = Control::new();
        System { state, mem, ctrl, code: 0 }
    }

    pub fn reg(&self, r: &Reg) -> (v: i32)
        requires
            r.wf(),
        ensures
            v == reg_spec(self.state, r.index),
    {
        self.state.reg(r)
    }

    pub fn reg_mut(&mut self, r: &Reg) -> (v: &mut i32)
        requires
            r.wf(),
        ensures
            *v == old(self).state.regs[r.index as int],
            final(self).state.regs@ == old(self).state.regs@.update(r.index as int, *final(v)),
            final(self).state.pc == old(self).state.pc,
            final(self).mem == old(self).mem,
            final(self).ctrl == old(self).ctrl,
            final(self).code == old(self).code,
    {
        self.state.reg_mut(r)
    }

    pub fn pc(&self) -> (v: u32)
        ensures
            v == self.state.pc,
    {
        self.state.pc()
    }

    pub fn pc_mut(&mut self) -> (v: &mut u32)
        ensures
            *v == old(self).state.pc,
            final(self).state.pc == *final(v),
            final(self).state.regs == old(self).state.regs,
            final(self).mem == old(self).mem,
            final(self).ctrl == old(self).ctrl,
            final(self).code == old(self).code,
    {
        self.state.pc_mut()
    }

    /// Copy a binary image into RAM at the given offset; refused when it
    /// does not fit.
    pub fn load_image(&mut self, image: &[u8], offset: usize) -> (r: Result<(), ()>)
        requires
            old(self).wf(),
        ensures
            final(self).wf(),
            offset + image@.len() <= old(self).mem.ram_contents().len() ==> r is Ok,
            offset + image@.len() > old(self).mem.ram_contents().len() ==> r is Err
                && *final(self) == *old(self),
            r is Ok ==> {
                &&& *final(self) == (System { mem: final(self).mem, ..*old(self) })
                &&& final(self).mem == (MemMap { ram: final(self).mem.ram, ..old(self).mem })
                &&& final(self).mem.ram_contents().len() == old(self).mem.ram_contents().len()
                &&& forall|i: int|
                    offset <= i < offset + image@.len() ==> final(self).mem.ram_contents()[i]
                        == image@[i - offset]
                &&& forall|i: int|
                    0 <= i < old(self).mem.ram_contents().len() && !(offset <= i < offset
                        + image@.len()) ==> final(self).mem.ram_contents()[i] == old(
                        self,
                    ).mem.ram_contents()[i]
            },
    {
        let n = image.len();
        let size = self.mem.ram.buf.len();
        if offset > size || n > size - offset {
            return Err(());
        }
        self.mem.ram.write_block(offset, image);
        Ok(())
    }

    /// Install a device-tree blob, padding it to whole words.
    pub fn load_dtb(&mut self, image: Vec<u8>) -> (r: Result<(), ()>)
        requires
            old(self).wf(),
        ensures
            final(self).wf(),
            image@.len() <= 0xffff_fffc ==> r is Ok,
            r is Ok ==> {
                &&& *final(self) == (System { mem: final(self).mem, ..*old(self) })
                &&& final(self).mem == (MemMap { dtb: final(self).mem.dtb, ..old(self).mem })
                &&& final(self).mem.dtb.contents().len() % 4 == 0
                &&& forall|i: int|
                    0 <= i < image@.len() ==> final(self).mem.dtb.contents()[i] == image@[i]
                &&& final(self).mem.dtb.contents().len() < image@.len() + 4
            },
            r is Err ==> *final(self) == *old(self),
    {
        let mut image = image;
        let ghost orig: Seq<u8> = image@;
        if image.len() > 0xffff_fffc {
            return Err(());
        }
        if image.len() % 4 != 0 {
            image.push(0);
        }
        if image.len() % 4 != 0 {
            image.push(0);
        }
        if image.len() % 4 != 0 {
            image.push(0);
        }
        proof {
            assert(image@.subrange(0, orig.len() as int) == orig);
        }
        self.mem.dtb = crate::sys::mem_map::dtb::Dtb::new(image);
        Ok(())
    }

    /// Run one instruction (or deliver one pending interrupt) and do the
    /// retirement bookkeeping.
    pub fn step(&mut self) -> (r: Result<(), Trap>)
        requires
            old(self).wf(),
        ensures
            final(self).wf(),
            step_post(*old(self), *final(self), r),
    {
        let ghost o = *self;
        let res = fetch_decode_exec(self);
        let ghost mid = *self;
        retire(self, res);
        proof {
            reveal(step_post);
            assert(fde_post(o, mid, res));
        }
        res
    }
}


/// The attribute of an instruction fetch.
pub open spec fn instr_attr() -> mem_map::AccessAttr {
    mem_map::AccessAttr {
        atype: mem_map::AccessType::Instr,
        width: mem_map::AccessWidth::Word,
        lrsc: false,
        amo: false,
    }
}

/// The fetch relation: the PC translates as an instruction access (with any
/// A/D write-back) and the word at the physical address is read; a fault of
/// either stage carries the virtual PC.
pub open spec fn fetch_post(o: System, n: System, r: Result<u32, Trap>) -> bool {
    let vpc = o.state.pc;
    let t = crate::translate::translate_spec(o.ctrl, o.mem, vpc, mem_map::AccessType::Instr);
    match t.0 {
        Err(e) => r == Err::<u32, Trap>(Trap::spec_from_exception(e, vpc)) && n == o,
        Ok(pa) => exists|m1: MemMap|
            #![trigger m1.read_word_val(pa, instr_attr())]
            {
                &&& (match t.1 {
                    None => m1 == o.mem,
                    Some((a, w)) => MemMap::write_u32_post(
                        o.mem,
                        m1,
                        a,
                        w,
                        crate::translate::pte_store_attr(),
                        Ok::<(), Exception>(()),
                    ),
                })
                &&& n == (System { mem: n.mem, ..o })
                &&& n.mem == m1
                &&& (match m1.read_word_val(pa, instr_attr()) {
                    Err(e) => r == Err::<u32, Trap>(Trap::spec_from_exception(e, vpc)),
                    Ok(code) => r == Ok::<u32, Trap>(code),
                })
            },
    }
}

/// Translate the PC and read the 32-bit instruction word under it.
pub fn fetch(sys: &mut System) -> (r: Result<u32, Trap>)
    requires
        old(sys).wf(),
    ensures
        final(sys).wf(),
        fetch_post(*old(sys), *final(sys), r),
{
    let vpc = sys.pc();
    let ppc = match crate::translate::translate(sys, vpc, mem_map::AccessType::Instr) {
        Ok(pa) => pa,
        Err(e) => {
            return Err(Trap::from_exception(e, vpc));
        }
    };
    let ghost m1 = sys.mem;
    proof {
        // Seed the witness of the intermediate memory for the postcondition
        assert(m1.read_word_val(ppc, instr_attr()) is Ok || m1.read_word_val(ppc, instr_attr())
            is Err);
    }
    let attr = mem_map::AccessAttr {
        atype: mem_map::AccessType::Instr,
        width: mem_map::AccessWidth::Word,
        lrsc: false,
        amo: false,
    };
    match sys.mem.read_u32(ppc, attr) {
        Ok(code) => Ok(code),
        Err(e) => Err(Trap::from_exception(e, vpc)),
    }
}

/// The fetch-decode-execute relation: the timer-pending bit is refreshed
/// first; a ready interrupt preempts the fetch; otherwise the fetched word
/// is recorded, decoded (an unrecognized word is an illegal instruction
/// carrying the word), and executed.
pub open spec fn fde_post(o: System, n: System, r: Result<(), Trap>) -> bool {
    let o1 = System {
        ctrl: crate::proc::update_interrupt_spec(
            o.ctrl,
            o.mem.timer.time >= o.mem.timer.timecmp,
        ),
        ..o
    };
    match crate::proc::pending_interrupt(o1.ctrl) {
        Some(i) => r == Err::<(), Trap>(Trap::spec_from_interrupt(i, 0)) && n == o1,
        None => exists|n1: System, fr: Result<u32, Trap>|
            #![trigger fetch_post(o1, n1, fr)]
            {
                &&& fetch_post(o1, n1, fr)
                &&& (match fr {
                    Err(t) => r == Err::<(), Trap>(t) && n == n1,
                    Ok(code) => {
                        let n2 = System { code, ..n1 };
                        match crate::decode::decode_spec(code) {
                            None => r == Err::<(), Trap>(
                                Trap::spec_from_exception(Exception::IllegalInstr, code),
                            ) && n == n2,
                            Some(instr) => crate::exec::exec_post(n2, n, instr, r),
                        }
                    },
                })
            },
    }
}

fn fetch_decode_exec(sys: &mut System) -> (r: Result<(), Trap>)
    requires
        old(sys).wf(),
    ensures
        final(sys).wf(),
        fde_post(*old(sys), *final(sys), r),
{
    // Refresh and check the interrupts
    crate::proc::update_interrupt(sys);
    match crate::proc::check_interrupt(sys) {
        Ok(()) => {}
        Err(t) => {
            return Err(t);
        }
    }
    let ghost o1 = *sys;

    // Fetch
    let code = match fetch(sys) {
        Ok(c) => c,
        Err(t) => {
            proof {
                assert(fetch_post(o1, *sys, Err::<u32, Trap>(t)));
            }
            return Err(t);
        }
    };
    proof {
        assert(fetch_post(o1, *sys, Ok::<u32, Trap>(code)));
    }
    sys.code = code;

    // Decode
    let instr = match crate::decode::decode(code) {
        Some(i) => i,
        None => {
            return Err(Trap::from_exception(Exception::IllegalInstr, code));
        }
    };

    // Execute
    crate::exec::execute(sys, &instr)
}

/// The retire relation: a completed instruction bumps minstret (unless
/// inhibited) and a trapping one is delivered instead; either way mcycle is
/// bumped (unless inhibited) and the timer ticks.
pub open spec fn retire_post(o: System, n: System, r: Result<(), Trap>) -> bool {
    match r {
        Ok(_) => {
            &&& n == (System { ctrl: n.ctrl, mem: n.mem, ..o })
            &&& n.ctrl == (Control {
                minstret: if o.ctrl.minstret_inhibit {
                    o.ctrl.minstret
                } else {
                    crate::arith::winc64(o.ctrl.minstret)
                },
                mcycle: if o.ctrl.mcycle_inhibit {
                    o.ctrl.mcycle
                } else {
                    crate::arith::winc64(o.ctrl.mcycle)
                },
                ..o.ctrl
            })
            &&& n.mem == (MemMap {
                timer: mem_map::timer::Timer {
                    time: crate::arith::winc64(o.mem.timer.time),
                    timecmp: o.mem.timer.timecmp,
                },
                ..o.mem
            })
        },
        Err(t) => exists|n1: System|
            #![trigger crate::proc::handle_post(o, n1, t)]
            {
                &&& crate::proc::handle_post(o, n1, t)
                &&& n == (System { ctrl: n.ctrl, mem: n.mem, ..n1 })
                &&& n.ctrl == (Control {
                    mcycle: if n1.ctrl.mcycle_inhibit {
                        n1.ctrl.mcycle
                    } else {
                        crate::arith::winc64(n1.ctrl.mcycle)
                    },
                    ..n1.ctrl
                })
                &&& n.mem == (MemMap {
                    timer: mem_map::timer::Timer {
                        time: crate::arith::winc64(n1.mem.timer.time),
                        timecmp: n1.mem.timer.timecmp,
                    },
                    ..n1.mem
                })
            },
    }
}

fn retire(sys: &mut System, res: Result<(), Trap>)
    ensures
        retire_post(*old(sys), *final(sys), res),
        final(sys).wf() == old(sys).wf(),
{
    match res {
        Ok(_) => retire_ok(sys),
        Err(trap) => retire_err(sys, trap),
    }
}

#[verifier::rlimit(100)]
fn retire_ok(sys: &mut System)
    ensures
        retire_post(*old(sys), *final(sys), Ok::<(), Trap>(())),
        final(sys).wf() == old(sys).wf(),
{
    // Count the retired instruction and the cycle together
    sys.ctrl = Control {
        minstret: if sys.ctrl.minstret_inhibit {
            sys.ctrl.minstret
        } else {
            crate::arith::w_inc64(sys.ctrl.minstret)
        },
        mcycle: if sys.ctrl.mcycle_inhibit {
            sys.ctrl.mcycle
        } else {
            crate::arith::w_inc64(sys.ctrl.mcycle)
        },
        ..sys.ctrl
    };
    // Tick the timer
    let t = mem_map::timer::Timer {
        time: crate::arith::w_inc64(sys.mem.timer.time),
        timecmp: sys.mem.timer.timecmp,
    };
    sys.mem.timer = t;
}

#[verifier::rlimit(100)]
fn retire_err(sys: &mut System, trap: Trap)
    ensures
        retire_post(*old(sys), *final(sys), Err::<(), Trap>(trap)),
        final(sys).wf() == old(sys).wf(),
{
    // Deliver the trap, then count the cycle
    crate::proc::handle_trap(sys, trap);
    proof {
        assert(crate::proc::handle_post(*old(sys), *sys, trap));
    }
    sys.ctrl = Control {
        mcycle: if sys.ctrl.mcycle_inhibit {
            sys.ctrl.mcycle
        } else {
            crate::arith::w_inc64(sys.ctrl.mcycle)
        },
        ..sys.ctrl
    };
    // Tick the timer
    let t = mem_map::timer::Timer {
        time: crate::arith::w_inc64(sys.mem.timer.time),
        timecmp: sys.mem.timer.timecmp,
    };
    sys.mem.timer = t;
}

/// One whole step, as the step loop sees it: fetch-decode-execute (or a
/// preempting interrupt), then retirement with its counter and timer
/// bookkeeping. The result is the trap the step recovered from, if any.
/// Opaque so that reasoning about chains of steps can treat one step as a
/// unit; `reveal` it for the composition itself.
#[verifier::opaque]
pub open spec fn step_post(o: System, n: System, r: Result<(), Trap>) -> bool {
    exists|mid: System|
        #![trigger fde_post(o, mid, r)]
        {
            &&& fde_post(o, mid, r)
            &&& retire_post(mid, n, r)
        }
}

/// An illegal-instruction trap carrying the offending instruction word.
pub open spec fn spec_make_illegal(sys: &System) -> Trap {
    Trap::spec_from_exception(Exception::IllegalInstr, sys.code)
}

#[verifier::when_used_as_spec(spec_make_illegal)]
pub fn make_illegal(sys: &System) -> (r: Trap)
    ensures
        r == spec_make_illegal(sys),
{
    Trap::from_exception(Exception::IllegalInstr, sys.code)
}

} // verus!
