//! The A-extension: load-reserved, store-conditional, and the atomic
//! memory operations.
use vstd::prelude::*;

verus! {

use crate::arith::{i32_of_u32, to_i32, to_u32, u32_of_i32, wadd32};
use crate::exec::advance_pc;
use crate::instr::funct::{AmoFunct, AtomicFunct, LrScFunct};
use crate::instr::reg::Reg;
use crate::sys::System;
use crate::sys::mem_map::{AccessAttr, AccessType, AccessWidth, MemMap, MemTarget};
use crate::sys::state::reg_spec;
use crate::translate::{pte_store_attr, translate, translate_spec};
use crate::trap::Trap;
use vstd::wrapping::i32_specs;

/// The access attribute of LR.W (a reserved word load).
pub open spec fn lr_attr() -> AccessAttr {
    AccessAttr { atype: AccessType::Load, width: AccessWidth::Word, lrsc: true, amo: false }
}

/// The access attribute of SC.W (a conditional word store).
pub open spec fn sc_attr() -> AccessAttr {
    AccessAttr { atype: AccessType::Store, width: AccessWidth::Word, lrsc: true, amo: false }
}

/// The access attribute of an AMO: a word store for fault classification.
pub open spec fn amo_attr() -> AccessAttr {
    AccessAttr { atype: AccessType::Store, width: AccessWidth::Word, lrsc: false, amo: true }
}

/// What an AMO leaves in memory, from the old memory word and rs2.
pub open spec fn amo_result(cur: i32, b: i32, f: AmoFunct) -> i32 {
    match f {
        AmoFunct::Add => i32_specs::wrapping_add(cur, b),
        AmoFunct::Swap => b,
        AmoFunct::Xor => i32_of_u32(u32_of_i32(cur) ^ u32_of_i32(b)),
        AmoFunct::Or => i32_of_u32(u32_of_i32(cur) | u32_of_i32(b)),
        AmoFunct::And => i32_of_u32(u32_of_i32(cur) & u32_of_i32(b)),
        AmoFunct::Min => if cur <= b {
            cur
        } else {
            b
        },
        AmoFunct::Max => if cur >= b {
            cur
        } else {
            b
        },
        AmoFunct::Minu => if u32_of_i32(cur) <= u32_of_i32(b) {
            cur
        } else {
            b
        },
        AmoFunct::Maxu => if u32_of_i32(cur) >= u32_of_i32(b) {
            cur
        } else {
            b
        },
    }
}

/// The LR.W relation: translate for load, read the word, record the
/// reservation on its physical word address, and write rd; a fault carries
/// the virtual address and changes nothing but any A/D write-back.
pub open spec fn lr_post(o: System, n: System, rd: Reg, rs1: Reg, r: Result<(), Trap>) -> bool {
    let vaddr = u32_of_i32(reg_spec(o.state, rs1.index));
    let t = translate_spec(o.ctrl, o.mem, vaddr, AccessType::Load);
    match t.0 {
        Err(e) => r == Err::<(), Trap>(Trap::spec_from_exception(e, vaddr)) && n == o,
        Ok(pa) => exists|m1: MemMap|
            #![trigger m1.read_word_val(pa, lr_attr())]
            {
                &&& (match t.1 {
                    None => m1 == o.mem,
                    Some((a, w)) => MemMap::write_u32_post(
                        o.mem,
                        m1,
                        a,
                        w,
                        pte_store_attr(),
                        Ok::<(), crate::trap::Exception>(()),
                    ),
                })
                &&& (match m1.read_word_val(pa, lr_attr()) {
                    Err(e) => {
                        &&& r == Err::<(), Trap>(Trap::spec_from_exception(e, vaddr))
                        &&& n == (System { mem: n.mem, ..o })
                        &&& n.mem == m1
                    },
                    Ok(w) => {
                        &&& r is Ok
                        &&& n.mem == (MemMap { reserved_word: Some(pa >> 2), ..m1 })
                        &&& n.state.regs@ == o.state.regs@.update(rd.index as int, i32_of_u32(w))
                        &&& n.state.pc == wadd32(o.state.pc, 4)
                        &&& n.ctrl == o.ctrl
                        &&& n.code == o.code
                    },
                })
            },
    }
}

/// The SC.W relation: translate for store; with the reservation matching
/// the physical word the store commits and rd is 0; without it the store
/// address is still checked (faulting where a store would) and rd is 1 with
/// memory untouched. Either way the reservation is gone afterwards.
pub open spec fn sc_post(
    o: System,
    n: System,
    rd: Reg,
    rs1: Reg,
    rs2: Reg,
    r: Result<(), Trap>,
) -> bool {
    let vaddr = u32_of_i32(reg_spec(o.state, rs1.index));
    let b = u32_of_i32(reg_spec(o.state, rs2.index));
    let t = translate_spec(o.ctrl, o.mem, vaddr, AccessType::Store);
    match t.0 {
        Err(e) => r == Err::<(), Trap>(Trap::spec_from_exception(e, vaddr)) && n == o,
        Ok(pa) => exists|m1: MemMap|
            #![trigger m1.target_of(pa, sc_attr())]
            {
                &&& (match t.1 {
                    None => m1 == o.mem,
                    Some((a, w)) => MemMap::write_u32_post(
                        o.mem,
                        m1,
                        a,
                        w,
                        pte_store_attr(),
                        Ok::<(), crate::trap::Exception>(()),
                    ),
                })
                &&& (match m1.target_of(pa, sc_attr()) {
                    Err(e) => {
                        &&& r == Err::<(), Trap>(Trap::spec_from_exception(e, vaddr))
                        &&& n == (System { mem: n.mem, ..o })
                        &&& n.mem == m1
                    },
                    Ok(_) => {
                        &&& r is Ok
                        &&& n.state.pc == wadd32(o.state.pc, 4)
                        &&& n.ctrl == o.ctrl
                        &&& n.code == o.code
                        &&& (if m1.reserved_word == Some(pa >> 2) {
                            exists|m2: MemMap|
                                #![trigger MemMap::write_u32_post(m1, m2, pa, b, sc_attr(), Ok::<(), crate::trap::Exception>(()))]
                                {
                                    &&& MemMap::write_u32_post(
                                        m1,
                                        m2,
                                        pa,
                                        b,
                                        sc_attr(),
                                        Ok::<(), crate::trap::Exception>(()),
                                    )
                                    &&& n.mem == (MemMap { reserved_word: None, ..m2 })
                                    &&& n.state.regs@ == o.state.regs@.update(rd.index as int, 0)
                                }
                        } else {
                            &&& n.mem == (MemMap { reserved_word: None, ..m1 })
                            &&& n.state.regs@ == o.state.regs@.update(rd.index as int, 1)
                        })
                    },
                })
            },
    }
}

/// The AMO relation: translate for store (so the read phase faults as a
/// store), read the old word, write the operation's result, and only then
/// write the old word to rd, so rs1 or rs2 may alias rd.
pub open spec fn amo_post(
    o: System,
    n: System,
    rd: Reg,
    rs1: Reg,
    rs2: Reg,
    f: AmoFunct,
    r: Result<(), Trap>,
) -> bool {
    let vaddr = u32_of_i32(reg_spec(o.state, rs1.index));
    let b = reg_spec(o.state, rs2.index);
    let t = translate_spec(o.ctrl, o.mem, vaddr, AccessType::Store);
    match t.0 {
        Err(e) => r == Err::<(), Trap>(Trap::spec_from_exception(e, vaddr)) && n == o,
        Ok(pa) => exists|m1: MemMap|
            #![trigger m1.read_word_val(pa, amo_attr())]
            {
                &&& (match t.1 {
                    None => m1 == o.mem,
                    Some((a, w)) => MemMap::write_u32_post(
                        o.mem,
                        m1,
                        a,
                        w,
                        pte_store_attr(),
                        Ok::<(), crate::trap::Exception>(()),
                    ),
                })
                &&& (match m1.read_word_val(pa, amo_attr()) {
                    Err(e) => {
                        &&& r == Err::<(), Trap>(Trap::spec_from_exception(e, vaddr))
                        &&& n == (System { mem: n.mem, ..o })
                        &&& n.mem == m1
                    },
                    Ok(w) => {
                        let cur = i32_of_u32(w);
                        &&& r is Ok
                        &&& MemMap::write_u32_post(
                            m1,
                            n.mem,
                            pa,
                            u32_of_i32(amo_result(cur, b, f)),
                            amo_attr(),
                            Ok::<(), crate::trap::Exception>(()),
                        )
                        &&& n.state.regs@ == o.state.regs@.update(rd.index as int, cur)
                        &&& n.state.pc == wadd32(o.state.pc, 4)
                        &&& n.ctrl == o.ctrl
                        &&& n.code == o.code
                    },
                })
            },
    }
}

/// Execute an atomic instruction, advancing the PC on success.
pub fn execute_atomic(sys: &mut System, rd: &Reg, rs1: &Reg, rs2: &Reg, f: &AtomicFunct) -> (r:
    Result<(), Trap>)
    requires
        old(sys).wf(),
        rd.wf(),
        rs1.wf(),
        rs2.wf(),
    ensures
        final(sys).wf(),
        match *f {
            AtomicFunct::LrSc(LrScFunct::Lr) => lr_post(*old(sys), *final(sys), *rd, *rs1, r),
            AtomicFunct::LrSc(LrScFunct::Sc) => sc_post(*old(sys), *final(sys), *rd, *rs1, *rs2, r),
            AtomicFunct::Amo(af) => amo_post(*old(sys), *final(sys), *rd, *rs1, *rs2, af, r),
        },
{
    match f {
        AtomicFunct::LrSc(LrScFunct::Lr) => load_reserved(sys, rd, rs1),
        AtomicFunct::LrSc(LrScFunct::Sc) => store_conditional(sys, rd, rs1, rs2),
        AtomicFunct::Amo(af) => execute_amo(sys, rd, rs1, rs2, af),
    }
}

fn load_reserved(sys: &mut System, rd: &Reg, rs1: &Reg) -> (r: Result<(), Trap>)
    requires
        old(sys).wf(),
        rd.wf(),
        rs1.wf(),
    ensures
        final(sys).wf(),
        lr_post(*old(sys), *final(sys), *rd, *rs1, r),
{
    let vaddr = to_u32(sys.reg(rs1));
    // Translate the virtual address
    let paddr = match translate(sys, vaddr, AccessType::Load) {
        Ok(pa) => pa,
        Err(e) => {
            return Err(Trap::from_exception(e, vaddr));
        }
    };
    let ghost m1 = sys.mem;
    proof {
        // Seed the witness of the intermediate memory for the postcondition
        assert(m1.read_word_val(paddr, lr_attr()) is Ok || m1.read_word_val(paddr, lr_attr())
            is Err);
    }
    // Load and reserve the word
    let attr = AccessAttr {
        atype: AccessType::Load,
        width: AccessWidth::Word,
        lrsc: true,
        amo: false,
    };
    let data = match sys.mem.read_u32(paddr, attr) {
        Ok(w) => to_i32(w),
        Err(e) => {
            return Err(Trap::from_exception(e, vaddr));
        }
    };
    sys.mem.reserve(paddr);
    *sys.reg_mut(rd) = data;
    advance_pc(sys);
    Ok(())
}

fn store_conditional(sys: &mut System, rd: &Reg, rs1: &Reg, rs2: &Reg) -> (r: Result<(), Trap>)
    requires
        old(sys).wf(),
        rd.wf(),
        rs1.wf(),
        rs2.wf(),
    ensures
        final(sys).wf(),
        sc_post(*old(sys), *final(sys), *rd, *rs1, *rs2, r),
{
    let vaddr = to_u32(sys.reg(rs1));
    // Translate the virtual address
    let paddr = match translate(sys, vaddr, AccessType::Store) {
        Ok(pa) => pa,
        Err(e) => {
            return Err(Trap::from_exception(e, vaddr));
        }
    };
    let ghost m1 = sys.mem;
    proof {
        // Seed the witness of the intermediate memory for the postcondition
        assert(m1.target_of(paddr, sc_attr()) is Ok || m1.target_of(paddr, sc_attr()) is Err);
    }
    let attr = AccessAttr {
        atype: AccessType::Store,
        width: AccessWidth::Word,
        lrsc: true,
        amo: false,
    };
    // A faulty address still traps, whether or not the reservation holds
    match sys.mem.check_and_translate(paddr, attr) {
        Ok(_) => {}
        Err(e) => {
            return Err(Trap::from_exception(e, vaddr));
        }
    }
    if sys.mem.is_reserved(paddr) {
        // The reservation is still valid: commit the store
        let data = to_u32(sys.reg(rs2));
        match sys.mem.write_u32(paddr, data, attr) {
            Ok(()) => {}
            Err(_) => {
                proof {
                    assert(false);
                }
            }
        }
        proof {
            // Seed the witness of the committed store for the postcondition
            let m2 = sys.mem;
            assert(MemMap::write_u32_post(
                m1,
                m2,
                paddr,
                data,
                sc_attr(),
                Ok::<(), crate::trap::Exception>(()),
            ));
        }
        *sys.reg_mut(rd) = 0;
    } else {
        *sys.reg_mut(rd) = 1;
    }
    // Every outcome invalidates the reservation
    sys.mem.clear_reservation();
    advance_pc(sys);
    Ok(())
}

fn execute_amo(sys: &mut System, rd: &Reg, rs1: &Reg, rs2: &Reg, f: &AmoFunct) -> (r: Result<
    (),
    Trap,
>)
    requires
        old(sys).wf(),
        rd.wf(),
        rs1.wf(),
        rs2.wf(),
    ensures
        final(sys).wf(),
        amo_post(*old(sys), *final(sys), *rd, *rs1, *rs2, *f, r),
{
    // Read rs1 and rs2 before any write to rd
    let b = sys.reg(rs2);
    let vaddr = to_u32(sys.reg(rs1));
    // Translate the virtual address; an AMO counts as a store
    let paddr = match translate(sys, vaddr, AccessType::Store) {
        Ok(pa) => pa,
        Err(e) => {
            return Err(Trap::from_exception(e, vaddr));
        }
    };
    let ghost m1 = sys.mem;
    proof {
        // Seed the witness of the intermediate memory for the postcondition
        assert(m1.read_word_val(paddr, amo_attr()) is Ok || m1.read_word_val(paddr, amo_attr())
            is Err);
    }
    let attr = AccessAttr {
        atype: AccessType::Store,
        width: AccessWidth::Word,
        lrsc: false,
        amo: true,
    };
    // Read the old word; the store-typed attribute classifies read-phase
    // faults as store faults
    let data = match sys.mem.read_u32(paddr, attr) {
        Ok(w) => to_i32(w),
        Err(e) => {
            return Err(Trap::from_exception(e, vaddr));
        }
    };
    // Modify and store back
    let new_data: i32 = match f {
        AmoFunct::Add => data.wrapping_add(b),
        AmoFunct::Swap => b,
        AmoFunct::Xor => to_i32(to_u32(data) ^ to_u32(b)),
        AmoFunct::Or => to_i32(to_u32(data) | to_u32(b)),
        AmoFunct::And => to_i32(to_u32(data) & to_u32(b)),
        AmoFunct::Min => if data <= b {
            data
        } else {
            b
        },
        AmoFunct::Max => if data >= b {
            data
        } else {
            b
        },
        AmoFunct::Minu => if to_u32(data) <= to_u32(b) {
            data
        } else {
            b
        },
        AmoFunct::Maxu => if to_u32(data) >= to_u32(b) {
            data
        } else {
            b
        },
    };
    match sys.mem.write_u32(paddr, to_u32(new_data), attr) {
        Ok(()) => {}
        Err(e) => {
            proof {
                assert(false);
            }
        }
    }
    // Only now write the old value to rd
    *sys.reg_mut(rd) = data;
    advance_pc(sys);
    Ok(())
}


/// How a page walk's A/D write-back, if the walk performed one, relates
/// the memory before the access to the memory the access itself then sees.
pub open spec fn walk_writeback(o: MemMap, n: MemMap, wrote: Option<(u64, u32)>) -> bool {
    match wrote {
        None => n == o,
        Some((a, w)) => MemMap::write_u32_post(
            o,
            n,
            a,
            w,
            pte_store_attr(),
            Ok::<(), crate::trap::Exception>(()),
        ),
    }
}

/// LR.W immediately followed by SC.W on the same word commits: with no
/// intervening store to that word (in particular, if the SC's own walk
/// writes an entry back, that entry is not in the reserved word) and the
/// two accesses translating to the same physical word, the SC takes the
/// reservation, writes memory, returns rd = 0 and leaves no reservation.
pub proof fn lemma_lr_sc_liveness(
    s0: System,
    s1: System,
    s2: System,
    rd_l: Reg,
    rd_s: Reg,
    rs1_l: Reg,
    rs1_s: Reg,
    rs2: Reg,
)
    requires
        rd_s.index < 32,
        lr_post(s0, s1, rd_l, rs1_l, Ok::<(), Trap>(())),
        sc_post(s1, s2, rd_s, rs1_s, rs2, Ok::<(), Trap>(())),
        translate_spec(
            s1.ctrl,
            s1.mem,
            u32_of_i32(crate::sys::state::reg_spec(s1.state, rs1_s.index)),
            AccessType::Store,
        ).0 == translate_spec(
            s0.ctrl,
            s0.mem,
            u32_of_i32(crate::sys::state::reg_spec(s0.state, rs1_l.index)),
            AccessType::Load,
        ).0,
        match translate_spec(
            s1.ctrl,
            s1.mem,
            u32_of_i32(crate::sys::state::reg_spec(s1.state, rs1_s.index)),
            AccessType::Store,
        ).1 {
            None => true,
            Some((a, _)) => a >> 2 != translate_spec(
                s1.ctrl,
                s1.mem,
                u32_of_i32(crate::sys::state::reg_spec(s1.state, rs1_s.index)),
                AccessType::Store,
            ).0.unwrap() >> 2,
        },
    ensures
        crate::sys::state::reg_spec(s2.state, rd_s.index) == 0,
        s2.mem.reserved_word is None,
        exists|m1: MemMap, m2: MemMap|
            #![trigger MemMap::write_u32_post(m1, m2, translate_spec(s1.ctrl, s1.mem, u32_of_i32(crate::sys::state::reg_spec(s1.state, rs1_s.index)), AccessType::Store).0.unwrap(), u32_of_i32(crate::sys::state::reg_spec(s1.state, rs2.index)), sc_attr(), Ok::<(), crate::trap::Exception>(()))]
            {
                &&& walk_writeback(
                    s1.mem,
                    m1,
                    translate_spec(
                        s1.ctrl,
                        s1.mem,
                        u32_of_i32(crate::sys::state::reg_spec(s1.state, rs1_s.index)),
                        AccessType::Store,
                    ).1,
                )
                &&& MemMap::write_u32_post(
                    m1,
                    m2,
                    translate_spec(
                        s1.ctrl,
                        s1.mem,
                        u32_of_i32(crate::sys::state::reg_spec(s1.state, rs1_s.index)),
                        AccessType::Store,
                    ).0.unwrap(),
                    u32_of_i32(crate::sys::state::reg_spec(s1.state, rs2.index)),
                    sc_attr(),
                    Ok::<(), crate::trap::Exception>(()),
                )
                &&& s2.mem == (MemMap { reserved_word: None, ..m2 })
            },
{
    let vaddr_l = u32_of_i32(crate::sys::state::reg_spec(s0.state, rs1_l.index));
    let t_l = translate_spec(s0.ctrl, s0.mem, vaddr_l, AccessType::Load);
    let pa = t_l.0.unwrap();
    // Whatever the LR's own walk wrote back, the LR left the reservation on
    // pa's word.
    let m1_l = choose|m1: MemMap|
        #![trigger m1.read_word_val(pa, lr_attr())]
        {
            &&& walk_writeback(s0.mem, m1, t_l.1)
            &&& (match m1.read_word_val(pa, lr_attr()) {
                Err(_) => false,
                Ok(_) => s1.mem == (MemMap { reserved_word: Some(pa >> 2), ..m1 }),
            })
        };
    assert(s1.mem.reserved_word == Some(pa >> 2));

    let vaddr_s = u32_of_i32(crate::sys::state::reg_spec(s1.state, rs1_s.index));
    let b = u32_of_i32(crate::sys::state::reg_spec(s1.state, rs2.index));
    let t_s = translate_spec(s1.ctrl, s1.mem, vaddr_s, AccessType::Store);
    assert(t_s.0 == Ok::<u64, crate::trap::Exception>(pa));
    // The SC's own walk, writing outside the reserved word, keeps the
    // reservation; the store-conditional therefore commits.
    let m1_s = choose|m1: MemMap|
        #![trigger m1.target_of(pa, sc_attr())]
        {
            &&& walk_writeback(s1.mem, m1, t_s.1)
            &&& (match m1.target_of(pa, sc_attr()) {
                Err(_) => false,
                Ok(_) => m1.reserved_word == Some(pa >> 2) && exists|m2: MemMap|
                    {
                        &&& MemMap::write_u32_post(
                            m1,
                            m2,
                            pa,
                            b,
                            sc_attr(),
                            Ok::<(), crate::trap::Exception>(()),
                        )
                        &&& s2.mem == (MemMap { reserved_word: None, ..m2 })
                        &&& s2.state.regs@ == s1.state.regs@.update(rd_s.index as int, 0)
                    },
            })
        };
    assert(walk_writeback(s1.mem, m1_s, t_s.1));
}

/// Every store-conditional, commit or fail, leaves no reservation behind.
pub proof fn lemma_sc_clears_reservation(
    s0: System,
    s1: System,
    rd: Reg,
    rs1: Reg,
    rs2: Reg,
)
    requires
        sc_post(s0, s1, rd, rs1, rs2, Ok::<(), Trap>(())),
    ensures
        s1.mem.reserved_word is None,
{
}

/// Without a matching reservation a store-conditional commits nothing: it
/// returns rd = 1 and leaves memory as its own page walk left it (the
/// store itself touches nothing).
pub proof fn lemma_sc_without_reservation(
    s0: System,
    s1: System,
    rd: Reg,
    rs1: Reg,
    rs2: Reg,
)
    requires
        rd.index < 32,
        sc_post(s0, s1, rd, rs1, rs2, Ok::<(), Trap>(())),
        s0.mem.reserved_word is None,
    ensures
        rd.index != 0 ==> crate::sys::state::reg_spec(s1.state, rd.index) == 1,
        s1.mem.reserved_word is None,
        exists|m1: MemMap|
            #![trigger walk_writeback(s0.mem, m1, translate_spec(s0.ctrl, s0.mem, u32_of_i32(crate::sys::state::reg_spec(s0.state, rs1.index)), AccessType::Store).1)]
            walk_writeback(
                s0.mem,
                m1,
                translate_spec(
                    s0.ctrl,
                    s0.mem,
                    u32_of_i32(crate::sys::state::reg_spec(s0.state, rs1.index)),
                    AccessType::Store,
                ).1,
            ) && s1.mem == (MemMap { reserved_word: None, ..m1 }),
{
    let vaddr = u32_of_i32(crate::sys::state::reg_spec(s0.state, rs1.index));
    let t = translate_spec(s0.ctrl, s0.mem, vaddr, AccessType::Store);
    let pa = t.0.unwrap();
    // The walk's write-back cannot create a reservation, so none matches
    // and the refusal branch of the relation holds.
    let m1w = choose|m1: MemMap|
        #![trigger m1.target_of(pa, sc_attr())]
        {
            &&& walk_writeback(s0.mem, m1, t.1)
            &&& (match m1.target_of(pa, sc_attr()) {
                Err(_) => false,
                Ok(_) => m1.reserved_word != Some(pa >> 2) && s1.mem == (MemMap {
                    reserved_word: None,
                    ..m1
                }) && s1.state.regs@ == s0.state.regs@.update(rd.index as int, 1),
            })
        };
    assert(walk_writeback(s0.mem, m1w, t.1));
}

/// A committed store into the reserved word clears the reservation: the
/// next store-conditional finds none.
pub proof fn lemma_store_clears_matching_reservation(
    o: MemMap,
    n: MemMap,
    addr: u64,
    val: u32,
    attr: crate::sys::mem_map::AccessAttr,
)
    requires
        o.reserved_word == Some(addr >> 2),
        MemMap::write_u32_post(o, n, addr, val, attr, Ok::<(), crate::trap::Exception>(())),
        o.target_of(addr, attr) matches Ok(t) && t is Ram,
    ensures
        n.reserved_word is None,
{
}

} // verus!
