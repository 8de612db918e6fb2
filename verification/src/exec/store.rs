//! The stores: translate, then write at the access width.
use vstd::prelude::*;

verus! {

use crate::arith::{to_u32, u32_of_i32, wadd32};
use crate::exec::advance_pc;
use crate::instr::funct::StoreFunct;
use crate::instr::reg::Reg;
use crate::sys::System;
use crate::sys::mem_map::{AccessAttr, AccessType, AccessWidth, MemMap};
use crate::sys::state::reg_spec;
use crate::translate::{pte_store_attr, translate, translate_spec};
use crate::trap::Trap;
use vstd::wrapping::i32_specs;

/// The access attribute of a store at this width.
pub open spec fn store_attr(f: StoreFunct) -> AccessAttr {
    AccessAttr {
        atype: AccessType::Store,
        width: match f {
            StoreFunct::B => AccessWidth::Byte,
            StoreFunct::H => AccessWidth::HalfWord,
            StoreFunct::W => AccessWidth::Word,
        },
        lrsc: false,
        amo: false,
    }
}

/// The whole store relation: the effective address is rs1 plus the
/// immediate; its translation (with any A/D write-back) and then the
/// write decide the trap or the effect; the written value is rs2 truncated
/// to the width. Every fault carries the virtual address.
pub open spec fn store_post(
    o: System,
    n: System,
    rs1: Reg,
    rs2: Reg,
    imm: i32,
    f: StoreFunct,
    r: Result<(), Trap>,
) -> bool {
    let vaddr = u32_of_i32(i32_specs::wrapping_add(reg_spec(o.state, rs1.index), imm));
    let b = u32_of_i32(reg_spec(o.state, rs2.index));
    let t = translate_spec(o.ctrl, o.mem, vaddr, AccessType::Store);
    match t.0 {
        Err(e) => r == Err::<(), Trap>(Trap::spec_from_exception(e, vaddr)) && n == o,
        Ok(pa) => exists|m1: MemMap|
            #![trigger m1.target_of(pa, store_attr(f))]
            {
                &&& (match t.1 {
                    None => m1 == o.mem,
                    Some((a, w)) => MemMap::write_u32_post(
                        o.mem,
                        m1,
                        a,
                        w,
                        pte_store_attr(),
                        Ok::<(), crate::trap::Exception>(()),
                    ),
                })
                &&& ({
                    let wr = m1.target_of(pa, store_attr(f));
                    match wr {
                        Err(e) => {
                            &&& r == Err::<(), Trap>(Trap::spec_from_exception(e, vaddr))
                            &&& n == (System { mem: n.mem, ..o })
                            &&& n.mem == m1
                        },
                        Ok(_) => {
                            &&& r is Ok
                            &&& n.state.regs == o.state.regs
                            &&& n.state.pc == wadd32(o.state.pc, 4)
                            &&& n.ctrl == o.ctrl
                            &&& n.code == o.code
                            &&& (match f {
                                StoreFunct::B => MemMap::write_u8_post(
                                    m1,
                                    n.mem,
                                    pa,
                                    (b % 0x100) as u8,
                                    store_attr(f),
                                    Ok::<(), crate::trap::Exception>(()),
                                ),
                                StoreFunct::H => MemMap::write_u16_post(
                                    m1,
                                    n.mem,
                                    pa,
                                    (b % 0x1_0000) as u16,
                                    store_attr(f),
                                    Ok::<(), crate::trap::Exception>(()),
                                ),
                                StoreFunct::W => MemMap::write_u32_post(
                                    m1,
                                    n.mem,
                                    pa,
                                    b,
                                    store_attr(f),
                                    Ok::<(), crate::trap::Exception>(()),
                                ),
                            })
                        },
                    }
                })
            },
    }
}

pub fn execute_store(sys: &mut System, rs1: &Reg, rs2: &Reg, imm: i32, f: &StoreFunct) -> (r:
    Result<(), Trap>)
    requires
        old(sys).wf(),
        rs1.wf(),
        rs2.wf(),
    ensures
        final(sys).wf(),
        store_post(*old(sys), *final(sys), *rs1, *rs2, imm, *f, r),
{
    let a = sys.reg(rs1);
    let b = to_u32(sys.reg(rs2));
    let vaddr = to_u32(a.wrapping_add(imm));
    // Translate the virtual address
    let paddr = match translate(sys, vaddr, AccessType::Store) {
        Ok(pa) => pa,
        Err(e) => {
            return Err(Trap::from_exception(e, vaddr));
        }
    };
    let ghost m1 = sys.mem;
    proof {
        // Seed the witness of the intermediate memory for the postcondition
        assert(m1.target_of(paddr, store_attr(*f)) is Ok || m1.target_of(paddr, store_attr(*f))
            is Err);
    }
    // Store through the physical address
    let attr = AccessAttr {
        atype: AccessType::Store,
        width: match f {
            StoreFunct::B => AccessWidth::Byte,
            StoreFunct::H => AccessWidth::HalfWord,
            StoreFunct::W => AccessWidth::Word,
        },
        lrsc: false,
        amo: false,
    };
    let res = match f {
        StoreFunct::B => sys.mem.write_u8(paddr, (b % 0x100) as u8, attr),
        StoreFunct::H => sys.mem.write_u16(paddr, (b % 0x1_0000) as u16, attr),
        StoreFunct::W => sys.mem.write_u32(paddr, b, attr),
    };
    match res {
        Ok(()) => {}
        Err(e) => {
            return Err(Trap::from_exception(e, vaddr));
        }
    }
    advance_pc(sys);
    Ok(())
}

} // verus!
