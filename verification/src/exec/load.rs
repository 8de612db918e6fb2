//! The loads: translate, read at the access width, extend, and write rd.
use vstd::prelude::*;

verus! {

use crate::arith::{i32_of_u32, to_i32, u32_of_i32, wadd32};
use crate::exec::advance_pc;
use crate::instr::funct::LoadFunct;
use crate::instr::reg::Reg;
use crate::sys::System;
use crate::sys::mem_map::{AccessAttr, AccessType, AccessWidth, MemMap};
use crate::sys::state::reg_spec;
use crate::translate::{pte_store_attr, translate, translate_spec};
use crate::trap::Trap;
use vstd::wrapping::i32_specs;

/// The access attribute of a load at this width.
pub open spec fn load_attr(f: LoadFunct) -> AccessAttr {
    AccessAttr {
        atype: AccessType::Load,
        width: match f {
            LoadFunct::B | LoadFunct::Bu => AccessWidth::Byte,
            LoadFunct::H | LoadFunct::Hu => AccessWidth::HalfWord,
            LoadFunct::W => AccessWidth::Word,
        },
        lrsc: false,
        amo: false,
    }
}

/// A loaded byte as the register value: sign- or zero-extended.
pub open spec fn ext8(b: u8, signed: bool) -> i32 {
    if signed && b >= 0x80 {
        (b - 0x100) as i32
    } else {
        b as i32
    }
}

/// A loaded half-word as the register value: sign- or zero-extended.
pub open spec fn ext16(h: u16, signed: bool) -> i32 {
    if signed && h >= 0x8000 {
        (h - 0x1_0000) as i32
    } else {
        h as i32
    }
}

/// What the load reads from memory `m` at physical address `pa`, already
/// extended, or the fault.
pub open spec fn load_val(m: MemMap, pa: u64, f: LoadFunct) -> Result<
    i32,
    crate::trap::Exception,
> {
    match f {
        LoadFunct::B => match m.read_byte_val(pa, load_attr(f)) {
            Ok(b) => Ok(ext8(b, true)),
            Err(e) => Err(e),
        },
        LoadFunct::Bu => match m.read_byte_val(pa, load_attr(f)) {
            Ok(b) => Ok(ext8(b, false)),
            Err(e) => Err(e),
        },
        LoadFunct::H => match m.read_half_val(pa, load_attr(f)) {
            Ok(h) => Ok(ext16(h, true)),
            Err(e) => Err(e),
        },
        LoadFunct::Hu => match m.read_half_val(pa, load_attr(f)) {
            Ok(h) => Ok(ext16(h, false)),
            Err(e) => Err(e),
        },
        LoadFunct::W => match m.read_word_val(pa, load_attr(f)) {
            Ok(w) => Ok(i32_of_u32(w)),
            Err(e) => Err(e),
        },
    }
}

/// The whole load relation: the effective address is rs1 plus the
/// immediate; its translation (with any A/D write-back) and then the read
/// decide the trap or the value; on success rd takes the extended value and
/// the PC advances. Every fault carries the virtual address.
pub open spec fn load_post(
    o: System,
    n: System,
    rd: Reg,
    rs1: Reg,
    imm: i32,
    f: LoadFunct,
    r: Result<(), Trap>,
) -> bool {
    let vaddr = u32_of_i32(i32_specs::wrapping_add(reg_spec(o.state, rs1.index), imm));
    let t = translate_spec(o.ctrl, o.mem, vaddr, AccessType::Load);
    match t.0 {
        Err(e) => r == Err::<(), Trap>(Trap::spec_from_exception(e, vaddr)) && n == o,
        Ok(pa) => exists|m1: MemMap|
            #![trigger load_val(m1, pa, f)]
            {
                &&& (match t.1 {
                    None => m1 == o.mem,
                    Some((a, w)) => MemMap::write_u32_post(
                        o.mem,
                        m1,
                        a,
                        w,
                        pte_store_attr(),
                        Ok::<(), crate::trap::Exception>(()),
                    ),
                })
                &&& (match load_val(m1, pa, f) {
                    Err(e) => {
                        &&& r == Err::<(), Trap>(Trap::spec_from_exception(e, vaddr))
                        &&& n == (System { mem: n.mem, ..o })
                        &&& n.mem == m1
                    },
                    Ok(v) => {
                        &&& r is Ok
                        &&& n.state.regs@ == o.state.regs@.update(rd.index as int, v)
                        &&& n.state.pc == wadd32(o.state.pc, 4)
                        &&& n.ctrl == o.ctrl
                        &&& n.code == o.code
                        &&& (match f {
                            LoadFunct::B | LoadFunct::Bu => MemMap::read_u8_post(
                                m1,
                                n.mem,
                                pa,
                                load_attr(f),
                                match m1.read_byte_val(pa, load_attr(f)) {
                                    Ok(b) => Ok::<u8, crate::trap::Exception>(b),
                                    Err(e) => Err::<u8, crate::trap::Exception>(e),
                                },
                            ),
                            _ => n.mem == m1,
                        })
                    },
                })
            },
    }
}

pub fn execute_load(sys: &mut System, rd: &Reg, rs1: &Reg, imm: i32, f: &LoadFunct) -> (r: Result<
    (),
    Trap,
>)
    requires
        old(sys).wf(),
        rd.wf(),
        rs1.wf(),
    ensures
        final(sys).wf(),
        load_post(*old(sys), *final(sys), *rd, *rs1, imm, *f, r),
{
    let a = sys.reg(rs1);
    let vaddr = crate::arith::to_u32(a.wrapping_add(imm));
    // Translate the virtual address
    let paddr = match translate(sys, vaddr, AccessType::Load) {
        Ok(pa) => pa,
        Err(e) => {
            return Err(Trap::from_exception(e, vaddr));
        }
    };
    let ghost m1 = sys.mem;
    proof {
        // Seed the witness of the intermediate memory for the postcondition
        assert(load_val(m1, paddr, *f) is Ok || load_val(m1, paddr, *f) is Err);
    }
    // Load through the physical address
    let attr = AccessAttr {
        atype: AccessType::Load,
        width: match f {
            LoadFunct::B | LoadFunct::Bu => AccessWidth::Byte,
            LoadFunct::H | LoadFunct::Hu => AccessWidth::HalfWord,
            LoadFunct::W => AccessWidth::Word,
        },
        lrsc: false,
        amo: false,
    };
    let data: i32 = match f {
        LoadFunct::B => {
            match sys.mem.read_u8(paddr, attr) {
                Ok(b) => sign_extend_8(b),
                Err(e) => {
                    return Err(Trap::from_exception(e, vaddr));
                }
            }
        }
        LoadFunct::Bu => {
            match sys.mem.read_u8(paddr, attr) {
                Ok(b) => b as i32,
                Err(e) => {
                    return Err(Trap::from_exception(e, vaddr));
                }
            }
        }
        LoadFunct::H => {
            match sys.mem.read_u16(paddr, attr) {
                Ok(h) => sign_extend_16(h),
                Err(e) => {
                    return Err(Trap::from_exception(e, vaddr));
                }
            }
        }
        LoadFunct::Hu => {
            match sys.mem.read_u16(paddr, attr) {
                Ok(h) => h as i32,
                Err(e) => {
                    return Err(Trap::from_exception(e, vaddr));
                }
            }
        }
        LoadFunct::W => {
            match sys.mem.read_u32(paddr, attr) {
                Ok(w) => to_i32(w),
                Err(e) => {
                    return Err(Trap::from_exception(e, vaddr));
                }
            }
        }
    };
    *sys.reg_mut(rd) = data;
    advance_pc(sys);
    Ok(())
}

fn sign_extend_8(b: u8) -> (r: i32)
    ensures
        r == ext8(b, true),
{
    if b >= 0x80 {
        b as i32 - 0x100
    } else {
        b as i32
    }
}

fn sign_extend_16(h: u16) -> (r: i32)
    ensures
        r == ext16(h, true),
{
    if h >= 0x8000 {
        h as i32 - 0x1_0000
    } else {
        h as i32
    }
}

} // verus!
