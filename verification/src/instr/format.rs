//! The five RISC-V instruction formats and their sign-extended immediates,
//! decoded from a 32-bit instruction word.
use vstd::prelude::*;

verus! {

use crate::arith::i32_of_u32;
use crate::arith::to_i32;
use crate::instr::reg::{Reg, rd_of, rs1_of, rs2_of};

#[derive(Debug, PartialEq, Eq, Structural, Clone, Copy)]
pub struct RType {
    pub rd: Reg,
    pub rs1: Reg,
    pub rs2: Reg,
}

#[derive(Debug, PartialEq, Eq, Structural, Clone, Copy)]
pub struct IType {
    pub rd: Reg,
    pub rs1: Reg,
    pub imm: i32,
}

#[derive(Debug, PartialEq, Eq, Structural, Clone, Copy)]
pub struct SType {
    pub rs1: Reg,
    pub rs2: Reg,
    pub imm: i32,
}

#[derive(Debug, PartialEq, Eq, Structural, Clone, Copy)]
pub struct BType {
    pub rs1: Reg,
    pub rs2: Reg,
    pub imm: i32,
}

#[derive(Debug, PartialEq, Eq, Structural, Clone, Copy)]
pub struct UType {
    pub rd: Reg,
    pub imm: i32,
}

#[derive(Debug, PartialEq, Eq, Structural, Clone, Copy)]
pub struct JType {
    pub rd: Reg,
    pub imm: i32,
}

const I_MASK: u32 = 0xfff;
const I_SHAMT_MASK: u32 = 0x1f;

const S4_0_MASK: u32 = 0x1f;
const S11_5_MASK: u32 = 0xfe0;

const B4_1_MASK: u32 = 0x1e;
const B10_5_MASK: u32 = 0x7e0;
const B11_MASK: u32 = 0x800;
const B12_MASK: u32 = 0x1000;

const U_MASK: u32 = 0xffff_f000;

const J10_1_MASK: u32 = 0x7fe;
const J11_MASK: u32 = 0x800;
const J19_12_MASK: u32 = 0xf_f000;
const J20_MASK: u32 = 0x10_0000;

/// Sign extension of a 12-bit immediate.
pub open spec fn sign_ext_12(imm: u32) -> i32
    recommends
        imm < 0x1000,
{
    if imm >= 0x800 {
        i32_of_u32(imm | 0xffff_f000)
    } else {
        imm as i32
    }
}

/// Sign extension of a 13-bit immediate.
pub open spec fn sign_ext_13(imm: u32) -> i32
    recommends
        imm < 0x2000,
{
    if imm >= 0x1000 {
        i32_of_u32(imm | 0xffff_e000)
    } else {
        imm as i32
    }
}

/// Sign extension of a 21-bit immediate.
pub open spec fn sign_ext_21(imm: u32) -> i32
    recommends
        imm < 0x20_0000,
{
    if imm >= 0x10_0000 {
        i32_of_u32(imm | 0xffe0_0000)
    } else {
        imm as i32
    }
}

fn sign_extend_12(imm: u32) -> (r: i32)
    requires
        imm < 0x1000,
    ensures
        r == sign_ext_12(imm),
{
    if imm >= 0x800 {
        proof {
            assert(imm | 0xffff_f000 >= 0x8000_0000) by (bit_vector)
                requires
                    imm < 0x1000,
            ;
        }
        to_i32(imm | 0xffff_f000)
    } else {
        imm as i32
    }
}

fn sign_extend_13(imm: u32) -> (r: i32)
    requires
        imm < 0x2000,
    ensures
        r == sign_ext_13(imm),
{
    if imm >= 0x1000 {
        to_i32(imm | 0xffff_e000)
    } else {
        imm as i32
    }
}

fn sign_extend_21(imm: u32) -> (r: i32)
    requires
        imm < 0x20_0000,
    ensures
        r == sign_ext_21(imm),
{
    if imm >= 0x10_0000 {
        to_i32(imm | 0xffe0_0000)
    } else {
        imm as i32
    }
}

/// The I-format immediate, bits 31:20 sign-extended.
pub open spec fn i_imm_of(code: u32) -> i32 {
    sign_ext_12((code >> 20) & 0xfff)
}

/// The shift-amount immediate, bits 24:20.
pub open spec fn shamt_of(code: u32) -> i32 {
    ((code >> 20) & 0x1f) as i32
}

/// The S-format immediate.
pub open spec fn s_imm_of(code: u32) -> i32 {
    sign_ext_12((code >> 7) & 0x1f | (code >> 20) & 0xfe0)
}

/// The B-format immediate.
pub open spec fn b_imm_of(code: u32) -> i32 {
    sign_ext_13(
        (code >> 7) & 0x1e | (code >> 20) & 0x7e0 | (code << 4) & 0x800 | (code >> 19) & 0x1000,
    )
}

/// The U-format immediate: the upper 20 bits in place.
pub open spec fn u_imm_of(code: u32) -> i32 {
    i32_of_u32(code & 0xffff_f000)
}

/// The J-format immediate.
pub open spec fn j_imm_of(code: u32) -> i32 {
    sign_ext_21(
        (code >> 20) & 0x7fe | (code >> 9) & 0x800 | code & 0xf_f000 | (code >> 11) & 0x10_0000,
    )
}

impl RType {
    pub fn from(code: u32) -> (r: RType)
        ensures
            r == (RType {
                rd: Reg { index: rd_of(code) },
                rs1: Reg { index: rs1_of(code) },
                rs2: Reg { index: rs2_of(code) },
            }),
            r.rd.wf() && r.rs1.wf() && r.rs2.wf(),
    {
        let rd = Reg::extract_rd(code);
        let rs1 = Reg::extract_rs1(code);
        let rs2 = Reg::extract_rs2(code);
        RType { rd, rs1, rs2 }
    }
}

impl IType {
    pub fn from(code: u32) -> (r: IType)
        ensures
            r == (IType {
                rd: Reg { index: rd_of(code) },
                rs1: Reg { index: rs1_of(code) },
                imm: i_imm_of(code),
            }),
            r.rd.wf() && r.rs1.wf(),
    {
        let rd = Reg::extract_rd(code);
        let rs1 = Reg::extract_rs1(code);
        proof {
            assert((code >> 20) & 0xfff < 0x1000) by (bit_vector);
        }
        let imm = sign_extend_12((code >> 20) & I_MASK);
        IType { rd, rs1, imm }
    }

    pub fn from_shamt(code: u32) -> (r: IType)
        ensures
            r == (IType {
                rd: Reg { index: rd_of(code) },
                rs1: Reg { index: rs1_of(code) },
                imm: shamt_of(code),
            }),
            r.rd.wf() && r.rs1.wf(),
            0 <= r.imm < 32,
    {
        let rd = Reg::extract_rd(code);
        let rs1 = Reg::extract_rs1(code);
        proof {
            assert((code >> 20) & 0x1f < 32) by (bit_vector);
        }
        let imm = ((code >> 20) & I_SHAMT_MASK) as i32;
        IType { rd, rs1, imm }
    }
}

impl SType {
    pub fn from(code: u32) -> (r: SType)
        ensures
            r == (SType {
                rs1: Reg { index: rs1_of(code) },
                rs2: Reg { index: rs2_of(code) },
                imm: s_imm_of(code),
            }),
            r.rs1.wf() && r.rs2.wf(),
    {
        let rs1 = Reg::extract_rs1(code);
        let rs2 = Reg::extract_rs2(code);
        proof {
            assert(((code >> 7) & 0x1f | (code >> 20) & 0xfe0) < 0x1000) by (bit_vector);
        }
        let imm = sign_extend_12((code >> 7) & S4_0_MASK | (code >> 20) & S11_5_MASK);
        SType { rs1, rs2, imm }
    }
}

impl BType {
    pub fn from(code: u32) -> (r: BType)
        ensures
            r == (BType {
                rs1: Reg { index: rs1_of(code) },
                rs2: Reg { index: rs2_of(code) },
                imm: b_imm_of(code),
            }),
            r.rs1.wf() && r.rs2.wf(),
    {
        let rs1 = Reg::extract_rs1(code);
        let rs2 = Reg::extract_rs2(code);
        proof {
            assert(((code >> 7) & 0x1e | (code >> 20) & 0x7e0 | (code << 4) & 0x800 | (code >> 19)
                & 0x1000) < 0x2000) by (bit_vector);
        }
        let imm = sign_extend_13(
            (code >> 7) & B4_1_MASK | (code >> 20) & B10_5_MASK | (code << 4) & B11_MASK | (code
                >> 19) & B12_MASK,
        );
        BType { rs1, rs2, imm }
    }
}

impl UType {
    pub fn from(code: u32) -> (r: UType)
        ensures
            r == (UType { rd: Reg { index: rd_of(code) }, imm: u_imm_of(code) }),
            r.rd.wf(),
    {
        let rd = Reg::extract_rd(code);
        let imm = to_i32(code & U_MASK);
        UType { rd, imm }
    }
}

impl JType {
    pub fn from(code: u32) -> (r: JType)
        ensures
            r == (JType { rd: Reg { index: rd_of(code) }, imm: j_imm_of(code) }),
            r.rd.wf(),
    {
        let rd = Reg::extract_rd(code);
        proof {
            assert(((code >> 20) & 0x7fe | (code >> 9) & 0x800 | code & 0xf_f000 | (code >> 11)
                & 0x10_0000) < 0x20_0000) by (bit_vector);
        }
        let imm = sign_extend_21(
            (code >> 20) & J10_1_MASK | (code >> 9) & J11_MASK | code & J19_12_MASK | (code >> 11)
                & J20_MASK,
        );
        JType { rd, imm }
    }
}

} // verus!
