//! The instruction decoder: a pure function from a 32-bit word to a tagged
//! instruction, or nothing when the word is not a recognized encoding.
use vstd::prelude::*;

verus! {

use crate::instr::Instr;
use crate::instr::csr::{CsrReg, CsrSrc, CsrType, csr_reg_of};
use crate::instr::format::{BType, IType, JType, RType, SType, UType};
use crate::instr::format::{b_imm_of, i_imm_of, j_imm_of, s_imm_of, shamt_of, u_imm_of};
use crate::instr::funct::{
    atomic_funct_of, branch_funct_of, funct3_of, funct7_of, load_funct_of, op_funct_of,
    op_imm_funct_of, store_funct_of,
};
use crate::instr::funct::{
    AtomicFunct, BranchFunct, CsrFunct, EnvFunct, LoadFunct, OpFunct, OpImmFunct, StoreFunct,
};
use crate::instr::reg::{Reg, rd_of, rs1_of, rs2_of};

pub const OPCODE_MASK: u32 = 0x7f;

pub const OPCODE_OP: u8 = 0x33;
pub const OPCODE_OPIMM: u8 = 0x13;
pub const OPCODE_LUI: u8 = 0x37;
pub const OPCODE_AUIPC: u8 = 0x17;
pub const OPCODE_LOAD: u8 = 0x03;
pub const OPCODE_STORE: u8 = 0x23;
pub const OPCODE_JAL: u8 = 0x6f;
pub const OPCODE_JALR: u8 = 0x67;
pub const OPCODE_BRANCH: u8 = 0x63;
pub const OPCODE_MISC: u8 = 0x0f;
pub const OPCODE_SYSTEM: u8 = 0x73;
pub const OPCODE_AMO: u8 = 0x2f;

/// The R-format operand fields of a word.
pub open spec fn r_type_of(code: u32) -> RType {
    RType {
        rd: Reg { index: rd_of(code) },
        rs1: Reg { index: rs1_of(code) },
        rs2: Reg { index: rs2_of(code) },
    }
}

/// The I-format operand fields of a word.
pub open spec fn i_type_of(code: u32) -> IType {
    IType { rd: Reg { index: rd_of(code) }, rs1: Reg { index: rs1_of(code) }, imm: i_imm_of(code) }
}

/// The I-format fields with the shift-amount immediate.
pub open spec fn i_type_shamt_of(code: u32) -> IType {
    IType { rd: Reg { index: rd_of(code) }, rs1: Reg { index: rs1_of(code) }, imm: shamt_of(code) }
}

/// The S-format operand fields of a word.
pub open spec fn s_type_of(code: u32) -> SType {
    SType {
        rs1: Reg { index: rs1_of(code) },
        rs2: Reg { index: rs2_of(code) },
        imm: s_imm_of(code),
    }
}

/// The B-format operand fields of a word.
pub open spec fn b_type_of(code: u32) -> BType {
    BType {
        rs1: Reg { index: rs1_of(code) },
        rs2: Reg { index: rs2_of(code) },
        imm: b_imm_of(code),
    }
}

/// The U-format operand fields of a word.
pub open spec fn u_type_of(code: u32) -> UType {
    UType { rd: Reg { index: rd_of(code) }, imm: u_imm_of(code) }
}

/// The J-format operand fields of a word.
pub open spec fn j_type_of(code: u32) -> JType {
    JType { rd: Reg { index: rd_of(code) }, imm: j_imm_of(code) }
}

/// A SYSTEM word: the environment instructions by their full encodings, and
/// the CSR read-modify-write forms by funct3.
pub open spec fn system_of(code: u32) -> Option<Instr> {
    if code == 0x0000_0073 {
        Some(Instr::Env(EnvFunct::Call))
    } else if code == 0x0010_0073 {
        Some(Instr::Env(EnvFunct::Break))
    } else if code == 0x1020_0073 {
        Some(Instr::Env(EnvFunct::Sret))
    } else if code == 0x3020_0073 {
        Some(Instr::Env(EnvFunct::Mret))
    } else if code == 0x1050_0073 {
        Some(Instr::Env(EnvFunct::Wfi))
    } else if funct3_of(code) == 0 && funct7_of(code) == 0x09 {
        Some(Instr::Env(EnvFunct::SfenceVma))
    } else {
        let f3 = funct3_of(code);
        let funct = if f3 == 1 || f3 == 5 {
            Some(CsrFunct::Rw)
        } else if f3 == 2 || f3 == 6 {
            Some(CsrFunct::Rs)
        } else if f3 == 3 || f3 == 7 {
            Some(CsrFunct::Rc)
        } else {
            None
        };
        match funct {
            None => None,
            Some(f) => match csr_reg_of((code >> 20) & 0xfff) {
                None => None,
                Some(csr) => {
                    let src = if f3 < 4 {
                        CsrSrc::Reg(Reg { index: rs1_of(code) })
                    } else {
                        CsrSrc::Imm(rs1_of(code))
                    };
                    Some(Instr::Csr(CsrType { rd: Reg { index: rd_of(code) }, src, csr }, f))
                }
            },
        }
    }
}

/// What a 32-bit word decodes to, if anything.
pub open spec fn decode_spec(code: u32) -> Option<Instr> {
    let opcode = (code & 0x7f) as u8;
    if opcode == OPCODE_OP {
        match op_funct_of(code) {
            Some(f) => Some(Instr::Op(r_type_of(code), f)),
            None => None,
        }
    } else if opcode == OPCODE_OPIMM {
        match op_imm_funct_of(code) {
            Some(f) => match f {
                OpImmFunct::Sll | OpImmFunct::Srl | OpImmFunct::Sra => Some(
                    Instr::OpImm(i_type_shamt_of(code), f),
                ),
                _ => Some(Instr::OpImm(i_type_of(code), f)),
            },
            None => None,
        }
    } else if opcode == OPCODE_LUI {
        Some(Instr::Lui(u_type_of(code)))
    } else if opcode == OPCODE_AUIPC {
        Some(Instr::Auipc(u_type_of(code)))
    } else if opcode == OPCODE_LOAD {
        match load_funct_of(code) {
            Some(f) => Some(Instr::Load(i_type_of(code), f)),
            None => None,
        }
    } else if opcode == OPCODE_STORE {
        match store_funct_of(code) {
            Some(f) => Some(Instr::Store(s_type_of(code), f)),
            None => None,
        }
    } else if opcode == OPCODE_JAL {
        Some(Instr::Jal(j_type_of(code)))
    } else if opcode == OPCODE_JALR {
        Some(Instr::Jalr(i_type_of(code)))
    } else if opcode == OPCODE_BRANCH {
        match branch_funct_of(code) {
            Some(f) => Some(Instr::Branch(b_type_of(code), f)),
            None => None,
        }
    } else if opcode == OPCODE_AMO {
        match atomic_funct_of(code) {
            Some(f) => Some(Instr::Atomic(r_type_of(code), f)),
            None => None,
        }
    } else if opcode == OPCODE_MISC {
        Some(Instr::Fence)
    } else if opcode == OPCODE_SYSTEM {
        system_of(code)
    } else {
        None
    }
}

pub fn decode(code: u32) -> (r: Option<Instr>)
    ensures
        r == decode_spec(code),
        r matches Some(i) ==> i.wf(),
{
    proof {
        assert(code & 0x7f < 0x80) by (bit_vector);
        assert((code >> 20) & 0xfff < 0x1000) by (bit_vector);
    }
    let opcode = (code & OPCODE_MASK) as u8;
    if opcode == OPCODE_OP {
        match OpFunct::from(code) {
            Some(f) => Some(Instr::Op(RType::from(code), f)),
            None => None,
        }
    } else if opcode == OPCODE_OPIMM {
        match OpImmFunct::from(code) {
            Some(f) => match f {
                OpImmFunct::Sll | OpImmFunct::Srl | OpImmFunct::Sra => Some(
                    Instr::OpImm(IType::from_shamt(code), f),
                ),
                _ => Some(Instr::OpImm(IType::from(code), f)),
            },
            None => None,
        }
    } else if opcode == OPCODE_LUI {
        Some(Instr::Lui(UType::from(code)))
    } else if opcode == OPCODE_AUIPC {
        Some(Instr::Auipc(UType::from(code)))
    } else if opcode == OPCODE_LOAD {
        match LoadFunct::from(code) {
            Some(f) => Some(Instr::Load(IType::from(code), f)),
            None => None,
        }
    } else if opcode == OPCODE_STORE {
        match StoreFunct::from(code) {
            Some(f) => Some(Instr::Store(SType::from(code), f)),
            None => None,
        }
    } else if opcode == OPCODE_JAL {
        Some(Instr::Jal(JType::from(code)))
    } else if opcode == OPCODE_JALR {
        Some(Instr::Jalr(IType::from(code)))
    } else if opcode == OPCODE_BRANCH {
        match BranchFunct::from(code) {
            Some(f) => Some(Instr::Branch(BType::from(code), f)),
            None => None,
        }
    } else if opcode == OPCODE_AMO {
        match AtomicFunct::from(code) {
            Some(f) => Some(Instr::Atomic(RType::from(code), f)),
            None => None,
        }
    } else if opcode == OPCODE_MISC {
        Some(Instr::Fence)
    } else if opcode == OPCODE_SYSTEM {
        decode_system(code)
    } else {
        None
    }
}

fn decode_system(code: u32) -> (r: Option<Instr>)
    ensures
        r == system_of(code),
        r matches Some(i) ==> i.wf(),
{
    if code == 0x0000_0073 {
        Some(Instr::Env(EnvFunct::Call))
    } else if code == 0x0010_0073 {
        Some(Instr::Env(EnvFunct::Break))
    } else if code == 0x1020_0073 {
        Some(Instr::Env(EnvFunct::Sret))
    } else if code == 0x3020_0073 {
        Some(Instr::Env(EnvFunct::Mret))
    } else if code == 0x1050_0073 {
        Some(Instr::Env(EnvFunct::Wfi))
    } else {
        let f3: u8 = crate::instr::funct::funct3(code);
        if f3 == 0 {
            if crate::instr::funct::funct7(code) == 0x09 {
                Some(Instr::Env(EnvFunct::SfenceVma))
            } else {
                None
            }
        } else if f3 == 4 {
            None
        } else {
            proof {
                assert((code >> 20) & 0xfff < 0x1000) by (bit_vector);
            }
            let funct = if f3 == 1 || f3 == 5 {
                CsrFunct::Rw
            } else if f3 == 2 || f3 == 6 {
                CsrFunct::Rs
            } else {
                CsrFunct::Rc
            };
            let addr: u32 = (code >> 20) & 0xfff;
            match csr_lookup(addr) {
                None => None,
                Some(csr) => {
                    let rd = Reg::extract_rd(code);
                    let rs1 = Reg::extract_rs1(code);
                    let src = if f3 < 4 {
                        CsrSrc::Reg(rs1)
                    } else {
                        CsrSrc::Imm(rs1.index())
                    };
                    Some(Instr::Csr(CsrType { rd, src, csr }, funct))
                }
            }
        }
    }
}

fn csr_lookup(addr: u32) -> (r: Option<CsrReg>)
    requires
        addr < 0x1000,
    ensures
        r == csr_reg_of(addr),
{
    let r = CsrReg::from(addr as i32);
    proof {
        assert(addr < 0x1000 ==> ((addr as i32) & 0xfff) as u32 == addr) by (bit_vector);
    }
    r
}

} // verus!
