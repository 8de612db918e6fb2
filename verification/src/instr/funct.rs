//! Function-code decoding: the funct3/funct7 fields select the concrete
//! operation within each opcode class.
use vstd::prelude::*;

verus! {

/// The funct3 field, bits 14:12.
pub open spec fn funct3_of(code: u32) -> u8 {
    ((code >> 12) & 0x7) as u8
}

/// The funct7 field, bits 31:25.
pub open spec fn funct7_of(code: u32) -> u8 {
    ((code >> 25) & 0x7f) as u8
}

pub fn funct3(code: u32) -> (r: u8)
    ensures
        r == funct3_of(code),
        r < 8,
{
    proof {
        assert((code >> 12) & 0x7 < 8) by (bit_vector);
    }
    ((code >> 12) & 0x7) as u8
}

pub fn funct7(code: u32) -> (r: u8)
    ensures
        r == funct7_of(code),
        r < 128,
{
    proof {
        assert((code >> 25) & 0x7f < 128) by (bit_vector);
    }
    ((code >> 25) & 0x7f) as u8
}

#[derive(Debug, PartialEq, Eq, Structural, Clone, Copy)]
pub enum OpFunct {
    I(OpIFunct),
    M(OpMFunct),
}

#[derive(Debug, PartialEq, Eq, Structural, Clone, Copy)]
pub enum OpIFunct {
    Add,
    Sub,
    Slt,
    Sltu,
    And,
    Or,
    Xor,
    Sll,
    Srl,
    Sra,
}

#[derive(Debug, PartialEq, Eq, Structural, Clone, Copy)]
pub enum OpMFunct {
    Mul,
    Mulh,
    Mulhsu,
    Mulhu,
    Div,
    Divu,
    Rem,
    Remu,
}

#[derive(Debug, PartialEq, Eq, Structural, Clone, Copy)]
pub enum OpImmFunct {
    Add,
    Slt,
    Sltu,
    And,
    Or,
    Xor,
    Sll,
    Srl,
    Sra,
}

#[derive(Debug, PartialEq, Eq, Structural, Clone, Copy)]
pub enum LoadFunct {
    B,
    H,
    W,
    Bu,
    Hu,
}

#[derive(Debug, PartialEq, Eq, Structural, Clone, Copy)]
pub enum StoreFunct {
    B,
    H,
    W,
}

#[derive(Debug, PartialEq, Eq, Structural, Clone, Copy)]
pub enum BranchFunct {
    Eq,
    Ne,
    Lt,
    Ge,
    Ltu,
    Geu,
}

#[derive(Debug, PartialEq, Eq, Structural, Clone, Copy)]
pub enum AtomicFunct {
    LrSc(LrScFunct),
    Amo(AmoFunct),
}

#[derive(Debug, PartialEq, Eq, Structural, Clone, Copy)]
pub enum LrScFunct {
    Lr,
    Sc,
}

#[derive(Debug, PartialEq, Eq, Structural, Clone, Copy)]
pub enum AmoFunct {
    Add,
    Swap,
    Xor,
    Or,
    And,
    Min,
    Max,
    Minu,
    Maxu,
}

#[derive(Debug, PartialEq, Eq, Structural, Clone, Copy)]
pub enum EnvFunct {
    Call,
    Break,
    Sret,
    Mret,
    Wfi,
    SfenceVma,
}

#[derive(Debug, PartialEq, Eq, Structural, Clone, Copy)]
pub enum CsrFunct {
    Rw,
    Rs,
    Rc,
}

pub open spec fn op_funct_of(code: u32) -> Option<OpFunct> {
    let f3 = funct3_of(code);
    let f7 = funct7_of(code);
    if f7 == 0x00 {
        match f3 {
            0u8 => Some(OpFunct::I(OpIFunct::Add)),
            1u8 => Some(OpFunct::I(OpIFunct::Sll)),
            2u8 => Some(OpFunct::I(OpIFunct::Slt)),
            3u8 => Some(OpFunct::I(OpIFunct::Sltu)),
            4u8 => Some(OpFunct::I(OpIFunct::Xor)),
            5u8 => Some(OpFunct::I(OpIFunct::Srl)),
            6u8 => Some(OpFunct::I(OpIFunct::Or)),
            _ => Some(OpFunct::I(OpIFunct::And)),
        }
    } else if f7 == 0x20 {
        match f3 {
            0u8 => Some(OpFunct::I(OpIFunct::Sub)),
            5u8 => Some(OpFunct::I(OpIFunct::Sra)),
            _ => None,
        }
    } else if f7 == 0x01 {
        match f3 {
            0u8 => Some(OpFunct::M(OpMFunct::Mul)),
            1u8 => Some(OpFunct::M(OpMFunct::Mulh)),
            2u8 => Some(OpFunct::M(OpMFunct::Mulhsu)),
            3u8 => Some(OpFunct::M(OpMFunct::Mulhu)),
            4u8 => Some(OpFunct::M(OpMFunct::Div)),
            5u8 => Some(OpFunct::M(OpMFunct::Divu)),
            6u8 => Some(OpFunct::M(OpMFunct::Rem)),
            _ => Some(OpFunct::M(OpMFunct::Remu)),
        }
    } else {
        None
    }
}

pub open spec fn op_imm_funct_of(code: u32) -> Option<OpImmFunct> {
    let f3 = funct3_of(code);
    let f7 = funct7_of(code);
    match f3 {
        0u8 => Some(OpImmFunct::Add),
        1u8 => if f7 == 0x00 {
            Some(OpImmFunct::Sll)
        } else {
            None
        },
        2u8 => Some(OpImmFunct::Slt),
        3u8 => Some(OpImmFunct::Sltu),
        4u8 => Some(OpImmFunct::Xor),
        5u8 => if f7 == 0x00 {
            Some(OpImmFunct::Srl)
        } else if f7 == 0x20 {
            Some(OpImmFunct::Sra)
        } else {
            None
        },
        6u8 => Some(OpImmFunct::Or),
        _ => Some(OpImmFunct::And),
    }
}

pub open spec fn load_funct_of(code: u32) -> Option<LoadFunct> {
    match funct3_of(code) {
        0u8 => Some(LoadFunct::B),
        1u8 => Some(LoadFunct::H),
        2u8 => Some(LoadFunct::W),
        4u8 => Some(LoadFunct::Bu),
        5u8 => Some(LoadFunct::Hu),
        _ => None,
    }
}

pub open spec fn store_funct_of(code: u32) -> Option<StoreFunct> {
    match funct3_of(code) {
        0u8 => Some(StoreFunct::B),
        1u8 => Some(StoreFunct::H),
        2u8 => Some(StoreFunct::W),
        _ => None,
    }
}

pub open spec fn branch_funct_of(code: u32) -> Option<BranchFunct> {
    match funct3_of(code) {
        0u8 => Some(BranchFunct::Eq),
        1u8 => Some(BranchFunct::Ne),
        4u8 => Some(BranchFunct::Lt),
        5u8 => Some(BranchFunct::Ge),
        6u8 => Some(BranchFunct::Ltu),
        7u8 => Some(BranchFunct::Geu),
        _ => None,
    }
}

pub open spec fn atomic_funct_of(code: u32) -> Option<AtomicFunct> {
    if funct3_of(code) != 2 {
        None
    } else {
        // The acquire and release bits are ignored.
        match funct7_of(code) >> 2 {
            0x02u8 => Some(AtomicFunct::LrSc(LrScFunct::Lr)),
            0x03u8 => Some(AtomicFunct::LrSc(LrScFunct::Sc)),
            0x00u8 => Some(AtomicFunct::Amo(AmoFunct::Add)),
            0x01u8 => Some(AtomicFunct::Amo(AmoFunct::Swap)),
            0x04u8 => Some(AtomicFunct::Amo(AmoFunct::Xor)),
            0x08u8 => Some(AtomicFunct::Amo(AmoFunct::Or)),
            0x0cu8 => Some(AtomicFunct::Amo(AmoFunct::And)),
            0x10u8 => Some(AtomicFunct::Amo(AmoFunct::Min)),
            0x14u8 => Some(AtomicFunct::Amo(AmoFunct::Max)),
            0x18u8 => Some(AtomicFunct::Amo(AmoFunct::Minu)),
            0x1cu8 => Some(AtomicFunct::Amo(AmoFunct::Maxu)),
            _ => None,
        }
    }
}

impl OpFunct {
    pub fn from(code: u32) -> (r: Option<OpFunct>)
        ensures
            r == op_funct_of(code),
    {
        let f3 = funct3(code);
        let f7 = funct7(code);
        if f7 == 0x00 {
            match f3 {
                0u8 => Some(OpFunct::I(OpIFunct::Add)),
                1u8 => Some(OpFunct::I(OpIFunct::Sll)),
                2u8 => Some(OpFunct::I(OpIFunct::Slt)),
                3u8 => Some(OpFunct::I(OpIFunct::Sltu)),
                4u8 => Some(OpFunct::I(OpIFunct::Xor)),
                5u8 => Some(OpFunct::I(OpIFunct::Srl)),
                6u8 => Some(OpFunct::I(OpIFunct::Or)),
                _ => Some(OpFunct::I(OpIFunct::And)),
            }
        } else if f7 == 0x20 {
            match f3 {
                0u8 => Some(OpFunct::I(OpIFunct::Sub)),
                5u8 => Some(OpFunct::I(OpIFunct::Sra)),
                _ => None,
            }
        } else if f7 == 0x01 {
            match f3 {
                0u8 => Some(OpFunct::M(OpMFunct::Mul)),
                1u8 => Some(OpFunct::M(OpMFunct::Mulh)),
                2u8 => Some(OpFunct::M(OpMFunct::Mulhsu)),
                3u8 => Some(OpFunct::M(OpMFunct::Mulhu)),
                4u8 => Some(OpFunct::M(OpMFunct::Div)),
                5u8 => Some(OpFunct::M(OpMFunct::Divu)),
                6u8 => Some(OpFunct::M(OpMFunct::Rem)),
                _ => Some(OpFunct::M(OpMFunct::Remu)),
            }
        } else {
            None
        }
    }
}

impl OpImmFunct {
    pub fn from(code: u32) -> (r: Option<OpImmFunct>)
        ensures
            r == op_imm_funct_of(code),
    {
        let f3 = funct3(code);
        let f7 = funct7(code);
        match f3 {
            0u8 => Some(OpImmFunct::Add),
            1u8 => if f7 == 0x00 {
                Some(OpImmFunct::Sll)
            } else {
                None
            },
            2u8 => Some(OpImmFunct::Slt),
            3u8 => Some(OpImmFunct::Sltu),
            4u8 => Some(OpImmFunct::Xor),
            5u8 => if f7 == 0x00 {
                Some(OpImmFunct::Srl)
            } else if f7 == 0x20 {
                Some(OpImmFunct::Sra)
            } else {
                None
            },
            6u8 => Some(OpImmFunct::Or),
            _ => Some(OpImmFunct::And),
        }
    }
}

impl LoadFunct {
    pub fn from(code: u32) -> (r: Option<LoadFunct>)
        ensures
            r == load_funct_of(code),
    {
        match funct3(code) {
            0u8 => Some(LoadFunct::B),
            1u8 => Some(LoadFunct::H),
            2u8 => Some(LoadFunct::W),
            4u8 => Some(LoadFunct::Bu),
            5u8 => Some(LoadFunct::Hu),
            _ => None,
        }
    }
}

impl StoreFunct {
    pub fn from(code: u32) -> (r: Option<StoreFunct>)
        ensures
            r == store_funct_of(code),
    {
        match funct3(code) {
            0u8 => Some(StoreFunct::B),
            1u8 => Some(StoreFunct::H),
            2u8 => Some(StoreFunct::W),
            _ => None,
        }
    }
}

impl BranchFunct {
    pub fn from(code: u32) -> (r: Option<BranchFunct>)
        ensures
            r == branch_funct_of(code),
    {
        match funct3(code) {
            0u8 => Some(BranchFunct::Eq),
            1u8 => Some(BranchFunct::Ne),
            4u8 => Some(BranchFunct::Lt),
            5u8 => Some(BranchFunct::Ge),
            6u8 => Some(BranchFunct::Ltu),
            7u8 => Some(BranchFunct::Geu),
            _ => None,
        }
    }
}

impl AtomicFunct {
    pub fn from(code: u32) -> (r: Option<AtomicFunct>)
        ensures
            r == atomic_funct_of(code),
    {
        let f3 = funct3(code);
        if f3 != 2 {
            return None;
        }
        // The acquire and release bits are ignored.
        let f7 = funct7(code) >> 2;
        match f7 {
            0x02u8 => Some(AtomicFunct::LrSc(LrScFunct::Lr)),
            0x03u8 => Some(AtomicFunct::LrSc(LrScFunct::Sc)),
            0x00u8 => Some(AtomicFunct::Amo(AmoFunct::Add)),
            0x01u8 => Some(AtomicFunct::Amo(AmoFunct::Swap)),
            0x04u8 => Some(AtomicFunct::Amo(AmoFunct::Xor)),
            0x08u8 => Some(AtomicFunct::Amo(AmoFunct::Or)),
            0x0cu8 => Some(AtomicFunct::Amo(AmoFunct::And)),
            0x10u8 => Some(AtomicFunct::Amo(AmoFunct::Min)),
            0x14u8 => Some(AtomicFunct::Amo(AmoFunct::Max)),
            0x18u8 => Some(AtomicFunct::Amo(AmoFunct::Minu)),
            0x1cu8 => Some(AtomicFunct::Amo(AmoFunct::Maxu)),
            _ => None,
        }
    }
}

} // verus!
