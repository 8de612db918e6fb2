//! Integer register names: a 5-bit index into the register file, with the
//! extractors for the three register fields of a 32-bit instruction word.
use vstd::prelude::*;

verus! {

const REG_MASK: u32 = 0x1f;

#[derive(Debug, PartialEq, Eq, Structural, Clone, Copy)]
pub struct Reg {
    pub index: u8,
}

/// The rd field, bits 11:7.
pub open spec fn rd_of(code: u32) -> u8 {
    ((code >> 7) & 0x1f) as u8
}

/// The rs1 field, bits 19:15.
pub open spec fn rs1_of(code: u32) -> u8 {
    ((code >> 15) & 0x1f) as u8
}

/// The rs2 field, bits 24:20.
pub open spec fn rs2_of(code: u32) -> u8 {
    ((code >> 20) & 0x1f) as u8
}

impl Reg {
    /// A register index is architecturally valid when it names one of x0..x31.
    pub open spec fn wf(self) -> bool {
        self.index < 32
    }

    pub fn new(index: u8) -> (r: Reg)
        requires
            index < 32,
        ensures
            r.index == index,
    {
        Reg { index }
    }

    pub fn zero() -> (r: Reg)
        ensures
            r.index == 0,
    {
        Reg { index: 0 }
    }

    pub fn extract_rd(code: u32) -> (r: Reg)
        ensures
            r.index == rd_of(code),
            r.wf(),
    {
        proof {
            assert((code >> 7) & 0x1f < 32) by (bit_vector);
        }
        Reg { index: ((code >> 7) & REG_MASK) as u8 }
    }

    pub fn extract_rs1(code: u32) -> (r: Reg)
        ensures
            r.index == rs1_of(code),
            r.wf(),
    {
        proof {
            assert((code >> 15) & 0x1f < 32) by (bit_vector);
        }
        Reg { index: ((code >> 15) & REG_MASK) as u8 }
    }

    pub fn extract_rs2(code: u32) -> (r: Reg)
        ensures
            r.index == rs2_of(code),
            r.wf(),
    {
        proof {
            assert((code >> 20) & 0x1f < 32) by (bit_vector);
        }
        Reg { index: ((code >> 20) & REG_MASK) as u8 }
    }

    pub fn index(&self) -> (r: u8)
        ensures
            r == self.index,
    {
        self.index
    }
}

} // verus!
