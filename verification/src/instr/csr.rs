//! CSR addressing: the recognized control and status registers by name, and
//! the operand fields of a CSR instruction.
use vstd::prelude::*;

verus! {

use crate::instr::reg::Reg;

#[derive(Debug, PartialEq, Eq, Structural, Clone, Copy)]
pub enum CsrReg {
    U(CsrRegU),
    S(CsrRegS),
    M(CsrRegM),
}

#[derive(Debug, PartialEq, Eq, Structural, Clone, Copy)]
pub enum CsrRegU {
    Cycle,
    Time,
    InstRet,
    HpmCounter(u8),
    Cycleh,
    Timeh,
    InstReth,
    HpmCounterh(u8),
}

#[derive(Debug, PartialEq, Eq, Structural, Clone, Copy)]
pub enum CsrRegS {
    // Supervisor trap setup
    SStatus,
    SIe,
    STvec,
    SCounterEn,
    // Supervisor configuration
    SEnvCfg,
    // Supervisor trap handling
    SScratch,
    SEpc,
    SCause,
    STval,
    SIp,
    // Supervisor protection and translation
    SAtp,
}

#[derive(Debug, PartialEq, Eq, Structural, Clone, Copy)]
pub enum CsrRegM {
    // Machine information
    MVendorId,
    MArchId,
    MImpId,
    MHartId,
    MConfigPtr,
    // Machine trap setup
    MStatus,
    MIsa,
    MEdeleg,
    MIdeleg,
    MIe,
    MTvec,
    MCounterEn,
    MStatush,
    MEdelegh,
    // Machine trap handling
    MScratch,
    MEpc,
    MCause,
    MTval,
    MIp,
    // Machine configuration
    MEnvCfg,
    MEnvCfgh,
    // Machine memory protection
    PmpCfg(u8),
    PmpAddr(u8),
    // Machine counter/timer
    MCycle,
    MInstRet,
    MHpmCounter(u8),
    MCycleh,
    MInstReth,
    MHpmCounterh(u8),
    // Machine counter setup
    MCountInhibit,
    MHpmEvent(u8),
    MHpmEventh(u8),
}

/// The source operand of a CSR instruction: a register, or the 5-bit
/// zero-extended immediate.
#[derive(Debug, PartialEq, Eq, Structural, Clone, Copy)]
pub enum CsrSrc {
    Reg(Reg),
    Imm(u8),
}

/// The decoded operand fields of a CSR instruction.
#[derive(Debug, PartialEq, Eq, Structural, Clone, Copy)]
pub struct CsrType {
    pub rd: Reg,
    pub src: CsrSrc,
    pub csr: CsrReg,
}

impl CsrSrc {
    /// An x0 source or a zero immediate: CSRRS/CSRRC then skip the write.
    pub open spec fn spec_is_zero(self) -> bool {
        match self {
            CsrSrc::Reg(r) => r.index == 0,
            CsrSrc::Imm(i) => i == 0,
        }
    }

    pub fn is_zero(&self) -> (r: bool)
        ensures
            r == self.spec_is_zero(),
    {
        match self {
            CsrSrc::Reg(r) => r.index == 0,
            CsrSrc::Imm(i) => *i == 0,
        }
    }
}

/// The CSR that a 12-bit address names, if it is recognized.
pub open spec fn csr_reg_of(a: u32) -> Option<CsrReg>
    recommends
        a < 0x1000,
{
    // Unprivileged counters and timers
    if a == 0xc00 {
        Some(CsrReg::U(CsrRegU::Cycle))
    } else if a == 0xc01 {
        Some(CsrReg::U(CsrRegU::Time))
    } else if a == 0xc02 {
        Some(CsrReg::U(CsrRegU::InstRet))
    } else if 0xc03 <= a && a <= 0xc1f {
        Some(CsrReg::U(CsrRegU::HpmCounter((a - 0xc00) as u8)))
    } else if a == 0xc80 {
        Some(CsrReg::U(CsrRegU::Cycleh))
    } else if a == 0xc81 {
        Some(CsrReg::U(CsrRegU::Timeh))
    } else if a == 0xc82 {
        Some(CsrReg::U(CsrRegU::InstReth))
    } else if 0xc83 <= a && a <= 0xc9f {
        Some(CsrReg::U(CsrRegU::HpmCounterh((a - 0xc80) as u8)))
        // Supervisor trap setup
    } else if a == 0x100 {
        Some(CsrReg::S(CsrRegS::SStatus))
    } else if a == 0x104 {
        Some(CsrReg::S(CsrRegS::SIe))
    } else if a == 0x105 {
        Some(CsrReg::S(CsrRegS::STvec))
    } else if a == 0x106 {
        Some(CsrReg::S(CsrRegS::SCounterEn))
        // Supervisor configuration
    } else if a == 0x10a {
        Some(CsrReg::S(CsrRegS::SEnvCfg))
        // Supervisor trap handling
    } else if a == 0x140 {
        Some(CsrReg::S(CsrRegS::SScratch))
    } else if a == 0x141 {
        Some(CsrReg::S(CsrRegS::SEpc))
    } else if a == 0x142 {
        Some(CsrReg::S(CsrRegS::SCause))
    } else if a == 0x143 {
        Some(CsrReg::S(CsrRegS::STval))
    } else if a == 0x144 {
        Some(CsrReg::S(CsrRegS::SIp))
        // Supervisor protection and translation
    } else if a == 0x180 {
        Some(CsrReg::S(CsrRegS::SAtp))
        // Machine information
    } else if a == 0xf11 {
        Some(CsrReg::M(CsrRegM::MVendorId))
    } else if a == 0xf12 {
        Some(CsrReg::M(CsrRegM::MArchId))
    } else if a == 0xf13 {
        Some(CsrReg::M(CsrRegM::MImpId))
    } else if a == 0xf14 {
        Some(CsrReg::M(CsrRegM::MHartId))
    } else if a == 0xf15 {
        Some(CsrReg::M(CsrRegM::MConfigPtr))
        // Machine trap setup
    } else if a == 0x300 {
        Some(CsrReg::M(CsrRegM::MStatus))
    } else if a == 0x301 {
        Some(CsrReg::M(CsrRegM::MIsa))
    } else if a == 0x302 {
        Some(CsrReg::M(CsrRegM::MEdeleg))
    } else if a == 0x303 {
        Some(CsrReg::M(CsrRegM::MIdeleg))
    } else if a == 0x304 {
        Some(CsrReg::M(CsrRegM::MIe))
    } else if a == 0x305 {
        Some(CsrReg::M(CsrRegM::MTvec))
    } else if a == 0x306 {
        Some(CsrReg::M(CsrRegM::MCounterEn))
    } else if a == 0x310 {
        Some(CsrReg::M(CsrRegM::MStatush))
    } else if a == 0x312 {
        Some(CsrReg::M(CsrRegM::MEdelegh))
        // Machine trap handling
    } else if a == 0x340 {
        Some(CsrReg::M(CsrRegM::MScratch))
    } else if a == 0x341 {
        Some(CsrReg::M(CsrRegM::MEpc))
    } else if a == 0x342 {
        Some(CsrReg::M(CsrRegM::MCause))
    } else if a == 0x343 {
        Some(CsrReg::M(CsrRegM::MTval))
    } else if a == 0x344 {
        Some(CsrReg::M(CsrRegM::MIp))
        // Machine configuration
    } else if a == 0x30a {
        Some(CsrReg::M(CsrRegM::MEnvCfg))
    } else if a == 0x31a {
        Some(CsrReg::M(CsrRegM::MEnvCfgh))
        // Machine memory protection
    } else if 0x3a0 <= a && a <= 0x3af {
        Some(CsrReg::M(CsrRegM::PmpCfg((a - 0x3a0) as u8)))
    } else if 0x3b0 <= a && a <= 0x3ef {
        Some(CsrReg::M(CsrRegM::PmpAddr((a - 0x3b0) as u8)))
        // Machine counters and timers
    } else if a == 0xb00 {
        Some(CsrReg::M(CsrRegM::MCycle))
    } else if a == 0xb02 {
        Some(CsrReg::M(CsrRegM::MInstRet))
    } else if 0xb03 <= a && a <= 0xb1f {
        Some(CsrReg::M(CsrRegM::MHpmCounter((a - 0xb00) as u8)))
    } else if a == 0xb80 {
        Some(CsrReg::M(CsrRegM::MCycleh))
    } else if a == 0xb82 {
        Some(CsrReg::M(CsrRegM::MInstReth))
    } else if 0xb83 <= a && a <= 0xb9f {
        Some(CsrReg::M(CsrRegM::MHpmCounterh((a - 0xb80) as u8)))
        // Machine counter setup
    } else if a == 0x320 {
        Some(CsrReg::M(CsrRegM::MCountInhibit))
    } else if 0x323 <= a && a <= 0x33f {
        Some(CsrReg::M(CsrRegM::MHpmEvent((a - 0x320) as u8)))
    } else if 0x723 <= a && a <= 0x73f {
        Some(CsrReg::M(CsrRegM::MHpmEventh((a - 0x720) as u8)))
    } else {
        None
    }
}

impl CsrReg {
    pub fn from(imm: i32) -> (r: Option<CsrReg>)
        ensures
            r == csr_reg_of((imm & 0xfff) as u32),
    {
        let a: u32 = (imm & 0xfff) as u32;
        if a == 0xc00 {
            Some(CsrReg::U(CsrRegU::Cycle))
        } else if a == 0xc01 {
            Some(CsrReg::U(CsrRegU::Time))
        } else if a == 0xc02 {
            Some(CsrReg::U(CsrRegU::InstRet))
        } else if 0xc03 <= a && a <= 0xc1f {
            Some(CsrReg::U(CsrRegU::HpmCounter((a - 0xc00) as u8)))
        } else if a == 0xc80 {
            Some(CsrReg::U(CsrRegU::Cycleh))
        } else if a == 0xc81 {
            Some(CsrReg::U(CsrRegU::Timeh))
        } else if a == 0xc82 {
            Some(CsrReg::U(CsrRegU::InstReth))
        } else if 0xc83 <= a && a <= 0xc9f {
            Some(CsrReg::U(CsrRegU::HpmCounterh((a - 0xc80) as u8)))
        } else if a == 0x100 {
            Some(CsrReg::S(CsrRegS::SStatus))
        } else if a == 0x104 {
            Some(CsrReg::S(CsrRegS::SIe))
        } else if a == 0x105 {
            Some(CsrReg::S(CsrRegS::STvec))
        } else if a == 0x106 {
            Some(CsrReg::S(CsrRegS::SCounterEn))
        } else if a == 0x10a {
            Some(CsrReg::S(CsrRegS::SEnvCfg))
        } else if a == 0x140 {
            Some(CsrReg::S(CsrRegS::SScratch))
        } else if a == 0x141 {
            Some(CsrReg::S(CsrRegS::SEpc))
        } else if a == 0x142 {
            Some(CsrReg::S(CsrRegS::SCause))
        } else if a == 0x143 {
            Some(CsrReg::S(CsrRegS::STval))
        } else if a == 0x144 {
            Some(CsrReg::S(CsrRegS::SIp))
        } else if a == 0x180 {
            Some(CsrReg::S(CsrRegS::SAtp))
        } else if a == 0xf11 {
            Some(CsrReg::M(CsrRegM::MVendorId))
        } else if a == 0xf12 {
            Some(CsrReg::M(CsrRegM::MArchId))
        } else if a == 0xf13 {
            Some(CsrReg::M(CsrRegM::MImpId))
        } else if a == 0xf14 {
            Some(CsrReg::M(CsrRegM::MHartId))
        } else if a == 0xf15 {
            Some(CsrReg::M(CsrRegM::MConfigPtr))
        } else if a == 0x300 {
            Some(CsrReg::M(CsrRegM::MStatus))
        } else if a == 0x301 {
            Some(CsrReg::M(CsrRegM::MIsa))
        } else if a == 0x302 {
            Some(CsrReg::M(CsrRegM::MEdeleg))
        } else if a == 0x303 {
            Some(CsrReg::M(CsrRegM::MIdeleg))
        } else if a == 0x304 {
            Some(CsrReg::M(CsrRegM::MIe))
        } else if a == 0x305 {
            Some(CsrReg::M(CsrRegM::MTvec))
        } else if a == 0x306 {
            Some(CsrReg::M(CsrRegM::MCounterEn))
        } else if a == 0x310 {
            Some(CsrReg::M(CsrRegM::MStatush))
        } else if a == 0x312 {
            Some(CsrReg::M(CsrRegM::MEdelegh))
        } else if a == 0x340 {
            Some(CsrReg::M(CsrRegM::MScratch))
        } else if a == 0x341 {
            Some(CsrReg::M(CsrRegM::MEpc))
        } else if a == 0x342 {
            Some(CsrReg::M(CsrRegM::MCause))
        } else if a == 0x343 {
            Some(CsrReg::M(CsrRegM::MTval))
        } else if a == 0x344 {
            Some(CsrReg::M(CsrRegM::MIp))
        } else if a == 0x30a {
            Some(CsrReg::M(CsrRegM::MEnvCfg))
        } else if a == 0x31a {
            Some(CsrReg::M(CsrRegM::MEnvCfgh))
        } else if 0x3a0 <= a && a <= 0x3af {
            Some(CsrReg::M(CsrRegM::PmpCfg((a - 0x3a0) as u8)))
        } else if 0x3b0 <= a && a <= 0x3ef {
            Some(CsrReg::M(CsrRegM::PmpAddr((a - 0x3b0) as u8)))
        } else if a == 0xb00 {
            Some(CsrReg::M(CsrRegM::MCycle))
        } else if a == 0xb02 {
            Some(CsrReg::M(CsrRegM::MInstRet))
        } else if 0xb03 <= a && a <= 0xb1f {
            Some(CsrReg::M(CsrRegM::MHpmCounter((a - 0xb00) as u8)))
        } else if a == 0xb80 {
            Some(CsrReg::M(CsrRegM::MCycleh))
        } else if a == 0xb82 {
            Some(CsrReg::M(CsrRegM::MInstReth))
        } else if 0xb83 <= a && a <= 0xb9f {
            Some(CsrReg::M(CsrRegM::MHpmCounterh((a - 0xb80) as u8)))
        } else if a == 0x320 {
            Some(CsrReg::M(CsrRegM::MCountInhibit))
        } else if 0x323 <= a && a <= 0x33f {
            Some(CsrReg::M(CsrRegM::MHpmEvent((a - 0x320) as u8)))
        } else if 0x723 <= a && a <= 0x73f {
            Some(CsrReg::M(CsrRegM::MHpmEventh((a - 0x720) as u8)))
        } else {
            None
        }
    }
}

} // verus!
