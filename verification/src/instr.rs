//! The decoded instruction: a tagged value carrying the operand fields and
//! the concrete operation of each opcode class.
use vstd::prelude::*;

pub mod csr;
pub mod format;
pub mod funct;
pub mod reg;

verus! {

use crate::instr::csr::CsrType;
use crate::instr::format::{BType, IType, JType, RType, SType, UType};
use crate::instr::funct::{
    AtomicFunct, BranchFunct, CsrFunct, EnvFunct, LoadFunct, OpFunct, OpImmFunct, StoreFunct,
};

#[derive(Debug, PartialEq, Eq, Structural, Clone, Copy)]
pub enum Instr {
    Op(RType, OpFunct),
    OpImm(IType, OpImmFunct),
    Lui(UType),
    Auipc(UType),
    Load(IType, LoadFunct),
    Store(SType, StoreFunct),
    Jal(JType),
    Jalr(IType),
    Branch(BType, BranchFunct),
    Atomic(RType, AtomicFunct),
    Fence,
    Env(EnvFunct),
    Csr(CsrType, CsrFunct),
}

impl Instr {
    /// Every register field of a decoded instruction names one of x0..x31.
    pub open spec fn wf(self) -> bool {
        match self {
            Instr::Op(r, _) => r.rd.wf() && r.rs1.wf() && r.rs2.wf(),
            Instr::OpImm(i, f) => i.rd.wf() && i.rs1.wf() && match f {
                OpImmFunct::Sll | OpImmFunct::Srl | OpImmFunct::Sra => 0 <= i.imm < 32,
                _ => true,
            },
            Instr::Lui(u) => u.rd.wf(),
            Instr::Auipc(u) => u.rd.wf(),
            Instr::Load(i, _) => i.rd.wf() && i.rs1.wf(),
            Instr::Store(s, _) => s.rs1.wf() && s.rs2.wf(),
            Instr::Jal(j) => j.rd.wf(),
            Instr::Jalr(i) => i.rd.wf() && i.rs1.wf(),
            Instr::Branch(b, _) => b.rs1.wf() && b.rs2.wf(),
            Instr::Atomic(r, _) => r.rd.wf() && r.rs1.wf() && r.rs2.wf(),
            Instr::Fence => true,
            Instr::Env(_) => true,
            Instr::Csr(c, _) => c.rd.wf() && match c.src {
                crate::instr::csr::CsrSrc::Reg(r) => r.wf(),
                crate::instr::csr::CsrSrc::Imm(i) => i < 32,
            },
        }
    }
}

} // verus!
