//! The control state: privilege mode and the fields behind every recognized
//! CSR, kept as named values and composed into architectural words on access.
use vstd::prelude::*;

verus! {

use crate::trap::{Exception, Interrupt, Trap, TrapCause, exception_code, interrupt_code};

#[derive(Debug, Clone, Copy)]
pub struct Control {
    pub privilege: MPriv,  // Current privilege mode
    // mstatus: Status
    pub mie: bool,  // M-mode interrupt enable
    pub mpie: bool,  // M-mode previous interrupt enable
    pub mpp: MPriv,  // M-mode previous privilege mode
    pub mprv: bool,  // Modify privilege
    pub tvm: bool,  // Trap virtual memory
    pub tw: bool,  // Trap wait-for-interrupt
    pub tsr: bool,  // Trap SRET
    // mtvec: Trap vector
    pub mtvec_base: u32,  // Trap vector base address
    pub mtvec_mode: TvecMode,  // Trap vector mode
    // medeleg: Exception delegation
    pub medeleg: ExceptionMap,
    // mideleg: Interrupt delegation
    pub mideleg: InterruptMap,
    // mip: Interrupt pending
    pub ip: InterruptMap,
    // mie: Interrupt enable
    pub ie: InterruptMap,
    // mscratch: Scratch register
    pub mscratch: u32,
    // mepc: Exception PC
    pub mepc: u32,
    // mcause & mtval: Trap cause and value
    pub mtrap: Trap,
    // menvcfg: Environment configuration
    pub mfiom: bool,  // Fence IO implies memory
    // mcycle: Counter for clock cycles
    pub mcycle: u64,
    pub mcycle_en: bool,
    pub mcycle_inhibit: bool,
    // mtime: Counter for real time
    pub mtime_en: bool,
    // minstret: Counter for retired instructions
    pub minstret: u64,
    pub minstret_en: bool,
    pub minstret_inhibit: bool,
    // sstatus: Status
    pub sie: bool,  // S-mode interrupt enable
    pub spie: bool,  // S-mode previous interrupt enable
    pub spp: SPriv,  // S-mode previous privilege mode
    pub sum: bool,  // S-mode user memory access
    pub mxr: bool,  // Make executable readable
    // stvec: Trap vector
    pub stvec_base: u32,  // Trap vector base address
    pub stvec_mode: TvecMode,  // Trap vector mode
    // scounteren
    pub scycle_en: bool,
    pub stime_en: bool,
    pub sinstret_en: bool,
    // sscratch: Scratch register
    pub sscratch: u32,
    // sepc: Exception PC
    pub sepc: u32,
    // scause & stval: Trap cause and value
    pub strap: Trap,
    // senvcfg: Environment configuration
    pub sfiom: bool,  // Fence IO implies memory
    // satp: Address translation and protection
    pub satp_mode: SatpMode,
    pub satp_ppn: u32,  // 22 bits
}

#[derive(Debug, PartialEq, Eq, Structural, Clone, Copy)]
pub enum MPriv {
    U,
    S,
    M,
}

#[derive(Debug, PartialEq, Eq, Structural, Clone, Copy)]
pub enum SPriv {
    U,
    S,
}

#[derive(Debug, PartialEq, Eq, Structural, Clone, Copy)]
pub enum TvecMode {
    Direct,
    Vectored,
}

#[derive(Debug, PartialEq, Eq, Structural, Clone, Copy)]
pub enum SatpMode {
    Bare,
    Sv32,
}

#[derive(Debug, PartialEq, Eq, Structural, Clone, Copy)]
pub struct InterruptMap(pub u32);

#[derive(Debug, PartialEq, Eq, Structural, Clone, Copy)]
pub struct ExceptionMap(pub u32);

/// Whether bit `b` of `m` is set.
pub open spec fn bit_of(m: u32, b: u32) -> bool
    recommends
        b < 32,
{
    m & (1u32 << b) != 0
}

/// `m` with bit `b` forced to `v`.
pub open spec fn set_bit(m: u32, b: u32, v: bool) -> u32
    recommends
        b < 32,
{
    if v {
        m | (1u32 << b)
    } else {
        m & !(1u32 << b)
    }
}

impl Control {
    /// Reset state: M-mode, interrupts off and none stacked, counters
    /// running from zero, bare translation, empty scratch and trap frames.
    pub fn new() -> (r: Control)
        ensures
            r.privilege == MPriv::M,
            r.mie == false && r.mpie == false && r.mpp == MPriv::U,
            r.sie == false && r.spie == false && r.spp == SPriv::U,
            r.satp_mode == SatpMode::Bare && r.satp_ppn == 0,
            r.ip.0 == 0,
            r.ie.0 == 0,
            r.medeleg.0 == 0,
            r.mideleg.0 == 0,
            r.mcycle == 0,
            r.minstret == 0,
            r.mcycle_inhibit == false,
            r.minstret_inhibit == false,
            r.mcycle_en == false && r.mtime_en == false && r.minstret_en == false,
            r.scycle_en == false && r.stime_en == false && r.sinstret_en == false,
            r.mprv == false,
            r.mtvec_base == 0x100,
            r.stvec_base == 0x100,
            r.mtvec_mode == TvecMode::Direct,
            r.stvec_mode == TvecMode::Direct,
            r.tsr == false && r.tw == false && r.tvm == false,
            r.sum == false && r.mxr == false,
            r.mepc == 0 && r.sepc == 0,
            r.mscratch == 0 && r.sscratch == 0,
            r.mtrap == Trap::spec_from_exception(Exception::InstrAddrMisaligned, 0),
            r.strap == Trap::spec_from_exception(Exception::InstrAddrMisaligned, 0),
            r.mfiom == false && r.sfiom == false,
    {
        Control {
            privilege: MPriv::M,
            mie: false,
            mpie: false,
            mpp: MPriv::U,
            mprv: false,
            tvm: false,
            tw: false,
            tsr: false,
            mtvec_base: 0x100,
            mtvec_mode: TvecMode::Direct,
            medeleg: ExceptionMap::new(),
            mideleg: InterruptMap::new(),
            ip: InterruptMap::new(),
            ie: InterruptMap::new(),
            mscratch: 0,
            mepc: 0,
            mtrap: Trap::from_exception(Exception::InstrAddrMisaligned, 0),
            mfiom: false,
            mcycle: 0,
            mcycle_en: false,
            mcycle_inhibit: false,
            mtime_en: false,
            minstret: 0,
            minstret_en: false,
            minstret_inhibit: false,
            sie: false,
            spie: false,
            spp: SPriv::U,
            sum: false,
            mxr: false,
            stvec_base: 0x100,
            stvec_mode: TvecMode::Direct,
            scycle_en: false,
            stime_en: false,
            sinstret_en: false,
            sscratch: 0,
            sepc: 0,
            strap: Trap::from_exception(Exception::InstrAddrMisaligned, 0),
            sfiom: false,
            satp_mode: SatpMode::Bare,
            satp_ppn: 0,
        }
    }
}

impl MPriv {
    pub open spec fn spec_code(self) -> u32 {
        match self {
            MPriv::U => 0,
            MPriv::S => 1,
            MPriv::M => 3,
        }
    }

    pub fn from(code: u32) -> (r: Option<MPriv>)
        ensures
            r == match code {
                0u32 => Some(MPriv::U),
                1u32 => Some(MPriv::S),
                3u32 => Some(MPriv::M),
                _ => None::<MPriv>,
            },
    {
        match code {
            0u32 => Some(MPriv::U),
            1u32 => Some(MPriv::S),
            3u32 => Some(MPriv::M),
            _ => None,
        }
    }

    pub fn from_s(spriv: SPriv) -> (r: MPriv)
        ensures
            r == match spriv {
                SPriv::U => MPriv::U,
                SPriv::S => MPriv::S,
            },
    {
        match spriv {
            SPriv::U => MPriv::U,
            SPriv::S => MPriv::S,
        }
    }

    pub fn to_int(&self) -> (r: u32)
        ensures
            r == self.spec_code(),
    {
        match self {
            MPriv::U => 0,
            MPriv::S => 1,
            MPriv::M => 3,
        }
    }
}

impl SPriv {
    pub open spec fn spec_code(self) -> u32 {
        match self {
            SPriv::U => 0,
            SPriv::S => 1,
        }
    }

    pub fn from(code: u32) -> (r: Option<SPriv>)
        ensures
            r == match code {
                0u32 => Some(SPriv::U),
                1u32 => Some(SPriv::S),
                _ => None::<SPriv>,
            },
    {
        match code {
            0u32 => Some(SPriv::U),
            1u32 => Some(SPriv::S),
            _ => None,
        }
    }

    /// The S-mode view of a privilege, defined away from M.
    pub fn from_m(mpriv: MPriv) -> (r: Option<SPriv>)
        ensures
            r == match mpriv {
                MPriv::U => Some(SPriv::U),
                MPriv::S => Some(SPriv::S),
                MPriv::M => None::<SPriv>,
            },
    {
        match mpriv {
            MPriv::U => Some(SPriv::U),
            MPriv::S => Some(SPriv::S),
            MPriv::M => None,
        }
    }

    pub fn to_int(&self) -> (r: u32)
        ensures
            r == self.spec_code(),
    {
        match self {
            SPriv::U => 0,
            SPriv::S => 1,
        }
    }
}

impl TvecMode {
    pub open spec fn spec_code(self) -> u32 {
        match self {
            TvecMode::Direct => 0,
            TvecMode::Vectored => 1,
        }
    }

    pub fn from(code: u32) -> (r: Option<TvecMode>)
        ensures
            r == match code {
                0u32 => Some(TvecMode::Direct),
                1u32 => Some(TvecMode::Vectored),
                _ => None::<TvecMode>,
            },
    {
        match code {
            0u32 => Some(TvecMode::Direct),
            1u32 => Some(TvecMode::Vectored),
            _ => None,
        }
    }

    pub fn to_int(&self) -> (r: u32)
        ensures
            r == self.spec_code(),
    {
        match self {
            TvecMode::Direct => 0,
            TvecMode::Vectored => 1,
        }
    }
}

impl InterruptMap {
    pub fn new() -> (r: InterruptMap)
        ensures
            r.0 == 0,
    {
        InterruptMap(0)
    }

    /// Whether the bit of this interrupt is set.
    pub open spec fn spec_get(self, i: Interrupt) -> bool {
        bit_of(self.0, interrupt_code(i))
    }

    pub fn get(&self, i: &Interrupt) -> (r: bool)
        ensures
            r == self.spec_get(*i),
    {
        let mask: u32 = 1u32 << i.to_int();
        self.0 & mask != 0
    }

    pub fn set(&mut self, i: &Interrupt, val: bool)
        ensures
            final(self).0 == set_bit(old(self).0, interrupt_code(*i), val),
    {
        let mask: u32 = 1u32 << i.to_int();
        if val {
            self.0 = self.0 | mask;
        } else {
            self.0 = self.0 & !mask;
        }
    }
}

impl ExceptionMap {
    pub fn new() -> (r: ExceptionMap)
        ensures
            r.0 == 0,
    {
        ExceptionMap(0)
    }

    /// Whether the bit of this exception code is set.
    pub open spec fn spec_get(self, e: Exception) -> bool {
        bit_of(self.0, exception_code(e))
    }

    pub fn get(&self, e: &Exception) -> (r: bool)
        ensures
            r == self.spec_get(*e),
    {
        let mask: u32 = 1u32 << e.to_int();
        self.0 & mask != 0
    }

    pub fn set(&mut self, e: &Exception, val: bool)
        ensures
            final(self).0 == set_bit(old(self).0, exception_code(*e), val),
    {
        let mask: u32 = 1u32 << e.to_int();
        if val {
            self.0 = self.0 | mask;
        } else {
            self.0 = self.0 & !mask;
        }
    }
}

} // verus!
