//! Traps: the unified cause/value pair that the pipeline raises and the trap
//! engine delivers, covering synchronous exceptions and asynchronous
//! interrupts, with their architectural 32-bit cause encodings.
use vstd::prelude::*;

verus! {

#[derive(Debug, PartialEq, Eq, Structural, Clone, Copy)]
pub struct Trap {
    pub cause: TrapCause,
    pub val: u32,
}

#[derive(Debug, PartialEq, Eq, Structural, Clone, Copy)]
pub enum TrapCause {
    Exception(Exception),
    Interrupt(Interrupt),
}

#[derive(Debug, PartialEq, Eq, Structural, Clone, Copy)]
pub enum Exception {
    InstrAddrMisaligned,
    InstrAccessFault,
    IllegalInstr,
    Breakpoint,
    LoadAddrMisaligned,
    LoadAccessFault,
    StoreAddrMisaligned,
    StoreAccessFault,
    EcallFromU,
    EcallFromS,
    EcallFromM,
    InstrPageFault,
    LoadPageFault,
    StorePageFault,
    SoftwareCheck,
    HardwareError,
}

#[derive(Debug, PartialEq, Eq, Structural, Clone, Copy)]
pub enum Interrupt {
    SSoft,
    MSoft,
    STimer,
    MTimer,
    SExt,
    MExt,
}

/// The architectural exception code.
pub open spec fn exception_code(e: Exception) -> u32 {
    match e {
        Exception::InstrAddrMisaligned => 0,
        Exception::InstrAccessFault => 1,
        Exception::IllegalInstr => 2,
        Exception::Breakpoint => 3,
        Exception::LoadAddrMisaligned => 4,
        Exception::LoadAccessFault => 5,
        Exception::StoreAddrMisaligned => 6,
        Exception::StoreAccessFault => 7,
        Exception::EcallFromU => 8,
        Exception::EcallFromS => 9,
        Exception::EcallFromM => 11,
        Exception::InstrPageFault => 12,
        Exception::LoadPageFault => 13,
        Exception::StorePageFault => 15,
        Exception::SoftwareCheck => 18,
        Exception::HardwareError => 19,
    }
}

/// The exception a code names, if any; codes 10, 14, 16 and 17 are reserved.
pub open spec fn exception_of_code(code: u32) -> Option<Exception> {
    match code {
        0u32 => Some(Exception::InstrAddrMisaligned),
        1u32 => Some(Exception::InstrAccessFault),
        2u32 => Some(Exception::IllegalInstr),
        3u32 => Some(Exception::Breakpoint),
        4u32 => Some(Exception::LoadAddrMisaligned),
        5u32 => Some(Exception::LoadAccessFault),
        6u32 => Some(Exception::StoreAddrMisaligned),
        7u32 => Some(Exception::StoreAccessFault),
        8u32 => Some(Exception::EcallFromU),
        9u32 => Some(Exception::EcallFromS),
        11u32 => Some(Exception::EcallFromM),
        12u32 => Some(Exception::InstrPageFault),
        13u32 => Some(Exception::LoadPageFault),
        15u32 => Some(Exception::StorePageFault),
        18u32 => Some(Exception::SoftwareCheck),
        19u32 => Some(Exception::HardwareError),
        _ => None,
    }
}

/// The architectural interrupt code (without the interrupt flag bit).
pub open spec fn interrupt_code(i: Interrupt) -> u32 {
    match i {
        Interrupt::SSoft => 1,
        Interrupt::MSoft => 3,
        Interrupt::STimer => 5,
        Interrupt::MTimer => 7,
        Interrupt::SExt => 9,
        Interrupt::MExt => 11,
    }
}

/// The interrupt a code names, if any.
pub open spec fn interrupt_of_code(code: u32) -> Option<Interrupt> {
    match code {
        1u32 => Some(Interrupt::SSoft),
        3u32 => Some(Interrupt::MSoft),
        5u32 => Some(Interrupt::STimer),
        7u32 => Some(Interrupt::MTimer),
        9u32 => Some(Interrupt::SExt),
        11u32 => Some(Interrupt::MExt),
        _ => None,
    }
}

/// The 32-bit cause value: bit 31 flags an interrupt, the rest is the code.
pub open spec fn cause_code(c: TrapCause) -> u32 {
    match c {
        TrapCause::Exception(e) => exception_code(e),
        TrapCause::Interrupt(i) => interrupt_code(i) | 0x8000_0000,
    }
}

/// The cause a 32-bit value names, if any.
pub open spec fn cause_of_code(code: u32) -> Option<TrapCause> {
    if code >= 0x8000_0000 {
        match interrupt_of_code(code & 0x7fff_ffff) {
            Some(i) => Some(TrapCause::Interrupt(i)),
            None => None,
        }
    } else {
        match exception_of_code(code) {
            Some(e) => Some(TrapCause::Exception(e)),
            None => None,
        }
    }
}

impl Trap {
    /// The trap a synchronous exception raises.
    pub open spec fn spec_from_exception(ex: Exception, val: u32) -> Trap {
        Trap { cause: TrapCause::Exception(ex), val }
    }

    /// The trap an interrupt raises.
    pub open spec fn spec_from_interrupt(i: Interrupt, val: u32) -> Trap {
        Trap { cause: TrapCause::Interrupt(i), val }
    }

    pub fn from_code(cause: u32, val: u32) -> (r: Option<Trap>)
        ensures
            r == match cause_of_code(cause) {
                Some(c) => Some(Trap { cause: c, val }),
                None => None::<Trap>,
            },
    {
        match TrapCause::from(cause) {
            Some(c) => Some(Trap { cause: c, val }),
            None => None,
        }
    }

    #[verifier::when_used_as_spec(spec_from_exception)]
    pub fn from_exception(ex: Exception, val: u32) -> (r: Trap)
        ensures
            r == (Trap { cause: TrapCause::Exception(ex), val }),
    {
        Trap { cause: TrapCause::Exception(ex), val }
    }

    #[verifier::when_used_as_spec(spec_from_interrupt)]
    pub fn from_interrupt(i: Interrupt, val: u32) -> (r: Trap)
        ensures
            r == (Trap { cause: TrapCause::Interrupt(i), val }),
    {
        Trap { cause: TrapCause::Interrupt(i), val }
    }
}

impl TrapCause {
    pub fn from(code: u32) -> (r: Option<TrapCause>)
        ensures
            r == cause_of_code(code),
    {
        if code >= 0x8000_0000 {
            match Interrupt::from(code & 0x7fff_ffff) {
                Some(i) => Some(TrapCause::Interrupt(i)),
                None => None,
            }
        } else {
            match Exception::from(code) {
                Some(e) => Some(TrapCause::Exception(e)),
                None => None,
            }
        }
    }

    pub fn to_int(&self) -> (r: u32)
        ensures
            r == cause_code(*self),
    {
        match self {
            TrapCause::Exception(e) => e.to_int(),
            TrapCause::Interrupt(i) => i.to_int() | 0x8000_0000,
        }
    }
}

impl Exception {
    pub fn from(code: u32) -> (r: Option<Exception>)
        ensures
            r == exception_of_code(code),
    {
        match code {
            0u32 => Some(Exception::InstrAddrMisaligned),
            1u32 => Some(Exception::InstrAccessFault),
            2u32 => Some(Exception::IllegalInstr),
            3u32 => Some(Exception::Breakpoint),
            4u32 => Some(Exception::LoadAddrMisaligned),
            5u32 => Some(Exception::LoadAccessFault),
            6u32 => Some(Exception::StoreAddrMisaligned),
            7u32 => Some(Exception::StoreAccessFault),
            8u32 => Some(Exception::EcallFromU),
            9u32 => Some(Exception::EcallFromS),
            11u32 => Some(Exception::EcallFromM),
            12u32 => Some(Exception::InstrPageFault),
            13u32 => Some(Exception::LoadPageFault),
            15u32 => Some(Exception::StorePageFault),
            18u32 => Some(Exception::SoftwareCheck),
            19u32 => Some(Exception::HardwareError),
            _ => None,
        }
    }

    pub fn to_int(&self) -> (r: u32)
        ensures
            r == exception_code(*self),
            r <= 19,
    {
        match self {
            Exception::InstrAddrMisaligned => 0,
            Exception::InstrAccessFault => 1,
            Exception::IllegalInstr => 2,
            Exception::Breakpoint => 3,
            Exception::LoadAddrMisaligned => 4,
            Exception::LoadAccessFault => 5,
            Exception::StoreAddrMisaligned => 6,
            Exception::StoreAccessFault => 7,
            Exception::EcallFromU => 8,
            Exception::EcallFromS => 9,
            Exception::EcallFromM => 11,
            Exception::InstrPageFault => 12,
            Exception::LoadPageFault => 13,
            Exception::StorePageFault => 15,
            Exception::SoftwareCheck => 18,
            Exception::HardwareError => 19,
        }
    }
}

impl Interrupt {
    pub fn from(code: u32) -> (r: Option<Interrupt>)
        ensures
            r == interrupt_of_code(code),
    {
        match code {
            1u32 => Some(Interrupt::SSoft),
            3u32 => Some(Interrupt::MSoft),
            5u32 => Some(Interrupt::STimer),
            7u32 => Some(Interrupt::MTimer),
            9u32 => Some(Interrupt::SExt),
            11u32 => Some(Interrupt::MExt),
            _ => None,
        }
    }

    pub fn to_int(&self) -> (r: u32)
        ensures
            r == interrupt_code(*self),
            r <= 11,
    {
        match self {
            Interrupt::SSoft => 1,
            Interrupt::MSoft => 3,
            Interrupt::STimer => 5,
            Interrupt::MTimer => 7,
            Interrupt::SExt => 9,
            Interrupt::MExt => 11,
        }
    }
}

} // verus!
