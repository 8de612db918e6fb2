//! The physical memory map: dispatch of physical addresses to RAM, the
//! device-tree ROM, the timer registers and the UART, with the per-region
//! width and access rules, and the single LR/SC reservation word.
use vstd::prelude::*;

pub mod dtb;
pub mod ram;
pub mod timer;
pub mod uart;

verus! {

use crate::arith::{byte_of, le16, le32, le_byte, u16_of_le, u32_of_le};
use crate::sys::mem_map::dtb::Dtb;
use crate::sys::mem_map::ram::Ram;
use crate::sys::mem_map::timer::{Timer, get_half, set_half};
use crate::sys::mem_map::uart::Uart;
use crate::trap::Exception;

#[derive(Debug, PartialEq, Eq, Structural, Clone, Copy)]
pub enum AccessType {
    Instr,
    Load,
    Store,
}

#[derive(Debug, PartialEq, Eq, Structural, Clone, Copy)]
pub enum AccessWidth {
    Byte,
    HalfWord,
    Word,
}

#[derive(Debug, PartialEq, Eq, Structural, Clone, Copy)]
pub struct AccessAttr {
    pub atype: AccessType,
    pub width: AccessWidth,
    pub lrsc: bool,
    pub amo: bool,
}

#[derive(Debug, PartialEq, Eq, Structural, Clone, Copy)]
pub enum MemTarget {
    Ram(u64),
    Uart(u64),
    Dtb(u64),
    Time(u64),
    TimeCmp(u64),
}

#[derive(Debug)]
pub struct MemMap {
    pub ram: Ram,
    pub uart: Uart,
    pub dtb: Dtb,
    pub timer: Timer,
    pub ram_base: u64,
    pub uart_base: u64,
    pub dtb_base: u64,
    pub time_base: u64,
    pub timecmp_base: u64,
    pub reserved_word: Option<u64>,  // For atomic lr/sc
}

pub open spec fn spec_misaligned_fault(access_type: AccessType) -> Exception {
    match access_type {
        AccessType::Instr => Exception::InstrAddrMisaligned,
        AccessType::Load => Exception::LoadAddrMisaligned,
        AccessType::Store => Exception::StoreAddrMisaligned,
    }
}

#[verifier::when_used_as_spec(spec_misaligned_fault)]
pub fn misaligned_fault(access_type: AccessType) -> (r: Exception)
    ensures
        r == spec_misaligned_fault(access_type),
{
    match access_type {
        AccessType::Instr => Exception::InstrAddrMisaligned,
        AccessType::Load => Exception::LoadAddrMisaligned,
        AccessType::Store => Exception::StoreAddrMisaligned,
    }
}

pub open spec fn spec_access_fault(access_type: AccessType) -> Exception {
    match access_type {
        AccessType::Instr => Exception::InstrAccessFault,
        AccessType::Load => Exception::LoadAccessFault,
        AccessType::Store => Exception::StoreAccessFault,
    }
}

#[verifier::when_used_as_spec(spec_access_fault)]
pub fn access_fault(access_type: AccessType) -> (r: Exception)
    ensures
        r == spec_access_fault(access_type),
{
    match access_type {
        AccessType::Instr => Exception::InstrAccessFault,
        AccessType::Load => Exception::LoadAccessFault,
        AccessType::Store => Exception::StoreAccessFault,
    }
}

pub open spec fn spec_page_fault(access_type: AccessType) -> Exception {
    match access_type {
        AccessType::Instr => Exception::InstrPageFault,
        AccessType::Load => Exception::LoadPageFault,
        AccessType::Store => Exception::StorePageFault,
    }
}

#[verifier::when_used_as_spec(spec_page_fault)]
pub fn page_fault(access_type: AccessType) -> (r: Exception)
    ensures
        r == spec_page_fault(access_type),
{
    match access_type {
        AccessType::Instr => Exception::InstrPageFault,
        AccessType::Load => Exception::LoadPageFault,
        AccessType::Store => Exception::StorePageFault,
    }
}

/// Whether `addr` meets the alignment of the access width.
pub open spec fn aligned_to(addr: u64, w: AccessWidth) -> bool {
    match w {
        AccessWidth::Byte => true,
        AccessWidth::HalfWord => addr % 2 == 0,
        AccessWidth::Word => addr % 4 == 0,
    }
}

/// What remains of a reservation after a store to physical address `addr`:
/// a store into the reserved word clears it.
pub open spec fn rsv_after_store(rsv: Option<u64>, addr: u64) -> Option<u64> {
    match rsv {
        Some(w) => if w == addr >> 2 {
            None
        } else {
            Some(w)
        },
        None => None,
    }
}

impl MemMap {
    /// The RAM byte contents.
    pub open spec fn ram_contents(self) -> Seq<u8> {
        self.ram.contents()
    }

    /// Region sizes are whole words and fit comfortably below the 34-bit
    /// physical space; the word-addressed regions sit at word-aligned bases.
    pub open spec fn wf(self) -> bool {
        &&& self.ram.contents().len() % 4 == 0
        &&& self.ram.contents().len() <= 0x1_0000_0000
        &&& self.dtb.contents().len() % 4 == 0
        &&& self.dtb.contents().len() <= 0x1_0000_0000
        &&& self.ram_base % 4 == 0
        &&& self.dtb_base % 4 == 0
        &&& self.time_base % 4 == 0
        &&& self.timecmp_base % 4 == 0
        &&& self.ram_base <= 0x10_0000_0000
        &&& self.uart_base <= 0x10_0000_0000
        &&& self.dtb_base <= 0x10_0000_0000
        &&& self.time_base <= 0x10_0000_0000
        &&& self.timecmp_base <= 0x10_0000_0000
    }

    pub fn new(ram_size: usize) -> (r: MemMap)
        requires
            ram_size % 4 == 0,
            ram_size <= 0x1_0000_0000,
        ensures
            r.wf(),
            r.ram_contents().len() == ram_size,
            forall|i: int| 0 <= i < ram_size ==> r.ram_contents()[i] == 0,
            r.dtb.contents().len() == 0,
            r.ram_base == 0,
            r.uart_base == 0xc000_0000,
            r.dtb_base == 0xf000_0000,
            r.time_base == 0xd000_0000,
            r.timecmp_base == 0xd000_1000,
            r.reserved_word is None,
            r.timer.time == 0,
            r.timer.timecmp == u64::MAX,
            r.uart.output@.len() == 0,
            r.uart.input@.len() == 0,
            r.uart.line_control == 0,
    {
        let ram = Ram::new(ram_size);
        let uart = Uart::new();
        let dtb = Dtb::new(Vec::new());
        let timer = Timer::new();
        MemMap {
            ram,
            uart,
            dtb,
            timer,
            ram_base: 0,
            uart_base: 0xc000_0000,
            dtb_base: 0xf000_0000,
            time_base: 0xd000_0000,
            timecmp_base: 0xd000_1000,
            reserved_word: None,
        }
    }

    /// Which region a physical address falls in and the offset within it, or
    /// the fault that the per-region rules raise. RAM is dispatched first, so
    /// a RAM large enough to overlap a device shadows it.
    pub open spec fn target_of(self, addr: u64, attr: AccessAttr) -> Result<MemTarget, Exception> {
        if self.ram_base <= addr < self.ram_base + self.ram.contents().len() {
            if !aligned_to(addr, attr.width) {
                Err(spec_misaligned_fault(attr.atype))
            } else {
                Ok(MemTarget::Ram((addr - self.ram_base) as u64))
            }
        } else if self.uart_base <= addr < self.uart_base + 8 {
            if attr.width != AccessWidth::Byte || attr.lrsc || attr.amo || attr.atype
                == AccessType::Instr {
                Err(spec_access_fault(attr.atype))
            } else {
                Ok(MemTarget::Uart((addr - self.uart_base) as u64))
            }
        } else if self.dtb_base <= addr < self.dtb_base + self.dtb.contents().len() {
            if attr.lrsc || attr.amo || attr.atype != AccessType::Load {
                Err(spec_access_fault(attr.atype))
            } else if !aligned_to(addr, attr.width) {
                Err(spec_misaligned_fault(attr.atype))
            } else {
                Ok(MemTarget::Dtb((addr - self.dtb_base) as u64))
            }
        } else if self.time_base <= addr < self.time_base + 8 {
            if attr.width != AccessWidth::Word || attr.lrsc || attr.amo || attr.atype
                == AccessType::Instr {
                Err(spec_access_fault(attr.atype))
            } else if !aligned_to(addr, attr.width) {
                Err(spec_misaligned_fault(attr.atype))
            } else {
                Ok(MemTarget::Time((addr - self.time_base) as u64))
            }
        } else if self.timecmp_base <= addr < self.timecmp_base + 8 {
            if attr.width != AccessWidth::Word || attr.lrsc || attr.amo || attr.atype
                == AccessType::Instr {
                Err(spec_access_fault(attr.atype))
            } else if !aligned_to(addr, attr.width) {
                Err(spec_misaligned_fault(attr.atype))
            } else {
                Ok(MemTarget::TimeCmp((addr - self.timecmp_base) as u64))
            }
        } else {
            Err(spec_access_fault(attr.atype))
        }
    }

    pub fn check_and_translate(&self, addr: u64, attr: AccessAttr) -> (r: Result<
        MemTarget,
        Exception,
    >)
        requires
            self.wf(),
        ensures
            r == self.target_of(addr, attr),
    {
        if self.ram_base <= addr && addr - self.ram_base < self.ram.size() {
            check_misaligned(addr, attr)?;
            Ok(MemTarget::Ram(addr - self.ram_base))
        } else if self.uart_base <= addr && addr - self.uart_base < 8 {
            check_only_width(attr, AccessWidth::Byte)?;
            check_no_lrsc(attr)?;
            check_no_amo(attr)?;
            check_read_write(attr)?;
            Ok(MemTarget::Uart(addr - self.uart_base))
        } else if self.dtb_base <= addr && addr - self.dtb_base < self.dtb.size() {
            check_no_lrsc(attr)?;
            check_no_amo(attr)?;
            check_read_only(attr)?;
            check_misaligned(addr, attr)?;
            Ok(MemTarget::Dtb(addr - self.dtb_base))
        } else if self.time_base <= addr && addr - self.time_base < 8 {
            check_only_width(attr, AccessWidth::Word)?;
            check_no_lrsc(attr)?;
            check_no_amo(attr)?;
            check_read_write(attr)?;
            check_misaligned(addr, attr)?;
            Ok(MemTarget::Time(addr - self.time_base))
        } else if self.timecmp_base <= addr && addr - self.timecmp_base < 8 {
            check_only_width(attr, AccessWidth::Word)?;
            check_no_lrsc(attr)?;
            check_no_amo(attr)?;
            check_read_write(attr)?;
            check_misaligned(addr, attr)?;
            Ok(MemTarget::TimeCmp(addr - self.timecmp_base))
        } else {
            Err(access_fault(attr.atype))
        }
    }

    /// A byte load: RAM and the ROM read their byte, the UART consumes host
    /// input on an RBR read, and the faults follow the dispatch.
    pub open spec fn read_u8_post(
        o: MemMap,
        n: MemMap,
        addr: u64,
        attr: AccessAttr,
        r: Result<u8, Exception>,
    ) -> bool {
        match o.target_of(addr, attr) {
            Err(e) => r == Err::<u8, Exception>(e) && n == o,
            Ok(MemTarget::Ram(off)) => r == Ok::<u8, Exception>(o.ram_contents()[off as int]) && n
                == o,
            Ok(MemTarget::Uart(off)) => {
                &&& r == Ok::<u8, Exception>(o.uart.read_val(off))
                &&& n == (MemMap { uart: n.uart, ..o })
                &&& (if o.uart.read_consumes(off) {
                    n.uart.input@ == o.uart.input@.drop_first() && n.uart == (Uart {
                        input: n.uart.input,
                        ..o.uart
                    })
                } else if o.uart.read_starves(off) {
                    n.uart == (Uart { rx_starved: true, ..o.uart })
                } else {
                    n.uart == o.uart
                })
            },
            Ok(MemTarget::Dtb(off)) => r == Ok::<u8, Exception>(o.dtb.contents()[off as int]) && n
                == o,
            _ => false,
        }
    }

    /// The value a byte load yields, as a function of the state alone; an
    /// RBR read also consumes input, which `read_u8_post` tracks.
    pub open spec fn read_byte_val(self, addr: u64, attr: AccessAttr) -> Result<u8, Exception>
        recommends
            attr.width == AccessWidth::Byte,
    {
        match self.target_of(addr, attr) {
            Err(e) => Err(e),
            Ok(MemTarget::Ram(off)) => Ok(self.ram_contents()[off as int]),
            Ok(MemTarget::Uart(off)) => Ok(self.uart.read_val(off)),
            Ok(MemTarget::Dtb(off)) => Ok(self.dtb.contents()[off as int]),
            _ => Err(spec_access_fault(attr.atype)),
        }
    }

    pub fn read_u8(&mut self, addr: u64, attr: AccessAttr) -> (r: Result<u8, Exception>)
        requires
            old(self).wf(),
            attr.width == AccessWidth::Byte,
        ensures
            MemMap::read_u8_post(*old(self), *final(self), addr, attr, r),
            r == old(self).read_byte_val(addr, attr),
            final(self).wf(),
    {
        let tgt = match self.check_and_translate(addr, attr) {
            Ok(t) => t,
            Err(e) => {
                return Err(e);
            }
        };
        match tgt {
            MemTarget::Ram(ram_addr) => Ok(self.ram.byte(ram_addr)),
            MemTarget::Uart(uart_addr) => Ok(self.uart.read(uart_addr)),
            MemTarget::Dtb(dtb_addr) => Ok(self.dtb.byte(dtb_addr)),
            MemTarget::Time(_) => unreached(),
            MemTarget::TimeCmp(_) => unreached(),
        }
    }

    /// A half-word load: little-endian from RAM or the ROM; no other region
    /// accepts the width.
    pub open spec fn read_u16_post(
        o: MemMap,
        n: MemMap,
        addr: u64,
        attr: AccessAttr,
        r: Result<u16, Exception>,
    ) -> bool {
        n == o && match o.target_of(addr, attr) {
            Err(e) => r == Err::<u16, Exception>(e),
            Ok(MemTarget::Ram(off)) => r == Ok::<u16, Exception>(
                u16_of_le(o.ram_contents()[off as int], o.ram_contents()[off as int + 1]),
            ),
            Ok(MemTarget::Dtb(off)) => r == Ok::<u16, Exception>(
                u16_of_le(o.dtb.contents()[off as int], o.dtb.contents()[off as int + 1]),
            ),
            _ => false,
        }
    }

    /// The value a half-word load yields, as a function of the state alone.
    pub open spec fn read_half_val(self, addr: u64, attr: AccessAttr) -> Result<u16, Exception>
        recommends
            attr.width == AccessWidth::HalfWord,
    {
        match self.target_of(addr, attr) {
            Err(e) => Err(e),
            Ok(MemTarget::Ram(off)) => Ok(
                u16_of_le(self.ram_contents()[off as int], self.ram_contents()[off as int + 1]),
            ),
            Ok(MemTarget::Dtb(off)) => Ok(
                u16_of_le(self.dtb.contents()[off as int], self.dtb.contents()[off as int + 1]),
            ),
            _ => Err(spec_access_fault(attr.atype)),
        }
    }

    pub fn read_u16(&mut self, addr: u64, attr: AccessAttr) -> (r: Result<u16, Exception>)
        requires
            old(self).wf(),
            attr.width == AccessWidth::HalfWord,
        ensures
            MemMap::read_u16_post(*old(self), *final(self), addr, attr, r),
            r == old(self).read_half_val(addr, attr),
            final(self).wf(),
    {
        proof {
            lemma_sub_keeps_alignment(self.ram_base, addr, self.ram.contents().len() as u64);
            lemma_sub_keeps_alignment(self.dtb_base, addr, self.dtb.contents().len() as u64);
        }
        let tgt = match self.check_and_translate(addr, attr) {
            Ok(t) => t,
            Err(e) => {
                return Err(e);
            }
        };
        match tgt {
            MemTarget::Ram(ram_addr) => {
                Ok(le16(self.ram.byte(ram_addr), self.ram.byte(ram_addr + 1)))
            }
            MemTarget::Dtb(dtb_addr) => {
                Ok(le16(self.dtb.byte(dtb_addr), self.dtb.byte(dtb_addr + 1)))
            }
            MemTarget::Uart(_) => unreached(),
            MemTarget::Time(_) => unreached(),
            MemTarget::TimeCmp(_) => unreached(),
        }
    }

    /// A word load: little-endian from RAM or the ROM, or a half of the time
    /// or time-compare register.
    pub open spec fn read_u32_post(
        o: MemMap,
        n: MemMap,
        addr: u64,
        attr: AccessAttr,
        r: Result<u32, Exception>,
    ) -> bool {
        n == o && match o.target_of(addr, attr) {
            Err(e) => r == Err::<u32, Exception>(e),
            Ok(MemTarget::Ram(off)) => r == Ok::<u32, Exception>(
                u32_of_le(
                    o.ram_contents()[off as int],
                    o.ram_contents()[off as int + 1],
                    o.ram_contents()[off as int + 2],
                    o.ram_contents()[off as int + 3],
                ),
            ),
            Ok(MemTarget::Dtb(off)) => r == Ok::<u32, Exception>(
                u32_of_le(
                    o.dtb.contents()[off as int],
                    o.dtb.contents()[off as int + 1],
                    o.dtb.contents()[off as int + 2],
                    o.dtb.contents()[off as int + 3],
                ),
            ),
            Ok(MemTarget::Time(off)) => r == Ok::<u32, Exception>(get_half(o.timer.time, off)),
            Ok(MemTarget::TimeCmp(off)) => r == Ok::<u32, Exception>(
                get_half(o.timer.timecmp, off),
            ),
            _ => false,
        }
    }

    /// The value a word load yields, as a function of the state alone (word
    /// loads change nothing).
    pub open spec fn read_word_val(self, addr: u64, attr: AccessAttr) -> Result<u32, Exception>
        recommends
            attr.width == AccessWidth::Word,
    {
        match self.target_of(addr, attr) {
            Err(e) => Err(e),
            Ok(MemTarget::Ram(off)) => Ok(
                u32_of_le(
                    self.ram_contents()[off as int],
                    self.ram_contents()[off as int + 1],
                    self.ram_contents()[off as int + 2],
                    self.ram_contents()[off as int + 3],
                ),
            ),
            Ok(MemTarget::Dtb(off)) => Ok(
                u32_of_le(
                    self.dtb.contents()[off as int],
                    self.dtb.contents()[off as int + 1],
                    self.dtb.contents()[off as int + 2],
                    self.dtb.contents()[off as int + 3],
                ),
            ),
            Ok(MemTarget::Time(off)) => Ok(get_half(self.timer.time, off)),
            Ok(MemTarget::TimeCmp(off)) => Ok(get_half(self.timer.timecmp, off)),
            Ok(MemTarget::Uart(_)) => Err(spec_access_fault(attr.atype)),
        }
    }

    pub fn read_u32(&mut self, addr: u64, attr: AccessAttr) -> (r: Result<u32, Exception>)
        requires
            old(self).wf(),
            attr.width == AccessWidth::Word,
        ensures
            MemMap::read_u32_post(*old(self), *final(self), addr, attr, r),
            r == old(self).read_word_val(addr, attr),
            final(self).wf(),
    {
        proof {
            lemma_sub_keeps_alignment(self.ram_base, addr, self.ram.contents().len() as u64);
            lemma_sub_keeps_alignment(self.dtb_base, addr, self.dtb.contents().len() as u64);
            lemma_sub_keeps_alignment(self.time_base, addr, 8);
            lemma_sub_keeps_alignment(self.timecmp_base, addr, 8);
        }
        let tgt = match self.check_and_translate(addr, attr) {
            Ok(t) => t,
            Err(e) => {
                return Err(e);
            }
        };
        match tgt {
            MemTarget::Ram(ram_addr) => {
                Ok(
                    le32(
                        self.ram.byte(ram_addr),
                        self.ram.byte(ram_addr + 1),
                        self.ram.byte(ram_addr + 2),
                        self.ram.byte(ram_addr + 3),
                    ),
                )
            }
            MemTarget::Dtb(dtb_addr) => {
                Ok(
                    le32(
                        self.dtb.byte(dtb_addr),
                        self.dtb.byte(dtb_addr + 1),
                        self.dtb.byte(dtb_addr + 2),
                        self.dtb.byte(dtb_addr + 3),
                    ),
                )
            }
            MemTarget::Time(time_addr) => Ok(self.timer.read_time(time_addr)),
            MemTarget::TimeCmp(timecmp_addr) => Ok(self.timer.read_timecmp(timecmp_addr)),
            MemTarget::Uart(_) => unreached(),
        }
    }

    /// A byte store: into RAM (clearing a matching reservation) or a UART
    /// register; every other region refuses it.
    pub open spec fn write_u8_post(
        o: MemMap,
        n: MemMap,
        addr: u64,
        val: u8,
        attr: AccessAttr,
        r: Result<(), Exception>,
    ) -> bool {
        match o.target_of(addr, attr) {
            Err(e) => r == Err::<(), Exception>(e) && n == o,
            Ok(MemTarget::Ram(off)) => {
                &&& r is Ok
                &&& n.ram_contents() == o.ram_contents().update(off as int, val)
                &&& n.reserved_word == rsv_after_store(o.reserved_word, addr)
                &&& n == (MemMap { ram: n.ram, reserved_word: n.reserved_word, ..o })
            },
            Ok(MemTarget::Uart(off)) => {
                &&& r is Ok
                &&& n == (MemMap { uart: n.uart, ..o })
                &&& (if off == 0 && !o.uart.dlab_set() {
                    n.uart == (Uart { output: n.uart.output, ..o.uart }) && n.uart.output@
                        == o.uart.output@.push(val)
                } else {
                    n.uart.output == o.uart.output && n.uart == if off == 0 {
                        Uart { div_latch_lo: val, ..o.uart }
                    } else if off == 1 && !o.uart.dlab_set() {
                        Uart { int_en: val & 0x0f, ..o.uart }
                    } else if off == 1 {
                        Uart { div_latch_hi: val, ..o.uart }
                    } else if off == 3 {
                        Uart { line_control: val, ..o.uart }
                    } else if off == 4 {
                        Uart { modem_control: val & 0x1f, ..o.uart }
                    } else if off == 7 {
                        Uart { scratch: val, ..o.uart }
                    } else {
                        o.uart
                    }
                })
            },
            _ => false,
        }
    }

    pub fn write_u8(&mut self, addr: u64, val: u8, attr: AccessAttr) -> (r: Result<(), Exception>)
        requires
            old(self).wf(),
            attr.width == AccessWidth::Byte,
            attr.atype == AccessType::Store,
        ensures
            MemMap::write_u8_post(*old(self), *final(self), addr, val, attr, r),
            final(self).wf(),
    {
        let tgt = match self.check_and_translate(addr, attr) {
            Ok(t) => t,
            Err(e) => {
                return Err(e);
            }
        };
        match tgt {
            MemTarget::Ram(ram_addr) => {
                self.clear_reservation_if_matched(addr);
                self.ram.set_byte(ram_addr, val);
                Ok(())
            }
            MemTarget::Uart(uart_addr) => {
                self.uart.write(uart_addr, val);
                Ok(())
            }
            MemTarget::Dtb(_) => unreached(),
            MemTarget::Time(_) => unreached(),
            MemTarget::TimeCmp(_) => unreached(),
        }
    }

    /// A half-word store: into RAM only, little-endian, clearing a matching
    /// reservation.
    pub open spec fn write_u16_post(
        o: MemMap,
        n: MemMap,
        addr: u64,
        val: u16,
        attr: AccessAttr,
        r: Result<(), Exception>,
    ) -> bool {
        match o.target_of(addr, attr) {
            Err(e) => r == Err::<(), Exception>(e) && n == o,
            Ok(MemTarget::Ram(off)) => {
                &&& r is Ok
                &&& n.ram_contents() == o.ram_contents().update(off as int, (val % 0x100) as u8)
                    .update(off as int + 1, (val / 0x100) as u8)
                &&& n.reserved_word == rsv_after_store(o.reserved_word, addr)
                &&& n == (MemMap { ram: n.ram, reserved_word: n.reserved_word, ..o })
            },
            _ => false,
        }
    }

    pub fn write_u16(&mut self, addr: u64, val: u16, attr: AccessAttr) -> (r: Result<
        (),
        Exception,
    >)
        requires
            old(self).wf(),
            attr.width == AccessWidth::HalfWord,
            attr.atype == AccessType::Store,
        ensures
            MemMap::write_u16_post(*old(self), *final(self), addr, val, attr, r),
            final(self).wf(),
    {
        proof {
            lemma_sub_keeps_alignment(self.ram_base, addr, self.ram.contents().len() as u64);
        }
        let tgt = match self.check_and_translate(addr, attr) {
            Ok(t) => t,
            Err(e) => {
                return Err(e);
            }
        };
        match tgt {
            MemTarget::Ram(ram_addr) => {
                self.clear_reservation_if_matched(addr);
                self.ram.set_byte(ram_addr, (val % 0x100) as u8);
                self.ram.set_byte(ram_addr + 1, (val / 0x100) as u8);
                Ok(())
            }
            MemTarget::Uart(_) => unreached(),
            MemTarget::Dtb(_) => unreached(),
            MemTarget::Time(_) => unreached(),
            MemTarget::TimeCmp(_) => unreached(),
        }
    }

    /// A word store: into RAM little-endian (clearing a matching
    /// reservation), or one half of the time or time-compare register.
    pub open spec fn write_u32_post(
        o: MemMap,
        n: MemMap,
        addr: u64,
        val: u32,
        attr: AccessAttr,
        r: Result<(), Exception>,
    ) -> bool {
        match o.target_of(addr, attr) {
            Err(e) => r == Err::<(), Exception>(e) && n == o,
            Ok(MemTarget::Ram(off)) => {
                &&& r is Ok
                &&& n.ram_contents() == o.ram_contents().update(off as int, le_byte(val, 0)).update(
                    off as int + 1,
                    le_byte(val, 1),
                ).update(off as int + 2, le_byte(val, 2)).update(off as int + 3, le_byte(val, 3))
                &&& n.reserved_word == rsv_after_store(o.reserved_word, addr)
                &&& n == (MemMap { ram: n.ram, reserved_word: n.reserved_word, ..o })
            },
            Ok(MemTarget::Time(off)) => {
                &&& r is Ok
                &&& n.timer.time == set_half(o.timer.time, off, val)
                &&& n.timer.timecmp == o.timer.timecmp
                &&& n == (MemMap { timer: n.timer, ..o })
            },
            Ok(MemTarget::TimeCmp(off)) => {
                &&& r is Ok
                &&& n.timer.timecmp == set_half(o.timer.timecmp, off, val)
                &&& n.timer.time == o.timer.time
                &&& n == (MemMap { timer: n.timer, ..o })
            },
            _ => false,
        }
    }

    pub fn write_u32(&mut self, addr: u64, val: u32, attr: AccessAttr) -> (r: Result<
        (),
        Exception,
    >)
        requires
            old(self).wf(),
            attr.width == AccessWidth::Word,
            attr.atype == AccessType::Store,
        ensures
            MemMap::write_u32_post(*old(self), *final(self), addr, val, attr, r),
            final(self).wf(),
    {
        proof {
            lemma_sub_keeps_alignment(self.ram_base, addr, self.ram.contents().len() as u64);
            lemma_sub_keeps_alignment(self.time_base, addr, 8);
            lemma_sub_keeps_alignment(self.timecmp_base, addr, 8);
        }
        let tgt = match self.check_and_translate(addr, attr) {
            Ok(t) => t,
            Err(e) => {
                return Err(e);
            }
        };
        match tgt {
            MemTarget::Ram(ram_addr) => {
                self.clear_reservation_if_matched(addr);
                self.ram.set_byte(ram_addr, byte_of(val, 0));
                self.ram.set_byte(ram_addr + 1, byte_of(val, 1));
                self.ram.set_byte(ram_addr + 2, byte_of(val, 2));
                self.ram.set_byte(ram_addr + 3, byte_of(val, 3));
                Ok(())
            }
            MemTarget::Time(time_addr) => {
                self.timer.write_time(time_addr, val);
                Ok(())
            }
            MemTarget::TimeCmp(timecmp_addr) => {
                self.timer.write_timecmp(timecmp_addr, val);
                Ok(())
            }
            MemTarget::Uart(_) => unreached(),
            MemTarget::Dtb(_) => unreached(),
        }
    }

    // Reservation
    pub fn reserve(&mut self, addr: u64)
        ensures
            final(self).reserved_word == Some(addr >> 2),
            *final(self) == (MemMap { reserved_word: Some(addr >> 2), ..*old(self) }),
    {
        self.reserved_word = Some(addr >> 2);
    }

    pub fn is_reserved(&self, addr: u64) -> (r: bool)
        ensures
            r == (self.reserved_word == Some(addr >> 2)),
    {
        match self.reserved_word {
            Some(word) => word == addr >> 2,
            None => false,
        }
    }

    pub fn clear_reservation(&mut self)
        ensures
            final(self).reserved_word is None,
            *final(self) == (MemMap { reserved_word: None, ..*old(self) }),
    {
        self.reserved_word = None;
    }

    pub fn clear_reservation_if_matched(&mut self, addr: u64)
        ensures
            final(self).reserved_word == rsv_after_store(old(self).reserved_word, addr),
            *final(self) == (MemMap { reserved_word: final(self).reserved_word, ..*old(self) }),
    {
        match self.reserved_word {
            Some(word) => {
                if word == addr >> 2 {
                    self.reserved_word = None;
                }
            }
            None => {}
        }
    }
}

fn check_misaligned(addr: u64, attr: AccessAttr) -> (r: Result<(), Exception>)
    ensures
        r == if aligned_to(addr, attr.width) {
            Ok::<(), Exception>(())
        } else {
            Err::<(), Exception>(spec_misaligned_fault(attr.atype))
        },
{
    match attr.width {
        AccessWidth::HalfWord => {
            if addr % 2 != 0 {
                Err(misaligned_fault(attr.atype))
            } else {
                Ok(())
            }
        }
        AccessWidth::Word => {
            if addr % 4 != 0 {
                Err(misaligned_fault(attr.atype))
            } else {
                Ok(())
            }
        }
        _ => Ok(()),
    }
}

fn check_only_width(attr: AccessAttr, width: AccessWidth) -> (r: Result<(), Exception>)
    ensures
        r == if attr.width != width {
            Err::<(), Exception>(spec_access_fault(attr.atype))
        } else {
            Ok::<(), Exception>(())
        },
{
    if attr.width != width {
        Err(access_fault(attr.atype))
    } else {
        Ok(())
    }
}

fn check_no_lrsc(attr: AccessAttr) -> (r: Result<(), Exception>)
    ensures
        r == if attr.lrsc {
            Err::<(), Exception>(spec_access_fault(attr.atype))
        } else {
            Ok::<(), Exception>(())
        },
{
    if attr.lrsc {
        Err(access_fault(attr.atype))
    } else {
        Ok(())
    }
}

fn check_no_amo(attr: AccessAttr) -> (r: Result<(), Exception>)
    ensures
        r == if attr.amo {
            Err::<(), Exception>(spec_access_fault(attr.atype))
        } else {
            Ok::<(), Exception>(())
        },
{
    if attr.amo {
        Err(access_fault(attr.atype))
    } else {
        Ok(())
    }
}

fn check_read_only(attr: AccessAttr) -> (r: Result<(), Exception>)
    ensures
        r == if attr.atype != AccessType::Load {
            Err::<(), Exception>(spec_access_fault(attr.atype))
        } else {
            Ok::<(), Exception>(())
        },
{
    if attr.atype != AccessType::Load {
        Err(access_fault(attr.atype))
    } else {
        Ok(())
    }
}

fn check_read_write(attr: AccessAttr) -> (r: Result<(), Exception>)
    ensures
        r == if attr.atype == AccessType::Instr {
            Err::<(), Exception>(spec_access_fault(attr.atype))
        } else {
            Ok::<(), Exception>(())
        },
{
    if attr.atype == AccessType::Instr {
        Err(access_fault(attr.atype))
    } else {
        Ok(())
    }
}

/// An aligned address in an aligned region leaves an aligned offset that,
/// with the whole access inside the region, keeps every accessed byte in
/// bounds.
proof fn lemma_sub_keeps_alignment(base: u64, addr: u64, len: u64)
    requires
        base % 4 == 0,
        len % 4 == 0,
    ensures
        base <= addr && addr % 2 == 0 ==> (addr - base) % 2 == 0,
        base <= addr && addr % 4 == 0 ==> (addr - base) % 4 == 0,
        base <= addr < base + len && (addr - base) % 2 == 0 ==> addr - base + 2 <= len,
        base <= addr < base + len && (addr - base) % 4 == 0 ==> addr - base + 4 <= len,
{
    assert(base % 2 == 0 && len % 2 == 0) by (nonlinear_arith)
        requires
            base % 4 == 0 && len % 4 == 0,
    ;
    assert(base <= addr && addr % 2 == 0 ==> (addr - base) % 2 == 0) by (nonlinear_arith)
        requires
            base % 2 == 0,
    ;
    assert(base <= addr && addr % 4 == 0 ==> (addr - base) % 4 == 0) by (nonlinear_arith)
        requires
            base % 4 == 0,
    ;
    if base <= addr < base + len {
        let o = addr - base;
        assert(o % 2 == 0 && len % 2 == 0 ==> o + 2 <= len) by (nonlinear_arith)
            requires
                0 <= o < len,
        ;
        assert(o % 4 == 0 && len % 4 == 0 ==> o + 4 <= len) by (nonlinear_arith)
            requires
                0 <= o < len,
        ;
    }
}

/// Round-trip through the map: a word store into RAM followed by a word load
/// of the same physical address yields the stored value; the same holds for
/// half-words at 2-aligned and bytes at any RAM address.
pub proof fn lemma_map_roundtrip_u32(o: MemMap, n: MemMap, addr: u64, val: u32, st: AccessAttr, ld: AccessAttr)
    requires
        o.wf(),
        st.atype == AccessType::Store && st.width == AccessWidth::Word,
        ld.atype == AccessType::Load && ld.width == AccessWidth::Word && !ld.lrsc && !ld.amo,
        o.target_of(addr, st) matches Ok(t) && t is Ram,
        MemMap::write_u32_post(o, n, addr, val, st, Ok::<(), Exception>(())),
    ensures
        n.target_of(addr, ld) == o.target_of(addr, st),
        MemMap::read_u32_post(n, n, addr, ld, Ok::<u32, Exception>(val)),
{
    crate::arith::lemma_le32_roundtrip(val);
}

pub proof fn lemma_map_roundtrip_u16(o: MemMap, n: MemMap, addr: u64, val: u16, st: AccessAttr, ld: AccessAttr)
    requires
        o.wf(),
        st.atype == AccessType::Store && st.width == AccessWidth::HalfWord,
        ld.atype == AccessType::Load && ld.width == AccessWidth::HalfWord && !ld.lrsc && !ld.amo,
        o.target_of(addr, st) matches Ok(t) && t is Ram,
        MemMap::write_u16_post(o, n, addr, val, st, Ok::<(), Exception>(())),
    ensures
        n.target_of(addr, ld) == o.target_of(addr, st),
        MemMap::read_u16_post(n, n, addr, ld, Ok::<u16, Exception>(val)),
{
    crate::arith::lemma_le16_roundtrip(val);
}

pub proof fn lemma_map_roundtrip_u8(o: MemMap, n: MemMap, addr: u64, val: u8, st: AccessAttr, ld: AccessAttr)
    requires
        o.wf(),
        st.atype == AccessType::Store && st.width == AccessWidth::Byte,
        ld.atype == AccessType::Load && ld.width == AccessWidth::Byte && !ld.lrsc && !ld.amo,
        o.target_of(addr, st) matches Ok(t) && t is Ram,
        MemMap::write_u8_post(o, n, addr, val, st, Ok::<(), Exception>(())),
    ensures
        n.target_of(addr, ld) == o.target_of(addr, st),
        MemMap::read_u8_post(n, n, addr, ld, Ok::<u8, Exception>(val)),
{
}

} // verus!
