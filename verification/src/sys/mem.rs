//! A flat byte memory with bounds and alignment checking, little-endian
//! multi-byte access, and the single LR/SC reservation word.
use vstd::prelude::*;

verus! {

use crate::arith::{le16, le32, byte_of, le_byte, u16_of_le, u32_of_le};
use crate::trap::{Exception, Trap};

#[derive(Debug)]
pub struct Memory {
    pub buf: Vec<u8>,
    pub reserved_word: Option<u32>,  // For atomic lr/sc
}

/// What remains of a reservation after a store to `addr`: a store into the
/// reserved word clears it.
pub open spec fn rsv_after_store(rsv: Option<u32>, addr: u32) -> Option<u32> {
    match rsv {
        Some(w) => if w == addr >> 2 {
            None
        } else {
            Some(w)
        },
        None => None,
    }
}

impl Memory {
    /// The byte contents.
    pub open spec fn contents(self) -> Seq<u8> {
        self.buf@
    }

    /// The buffer holds whole words, so an aligned access never runs off the
    /// end.
    pub open spec fn wf(self) -> bool {
        self.buf@.len() % 4 == 0
    }

    pub fn new(size: usize) -> (r: Memory)
        requires
            size % 4 == 0,
        ensures
            r.wf(),
            r.contents().len() == size,
            forall|i: int| 0 <= i < size ==> r.contents()[i] == 0,
            r.reserved_word is None,
    {
        let mut buf: Vec<u8> = Vec::new();
        let mut i: usize = 0;
        while i < size
            invariant
                i <= size,
                buf@.len() == i,
                forall|j: int| 0 <= j < i ==> buf@[j] == 0,
            decreases size - i,
        {
            buf.push(0);
            i = i + 1;
        }
        Memory { buf, reserved_word: None }
    }

    pub fn as_u8(&self) -> (r: &[u8])
        ensures
            r@ == self.contents(),
    {
        self.buf.as_slice()
    }

    pub fn size(&self) -> (r: usize)
        ensures
            r == self.contents().len(),
    {
        self.buf.len()
    }

    // Read
    pub fn read_u8(&self, addr: u32) -> (r: Result<u8, Trap>)
        ensures
            r == if addr < self.contents().len() {
                Ok::<u8, Trap>(self.contents()[addr as int])
            } else {
                Err::<u8, Trap>(Trap::from_exception(Exception::LoadAccessFault, addr))
            },
    {
        let addr = addr as usize;
        if addr >= self.buf.len() {
            Err(Trap::from_exception(Exception::LoadAccessFault, addr as u32))
        } else {
            Ok(self.buf[addr])
        }
    }

    pub fn read_u16(&self, addr: u32) -> (r: Result<u16, Trap>)
        requires
            self.wf(),
        ensures
            r == self.spec_read_u16(addr),
    {
        let addr = addr as usize;
        if addr >= self.buf.len() {
            Err(Trap::from_exception(Exception::LoadAccessFault, addr as u32))
        } else if addr % 2 != 0 {
            Err(Trap::from_exception(Exception::LoadAddrMisaligned, addr as u32))
        } else {
            Ok(le16(self.buf[addr], self.buf[addr + 1]))
        }
    }

    /// A half-word load: bounds first, then alignment, then the two bytes in
    /// little-endian order.
    pub open spec fn spec_read_u16(self, addr: u32) -> Result<u16, Trap> {
        if addr >= self.contents().len() {
            Err(Trap::from_exception(Exception::LoadAccessFault, addr))
        } else if addr % 2 != 0 {
            Err(Trap::from_exception(Exception::LoadAddrMisaligned, addr))
        } else {
            Ok(u16_of_le(self.contents()[addr as int], self.contents()[addr as int + 1]))
        }
    }

    pub fn read_u32(&self, addr: u32) -> (r: Result<u32, Trap>)
        requires
            self.wf(),
        ensures
            r == self.spec_read_u32(addr),
    {
        let addr = addr as usize;
        if addr >= self.buf.len() {
            Err(Trap::from_exception(Exception::LoadAccessFault, addr as u32))
        } else if addr % 4 != 0 {
            Err(Trap::from_exception(Exception::LoadAddrMisaligned, addr as u32))
        } else {
            Ok(
                le32(
                    self.buf[addr],
                    self.buf[addr + 1],
                    self.buf[addr + 2],
                    self.buf[addr + 3],
                ),
            )
        }
    }

    /// A word load: bounds first, then alignment, then the four bytes in
    /// little-endian order.
    pub open spec fn spec_read_u32(self, addr: u32) -> Result<u32, Trap> {
        if addr >= self.contents().len() {
            Err(Trap::from_exception(Exception::LoadAccessFault, addr))
        } else if addr % 4 != 0 {
            Err(Trap::from_exception(Exception::LoadAddrMisaligned, addr))
        } else {
            Ok(
                u32_of_le(
                    self.contents()[addr as int],
                    self.contents()[addr as int + 1],
                    self.contents()[addr as int + 2],
                    self.contents()[addr as int + 3],
                ),
            )
        }
    }

    // Write (also clears a matching reservation)
    pub fn write_u8(&mut self, addr: u32, val: u8) -> (r: Result<(), Trap>)
        requires
            old(self).wf(),
        ensures
            final(self).wf(),
            addr < old(self).contents().len() ==> {
                &&& r is Ok
                &&& final(self).contents() == old(self).contents().update(addr as int, val)
                &&& final(self).reserved_word == rsv_after_store(old(self).reserved_word, addr)
            },
            addr >= old(self).contents().len() ==> {
                &&& r == Err::<(), Trap>(Trap::from_exception(Exception::StoreAccessFault, addr))
                &&& *final(self) == *old(self)
            },
    {
        let addr = addr as usize;
        if addr >= self.buf.len() {
            Err(Trap::from_exception(Exception::StoreAccessFault, addr as u32))
        } else {
            self.buf[addr] = val;
            self.clear_reservation_if_matched(addr as u32);
            Ok(())
        }
    }

    pub fn write_u16(&mut self, addr: u32, val: u16) -> (r: Result<(), Trap>)
        requires
            old(self).wf(),
        ensures
            final(self).wf(),
            addr < old(self).contents().len() && addr % 2 == 0 ==> {
                &&& r is Ok
                &&& final(self).contents() == old(self).contents().update(
                    addr as int,
                    (val % 0x100) as u8,
                ).update(addr as int + 1, (val / 0x100) as u8)
                &&& final(self).reserved_word == rsv_after_store(old(self).reserved_word, addr)
            },
            addr >= old(self).contents().len() ==> {
                &&& r == Err::<(), Trap>(Trap::from_exception(Exception::StoreAccessFault, addr))
                &&& *final(self) == *old(self)
            },
            addr < old(self).contents().len() && addr % 2 != 0 ==> {
                &&& r == Err::<(), Trap>(Trap::from_exception(Exception::StoreAddrMisaligned, addr))
                &&& *final(self) == *old(self)
            },
    {
        let addr = addr as usize;
        if addr >= self.buf.len() {
            Err(Trap::from_exception(Exception::StoreAccessFault, addr as u32))
        } else if addr % 2 != 0 {
            Err(Trap::from_exception(Exception::StoreAddrMisaligned, addr as u32))
        } else {
            self.buf[addr] = (val % 0x100) as u8;
            self.buf[addr + 1] = (val / 0x100) as u8;
            self.clear_reservation_if_matched(addr as u32);
            Ok(())
        }
    }

    pub fn write_u32(&mut self, addr: u32, val: u32) -> (r: Result<(), Trap>)
        requires
            old(self).wf(),
        ensures
            final(self).wf(),
            addr < old(self).contents().len() && addr % 4 == 0 ==> {
                &&& r is Ok
                &&& final(self).contents() == old(self).contents().update(
                    addr as int,
                    le_byte(val, 0),
                ).update(addr as int + 1, le_byte(val, 1)).update(
                    addr as int + 2,
                    le_byte(val, 2),
                ).update(addr as int + 3, le_byte(val, 3))
                &&& final(self).reserved_word == rsv_after_store(old(self).reserved_word, addr)
            },
            addr >= old(self).contents().len() ==> {
                &&& r == Err::<(), Trap>(Trap::from_exception(Exception::StoreAccessFault, addr))
                &&& *final(self) == *old(self)
            },
            addr < old(self).contents().len() && addr % 4 != 0 ==> {
                &&& r == Err::<(), Trap>(Trap::from_exception(Exception::StoreAddrMisaligned, addr))
                &&& *final(self) == *old(self)
            },
    {
        let addr = addr as usize;
        if addr >= self.buf.len() {
            Err(Trap::from_exception(Exception::StoreAccessFault, addr as u32))
        } else if addr % 4 != 0 {
            Err(Trap::from_exception(Exception::StoreAddrMisaligned, addr as u32))
        } else {
            self.buf[addr] = byte_of(val, 0);
            self.buf[addr + 1] = byte_of(val, 1);
            self.buf[addr + 2] = byte_of(val, 2);
            self.buf[addr + 3] = byte_of(val, 3);
            self.clear_reservation_if_matched(addr as u32);
            Ok(())
        }
    }

    /// The checks of a word store without its effect, for a store-conditional
    /// that fails its reservation but must still fault where a store would.
    pub fn check_write_u32(&self, addr: u32) -> (r: Result<(), Trap>)
        ensures
            r == if addr >= self.contents().len() {
                Err::<(), Trap>(Trap::from_exception(Exception::StoreAccessFault, addr))
            } else if addr % 4 != 0 {
                Err::<(), Trap>(Trap::from_exception(Exception::StoreAddrMisaligned, addr))
            } else {
                Ok::<(), Trap>(())
            },
    {
        let addr = addr as usize;
        if addr >= self.buf.len() {
            Err(Trap::from_exception(Exception::StoreAccessFault, addr as u32))
        } else if addr % 4 != 0 {
            Err(Trap::from_exception(Exception::StoreAddrMisaligned, addr as u32))
        } else {
            Ok(())
        }
    }

    // Instruction fetch
    pub fn fetch(&self, addr: u32) -> (r: Result<u32, Trap>)
        requires
            self.wf(),
        ensures
            r == self.spec_fetch(addr),
    {
        let addr = addr as usize;
        if addr >= self.buf.len() {
            Err(Trap::from_exception(Exception::InstrAccessFault, addr as u32))
        } else if addr % 4 != 0 {
            Err(Trap::from_exception(Exception::InstrAddrMisaligned, addr as u32))
        } else {
            Ok(
                le32(
                    self.buf[addr],
                    self.buf[addr + 1],
                    self.buf[addr + 2],
                    self.buf[addr + 3],
                ),
            )
        }
    }

    /// A word fetch: as a word load, with instruction fault kinds.
    pub open spec fn spec_fetch(self, addr: u32) -> Result<u32, Trap> {
        if addr >= self.contents().len() {
            Err(Trap::from_exception(Exception::InstrAccessFault, addr))
        } else if addr % 4 != 0 {
            Err(Trap::from_exception(Exception::InstrAddrMisaligned, addr))
        } else {
            Ok(
                u32_of_le(
                    self.contents()[addr as int],
                    self.contents()[addr as int + 1],
                    self.contents()[addr as int + 2],
                    self.contents()[addr as int + 3],
                ),
            )
        }
    }

    // Reservation
    pub fn reserve(&mut self, addr: u32)
        ensures
            final(self).reserved_word == Some(addr >> 2),
            final(self).buf@ == old(self).buf@,
    {
        self.reserved_word = Some(addr >> 2);
    }

    pub fn is_reserved(&self, addr: u32) -> (r: bool)
        ensures
            r == (self.reserved_word == Some(addr >> 2)),
    {
        match self.reserved_word {
            Some(word) => word == addr >> 2,
            None => false,
        }
    }

    pub fn clear_reservation(&mut self)
        ensures
            final(self).reserved_word is None,
            final(self).buf@ == old(self).buf@,
    {
        self.reserved_word = None;
    }

    pub fn clear_reservation_if_matched(&mut self, addr: u32)
        ensures
            final(self).reserved_word == rsv_after_store(old(self).reserved_word, addr),
            final(self).buf@ == old(self).buf@,
    {
        match self.reserved_word {
            Some(word) => {
                if word == addr >> 2 {
                    self.reserved_word = None;
                }
            }
            None => {}
        }
    }
}

/// Round-trip: an aligned word store followed by a word load of the same
/// address yields the stored value; the half-word and byte stores do the
/// same at their widths.
pub proof fn lemma_mem_roundtrip(m1: Memory, m2: Memory, addr: u32, val: u32)
    requires
        m1.wf(),
        addr < m1.contents().len(),
        addr % 4 == 0,
        m2.wf(),
        m2.contents() == m1.contents().update(addr as int, le_byte(val, 0)).update(
            addr as int + 1,
            le_byte(val, 1),
        ).update(addr as int + 2, le_byte(val, 2)).update(addr as int + 3, le_byte(val, 3)),
    ensures
        m2.spec_read_u32(addr) == Ok::<u32, Trap>(val),
{
    crate::arith::lemma_le32_roundtrip(val);
}

/// The half-word round-trip at a 2-aligned address.
pub proof fn lemma_mem_roundtrip_u16(m1: Memory, m2: Memory, addr: u32, val: u16)
    requires
        m1.wf(),
        addr < m1.contents().len(),
        addr % 2 == 0,
        m2.wf(),
        m2.contents() == m1.contents().update(addr as int, (val % 0x100) as u8).update(
            addr as int + 1,
            (val / 0x100) as u8,
        ),
    ensures
        m2.spec_read_u16(addr) == Ok::<u16, Trap>(val),
{
    crate::arith::lemma_le16_roundtrip(val);
}

/// The byte round-trip at any in-range address.
pub proof fn lemma_mem_roundtrip_u8(m1: Memory, m2: Memory, addr: u32, val: u8)
    requires
        m1.wf(),
        addr < m1.contents().len(),
        m2.wf(),
        m2.contents() == m1.contents().update(addr as int, val),
    ensures
        m2.contents()[addr as int] == val,
{
}

} // verus!
