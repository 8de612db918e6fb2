//! Flat-memory tests: bounds, alignment, little-endian access, and the
//! LR/SC reservation.
use rand::Rng;
use riscv_sim::sys::mem::Memory;
use riscv_sim::{Exception, Trap};

const MEM_SIZE: u32 = 0x400;
const MASK: u32 = 0xffff_fffc;

fn trap(ex: Exception, addr: u32) -> Trap {
    Trap::from_exception(ex, addr)
}

#[test]
fn mem_test_u8_write() {
    let mut mem = Memory::new(MEM_SIZE as usize);  // 1 kB

    for _ in 0..10 {
        let addr = rand::thread_rng().gen_range(0..MEM_SIZE) & MASK;
        let data: u8 = rand::random();
        mem.write_u8(addr, data).unwrap();
        assert_eq!(mem.read_u8(addr).unwrap(), data);
    }
}

#[test]
fn mem_test_u16_write() {
    let mut mem = Memory::new(MEM_SIZE as usize);  // 1 kB

    for _ in 0..10 {
        let addr = rand::thread_rng().gen_range(0..MEM_SIZE) & MASK;
        let data: u16 = rand::random();
        mem.write_u16(addr, data).unwrap();
        let bytes = data.to_le_bytes();
        assert_eq!(mem.read_u8(addr).unwrap(), bytes[0]);
        assert_eq!(mem.read_u8(addr + 1).unwrap(), bytes[1]);
    }
}

#[test]
fn mem_test_u32_write() {
    let mut mem = Memory::new(MEM_SIZE as usize);  // 1 kB

    for _ in 0..10 {
        let addr = rand::thread_rng().gen_range(0..MEM_SIZE) & MASK;
        let data: u32 = rand::random();
        mem.write_u32(addr, data).unwrap();
        let bytes = data.to_le_bytes();
        assert_eq!(mem.read_u8(addr).unwrap(), bytes[0]);
        assert_eq!(mem.read_u8(addr + 1).unwrap(), bytes[1]);
        assert_eq!(mem.read_u8(addr + 2).unwrap(), bytes[2]);
        assert_eq!(mem.read_u8(addr + 3).unwrap(), bytes[3]);
    }
}

#[test]
fn mem_test_u16_read() {
    let mut mem = Memory::new(MEM_SIZE as usize);  // 1 kB

    for _ in 0..10 {
        let addr = rand::thread_rng().gen_range(0..MEM_SIZE) & MASK;
        let data: u16 = rand::random();
        let bytes = data.to_le_bytes();
        mem.write_u8(addr, bytes[0]).unwrap();
        mem.write_u8(addr + 1, bytes[1]).unwrap();
        assert_eq!(mem.read_u16(addr).unwrap(), data);
    }
}

#[test]
fn mem_test_u32_read() {
    let mut mem = Memory::new(MEM_SIZE as usize);  // 1 kB

    for _ in 0..10 {
        let addr = rand::thread_rng().gen_range(0..MEM_SIZE) & MASK;
        let data: u32 = rand::random();
        let bytes = data.to_le_bytes();
        mem.write_u8(addr, bytes[0]).unwrap();
        mem.write_u8(addr + 1, bytes[1]).unwrap();
        mem.write_u8(addr + 2, bytes[2]).unwrap();
        mem.write_u8(addr + 3, bytes[3]).unwrap();
        assert_eq!(mem.read_u32(addr).unwrap(), data);
    }
}

#[test]
fn mem_test_read_fault() {
    let mem = Memory::new(MEM_SIZE as usize);  // 1 kB

    assert_eq!(mem.read_u8(MEM_SIZE).unwrap_err(), trap(Exception::LoadAccessFault, MEM_SIZE));
    assert_eq!(mem.read_u8(0xffff_ffff).unwrap_err(), trap(Exception::LoadAccessFault, 0xffff_ffff));

    assert_eq!(mem.read_u16(MEM_SIZE).unwrap_err(), trap(Exception::LoadAccessFault, MEM_SIZE));
    assert_eq!(mem.read_u16(0xffff_ffff).unwrap_err(), trap(Exception::LoadAccessFault, 0xffff_ffff));

    assert_eq!(mem.read_u32(MEM_SIZE).unwrap_err(), trap(Exception::LoadAccessFault, MEM_SIZE));
    assert_eq!(mem.read_u32(0xffff_ffff).unwrap_err(), trap(Exception::LoadAccessFault, 0xffff_ffff));
}

#[test]
fn mem_test_read_misaligned() {
    let mem = Memory::new(MEM_SIZE as usize);  // 1 kB

    assert_eq!(mem.read_u16(1).unwrap_err(), trap(Exception::LoadAddrMisaligned, 1));
    assert_eq!(mem.read_u16(3).unwrap_err(), trap(Exception::LoadAddrMisaligned, 3));

    assert_eq!(mem.read_u16(MEM_SIZE + 1).unwrap_err(), trap(Exception::LoadAccessFault, MEM_SIZE + 1));
    assert_eq!(mem.read_u16(MEM_SIZE + 3).unwrap_err(), trap(Exception::LoadAccessFault, MEM_SIZE + 3));

    assert_eq!(mem.read_u32(1).unwrap_err(), trap(Exception::LoadAddrMisaligned, 1));
    assert_eq!(mem.read_u32(2).unwrap_err(), trap(Exception::LoadAddrMisaligned, 2));
    assert_eq!(mem.read_u32(3).unwrap_err(), trap(Exception::LoadAddrMisaligned, 3));

    assert_eq!(mem.read_u32(MEM_SIZE + 1).unwrap_err(), trap(Exception::LoadAccessFault, MEM_SIZE + 1));
    assert_eq!(mem.read_u32(MEM_SIZE + 2).unwrap_err(), trap(Exception::LoadAccessFault, MEM_SIZE + 2));
    assert_eq!(mem.read_u32(MEM_SIZE + 3).unwrap_err(), trap(Exception::LoadAccessFault, MEM_SIZE + 3));
}

#[test]
fn mem_test_write_fault() {
    let mut mem = Memory::new(MEM_SIZE as usize);  // 1 kB

    assert_eq!(mem.write_u8(MEM_SIZE, 0).unwrap_err(), trap(Exception::StoreAccessFault, MEM_SIZE));
    assert_eq!(mem.write_u8(0xffff_ffff, 0).unwrap_err(), trap(Exception::StoreAccessFault, 0xffff_ffff));

    assert_eq!(mem.write_u16(MEM_SIZE, 0).unwrap_err(), trap(Exception::StoreAccessFault, MEM_SIZE));
    assert_eq!(mem.write_u16(0xffff_ffff, 0).unwrap_err(), trap(Exception::StoreAccessFault, 0xffff_ffff));

    assert_eq!(mem.write_u32(MEM_SIZE, 0).unwrap_err(), trap(Exception::StoreAccessFault, MEM_SIZE));
    assert_eq!(mem.write_u32(0xffff_ffff, 0).unwrap_err(), trap(Exception::StoreAccessFault, 0xffff_ffff));
}

#[test]
fn mem_test_write_misaligned() {
    let mut mem = Memory::new(MEM_SIZE as usize);  // 1 kB

    assert_eq!(mem.write_u16(1, 0).unwrap_err(), trap(Exception::StoreAddrMisaligned, 1));
    assert_eq!(mem.write_u16(3, 0).unwrap_err(), trap(Exception::StoreAddrMisaligned, 3));

    assert_eq!(mem.write_u16(MEM_SIZE + 1, 0).unwrap_err(), trap(Exception::StoreAccessFault, MEM_SIZE + 1));
    assert_eq!(mem.write_u16(MEM_SIZE + 3, 0).unwrap_err(), trap(Exception::StoreAccessFault, MEM_SIZE + 3));

    assert_eq!(mem.write_u32(1, 0).unwrap_err(), trap(Exception::StoreAddrMisaligned, 1));
    assert_eq!(mem.write_u32(2, 0).unwrap_err(), trap(Exception::StoreAddrMisaligned, 2));
    assert_eq!(mem.write_u32(3, 0).unwrap_err(), trap(Exception::StoreAddrMisaligned, 3));

    assert_eq!(mem.write_u32(MEM_SIZE + 1, 0).unwrap_err(), trap(Exception::StoreAccessFault, MEM_SIZE + 1));
    assert_eq!(mem.write_u32(MEM_SIZE + 2, 0).unwrap_err(), trap(Exception::StoreAccessFault, MEM_SIZE + 2));
    assert_eq!(mem.write_u32(MEM_SIZE + 3, 0).unwrap_err(), trap(Exception::StoreAccessFault, MEM_SIZE + 3));
}

#[test]
fn mem_test_exec_fault() {
    let mem = Memory::new(MEM_SIZE as usize);  // 1 kB

    assert_eq!(mem.fetch(MEM_SIZE).unwrap_err(), trap(Exception::InstrAccessFault, MEM_SIZE));
    assert_eq!(mem.fetch(0xffff_ffff).unwrap_err(), trap(Exception::InstrAccessFault, 0xffff_ffff));
}

#[test]
fn mem_test_exec_misaligned() {
    let mem = Memory::new(MEM_SIZE as usize);  // 1 kB

    assert_eq!(mem.fetch(1).unwrap_err(), trap(Exception::InstrAddrMisaligned, 1));
    assert_eq!(mem.fetch(2).unwrap_err(), trap(Exception::InstrAddrMisaligned, 2));
    assert_eq!(mem.fetch(3).unwrap_err(), trap(Exception::InstrAddrMisaligned, 3));

    assert_eq!(mem.fetch(MEM_SIZE + 1).unwrap_err(), trap(Exception::InstrAccessFault, MEM_SIZE + 1));
    assert_eq!(mem.fetch(MEM_SIZE + 2).unwrap_err(), trap(Exception::InstrAccessFault, MEM_SIZE + 2));
    assert_eq!(mem.fetch(MEM_SIZE + 3).unwrap_err(), trap(Exception::InstrAccessFault, MEM_SIZE + 3));
}

fn assert_word_reserved(mem: &Memory, addr: u32, expect: bool) {
    assert_eq!(mem.is_reserved(addr), expect);
    assert_eq!(mem.is_reserved(addr + 1), expect);
    assert_eq!(mem.is_reserved(addr + 2), expect);
    assert_eq!(mem.is_reserved(addr + 3), expect);
}

#[test]
fn mem_test_reserve() {
    let mut mem = Memory::new(MEM_SIZE as usize);  // 1 kB

    for i in 0..=3 {
        mem.reserve(i);
        assert_word_reserved(&mem, 0, true);
        assert!(!mem.is_reserved(4));
        assert!(!mem.is_reserved(u32::MAX));
    }
}

#[test]
fn mem_test_double_reserve() {
    let mut mem = Memory::new(MEM_SIZE as usize);  // 1 kB

    for i in 0..=3 {
        mem.reserve(i);
        mem.reserve(4 + i);
        assert_word_reserved(&mem, 0, false);
        assert_word_reserved(&mem, 4, true);
    }
}

#[test]
fn mem_test_clear_reservation() {
    let mut mem = Memory::new(MEM_SIZE as usize);  // 1 kB

    for i in 0..=3 {
        mem.reserve(i);
        mem.clear_reservation();
        assert_word_reserved(&mem, 0, false);
    }
}

#[test]
fn mem_test_clear_reservation_if_matched() {
    let mut mem = Memory::new(MEM_SIZE as usize);  // 1 kB

    for i in 0..=3 {
        for j in 0..=3 {
            mem.reserve(i);
            mem.clear_reservation_if_matched(j);
            assert_word_reserved(&mem, 0, false);
        }
    }
}

#[test]
fn mem_test_keep_reservation_if_not_matched() {
    let mut mem = Memory::new(MEM_SIZE as usize);  // 1 kB

    for i in 0..=3 {
        for j in 0..=3 {
            mem.reserve(i);
            mem.clear_reservation_if_matched(4 + j);
            assert_word_reserved(&mem, 0, true);
        }
    }
}

#[test]
fn mem_test_clear_reservation_on_write_u8() {
    let mut mem = Memory::new(MEM_SIZE as usize);  // 1 kB

    for i in 0..=3 {
        for j in 0..=3 {
            mem.reserve(i);
            mem.write_u8(j, 0).unwrap();
            assert_word_reserved(&mem, 0, false);
        }
    }
}

#[test]
fn mem_test_clear_reservation_on_write_u16() {
    let mut mem = Memory::new(MEM_SIZE as usize);  // 1 kB

    for i in 0..=3 {
        for j in 0..=1 {
            mem.reserve(i);
            mem.write_u16(2 * j, 0).unwrap();
            assert_word_reserved(&mem, 0, false);
        }
    }
}

#[test]
fn mem_test_clear_reservation_on_write_u32() {
    let mut mem = Memory::new(MEM_SIZE as usize);  // 1 kB

    for i in 0..=3 {
        mem.reserve(i);
        mem.write_u32(0, 0).unwrap();
        assert_word_reserved(&mem, 0, false);
    }
}

#[test]
fn mem_test_keep_reservation_if_write_elsewhere() {
    let mut mem = Memory::new(MEM_SIZE as usize);  // 1 kB

    for i in 0..=3 {
        for j in 0..=3 {
            mem.reserve(i);
            mem.write_u8(4 + j, 0).unwrap();
            assert_word_reserved(&mem, 0, true);
        }
    }
}
