//! Memory-map tests: region dispatch, per-region rules, the reservation,
//! and the timer registers.
use rand::Rng;
use riscv_sim::sys::mem_map::{AccessAttr, AccessType, AccessWidth, MemMap};
use riscv_sim::sys::mem_map::timer::Timer;
use riscv_sim::Exception;

const MEM_SIZE: u64 = 0x400;
const MASK: u64 = !0b11;

fn load_attr(width: AccessWidth) -> AccessAttr {
    AccessAttr { width, atype: AccessType::Load, amo: false, lrsc: false }
}

fn store_attr(width: AccessWidth) -> AccessAttr {
    AccessAttr { width, atype: AccessType::Store, amo: false, lrsc: false }
}

fn instr_attr() -> AccessAttr {
    AccessAttr { width: AccessWidth::Word, atype: AccessType::Instr, amo: false, lrsc: false }
}

#[test]
fn mem_map_test_u8_write() {
    let mut mem = MemMap::new(MEM_SIZE as usize);  // 1 kB

    for _ in 0..10 {
        let addr = rand::thread_rng().gen_range(0..MEM_SIZE) & MASK;
        let data: u8 = rand::random();
        mem.write_u8(addr, data, store_attr(AccessWidth::Byte)).unwrap();
        assert_eq!(mem.read_u8(addr, load_attr(AccessWidth::Byte)).unwrap(), data);
    }
}

#[test]
fn mem_map_test_u16_write() {
    let mut mem = MemMap::new(MEM_SIZE as usize);  // 1 kB

    for _ in 0..10 {
        let addr = rand::thread_rng().gen_range(0..MEM_SIZE) & MASK;
        let data: u16 = rand::random();
        mem.write_u16(addr, data, store_attr(AccessWidth::HalfWord)).unwrap();
        let bytes = data.to_le_bytes();
        assert_eq!(mem.read_u8(addr, load_attr(AccessWidth::Byte)).unwrap(), bytes[0]);
        assert_eq!(mem.read_u8(addr + 1, load_attr(AccessWidth::Byte)).unwrap(), bytes[1]);
    }
}

#[test]
fn mem_map_test_u32_write() {
    let mut mem = MemMap::new(MEM_SIZE as usize);  // 1 kB

    for _ in 0..10 {
        let addr = rand::thread_rng().gen_range(0..MEM_SIZE) & MASK;
        let data: u32 = rand::random();
        mem.write_u32(addr, data, store_attr(AccessWidth::Word)).unwrap();
        let bytes = data.to_le_bytes();
        assert_eq!(mem.read_u8(addr, load_attr(AccessWidth::Byte)).unwrap(), bytes[0]);
        assert_eq!(mem.read_u8(addr + 1, load_attr(AccessWidth::Byte)).unwrap(), bytes[1]);
        assert_eq!(mem.read_u8(addr + 2, load_attr(AccessWidth::Byte)).unwrap(), bytes[2]);
        assert_eq!(mem.read_u8(addr + 3, load_attr(AccessWidth::Byte)).unwrap(), bytes[3]);
    }
}

#[test]
fn mem_map_test_u16_read() {
    let mut mem = MemMap::new(MEM_SIZE as usize);  // 1 kB

    for _ in 0..10 {
        let addr = rand::thread_rng().gen_range(0..MEM_SIZE) & MASK;
        let data: u16 = rand::random();
        let bytes = data.to_le_bytes();
        mem.write_u8(addr, bytes[0], store_attr(AccessWidth::Byte)).unwrap();
        mem.write_u8(addr + 1, bytes[1], store_attr(AccessWidth::Byte)).unwrap();
        assert_eq!(mem.read_u16(addr, load_attr(AccessWidth::HalfWord)).unwrap(), data);
    }
}

#[test]
fn mem_map_test_u32_read() {
    let mut mem = MemMap::new(MEM_SIZE as usize);  // 1 kB

    for _ in 0..10 {
        let addr = rand::thread_rng().gen_range(0..MEM_SIZE) & MASK;
        let data: u32 = rand::random();
        let bytes = data.to_le_bytes();
        mem.write_u8(addr, bytes[0], store_attr(AccessWidth::Byte)).unwrap();
        mem.write_u8(addr + 1, bytes[1], store_attr(AccessWidth::Byte)).unwrap();
        mem.write_u8(addr + 2, bytes[2], store_attr(AccessWidth::Byte)).unwrap();
        mem.write_u8(addr + 3, bytes[3], store_attr(AccessWidth::Byte)).unwrap();
        assert_eq!(mem.read_u32(addr, load_attr(AccessWidth::Word)).unwrap(), data);
    }
}

#[test]
fn mem_map_test_read_fault() {
    let mut mem = MemMap::new(MEM_SIZE as usize);  // 1 kB

    assert_eq!(mem.read_u8(MEM_SIZE, load_attr(AccessWidth::Byte)).unwrap_err(), Exception::LoadAccessFault);
    assert_eq!(mem.read_u8(0xffff_ffff, load_attr(AccessWidth::Byte)).unwrap_err(), Exception::LoadAccessFault);

    assert_eq!(mem.read_u16(MEM_SIZE, load_attr(AccessWidth::HalfWord)).unwrap_err(), Exception::LoadAccessFault);
    assert_eq!(mem.read_u16(0xffff_ffff, load_attr(AccessWidth::HalfWord)).unwrap_err(), Exception::LoadAccessFault);

    assert_eq!(mem.read_u32(MEM_SIZE, load_attr(AccessWidth::Word)).unwrap_err(), Exception::LoadAccessFault);
    assert_eq!(mem.read_u32(0xffff_ffff, load_attr(AccessWidth::Word)).unwrap_err(), Exception::LoadAccessFault);
}

#[test]
fn mem_map_test_read_misaligned() {
    let mut mem = MemMap::new(MEM_SIZE as usize);  // 1 kB

    assert_eq!(mem.read_u16(1, load_attr(AccessWidth::HalfWord)).unwrap_err(), Exception::LoadAddrMisaligned);
    assert_eq!(mem.read_u16(3, load_attr(AccessWidth::HalfWord)).unwrap_err(), Exception::LoadAddrMisaligned);

    assert_eq!(mem.read_u16(MEM_SIZE + 1, load_attr(AccessWidth::HalfWord)).unwrap_err(), Exception::LoadAccessFault);
    assert_eq!(mem.read_u16(MEM_SIZE + 3, load_attr(AccessWidth::HalfWord)).unwrap_err(), Exception::LoadAccessFault);

    assert_eq!(mem.read_u32(1, load_attr(AccessWidth::Word)).unwrap_err(), Exception::LoadAddrMisaligned);
    assert_eq!(mem.read_u32(2, load_attr(AccessWidth::Word)).unwrap_err(), Exception::LoadAddrMisaligned);
    assert_eq!(mem.read_u32(3, load_attr(AccessWidth::Word)).unwrap_err(), Exception::LoadAddrMisaligned);

    assert_eq!(mem.read_u32(MEM_SIZE + 1, load_attr(AccessWidth::Word)).unwrap_err(), Exception::LoadAccessFault);
    assert_eq!(mem.read_u32(MEM_SIZE + 2, load_attr(AccessWidth::Word)).unwrap_err(), Exception::LoadAccessFault);
    assert_eq!(mem.read_u32(MEM_SIZE + 3, load_attr(AccessWidth::Word)).unwrap_err(), Exception::LoadAccessFault);
}

#[test]
fn mem_map_test_write_fault() {
    let mut mem = MemMap::new(MEM_SIZE as usize);  // 1 kB

    assert_eq!(mem.write_u8(MEM_SIZE, 0, store_attr(AccessWidth::Byte)).unwrap_err(), Exception::StoreAccessFault);
    assert_eq!(mem.write_u8(0xffff_ffff, 0, store_attr(AccessWidth::Byte)).unwrap_err(), Exception::StoreAccessFault);

    assert_eq!(mem.write_u16(MEM_SIZE, 0, store_attr(AccessWidth::HalfWord)).unwrap_err(), Exception::StoreAccessFault);
    assert_eq!(mem.write_u16(0xffff_ffff, 0, store_attr(AccessWidth::HalfWord)).unwrap_err(), Exception::StoreAccessFault);

    assert_eq!(mem.write_u32(MEM_SIZE, 0, store_attr(AccessWidth::Word)).unwrap_err(), Exception::StoreAccessFault);
    assert_eq!(mem.write_u32(0xffff_ffff, 0, store_attr(AccessWidth::Word)).unwrap_err(), Exception::StoreAccessFault);
}

#[test]
fn mem_map_test_write_misaligned() {
    let mut mem = MemMap::new(MEM_SIZE as usize);  // 1 kB

    assert_eq!(mem.write_u16(1, 0, store_attr(AccessWidth::HalfWord)).unwrap_err(), Exception::StoreAddrMisaligned);
    assert_eq!(mem.write_u16(3, 0, store_attr(AccessWidth::HalfWord)).unwrap_err(), Exception::StoreAddrMisaligned);

    assert_eq!(mem.write_u16(MEM_SIZE + 1, 0, store_attr(AccessWidth::HalfWord)).unwrap_err(), Exception::StoreAccessFault);
    assert_eq!(mem.write_u16(MEM_SIZE + 3, 0, store_attr(AccessWidth::HalfWord)).unwrap_err(), Exception::StoreAccessFault);

    assert_eq!(mem.write_u32(1, 0, store_attr(AccessWidth::Word)).unwrap_err(), Exception::StoreAddrMisaligned);
    assert_eq!(mem.write_u32(2, 0, store_attr(AccessWidth::Word)).unwrap_err(), Exception::StoreAddrMisaligned);
    assert_eq!(mem.write_u32(3, 0, store_attr(AccessWidth::Word)).unwrap_err(), Exception::StoreAddrMisaligned);

    assert_eq!(mem.write_u32(MEM_SIZE + 1, 0, store_attr(AccessWidth::Word)).unwrap_err(), Exception::StoreAccessFault);
    assert_eq!(mem.write_u32(MEM_SIZE + 2, 0, store_attr(AccessWidth::Word)).unwrap_err(), Exception::StoreAccessFault);
    assert_eq!(mem.write_u32(MEM_SIZE + 3, 0, store_attr(AccessWidth::Word)).unwrap_err(), Exception::StoreAccessFault);
}

#[test]
fn mem_map_test_exec_fault() {
    let mut mem = MemMap::new(MEM_SIZE as usize);  // 1 kB

    assert_eq!(mem.read_u32(MEM_SIZE, instr_attr()).unwrap_err(), Exception::InstrAccessFault);
    assert_eq!(mem.read_u32(0xffff_ffff, instr_attr()).unwrap_err(), Exception::InstrAccessFault);
}

#[test]
fn mem_map_test_exec_misaligned() {
    let mut mem = MemMap::new(MEM_SIZE as usize);  // 1 kB

    assert_eq!(mem.read_u32(1, instr_attr()).unwrap_err(), Exception::InstrAddrMisaligned);
    assert_eq!(mem.read_u32(2, instr_attr()).unwrap_err(), Exception::InstrAddrMisaligned);
    assert_eq!(mem.read_u32(3, instr_attr()).unwrap_err(), Exception::InstrAddrMisaligned);

    assert_eq!(mem.read_u32(MEM_SIZE + 1, instr_attr()).unwrap_err(), Exception::InstrAccessFault);
    assert_eq!(mem.read_u32(MEM_SIZE + 2, instr_attr()).unwrap_err(), Exception::InstrAccessFault);
    assert_eq!(mem.read_u32(MEM_SIZE + 3, instr_attr()).unwrap_err(), Exception::InstrAccessFault);
}

fn assert_word_reserved(mem: &MemMap, addr: u64, expect: bool) {
    assert_eq!(mem.is_reserved(addr), expect);
    assert_eq!(mem.is_reserved(addr + 1), expect);
    assert_eq!(mem.is_reserved(addr + 2), expect);
    assert_eq!(mem.is_reserved(addr + 3), expect);
}

#[test]
fn mem_map_test_reserve() {
    let mut mem = MemMap::new(MEM_SIZE as usize);  // 1 kB

    for i in 0..=3 {
        mem.reserve(i);
        assert_word_reserved(&mem, 0, true);
        assert!(!mem.is_reserved(4));
        assert!(!mem.is_reserved(u64::MAX));
    }
}

#[test]
fn mem_map_test_double_reserve() {
    let mut mem = MemMap::new(MEM_SIZE as usize);  // 1 kB

    for i in 0..=3 {
        mem.reserve(i);
        mem.reserve(4 + i);
        assert_word_reserved(&mem, 0, false);
        assert_word_reserved(&mem, 4, true);
    }
}

#[test]
fn mem_map_test_clear_reservation() {
    let mut mem = MemMap::new(MEM_SIZE as usize);  // 1 kB

    for i in 0..=3 {
        mem.reserve(i);
        mem.clear_reservation();
        assert_word_reserved(&mem, 0, false);
    }
}

#[test]
fn mem_map_test_clear_reservation_if_matched() {
    let mut mem = MemMap::new(MEM_SIZE as usize);  // 1 kB

    for i in 0..=3 {
        for j in 0..=3 {
            mem.reserve(i);
            mem.clear_reservation_if_matched(j);
            assert_word_reserved(&mem, 0, false);
        }
    }
}

#[test]
fn mem_map_test_keep_reservation_if_not_matched() {
    let mut mem = MemMap::new(MEM_SIZE as usize);  // 1 kB

    for i in 0..=3 {
        for j in 0..=3 {
            mem.reserve(i);
            mem.clear_reservation_if_matched(4 + j);
            assert_word_reserved(&mem, 0, true);
        }
    }
}

#[test]
fn mem_map_test_clear_reservation_on_write_u8() {
    let mut mem = MemMap::new(MEM_SIZE as usize);  // 1 kB

    for i in 0..=3 {
        for j in 0..=3 {
            mem.reserve(i);
            mem.write_u8(j, 0, store_attr(AccessWidth::Byte)).unwrap();
            assert_word_reserved(&mem, 0, false);
        }
    }
}

#[test]
fn mem_map_test_clear_reservation_on_write_u16() {
    let mut mem = MemMap::new(MEM_SIZE as usize);  // 1 kB

    for i in 0..=3 {
        for j in 0..=1 {
            mem.reserve(i);
            mem.write_u16(2 * j, 0, store_attr(AccessWidth::HalfWord)).unwrap();
            assert_word_reserved(&mem, 0, false);
        }
    }
}

#[test]
fn mem_map_test_clear_reservation_on_write_u32() {
    let mut mem = MemMap::new(MEM_SIZE as usize);  // 1 kB

    for i in 0..=3 {
        mem.reserve(i);
        mem.write_u32(0, 0, store_attr(AccessWidth::Word)).unwrap();
        assert_word_reserved(&mem, 0, false);
    }
}

#[test]
fn mem_map_test_keep_reservation_if_write_elsewhere() {
    let mut mem = MemMap::new(MEM_SIZE as usize);  // 1 kB

    for i in 0..=3 {
        for j in 0..=3 {
            mem.reserve(i);
            mem.write_u8(4 + j, 0, store_attr(AccessWidth::Byte)).unwrap();
            assert_word_reserved(&mem, 0, true);
        }
    }
}

#[test]
fn test_read_time() {
    let mut timer = Timer::new();

    timer.time = 0x51290ce3_bcfec832_u64;

    assert_eq!(timer.read_time(0), 0xbcfec832_u32);
    assert_eq!(timer.read_time(4), 0x51290ce3_u32);
}

#[test]
fn test_write_time() {
    let mut timer = Timer::new();

    timer.write_time(0, 0xbcfec832_u32);
    timer.write_time(4, 0x51290ce3_u32);

    assert_eq!(timer.time, 0x51290ce3_bcfec832_u64);
}

#[test]
fn test_read_timecmp() {
    let mut timer = Timer::new();

    timer.timecmp = 0x51290ce3_bcfec832_u64;

    assert_eq!(timer.read_timecmp(0), 0xbcfec832_u32);
    assert_eq!(timer.read_timecmp(4), 0x51290ce3_u32);
}

#[test]
fn test_write_timecmp() {
    let mut timer = Timer::new();

    timer.write_timecmp(0, 0xbcfec832_u32);
    timer.write_timecmp(4, 0x51290ce3_u32);

    assert_eq!(timer.timecmp, 0x51290ce3_bcfec832_u64);
}

#[test]
fn test_reg_zero() {
    let mut state = riscv_sim::sys::state::State::new();
    assert_eq!(state.reg(&riscv_sim::Reg::zero()), 0);

    *state.reg_mut(&riscv_sim::Reg::zero()) = rand::random();
    assert_eq!(state.reg(&riscv_sim::Reg::zero()), 0);
}

#[test]
fn test_reg_write() {
    let mut state = riscv_sim::sys::state::State::new();
    let data: [i32; 32] = rand::random();
    for i in 1..32 {
        *state.reg_mut(&riscv_sim::Reg::new(i)) = data[i as usize];
    }
    for i in 1..32 {
        assert_eq!(state.reg(&riscv_sim::Reg::new(i)), data[i as usize]);
    }
}

#[test]
fn test_pc_write() {
    let mut state = riscv_sim::sys::state::State::new();
    let data: u32 = rand::random();

    *state.pc_mut() = data;
    assert_eq!(state.pc(), data);
}
