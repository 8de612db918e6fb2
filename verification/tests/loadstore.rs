//! Executor tests for loads and stores over physical RAM.
use riscv_sim::exec::load::execute_load;
use riscv_sim::exec::store::execute_store;
use riscv_sim::instr::funct::{LoadFunct, StoreFunct};
use riscv_sim::sys::mem_map::{AccessAttr, AccessType, AccessWidth};
use riscv_sim::{Exception, Reg, System, Trap};

fn w32(sys: &mut System, addr: u64, val: u32) {
    let attr = AccessAttr {
        atype: AccessType::Store,
        width: AccessWidth::Word,
        lrsc: false,
        amo: false,
    };
    sys.mem.write_u32(addr, val, attr).unwrap();
}

fn r32(sys: &mut System, addr: u64) -> u32 {
    let attr = AccessAttr {
        atype: AccessType::Load,
        width: AccessWidth::Word,
        lrsc: false,
        amo: false,
    };
    sys.mem.read_u32(addr, attr).unwrap()
}

fn assert_load(sys: &mut System, rd: u8, rs1: u8, imm: i32, f: LoadFunct, expect: u32) {
    execute_load(sys, &Reg::new(rd), &Reg::new(rs1), imm, &f).unwrap();
    assert_eq!(sys.state.reg(&Reg::new(rd)), expect as i32);
}

fn assert_load_failed(sys: &mut System, rd: u8, rs1: u8, imm: i32, f: LoadFunct, ex: Exception) {
    let addr = (sys.reg(&Reg::new(rs1)) + imm) as u32;
    let res = execute_load(sys, &Reg::new(rd), &Reg::new(rs1), imm, &f);
    assert_eq!(res, Err(Trap::from_exception(ex, addr)));
}

fn assert_store(sys: &mut System, rs1: u8, rs2: u8, imm: i32, f: StoreFunct, expect: &[u8]) {
    let rs1 = Reg::new(rs1);
    execute_store(sys, &rs1, &Reg::new(rs2), imm, &f).unwrap();

    let addr = (sys.state.reg(&rs1) + imm) as usize;
    for i in 0..expect.len() {
        assert_eq!(sys.mem.ram.as_u8()[addr + i], expect[i]);
    }
}

fn assert_store_failed(sys: &mut System, rs1: u8, rs2: u8, imm: i32, f: StoreFunct, ex: Exception) {
    let addr = (sys.reg(&Reg::new(rs1)) + imm) as u32;
    let res = execute_store(sys, &Reg::new(rs1), &Reg::new(rs2), imm, &f);
    assert_eq!(res, Err(Trap::from_exception(ex, addr)));
}

#[test]
fn load_test_execute_load_byte() {
    let mut sys = System::new(16);
    w32(&mut sys, 0, 0xbcfec832);

    assert_load(&mut sys, 1, 0, 0, LoadFunct::B, 0x000000_32);
    assert_load(&mut sys, 1, 0, 1, LoadFunct::B, 0xffffff_c8);
    assert_load(&mut sys, 1, 0, 2, LoadFunct::B, 0xffffff_fe);
    assert_load(&mut sys, 1, 0, 3, LoadFunct::B, 0xffffff_bc);
    assert_eq!(sys.state.pc(), 16);
}

#[test]
fn test_execute_load_byte_unsigned() {
    let mut sys = System::new(16);
    w32(&mut sys, 0, 0xbcfec832);

    assert_load(&mut sys, 1, 0, 0, LoadFunct::Bu, 0x000000_32);
    assert_load(&mut sys, 1, 0, 1, LoadFunct::Bu, 0x000000_c8);
    assert_load(&mut sys, 1, 0, 2, LoadFunct::Bu, 0x000000_fe);
    assert_load(&mut sys, 1, 0, 3, LoadFunct::Bu, 0x000000_bc);
    assert_eq!(sys.state.pc(), 16);
}

#[test]
fn test_execute_load_halfword() {
    let mut sys = System::new(16);
    w32(&mut sys, 0, 0xbcfec832);

    assert_load(&mut sys, 1, 0, 0, LoadFunct::H, 0xffff_c832);
    assert_load(&mut sys, 1, 0, 2, LoadFunct::H, 0xffff_bcfe);
    assert_eq!(sys.state.pc(), 8);
}

#[test]
fn test_execute_load_halfword_unsigned() {
    let mut sys = System::new(16);
    w32(&mut sys, 0, 0xbcfec832);

    assert_load(&mut sys, 1, 0, 0, LoadFunct::Hu, 0x0000_c832);
    assert_load(&mut sys, 1, 0, 2, LoadFunct::Hu, 0x0000_bcfe);
    assert_eq!(sys.state.pc(), 8);
}

#[test]
fn test_execute_load_word() {
    let mut sys = System::new(16);
    w32(&mut sys, 0, 0xbcfec832);

    assert_load(&mut sys, 1, 0, 0, LoadFunct::W, 0xbcfec832);
    assert_eq!(sys.state.pc(), 4);
}

#[test]
fn test_execute_load_fault() {
    let mut sys = System::new(16);

    assert_load_failed(&mut sys, 1, 0, 16, LoadFunct::B, Exception::LoadAccessFault);
    assert_load_failed(&mut sys, 1, 0, -4, LoadFunct::B, Exception::LoadAccessFault);

    assert_load_failed(&mut sys, 1, 0, 16, LoadFunct::Bu, Exception::LoadAccessFault);
    assert_load_failed(&mut sys, 1, 0, -4, LoadFunct::Bu, Exception::LoadAccessFault);

    assert_load_failed(&mut sys, 1, 0, 16, LoadFunct::H, Exception::LoadAccessFault);
    assert_load_failed(&mut sys, 1, 0, -4, LoadFunct::H, Exception::LoadAccessFault);

    assert_load_failed(&mut sys, 1, 0, 16, LoadFunct::Hu, Exception::LoadAccessFault);
    assert_load_failed(&mut sys, 1, 0, -4, LoadFunct::Hu, Exception::LoadAccessFault);

    assert_load_failed(&mut sys, 1, 0, 16, LoadFunct::W, Exception::LoadAccessFault);
    assert_load_failed(&mut sys, 1, 0, -4, LoadFunct::W, Exception::LoadAccessFault);
}

#[test]
fn test_execute_load_misaligned_halfword() {
    let mut sys = System::new(16);

    assert_load_failed(&mut sys, 1, 0, 1, LoadFunct::H, Exception::LoadAddrMisaligned);
    assert_load_failed(&mut sys, 1, 0, 3, LoadFunct::H, Exception::LoadAddrMisaligned);
    assert_load_failed(&mut sys, 1, 0, 5, LoadFunct::H, Exception::LoadAddrMisaligned);
    assert_load_failed(&mut sys, 1, 0, 7, LoadFunct::H, Exception::LoadAddrMisaligned);

    assert_load_failed(&mut sys, 1, 0, 1, LoadFunct::Hu, Exception::LoadAddrMisaligned);
    assert_load_failed(&mut sys, 1, 0, 3, LoadFunct::Hu, Exception::LoadAddrMisaligned);
    assert_load_failed(&mut sys, 1, 0, 5, LoadFunct::Hu, Exception::LoadAddrMisaligned);
    assert_load_failed(&mut sys, 1, 0, 7, LoadFunct::Hu, Exception::LoadAddrMisaligned);
}

#[test]
fn test_execute_load_misaligned_word() {
    let mut sys = System::new(16);

    assert_load_failed(&mut sys, 1, 0, 1, LoadFunct::W, Exception::LoadAddrMisaligned);
    assert_load_failed(&mut sys, 1, 0, 2, LoadFunct::W, Exception::LoadAddrMisaligned);
    assert_load_failed(&mut sys, 1, 0, 3, LoadFunct::W, Exception::LoadAddrMisaligned);

    assert_load_failed(&mut sys, 1, 0, 5, LoadFunct::W, Exception::LoadAddrMisaligned);
    assert_load_failed(&mut sys, 1, 0, 6, LoadFunct::W, Exception::LoadAddrMisaligned);
    assert_load_failed(&mut sys, 1, 0, 7, LoadFunct::W, Exception::LoadAddrMisaligned);
}

#[test]
fn store_test_execute_load_byte() {
    let mut sys = System::new(16);
    *sys.reg_mut(&Reg::new(1)) = 0xbcfec832_u32 as i32;
    *sys.reg_mut(&Reg::new(2)) = 0x32bcfec8_u32 as i32;
    *sys.reg_mut(&Reg::new(3)) = 0xc832bcfe_u32 as i32;
    *sys.reg_mut(&Reg::new(4)) = 0xfec832bc_u32 as i32;

    assert_store(&mut sys, 0, 1, 0, StoreFunct::B, &[0x32]);
    assert_store(&mut sys, 0, 2, 1, StoreFunct::B, &[0xc8]);
    assert_store(&mut sys, 0, 3, 2, StoreFunct::B, &[0xfe]);
    assert_store(&mut sys, 0, 4, 3, StoreFunct::B, &[0xbc]);

    assert_eq!(r32(&mut sys, 0), 0xbcfec832);
    assert_eq!(sys.state.pc(), 16);
}

#[test]
fn test_execute_store_halfword() {
    let mut sys = System::new(16);
    *sys.reg_mut(&Reg::new(1)) = 0x51290ce3_u32 as i32;
    *sys.reg_mut(&Reg::new(2)) = 0x0ce35129_u32 as i32;

    assert_store(&mut sys, 0, 1, 0, StoreFunct::H, &[0xe3, 0x0c]);
    assert_store(&mut sys, 0, 2, 2, StoreFunct::H, &[0x29, 0x51]);

    assert_eq!(r32(&mut sys, 0), 0x51290ce3);
    assert_eq!(sys.state.pc(), 8);
}

#[test]
fn test_execute_store_word() {
    let mut sys = System::new(16);
    *sys.reg_mut(&Reg::new(1)) = 0xbcfec832_u32 as i32;
    *sys.reg_mut(&Reg::new(2)) = 0x51290ce3_u32 as i32;

    assert_store(&mut sys, 0, 1, 0, StoreFunct::W, &[0x32, 0xc8, 0xfe, 0xbc]);
    assert_store(&mut sys, 0, 2, 4, StoreFunct::W, &[0xe3, 0x0c, 0x29, 0x51]);

    assert_eq!(r32(&mut sys, 0), 0xbcfec832);
    assert_eq!(r32(&mut sys, 4), 0x51290ce3);
    assert_eq!(sys.state.pc(), 8);
}

#[test]
fn test_execute_store_fault() {
    let mut sys = System::new(16);

    assert_store_failed(&mut sys, 0, 1, 0x8000000u32 as i32, StoreFunct::B, Exception::StoreAccessFault);
    assert_store_failed(&mut sys, 0, 1, -4, StoreFunct::B, Exception::StoreAccessFault);

    assert_store_failed(&mut sys, 0, 1, 0x8000000u32 as i32, StoreFunct::H, Exception::StoreAccessFault);
    assert_store_failed(&mut sys, 0, 1, -4, StoreFunct::H, Exception::StoreAccessFault);

    assert_store_failed(&mut sys, 0, 1, 0x8000000u32 as i32, StoreFunct::W, Exception::StoreAccessFault);
    assert_store_failed(&mut sys, 0, 1, -4, StoreFunct::W, Exception::StoreAccessFault);
}

#[test]
fn test_execute_store_misaligned_halfword() {
    let mut sys = System::new(16);

    assert_store_failed(&mut sys, 0, 1, 1, StoreFunct::H, Exception::StoreAddrMisaligned);
    assert_store_failed(&mut sys, 0, 1, 3, StoreFunct::H, Exception::StoreAddrMisaligned);
    assert_store_failed(&mut sys, 0, 1, 5, StoreFunct::H, Exception::StoreAddrMisaligned);
    assert_store_failed(&mut sys, 0, 1, 7, StoreFunct::H, Exception::StoreAddrMisaligned);
}

#[test]
fn test_execute_store_misaligned_word() {
    let mut sys = System::new(16);

    assert_store_failed(&mut sys, 0, 1, 1, StoreFunct::W, Exception::StoreAddrMisaligned);
    assert_store_failed(&mut sys, 0, 1, 2, StoreFunct::W, Exception::StoreAddrMisaligned);
    assert_store_failed(&mut sys, 0, 1, 3, StoreFunct::W, Exception::StoreAddrMisaligned);

    assert_store_failed(&mut sys, 0, 1, 5, StoreFunct::W, Exception::StoreAddrMisaligned);
    assert_store_failed(&mut sys, 0, 1, 6, StoreFunct::W, Exception::StoreAddrMisaligned);
    assert_store_failed(&mut sys, 0, 1, 7, StoreFunct::W, Exception::StoreAddrMisaligned);
}
