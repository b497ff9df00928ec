use x64emu::hardware::memory::Memory;
use x64emu::hardware::processor::control::{CRegisters, CRAccess};
use x64emu::hardware::processor::general::{GpRegisters, GpReg64, GpReg32, GpReg16, GpReg8h, GpReg8l};
use x64emu::hardware::processor::model_specific::{ModelSpecific, MSRAccess};
use x64emu::hardware::processor::rflags::RFlags;
use x64emu::hardware::processor::segment::{SgRegisters, SgReg};

#[test]
fn mem_test() {
    let mut mem = Memory::new();
    mem.set_size(0x1000);
    mem.write16(0x100, 0xbabe);
    mem.write16(0x102, 0xcafe);
    mem.write32(0x104, 0xdeadbeef);
    assert_eq!(mem.read64(0x100), 0xdeadbeefcafebabe);

    let x = mem.as_mut_ptr(0x200).unwrap();
    x[0..4].copy_from_slice(&0x55667788u32.to_le_bytes());
    x[4..8].copy_from_slice(&0x11223344u32.to_le_bytes());
    assert_eq!(mem.read64(0x200), 0x1122334455667788);

    mem.write64(0x1100, 0xdeadbeef);
    assert_eq!(mem.read64(0x1100), 0x0);
}

#[test]
#[should_panic]
fn mem_test_panic() {
    let mut mem = Memory::new();
    mem.set_size(0x1000);

    mem.as_ptr(0x1100).unwrap();
}

#[test]
fn mem_size_rounds_up_to_pages() {
    let mut mem = Memory::new();
    mem.set_size(0x1001);
    assert_eq!(mem.len(), 0x2000);
    mem.write8(0x1fff, 0x5a);
    assert_eq!(mem.read8(0x1fff), 0x5a);
    assert_eq!(mem.read8(0x2000), 0);
}

#[test]
fn mem_data_copy() {
    let mut mem = Memory::new();
    mem.set_size(0x1000);
    assert_eq!(mem.write_data(0x10, &[1, 2, 3, 4], 4), Ok(4));
    let mut buf = [0u8; 4];
    assert_eq!(mem.read_data(&mut buf, 0x10, 4), Ok(4));
    assert_eq!(buf, [1, 2, 3, 4]);
    assert!(mem.write_data(0xffe, &[1, 2, 3, 4], 4).is_err());
    assert_eq!(mem.read16(0xffe), 0);
}

#[test]
fn cr_test() {
    let mut cr: CRegisters = Default::default();

    cr.0.from_u32(0x50001);
    assert_eq!(cr.0.PE, 1);
    assert_eq!(cr.0.WP, 1);
    assert_eq!(cr.0.AM, 1);
    assert_eq!(cr.0.PG, 0);

    cr.3.PWT = 1;
    cr.3.PageDirBase = 0xdead;
    assert_eq!(cr.3.to_u32(), 0xdead008);
}

#[test]
fn cr_registers_by_number() {
    let mut cr: CRegisters = Default::default();
    assert!(cr.set(3, 0x1000));
    assert_eq!(cr.get(3), Some(0x1000));
    assert!(!cr.set(1, 0));
    assert_eq!(cr.get(1), None);
}

#[test]
fn gpreg_test() {
    let mut reg = GpRegisters::new();

    reg.set64(GpReg64::RAX, 0xdeadbeefcafebabe);
    reg.set16(GpReg16::AX, 0x1122);
    reg.set8h(GpReg8h::AH, 0x00);
    reg.update64(GpReg64::RAX, -0x10);
    assert_eq!(reg.get64(GpReg64::RAX), 0xdeadbeefcafe0012);
    reg.update32(GpReg32::EAX, 0x10000000);
    assert_eq!(reg.get64(GpReg64::RAX), 0xdafe0012);

    reg.set32(GpReg32::EAX, 0x11223344);

    reg.set32(GpReg32::EDI, 0xc0bebeef);
    reg.set8l(GpReg8l::DIL, 0xff);
    assert_eq!(reg.get64(GpReg64::RDI), 0xc0bebeff);
}

#[test]
#[should_panic]
fn gpreg_test_panic() {
    let reg = GpRegisters::new();
    reg.get64(GpReg64::try_from_index(20).unwrap());
}

#[test]
fn msr_test() {
    let mut msr: ModelSpecific = Default::default();

    msr.efer.set(0x401);
    assert_eq!(msr.efer.LMA, 1);
    assert_eq!(msr.efer.LME, 0);
    assert_eq!(msr.efer.SCE, 1);

    msr.apic.set(0xdead100);
    assert_eq!(msr.apic.BSP, 1);
    assert_eq!(msr.apic.G, 0);
    assert_eq!(msr.apic.Base, 0xdead);

    msr.star.set(0x11223344deadbeef);
    assert_eq!(msr.star.ip, 0xdeadbeef);
    assert_eq!(msr.star.cs, 0x3344);

    msr.fmask.set(0xdeadbeef);
    assert_eq!(msr.fmask.mask, 0xdeadbeef);
}

#[test]
fn msr_value_roundtrip() {
    let mut msr: ModelSpecific = Default::default();
    msr.efer.set(0x501);
    assert_eq!(msr.efer.get(), 0x501);
    msr.efer.set(0xffff_ffff_ffff_ffff);
    assert_eq!(msr.efer.get(), 0xd01);
}

#[test]
fn rflags_test() {
    let mut flag: RFlags = Default::default();

    flag.from_u64(0);
    assert_eq!(flag.to_u64(), 2);
    flag.set_carry(true);
    assert_eq!(flag.to_u64(), 3);
}

#[test]
fn rflags_roundtrip_keeps_defined_bits() {
    let mut flag: RFlags = Default::default();
    flag.from_u64(0x3f_7fd5);
    assert_eq!(flag.to_u64(), 0x3f_7fd7);
    assert!(flag.is_carry() && flag.is_zero() && flag.is_overflow() && flag.is_direction());
}

#[test]
fn sgreg_test() {
    let mut reg = SgRegisters::new();

    let mut sel = reg.get_mut(SgReg::ES).selector;
    sel.from_u16(0x2e);
    assert_eq!(sel.IDX, 5);
    assert_eq!(sel.TI, 1);
    assert_eq!(sel.RPL, 2);
    assert_eq!(sel.to_u16(), 0x2e);
}

#[test]
#[should_panic]
fn sgreg_test_panic() {
    let reg = SgRegisters::new();
    reg.get(SgReg::try_from_index(10).unwrap());
}
