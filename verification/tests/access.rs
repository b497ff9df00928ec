use x64emu::hardware::Hardware;
use x64emu::device::Device;
use x64emu::emulator::{EmuException, CPUException};
use x64emu::emulator::access::Access;
use x64emu::emulator::access::msr::MSRAddress;
use x64emu::emulator::access::register::{GpRegAccess, GpReg64, GpReg32, GpReg16};
use x64emu::emulator::instruction::exec::Exec;
use x64emu::emulator::instruction::parse::ParseInstr;
use x64emu::hardware::processor::segment::SgReg;
use x64emu::emulator::access::CpuMode;
use x64emu::emulator::access::descriptor::{TSSDesc, TSMode};
use x64emu::hardware::processor::descriptor::{DescTbl, DescTblSel};

fn machine(size: usize) -> Access {
    Access::new(Hardware::new(size), Device::new())
}

#[test]
fn access_mem_test() {
    let mut ac = machine(0x1000);

    ac.set_data32((SgReg::DS, 0x10), 0xdeadbeef).unwrap();
    assert_eq!(ac.get_data8((SgReg::DS, 0x10)).unwrap(), 0xef);

    ac.set_data32((SgReg::DS, 0x1010), 0xdeadbeef).unwrap();
    assert_eq!(ac.get_data8((SgReg::DS, 0x1010)).unwrap(), 0);
}

#[test]
fn store_then_load_gives_value_back() {
    let mut ac = machine(0x2000);
    ac.set_data64((SgReg::DS, 0x1800), 0x0102_0304_0506_0708).unwrap();
    assert_eq!(ac.get_data64((SgReg::DS, 0x1800)).unwrap(), 0x0102_0304_0506_0708);
    assert_eq!(ac.get_data16((SgReg::DS, 0x1802)).unwrap(), 0x0506);
    assert_eq!(ac.get_data32((SgReg::DS, 0x1804)).unwrap(), 0x0102_0304);
}

#[test]
fn access_msr_test() {
    let mut ac = machine(0x1000);

    ac.core.msr.efer.LMA = 1;
    assert_eq!(ac.read_msr(MSRAddress::IA32_EFER.value()).unwrap(), 0x400);

    ac.write_msr(0xc0000100, 0xdeadbeef).unwrap();
    assert_eq!(ac.core.sgregs.get(SgReg::FS).cache.base, 0xdeadbeef);
}

#[test]
#[should_panic]
fn access_msr_test_panic() {
    let mut ac = machine(0x1000);

    ac.write_msr(0xc0000103, 0xdeadbeef).unwrap();
}

#[test]
fn unknown_msr_is_a_protection_fault() {
    let ac = machine(0x1000);
    assert_eq!(ac.read_msr(0x1234), Err(EmuException::CPUException(CPUException::GP(None))));
}

#[test]
fn exec_test() {
    let ac = machine(0x1000);
    let parse: ParseInstr = Default::default();

    let mut exe = Exec::new(ac, &parse);
    exe.ac.set_gpreg(GpReg64::RSP, 0xf20).unwrap();
    exe.ac.push_u64(0xdeadbeef).unwrap();
    exe.ac.push_u64(0xcafebabe).unwrap();
    assert_eq!(exe.ac.pop_u64().unwrap(), 0xcafebabe);
    assert_eq!(exe.ac.pop_u64().unwrap(), 0xdeadbeef);

    let x = exe.ac.mem.as_mut_ptr(0xf20).unwrap();
    x[0..8].copy_from_slice(&0x11223344u64.to_le_bytes());
    x[8..16].copy_from_slice(&0x55667788u64.to_le_bytes());
    assert_eq!(exe.ac.pop_u64().unwrap(), 0x11223344);
    assert_eq!(exe.ac.pop_u64().unwrap(), 0x55667788);
}

#[test]
fn push_then_pop_restores_stack_pointer() {
    let mut ac = machine(0x1000);
    ac.set_gpreg(GpReg64::RSP, 0x800).unwrap();
    ac.push_u16(0xbeef).unwrap();
    assert_eq!(ac.get_gpreg(GpReg16::SP).unwrap(), 0x7fe);
    assert_eq!(ac.pop_u16().unwrap(), 0xbeef);
    assert_eq!(ac.get_gpreg(GpReg64::RSP).unwrap(), 0x800);
}

#[test]
fn register_widths() {
    let mut ac = machine(0x1000);
    ac.set_gpreg(GpReg64::RBX, 0xffff_ffff_ffff_ffff).unwrap();
    ac.set_gpreg(GpReg32::EBX, 0x1234_5678).unwrap();
    assert_eq!(ac.get_gpreg(GpReg64::RBX).unwrap(), 0x1234_5678);
    ac.set_gpreg(GpReg16::BX, 0xabcd).unwrap();
    assert_eq!(ac.get_gpreg(GpReg64::RBX).unwrap(), 0x1234_abcd);
}

fn descriptor(base: u64, limit: u64, ty: u64, s: u64, db: u64) -> u64 {
    (limit & 0xffff)
        | ((base & 0xff_ffff) << 16)
        | (ty << 40)
        | (s << 44)
        | (1 << 47)
        | (((limit >> 16) & 0xf) << 48)
        | (db << 54)
        | (((base >> 24) & 0xff) << 56)
}

#[test]
fn task_switch_saves_and_loads_32_bit_state() {

    let mut ac = machine(0x10000);
    ac.mode = CpuMode::Protected;
    // GDT: old TSS (busy), new TSS, code, data, LDT
    ac.mem.write64(0x1008, descriptor(0x2000, 0x67, 0xb, 0, 0));
    ac.mem.write64(0x1010, descriptor(0x3000, 0x67, 0x9, 0, 0));
    ac.mem.write64(0x1018, descriptor(0, 0xfffff, 0xa, 1, 1));
    ac.mem.write64(0x1020, descriptor(0, 0xfffff, 0x2, 1, 1));
    ac.mem.write64(0x1028, descriptor(0x4000, 0x7, 0x2, 0, 0));
    ac.core.dtregs.gdtr = DescTbl { base: 0x1000, limit: 0x2f };
    ac.core.dtregs.tr = DescTblSel { selector: 0x08, cache: DescTbl { base: 0x2000, limit: 0x67 } };
    ac.core.ip.set_rip(0x1234);
    ac.set_gpreg(GpReg32::EAX, 0xaaaa_0001).unwrap();
    // the new task
    ac.mem.write32(0x3000 + 32, 0x5000);
    ac.mem.write32(0x3000 + 36, 0x2);
    for i in 0..8u32 {
        ac.mem.write32(0x3000 + 40 + 4 * i as usize, 0x1000 + i);
    }
    for k in 0..6usize {
        ac.mem.write16(0x3000 + 72 + 4 * k, if k == 1 { 0x18 } else { 0x20 });
    }
    ac.mem.write16(0x3000 + 96, 0x28);
    let desc = TSSDesc { limit_l: 0x67, base_l: 0x3000, B: 0, D: 1, DPL: 0, P: 1, limit_h: 0, base_h: 0 };

    ac.switch_task(TSMode::Jmp, 0x10, desc).unwrap();

    // the new task's registers
    assert_eq!(ac.core.ip.get_rip(), 0x5000);
    assert_eq!(ac.get_gpreg(GpReg32::EAX).unwrap(), 0x1000);
    assert_eq!(ac.get_gpreg(GpReg32::EDI).unwrap(), 0x1007);
    assert_eq!(ac.core.dtregs.tr.selector, 0x10);
    assert_eq!(ac.get_sgreg(SgReg::CS).unwrap().0, 0x18);
    assert_eq!(ac.get_sgreg(SgReg::DS).unwrap().0, 0x20);
    assert_eq!(ac.get_ldtr().unwrap(), 0x28);
    assert_eq!(ac.core.rflags.NT, 0);
    assert_eq!(ac.core.cregs.0.TS, 1);
    // the old task's state was saved
    assert_eq!(ac.mem.read32(0x2000 + 32), 0x1234);
    assert_eq!(ac.mem.read32(0x2000 + 40), 0xaaaa_0001);
    // busy bits: the new TSS is busy, the old one no longer
    assert_eq!(ac.mem.read8(0x1010 + 5), 0x8b);
    assert_eq!(ac.mem.read8(0x1008 + 5), 0x89);
}

#[test]
fn task_switch_to_busy_task_faults() {
    let mut ac = machine(0x10000);
    ac.mode = CpuMode::Protected;
    let desc = TSSDesc { limit_l: 0x67, base_l: 0x3000, B: 1, D: 1, DPL: 0, P: 1, limit_h: 0, base_h: 0 };
    assert_eq!(ac.switch_task(TSMode::Jmp, 0x10, desc), Err(EmuException::CPUException(CPUException::GP(Some(0x10)))));
    let absent = TSSDesc { P: 0, ..desc };
    assert_eq!(ac.switch_task(TSMode::Jmp, 0x10, absent), Err(EmuException::CPUException(CPUException::NP)));
}

fn two_task_machine() -> Access {
    let mut ac = machine(0x10000);
    ac.mode = CpuMode::Protected;
    ac.mem.write64(0x1008, descriptor(0x2000, 0x67, 0xb, 0, 0));
    ac.mem.write64(0x1010, descriptor(0x3000, 0x67, 0x9, 0, 0));
    ac.mem.write64(0x1018, descriptor(0, 0xfffff, 0xa, 1, 1));
    ac.mem.write64(0x1020, descriptor(0, 0xfffff, 0x2, 1, 1));
    ac.mem.write64(0x1028, descriptor(0x4000, 0x7, 0x2, 0, 0));
    ac.core.dtregs.gdtr = DescTbl { base: 0x1000, limit: 0x2f };
    ac.core.dtregs.tr = DescTblSel { selector: 0x08, cache: DescTbl { base: 0x2000, limit: 0x67 } };
    ac.mem.write32(0x3000 + 32, 0x5000);
    ac.mem.write32(0x3000 + 36, 0x2);
    for k in 0..6usize {
        ac.mem.write16(0x3000 + 72 + 4 * k, if k == 1 { 0x18 } else { 0x20 });
    }
    ac.mem.write16(0x3000 + 96, 0x28);
    ac
}

#[test]
fn task_switch_saved_image_keeps_other_fields() {
    let mut ac = two_task_machine();
    ac.core.ip.set_rip(0x1234);
    ac.set_gpreg(GpReg32::ECX, 0x0bad_f00d).unwrap();
    ac.mem.write32(0x2000 + 4, 0xdead_beef);
    ac.mem.write16(0x2000 + 100, 0x77);
    let desc = TSSDesc { limit_l: 0x67, base_l: 0x3000, B: 0, D: 1, DPL: 0, P: 1, limit_h: 0, base_h: 0 };
    ac.switch_task(TSMode::Jmp, 0x10, desc).unwrap();
    // the link to the old task's own selector, the state, and untouched stack fields
    assert_eq!(ac.mem.read16(0x2000), 0x08);
    assert_eq!(ac.mem.read32(0x2000 + 4), 0xdead_beef);
    assert_eq!(ac.mem.read32(0x2000 + 32), 0x1234);
    assert_eq!(ac.mem.read32(0x2000 + 44), 0x0bad_f00d);
    assert_eq!(ac.mem.read16(0x2000 + 100), 0x77);
    // a jump leaves the new image's link alone
    assert_eq!(ac.mem.read16(0x3000), 0);
}

#[test]
fn task_call_links_new_task_to_old() {
    let mut ac = two_task_machine();
    let desc = TSSDesc { limit_l: 0x67, base_l: 0x3000, B: 0, D: 1, DPL: 0, P: 1, limit_h: 0, base_h: 0 };
    ac.switch_task(TSMode::CallInt, 0x10, desc).unwrap();
    assert_eq!(ac.mem.read16(0x3000), 0x08);
    assert_eq!(ac.core.rflags.NT, 1);
    assert_eq!(ac.core.dtregs.tr.selector, 0x10);
}
