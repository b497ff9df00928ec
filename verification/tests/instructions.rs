use x64emu::hardware::Hardware;
use x64emu::device::Device;
use x64emu::emulator::{Emulator, Event, EmuException, CPUException};
use x64emu::emulator::access::{AcsSize, OpAdSize};
use x64emu::emulator::access::register::{GpRegAccess, GpReg64, GpReg16, GpReg8};
use x64emu::emulator::instruction::Instruction;
use x64emu::emulator::instruction::opcode::{Opcode, Instr, AluOp, Width, Opnd, OpFlags};
use x64emu::emulator::instruction::parse::{PrefixData, OverrideSize, Rex, ParseInstr, Rep};
use x64emu::emulator::interrupt::{Interrupt, IntrEvent};

const CODE: u64 = 0x7c00;

fn emulator_with(code: &[u8]) -> Emulator {
    let mut emu = Emulator::new(Hardware::new(0x10000), Device::new());
    emu.map_binary(CODE as usize, code).unwrap();
    emu.ac.core.ip.set_rip(CODE);
    emu.ac.set_gpreg(GpReg64::RSP, 0x9000).unwrap();
    emu
}

fn exec1(emu: &mut Emulator) -> Result<(), EmuException> {
    emu.inst.fetch_exec(&mut emu.ac)
}

fn ax(emu: &Emulator) -> u16 {
    emu.ac.get_gpreg(GpReg16::AX).unwrap()
}

#[test]
fn mov_add_and_ip() {
    let mut emu = emulator_with(&[0xb8, 0x34, 0x12, 0x05, 0x01, 0x00]);
    exec1(&mut emu).unwrap();
    assert_eq!(ax(&emu), 0x1234);
    assert_eq!(emu.ac.core.ip.get_rip(), CODE + 3);
    exec1(&mut emu).unwrap();
    assert_eq!(ax(&emu), 0x1235);
    assert_eq!(emu.ac.core.ip.get_rip(), CODE + 6);
}

#[test]
fn compare_then_branch() {
    // mov ax, 5; mov bx, 7; cmp ax, bx; jb +2
    let mut emu = emulator_with(&[0xb8, 0x05, 0x00, 0xbb, 0x07, 0x00, 0x39, 0xd8, 0x72, 0x02]);
    for _ in 0..3 {
        exec1(&mut emu).unwrap();
    }
    assert!(emu.ac.core.rflags.is_carry());
    assert!(!emu.ac.core.rflags.is_zero());
    exec1(&mut emu).unwrap();
    assert_eq!(emu.ac.core.ip.get_rip(), CODE + 12);
}

#[test]
fn equal_compare_sets_zero() {
    // mov ax, 9; mov bx, 9; cmp ax, bx; jz +4
    let mut emu = emulator_with(&[0xb8, 0x09, 0x00, 0xbb, 0x09, 0x00, 0x39, 0xd8, 0x74, 0x04]);
    for _ in 0..4 {
        exec1(&mut emu).unwrap();
    }
    assert!(emu.ac.core.rflags.is_zero());
    assert!(!emu.ac.core.rflags.is_carry());
    assert_eq!(emu.ac.core.ip.get_rip(), CODE + 14);
}

#[test]
fn logic_clears_carry_and_overflow() {
    // mov ax, 0xffff; add ax, 1 (carry); xor ax, ax
    let mut emu = emulator_with(&[0xb8, 0xff, 0xff, 0x05, 0x01, 0x00, 0x31, 0xc0]);
    exec1(&mut emu).unwrap();
    exec1(&mut emu).unwrap();
    assert_eq!(ax(&emu), 0);
    assert!(emu.ac.core.rflags.is_carry());
    exec1(&mut emu).unwrap();
    assert!(!emu.ac.core.rflags.is_carry());
    assert!(!emu.ac.core.rflags.is_overflow());
    assert!(emu.ac.core.rflags.is_zero());
}

#[test]
fn push_pop_through_instructions() {
    // mov ax, 0xbeef; push ax; pop bx
    let mut emu = emulator_with(&[0xb8, 0xef, 0xbe, 0x50, 0x5b]);
    for _ in 0..3 {
        exec1(&mut emu).unwrap();
    }
    assert_eq!(emu.ac.get_gpreg(GpReg16::BX).unwrap(), 0xbeef);
    assert_eq!(emu.ac.get_gpreg(GpReg16::SP).unwrap(), 0x9000);
}

#[test]
fn byte_registers() {
    // mov ah, 0x12; mov al, 0x34
    let mut emu = emulator_with(&[0xb4, 0x12, 0xb0, 0x34]);
    exec1(&mut emu).unwrap();
    exec1(&mut emu).unwrap();
    assert_eq!(ax(&emu), 0x1234);
    assert_eq!(emu.ac.get_gpreg(GpReg8::AH).unwrap(), 0x12);
}

#[test]
fn memory_operands() {
    // mov word [0x2000], 0x4321; mov ax, [0x2000]
    let mut emu = emulator_with(&[0xc7, 0x06, 0x00, 0x20, 0x21, 0x43, 0xa1, 0x00, 0x20]);
    exec1(&mut emu).unwrap();
    assert_eq!(emu.ac.mem.read16(0x2000), 0x4321);
    exec1(&mut emu).unwrap();
    assert_eq!(ax(&emu), 0x4321);
}

#[test]
fn halt_interrupt_and_undefined() {
    let mut emu = emulator_with(&[0xf4]);
    assert_eq!(exec1(&mut emu), Err(EmuException::Halt));
    let mut emu = emulator_with(&[0xcc]);
    assert_eq!(exec1(&mut emu), Err(EmuException::Interrupt(3)));
    let mut emu = emulator_with(&[0xcd, 0x21]);
    assert_eq!(exec1(&mut emu), Err(EmuException::Interrupt(0x21)));
    let mut emu = emulator_with(&[0x0f, 0x0b]);
    assert_eq!(exec1(&mut emu), Err(EmuException::UndefinedOpcode));
}

#[test]
fn divide_by_zero() {
    // xor ebx, ebx; div ebx (operand size 32)
    let mut emu = emulator_with(&[0x66, 0x31, 0xdb, 0x66, 0xf7, 0xf3, 0x90, 0x90, 0x90, 0x90]);
    exec1(&mut emu).unwrap();
    assert_eq!(exec1(&mut emu), Err(EmuException::CPUException(CPUException::DE)));
}

#[test]
fn divide_and_multiply() {
    // mov eax, 100; mov ebx, 7; xor edx, edx; div ebx; mul ebx (the group reads an immediate
    // past the instruction and steps back over it)
    let mut emu = emulator_with(&[
        0x66, 0xb8, 100, 0, 0, 0, 0x66, 0xbb, 7, 0, 0, 0, 0x66, 0x31, 0xd2,
        0x66, 0xf7, 0xf3, 0x66, 0xf7, 0xe3, 0x90, 0x90, 0x90, 0x90,
    ]);
    for _ in 0..4 {
        exec1(&mut emu).unwrap();
    }
    assert_eq!(emu.ac.get_gpreg(GpReg64::RAX).unwrap(), 14);
    assert_eq!(emu.ac.get_gpreg(GpReg64::RDX).unwrap(), 2);
    exec1(&mut emu).unwrap();
    // the whole pair EDX:EAX is multiplied
    assert_eq!(emu.ac.get_gpreg(GpReg64::RAX).unwrap(), 98);
    assert_eq!(emu.ac.get_gpreg(GpReg64::RDX).unwrap(), 14);
}

#[test]
fn unimplemented_and_unexpected_forms() {
    // 0f 01 /7: not implemented
    let mut emu = emulator_with(&[0x0f, 0x01, 0xf8]);
    assert_eq!(exec1(&mut emu), Err(EmuException::NotImplementedOpcode));
    // ff /7 at operand size 32: no such operation
    let mut emu = emulator_with(&[0x66, 0xff, 0xf8]);
    assert_eq!(exec1(&mut emu), Err(EmuException::UnexpectedError));
    // mov eax, cr1: no such control register
    let mut emu = emulator_with(&[0x0f, 0x20, 0xc8]);
    assert_eq!(exec1(&mut emu), Err(EmuException::NotImplementedFunction));
}

#[test]
fn trap_flag_raises_debug_exception() {
    let mut emu = emulator_with(&[0x90]);
    emu.ac.core.rflags.TF = 1;
    assert_eq!(exec1(&mut emu), Err(EmuException::CPUException(CPUException::DB)));
}

#[test]
fn shifts_and_sign_extension() {
    // mov eax, 0x80000001 (32-bit); shl eax, 1 (c1 /4); cwde after mov ax, 0x8000
    let mut emu = emulator_with(&[
        0x66, 0xb8, 0x01, 0x00, 0x00, 0x80, 0x66, 0xc1, 0xe0, 0x01,
        0xb8, 0x00, 0x80, 0x66, 0x98,
    ]);
    exec1(&mut emu).unwrap();
    exec1(&mut emu).unwrap();
    assert_eq!(emu.ac.get_gpreg(GpReg64::RAX).unwrap(), 2);
    assert!(emu.ac.core.rflags.is_carry());
    exec1(&mut emu).unwrap();
    exec1(&mut emu).unwrap();
    assert_eq!(emu.ac.get_gpreg(GpReg64::RAX).unwrap(), 0xffff_8000);
}

#[test]
fn operand_size_prefixes() {
    let base = OpAdSize { op: AcsSize::BIT32, ad: AcsSize::BIT32 };
    let none = PrefixData { segment: None, repeat: None, size: OverrideSize { bits: OverrideSize::NONE }, rex: None };
    assert_eq!(Instruction::opad_size(&base, &none), base);
    let op = PrefixData { size: OverrideSize { bits: OverrideSize::OP }, ..none };
    assert_eq!(Instruction::opad_size(&base, &op).op, AcsSize::BIT16);
    let ad = PrefixData { size: OverrideSize { bits: OverrideSize::AD }, ..none };
    assert_eq!(Instruction::opad_size(&base, &ad).ad, AcsSize::BIT16);
    let wide = PrefixData { rex: Some(Rex { b: 0, x: 0, r: 0, w: 1 }), ..op };
    let long = OpAdSize { op: AcsSize::BIT32, ad: AcsSize::BIT64 };
    assert_eq!(Instruction::opad_size(&long, &wide).op, AcsSize::BIT64);
    assert_eq!(Instruction::opad_size(&long, &ad).ad, AcsSize::BIT32);
}

#[test]
fn opcode_tables() {
    let op = Opcode::new();
    let t32 = op.get(AcsSize::BIT32);
    assert_eq!(t32[0x01].func, Instr::Alu(AluOp::Add, Width::W32, Opnd::RM, Opnd::R));
    assert_eq!(t32[0x01].flag, OpFlags { bits: OpFlags::MODRM });
    let t16 = op.get(AcsSize::BIT16);
    assert_eq!(t16[0x05].func, Instr::Alu(AluOp::Add, Width::W16, Opnd::Acc, Opnd::Imm(Width::W16)));
    assert_eq!(t16[0x00].func, op.get(AcsSize::BIT64)[0x00].func);
    assert_eq!(t16[0x10b].func, Instr::Undefined);
}

#[test]
fn interrupt_queue_order() {
    let mut q = Interrupt::default();
    q.enqueue(IntrEvent::Hardware(1));
    q.enqueue(IntrEvent::Hardware(2));
    q.enqueue_top(IntrEvent::Software(3));
    let order: Vec<IntrEvent> = q.0.iter().cloned().collect();
    assert_eq!(order, vec![IntrEvent::Software(3), IntrEvent::Hardware(1), IntrEvent::Hardware(2)]);
}

#[test]
fn real_mode_interrupt_vector() {
    let mut emu = emulator_with(&[0x90]);
    emu.ac.core.dtregs.idtr.limit = 0x3ff;
    emu.ac.mem.write16(0x21 * 4, 0x1234);
    emu.ac.mem.write16(0x21 * 4 + 2, 0x0000);
    emu.intrpt.enqueue(IntrEvent::Software(0x21));
    emu.intrpt.handle(&mut emu.ac).unwrap();
    assert_eq!(emu.ac.core.ip.get_rip(), 0x1234);
    assert_eq!(emu.ac.get_gpreg(GpReg16::SP).unwrap(), 0x9000 - 6);
    assert_eq!(emu.ac.mem.read16(0x9000 - 6), CODE as u16);
}

#[test]
fn interrupt_vector_past_limit() {
    let mut emu = emulator_with(&[0x90]);
    emu.ac.core.dtregs.idtr.limit = 0;
    emu.intrpt.enqueue(IntrEvent::Software(1));
    assert_eq!(emu.intrpt.handle(&mut emu.ac), Err(EmuException::CPUException(CPUException::GP(None))));
}

#[test]
fn step_halts_and_wakes() {
    let mut emu = emulator_with(&[0xf4]);
    assert_eq!(emu.step(false), Ok((Some(Event::Halted), false)));
    assert!(emu.halt);
    emu.wake();
    assert!(!emu.halt);
}

#[test]
fn step_reports_breakpoint() {
    let mut emu = emulator_with(&[0x90, 0x90]);
    emu.breakpoints.push(CODE as u32 + 1);
    assert_eq!(emu.step(true), Ok((Some(Event::Break), false)));
    assert_eq!(emu.step(true), Ok((None, false)));
}

#[test]
fn step_breakpoint_exception_asks_for_dump() {
    let mut emu = emulator_with(&[0x90]);
    emu.ac.core.rflags.TF = 1;
    // a trap raises a debug exception, which the emulator cannot go on from
    assert_eq!(emu.step(false), Err(EmuException::CPUException(CPUException::DB)));
}

#[test]
fn map_binary_out_of_range() {
    let mut emu = Emulator::new(Hardware::new(0x1000), Device::new());
    assert!(emu.map_binary(0xffe, &[1, 2, 3, 4]).is_err());
    assert!(emu.map_binary(0xffc, &[1, 2, 3, 4]).is_ok());
    assert_eq!(emu.ac.mem.read32(0xffc), 0x04030201);
}

fn reg16(emu: &Emulator, r: GpReg16) -> u16 {
    emu.ac.get_gpreg(r).unwrap()
}

fn reg64(emu: &Emulator, r: GpReg64) -> u64 {
    emu.ac.get_gpreg(r).unwrap()
}

#[test]
fn signed_multiply_of_the_pair() {
    // mov eax, -2; mov ebx, 3; xor edx, edx; imul ebx
    let mut emu = emulator_with(&[
        0x66, 0xb8, 0xfe, 0xff, 0xff, 0xff, 0x66, 0xbb, 3, 0, 0, 0, 0x66, 0x31, 0xd2,
        0x66, 0xf7, 0xeb, 0x90, 0x90, 0x90, 0x90,
    ]);
    for _ in 0..4 {
        exec1(&mut emu).unwrap();
    }
    assert_eq!(reg64(&emu, GpReg64::RAX), 0xffff_fffa);
    assert_eq!(reg64(&emu, GpReg64::RDX), 0xffff_ffff);
    // the immediate the group reads is stepped back over
    assert_eq!(emu.ac.core.ip.get_rip(), CODE + 18);
}

#[test]
fn signed_divide_below_64_bits_reads_the_pair_unsigned() {
    // mov edx, -1; mov eax, -2; mov ebx, 16; idiv ebx
    let mut emu = emulator_with(&[
        0x66, 0xba, 0xff, 0xff, 0xff, 0xff, 0x66, 0xb8, 0xfe, 0xff, 0xff, 0xff, 0x66, 0xbb, 16, 0, 0, 0,
        0x66, 0xf7, 0xfb, 0x90, 0x90, 0x90, 0x90,
    ]);
    for _ in 0..4 {
        exec1(&mut emu).unwrap();
    }
    assert_eq!(reg64(&emu, GpReg64::RAX), 0xffff_ffff);
    assert_eq!(reg64(&emu, GpReg64::RDX), 14);
}

#[test]
fn not_and_neg_in_memory() {
    // not dword [0x2000]; neg dword [0x2004]
    let mut emu = emulator_with(&[
        0x66, 0xf7, 0x16, 0x00, 0x20, 0x90, 0x90, 0x90, 0x90,
        0x66, 0xf7, 0x1e, 0x04, 0x20, 0x90, 0x90, 0x90, 0x90,
    ]);
    emu.ac.mem.write32(0x2000, 0x0f0f_0000);
    emu.ac.mem.write32(0x2004, 1);
    exec1(&mut emu).unwrap();
    assert_eq!(emu.ac.mem.read32(0x2000), 0xf0f0_ffff);
    assert_eq!(emu.ac.core.ip.get_rip(), CODE + 5);
    emu.ac.core.ip.set_rip(CODE + 9);
    exec1(&mut emu).unwrap();
    assert_eq!(emu.ac.mem.read32(0x2004), 0xffff_ffff);
    assert!(emu.ac.core.rflags.is_carry());
    assert!(emu.ac.core.rflags.is_sign());
}

#[test]
fn multiply_by_memory_operand() {
    // mov eax, 5; xor edx, edx; mul dword [0x2000]
    let mut emu = emulator_with(&[
        0x66, 0xb8, 5, 0, 0, 0, 0x66, 0x31, 0xd2, 0x66, 0xf7, 0x26, 0x00, 0x20, 0x90, 0x90, 0x90, 0x90,
    ]);
    emu.ac.mem.write32(0x2000, 0x8000_0000);
    for _ in 0..3 {
        exec1(&mut emu).unwrap();
    }
    assert_eq!(reg64(&emu, GpReg64::RAX), 0x8000_0000);
    assert_eq!(reg64(&emu, GpReg64::RDX), 2);
}

#[test]
fn increment_in_memory_keeps_flags() {
    // inc dword [0x2000], the carry flag set before
    let mut emu = emulator_with(&[0x66, 0xff, 0x06, 0x00, 0x20]);
    emu.ac.mem.write32(0x2000, 0xffff_ffff);
    emu.ac.core.rflags.CF = 1;
    exec1(&mut emu).unwrap();
    assert_eq!(emu.ac.mem.read32(0x2000), 0);
    assert!(emu.ac.core.rflags.is_carry());
    assert!(!emu.ac.core.rflags.is_zero());
}

#[test]
fn shift_in_memory() {
    // shl dword [0x2000], 4
    let mut emu = emulator_with(&[0x66, 0xc1, 0x26, 0x00, 0x20, 0x04]);
    emu.ac.mem.write32(0x2000, 0x1234_5678);
    exec1(&mut emu).unwrap();
    assert_eq!(emu.ac.mem.read32(0x2000), 0x2345_6780);
    assert!(emu.ac.core.rflags.is_carry());
}

#[test]
fn test_setcc_and_movzx_with_memory() {
    // mov ax, 0x00f0; test [0x2000], ax; setz byte [0x2002]; movzx bx, byte [0x2003]
    let mut emu = emulator_with(&[
        0xb8, 0xf0, 0x00, 0x85, 0x06, 0x00, 0x20, 0x0f, 0x94, 0x06, 0x02, 0x20, 0x0f, 0xb6, 0x1e, 0x03, 0x20,
    ]);
    emu.ac.mem.write16(0x2000, 0x0f0f);
    emu.ac.mem.write8(0x2002, 0x55);
    emu.ac.mem.write8(0x2003, 0x9a);
    for _ in 0..4 {
        exec1(&mut emu).unwrap();
    }
    assert!(emu.ac.core.rflags.is_zero());
    assert_eq!(emu.ac.mem.read8(0x2002), 1);
    assert_eq!(reg16(&emu, GpReg16::BX), 0x009a);
}

#[test]
fn exchange_with_memory() {
    // mov ax, 0x2222; xchg ax, [0x2000]
    let mut emu = emulator_with(&[0xb8, 0x22, 0x22, 0x87, 0x06, 0x00, 0x20]);
    emu.ac.mem.write16(0x2000, 0x1111);
    exec1(&mut emu).unwrap();
    exec1(&mut emu).unwrap();
    assert_eq!(ax(&emu), 0x1111);
    assert_eq!(emu.ac.mem.read16(0x2000), 0x2222);
}

#[test]
fn push_all_and_pop_all() {
    let mut emu = emulator_with(&[0x60, 0x61]);
    let regs = [GpReg16::AX, GpReg16::CX, GpReg16::DX, GpReg16::BX, GpReg16::SP, GpReg16::BP, GpReg16::SI, GpReg16::DI];
    for (i, r) in regs.iter().enumerate() {
        if *r != GpReg16::SP {
            emu.ac.set_gpreg(*r, 0x1000 + i as u16).unwrap();
        }
    }
    exec1(&mut emu).unwrap();
    assert_eq!(reg16(&emu, GpReg16::SP), 0x9000 - 16);
    // the first pushed (AX) is deepest; the saved SP is the one before the pushes
    assert_eq!(emu.ac.mem.read16(0x9000 - 2), 0x1000);
    assert_eq!(emu.ac.mem.read16(0x9000 - 10), 0x9000);
    assert_eq!(emu.ac.mem.read16(0x9000 - 16), 0x1007);
    for r in regs.iter() {
        if *r != GpReg16::SP {
            emu.ac.set_gpreg(*r, 0).unwrap();
        }
    }
    exec1(&mut emu).unwrap();
    for (i, r) in regs.iter().enumerate() {
        if *r != GpReg16::SP {
            assert_eq!(reg16(&emu, *r), 0x1000 + i as u16);
        }
    }
    assert_eq!(reg16(&emu, GpReg16::SP), 0x9000);
}

#[test]
fn leave_restores_frame() {
    let mut emu = emulator_with(&[0xc9]);
    emu.ac.set_gpreg(GpReg16::BP, 0x8ff0).unwrap();
    emu.ac.mem.write16(0x8ff0, 0x1234);
    exec1(&mut emu).unwrap();
    assert_eq!(reg16(&emu, GpReg16::SP), 0x8ff2);
    assert_eq!(reg16(&emu, GpReg16::BP), 0x1234);
}

#[test]
fn repeated_byte_move() {
    // rep movsb, three bytes: each step moves one and returns to the instruction
    let mut emu = emulator_with(&[0xf3, 0xa4, 0x90]);
    emu.ac.set_gpreg(GpReg16::SI, 0x2000).unwrap();
    emu.ac.set_gpreg(GpReg16::DI, 0x3000).unwrap();
    emu.ac.set_gpreg(GpReg16::CX, 3).unwrap();
    emu.ac.mem.write8(0x2000, 0xa1);
    emu.ac.mem.write8(0x2001, 0xa2);
    emu.ac.mem.write8(0x2002, 0xa3);
    // the prefix repeats while the zero flag is set, for movs too
    emu.ac.core.rflags.ZF = 1;
    exec1(&mut emu).unwrap();
    assert_eq!(emu.ac.core.ip.get_rip(), CODE);
    assert_eq!(reg16(&emu, GpReg16::CX), 2);
    exec1(&mut emu).unwrap();
    exec1(&mut emu).unwrap();
    assert_eq!(emu.ac.core.ip.get_rip(), CODE + 2);
    assert_eq!(reg16(&emu, GpReg16::CX), 0);
    assert_eq!(reg16(&emu, GpReg16::SI), 0x2003);
    assert_eq!(reg16(&emu, GpReg16::DI), 0x3003);
    assert_eq!(emu.ac.mem.read8(0x3000), 0xa1);
    assert_eq!(emu.ac.mem.read8(0x3002), 0xa3);
}

#[test]
fn repeat_stops_on_clear_zero_flag() {
    let mut emu = emulator_with(&[0xf3, 0xa4, 0x90]);
    emu.ac.set_gpreg(GpReg16::CX, 3).unwrap();
    exec1(&mut emu).unwrap();
    assert_eq!(emu.ac.core.ip.get_rip(), CODE + 2);
    assert_eq!(reg16(&emu, GpReg16::CX), 2);
}

#[test]
fn store_load_and_scan_strings() {
    // mov ax, 0xabcd; stosw; std; lodsb; cld; scasb
    let mut emu = emulator_with(&[0xb8, 0xcd, 0xab, 0xab, 0xfd, 0xac, 0xfc, 0xae]);
    emu.ac.set_gpreg(GpReg16::DI, 0x3000).unwrap();
    emu.ac.set_gpreg(GpReg16::SI, 0x2000).unwrap();
    emu.ac.mem.write8(0x2000, 0x77);
    exec1(&mut emu).unwrap();
    exec1(&mut emu).unwrap();
    assert_eq!(emu.ac.mem.read16(0x3000), 0xabcd);
    assert_eq!(reg16(&emu, GpReg16::DI), 0x3002);
    exec1(&mut emu).unwrap();
    exec1(&mut emu).unwrap();
    assert_eq!(emu.ac.get_gpreg(GpReg8::AL).unwrap(), 0x77);
    assert_eq!(reg16(&emu, GpReg16::SI), 0x1fff);
    exec1(&mut emu).unwrap();
    emu.ac.mem.write8(0x3002, 0x77);
    exec1(&mut emu).unwrap();
    assert!(emu.ac.core.rflags.is_zero());
    assert_eq!(reg16(&emu, GpReg16::DI), 0x3003);
}

#[test]
fn far_jump_and_returns_in_real_mode() {
    // jmp 0x0000:0x7c10
    let mut emu = emulator_with(&[0xea, 0x10, 0x7c, 0x00, 0x00]);
    exec1(&mut emu).unwrap();
    assert_eq!(emu.ac.core.ip.get_rip(), 0x7c10);
    // retf: pops the offset, then the selector
    let mut emu = emulator_with(&[0xcb]);
    emu.ac.set_gpreg(GpReg16::SP, 0x8ffc).unwrap();
    emu.ac.mem.write16(0x8ffc, 0x0100);
    emu.ac.mem.write16(0x8ffe, 0x0000);
    exec1(&mut emu).unwrap();
    assert_eq!(emu.ac.core.ip.get_rip(), 0x0100);
    assert_eq!(reg16(&emu, GpReg16::SP), 0x9000);
    // iret: the offset, the selector, then the flags
    let mut emu = emulator_with(&[0xcf]);
    emu.ac.set_gpreg(GpReg16::SP, 0x8ffa).unwrap();
    emu.ac.mem.write16(0x8ffa, 0x0200);
    emu.ac.mem.write16(0x8ffc, 0x0000);
    emu.ac.mem.write16(0x8ffe, 0x0001);
    exec1(&mut emu).unwrap();
    assert_eq!(emu.ac.core.ip.get_rip(), 0x0200);
    assert!(emu.ac.core.rflags.is_carry());
    assert_eq!(reg16(&emu, GpReg16::SP), 0x9000);
}

#[test]
fn sixteen_bit_table_lacks_groups() {
    let op = Opcode::new();
    let t16 = op.get(AcsSize::BIT16);
    assert_eq!(t16[0xf7].func, Instr::Undefined);
    assert_eq!(t16[0xff].func, Instr::Undefined);
    assert_eq!(t16[0xc1].func, Instr::Undefined);
    assert_eq!(t16[0xd3].func, Instr::Undefined);
}

#[test]
fn step_takes_software_interrupt() {
    // int 0x21, through the real-mode vector table
    let mut emu = emulator_with(&[0xcd, 0x21]);
    emu.ac.core.dtregs.idtr.limit = 0x3ff;
    emu.ac.mem.write16(0x21 * 4, 0x0500);
    emu.ac.mem.write16(0x21 * 4 + 2, 0x0000);
    assert_eq!(emu.step(false), Ok((None, false)));
    assert_eq!(emu.ac.core.ip.get_rip(), 0x0500);
    assert_eq!(reg16(&emu, GpReg16::SP), 0x9000 - 6);
    // the return address is the instruction after int
    assert_eq!(emu.ac.mem.read16(0x9000 - 6), CODE as u16 + 2);
    assert_eq!(emu.intrpt.0.len(), 0);
}

#[test]
fn step_queues_device_interrupt_when_enabled() {
    let mut emu = emulator_with(&[0x90, 0x90]);
    emu.ac.core.dtregs.idtr.limit = 0x3ff;
    emu.ac.mem.write16(0x08 * 4, 0x0600);
    emu.ac.dev.irq_queue.push(0x08);
    // interrupts disabled: the request waits
    assert_eq!(emu.step(false), Ok((None, false)));
    assert_eq!(emu.ac.core.ip.get_rip(), CODE + 1);
    emu.ac.core.rflags.IF = 1;
    assert_eq!(emu.step(false), Ok((None, false)));
    assert_eq!(emu.ac.core.ip.get_rip(), 0x0600);
    assert_eq!(emu.ac.dev.irq_queue.len(), 0);
}

#[test]
fn multiply_then_divide_gives_back() {
    // mov eax, 1234; mov ebx, 77; xor edx, edx; mul ebx; div ebx
    let mut emu = emulator_with(&[
        0x66, 0xb8, 0xd2, 0x04, 0, 0, 0x66, 0xbb, 77, 0, 0, 0, 0x66, 0x31, 0xd2,
        0x66, 0xf7, 0xe3, 0x90, 0x90, 0x90, 0x90,
    ]);
    for _ in 0..4 {
        exec1(&mut emu).unwrap();
    }
    assert_eq!(reg64(&emu, GpReg64::RAX), 1234 * 77);
    assert_eq!(reg64(&emu, GpReg64::RDX), 0);
    // the group steps back over the immediate it read, onto the next bytes: run div there
    emu.ac.mem.write8(CODE as usize + 18, 0x66);
    emu.ac.mem.write8(CODE as usize + 19, 0xf7);
    emu.ac.mem.write8(CODE as usize + 20, 0xf3);
    exec1(&mut emu).unwrap();
    assert_eq!(reg64(&emu, GpReg64::RAX), 1234);
    assert_eq!(reg64(&emu, GpReg64::RDX), 0);
}

#[test]
fn load_descriptor_table_register() {
    // lgdt [0x2000] with a 16-bit operand: 24 bits of the base
    let mut emu = emulator_with(&[0x0f, 0x01, 0x16, 0x00, 0x20]);
    emu.ac.mem.write16(0x2000, 0x0127);
    emu.ac.mem.write32(0x2002, 0x1234_5678);
    exec1(&mut emu).unwrap();
    assert_eq!(emu.ac.core.dtregs.gdtr.limit, 0x0127);
    assert_eq!(emu.ac.core.dtregs.gdtr.base, 0x34_5678);
}

#[test]
fn call_through_register() {
    // mov eax, 0x7d00; call eax (operand size 32)
    let mut emu = emulator_with(&[0x66, 0xb8, 0x00, 0x7d, 0x00, 0x00, 0x66, 0xff, 0xd0]);
    exec1(&mut emu).unwrap();
    exec1(&mut emu).unwrap();
    assert_eq!(emu.ac.core.ip.get_rip(), 0x7d00);
    assert_eq!(reg16(&emu, GpReg16::SP), 0x9000 - 4);
    assert_eq!(emu.ac.mem.read32(0x9000 - 4), CODE as u32 + 9);
}

#[test]
fn arithmetic_from_memory_source() {
    // mov ax, 0x1000; add ax, [0x2000]; cmp ax, [0x2002]
    let mut emu = emulator_with(&[0xb8, 0x00, 0x10, 0x03, 0x06, 0x00, 0x20, 0x3b, 0x06, 0x02, 0x20]);
    emu.ac.mem.write16(0x2000, 0x0234);
    emu.ac.mem.write16(0x2002, 0x1234);
    for _ in 0..3 {
        exec1(&mut emu).unwrap();
    }
    assert_eq!(ax(&emu), 0x1234);
    assert!(emu.ac.core.rflags.is_zero());
}

#[test]
fn legacy_prefixes_are_read_up_to_the_opcode() {
    // cs, operand size, rep; then movsb
    let mut emu = emulator_with(&[0x2e, 0x66, 0xf3, 0xa4]);
    let mut p: ParseInstr = Default::default();
    p.parse_prefix(&mut emu.ac).unwrap();
    assert_eq!(p.instr.len, 3);
    assert_eq!(p.prefix.repeat, Some(Rep::REPZ));
    assert!(p.prefix.size.contains(OverrideSize::OP));
    assert!(!p.prefix.size.contains(OverrideSize::AD));
    assert_eq!(p.prefix.rex, None);
}

#[test]
fn modrm_sib_and_displacement_are_read() {
    // mov eax, [esp + 8] with 32-bit addressing
    let mut emu = emulator_with(&[0x8b, 0x44, 0x24, 0x08]);
    let mut p: ParseInstr = Default::default();
    p.parse_opcode(&mut emu.ac).unwrap();
    assert_eq!(p.instr.opcode, 0x8b);
    p.parse_oprand(&mut emu.ac, OpFlags { bits: OpFlags::MODRM }, AcsSize::BIT32).unwrap();
    assert_eq!(p.instr.modrm.mod_, 1);
    assert_eq!(p.instr.modrm.rm, 4);
    assert_eq!(p.instr.sib.base, 4);
    assert_eq!(p.instr.sib.index, 4);
    assert_eq!(p.instr.disp, 8);
    assert_eq!(p.instr.len, 4);
}

#[test]
fn two_byte_opcode_is_read_into_the_upper_page() {
    // movzx ax, byte [bx]
    let mut emu = emulator_with(&[0x0f, 0xb6, 0x07]);
    let mut p: ParseInstr = Default::default();
    p.parse_opcode(&mut emu.ac).unwrap();
    assert_eq!(p.instr.opcode, 0x1b6);
    assert_eq!(p.instr.len, 2);
}

#[test]
fn real_mode_interrupt_loads_cs_base() {
    let mut emu = emulator_with(&[0x90]);
    emu.ac.core.dtregs.idtr.limit = 0x3ff;
    emu.ac.mem.write16(0x21 * 4, 0x0010);
    emu.ac.mem.write16(0x21 * 4 + 2, 0x0100);
    emu.intrpt.enqueue(IntrEvent::Software(0x21));
    emu.intrpt.handle(&mut emu.ac).unwrap();
    let cs = emu.ac.get_sgreg(x64emu::hardware::processor::segment::SgReg::CS).unwrap();
    assert_eq!(cs.0, 0x0100);
    assert_eq!(cs.1.base, 0x1000);
    assert_eq!(cs.1.limit, 0xffff);
}

#[test]
fn new_emulator_starts_in_real_mode_with_its_devices() {
    let mut dev = Device::new();
    dev.write_memio(0x1000, &[0x5a]);
    let mut emu = Emulator::new(Hardware::new(0x10000), dev);
    assert_eq!(emu.ac.mode, x64emu::emulator::access::CpuMode::Real);
    assert_eq!(emu.ac.oasz, OpAdSize { op: AcsSize::BIT16, ad: AcsSize::BIT16 });
    assert_eq!(emu.ac.stsz, AcsSize::BIT16);
    assert!(emu.ac.pgmd.is_none());
    assert!(!emu.ac.a20gate);
    assert!(!emu.halt);
    let mut d = [0u8; 1];
    emu.ac.dev.read_memio(0x1000, &mut d);
    assert_eq!(d, [0x5a]);
    emu.map_binary(0x100, &[1, 2]).unwrap();
    assert_eq!(emu.ac.mode, x64emu::emulator::access::CpuMode::Real);
    assert_eq!(emu.ac.mem.read16(0x100), 0x0201);
}
