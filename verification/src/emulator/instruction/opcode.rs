use vstd::prelude::*;
use crate::emulator::EmuException;
use crate::emulator::access::AcsSize;
use super::exec::Exec;

verus! {

/// What an opcode is followed by: a ModR/M byte, an immediate of one of four sizes, a far
/// pointer's selector, a memory offset.
#[derive(Clone, Copy, PartialEq, Eq, Structural, Debug)]
pub struct OpFlags {
    pub bits: u8,
}

impl OpFlags {
    pub const NONE: u8 = 0b0000_0000;

    pub const MODRM: u8 = 0b0000_0001;

    pub const IMM: u8 = 0b0000_0010;

    pub const PTR16: u8 = 0b0000_0100;

    pub const MOFFS: u8 = 0b0000_1000;

    pub const SZ8: u8 = 0b0001_0000;

    pub const SZ16: u8 = 0b0010_0000;

    pub const SZ32: u8 = 0b0100_0000;

    pub const SZ64: u8 = 0b1000_0000;

    pub const SZBIT: u8 = 0b1111_0000;

    pub const IMM8: u8 = 0b0001_0010;

    pub const IMM16: u8 = 0b0010_0010;

    pub const IMM32: u8 = 0b0100_0010;

    pub const IMM64: u8 = 0b1000_0010;

    /// Whether every flag of `flag` is set.
    pub fn contains(&self, flag: u8) -> (b: bool)
        ensures
            b == (self.bits & flag == flag),
    {
        self.bits & flag == flag
    }
}

/// The width of an operand.
#[derive(Clone, Copy, PartialEq, Eq, Structural, Debug)]
pub enum Width {
    W8,
    W16,
    W32,
    W64,
}

impl Width {
    /// `2^bits`: one more than the largest value of this width.
    pub open spec fn modulus(self) -> nat {
        match self {
            Width::W8 => 0x100,
            Width::W16 => 0x1_0000,
            Width::W32 => 0x1_0000_0000,
            Width::W64 => 0x1_0000_0000_0000_0000,
        }
    }

    /// `2^(bits - 1)`: the value of the sign bit.
    pub open spec fn half(self) -> nat {
        match self {
            Width::W8 => 0x80,
            Width::W16 => 0x8000,
            Width::W32 => 0x8000_0000,
            Width::W64 => 0x8000_0000_0000_0000,
        }
    }

    pub open spec fn nbytes(self) -> nat {
        match self {
            Width::W8 => 1,
            Width::W16 => 2,
            Width::W32 => 4,
            Width::W64 => 8,
        }
    }

    pub fn bytes(self) -> (n: u64)
        ensures
            n == self.nbytes(),
    {
        match self {
            Width::W8 => 1,
            Width::W16 => 2,
            Width::W32 => 4,
            Width::W64 => 8,
        }
    }
}

/// `v` cut to width `w`.
pub open spec fn trunc(w: Width, v: u64) -> u64 {
    (v as nat % w.modulus()) as u64
}

/// Cuts `v` to width `w`.
pub fn truncate(w: Width, v: u64) -> (r: u64)
    ensures
        r == trunc(w, v),
        r < w.modulus(),
{
    match w {
        Width::W8 => v % 0x100,
        Width::W16 => v % 0x1_0000,
        Width::W32 => v % 0x1_0000_0000,
        Width::W64 => v,
    }
}


/// An operand of an instruction: the register that the ModR/M reg field names, the register
/// or memory location that the rm field names, the register in the low opcode bits, the
/// accumulator, the memory offset, an immediate of the given width, CL, DX, or the segment
/// register that the reg field names.
#[derive(Clone, Copy, PartialEq, Eq, Structural, Debug)]
pub enum Opnd {
    R,
    RM,
    Opr,
    Acc,
    Moffs,
    Imm(Width),
    Cl,
    Dx,
    Sreg,
}

/// The arithmetic and logic operations of opcodes 0x00..0x3f and of groups 0x80..0x83.
#[derive(Clone, Copy, PartialEq, Eq, Structural, Debug)]
pub enum AluOp {
    Add,
    Or,
    Adc,
    Sbb,
    And,
    Sub,
    Xor,
    Cmp,
}

/// A condition of a conditional jump or set; the negated forms carry a flag beside it.
#[derive(Clone, Copy, PartialEq, Eq, Structural, Debug)]
pub enum Cond {
    O,
    B,
    Z,
    BE,
    S,
    P,
    L,
    LE,
}

/// A string instruction.
#[derive(Clone, Copy, PartialEq, Eq, Structural, Debug)]
pub enum StrOp {
    Movs,
    Cmps,
    Stos,
    Lods,
    Scas,
}

/// What an opcode does. The widths name the operand size; a group names its operation in the
/// ModR/M reg field.
#[derive(Clone, Copy, PartialEq, Eq, Structural, Debug)]
pub enum Instr {
    Undefined,
    Nop,
    Alu(AluOp, Width, Opnd, Opnd),
    AluGroup(Width, Opnd),
    Inc(Width, Opnd),
    Dec(Width, Opnd),
    Push(Width, Opnd),
    Pop(Width, Opnd),
    Pusha(Width),
    Popa(Width),
    Imul3(Width, Opnd),
    Imul2(Width),
    Test(Width, Opnd, Opnd),
    Xchg(Width, Opnd, Opnd),
    Mov(Width, Opnd, Opnd),
    Lea(Width),
    SignExtAcc(Width),
    SignExtDx(Width),
    CallF(Width),
    JmpF(Width),
    PushF(Width),
    PopF(Width),
    Str(StrOp, Width, Width),
    Ret(Width),
    RetF(Width),
    IRet(Width),
    Leave(Width),
    In(Width, Opnd),
    Out(Width, Opnd),
    CallRel(Width),
    JmpRel(Width),
    Jcc(Cond, bool, Width),
    Setcc(Cond, bool),
    Movzx(Width, Width),
    Movsx(Width, Width),
    ShiftGroup(Width, Opnd),
    GroupF7(Width),
    GroupFF(Width),
    Group0F00,
    Group0F01(Width),
    Int3,
    IntImm8,
    Into,
    Cli,
    Sti,
    Cld,
    Std,
    Hlt,
    MovR32Cr,
    MovCrR32,
}

/// An entry of an opcode table: what the opcode does and what follows it.
#[derive(Clone, Copy, PartialEq, Eq, Structural, Debug)]
pub struct OpcodeType {
    pub func: Instr,
    pub flag: OpFlags,
}

impl Default for OpcodeType {
    fn default() -> (e: Self)
        ensures
            e == undefined_entry(),
    {
        OpcodeType { func: Instr::Undefined, flag: OpFlags { bits: OpFlags::NONE } }
    }
}

/// The entry of an opcode nothing is defined for.
pub open spec fn undefined_entry() -> OpcodeType {
    OpcodeType { func: Instr::Undefined, flag: OpFlags { bits: OpFlags::NONE } }
}

/// The number of entries of an opcode table: one-byte opcodes, then those after 0x0f.
pub const MAX_OPCODE: usize = 0x200;

/// An opcode table, indexed by the opcode (0x0f-prefixed ones from 0x100).
pub type OpcodeArr = Vec<OpcodeType>;

pub open spec fn entry_of(func: Instr, bits: u8) -> OpcodeType {
    OpcodeType { func, flag: OpFlags { bits } }
}

fn entry(func: Instr, bits: u8) -> (e: OpcodeType)
    ensures
        e == entry_of(func, bits),
{
    OpcodeType { func, flag: OpFlags { bits } }
}

/// Entry `i` of `base` after an entry `e` is written over it, if there is one.
pub open spec fn overlay(base: Seq<OpcodeType>, i: int, e: Option<OpcodeType>) -> OpcodeType {
    match e {
        Some(x) => x,
        None => base[i],
    }
}

/// The entries that every operand size shares.
pub open spec fn cmn_spec(code: u16) -> Option<OpcodeType> {
    if code == 0x000 {
        Some(entry_of(Instr::Alu(AluOp::Add, Width::W8, Opnd::RM, Opnd::R), OpFlags::MODRM))
    } else if code == 0x002 {
        Some(entry_of(Instr::Alu(AluOp::Add, Width::W8, Opnd::R, Opnd::RM), OpFlags::MODRM))
    } else if code == 0x004 {
        Some(entry_of(Instr::Alu(AluOp::Add, Width::W8, Opnd::Acc, Opnd::Imm(Width::W8)), OpFlags::IMM8))
    } else if code == 0x008 {
        Some(entry_of(Instr::Alu(AluOp::Or, Width::W8, Opnd::RM, Opnd::R), OpFlags::MODRM))
    } else if code == 0x00a {
        Some(entry_of(Instr::Alu(AluOp::Or, Width::W8, Opnd::R, Opnd::RM), OpFlags::MODRM))
    } else if code == 0x00c {
        Some(entry_of(Instr::Alu(AluOp::Or, Width::W8, Opnd::Acc, Opnd::Imm(Width::W8)), OpFlags::IMM8))
    } else if code == 0x010 {
        Some(entry_of(Instr::Alu(AluOp::Adc, Width::W8, Opnd::RM, Opnd::R), OpFlags::MODRM))
    } else if code == 0x012 {
        Some(entry_of(Instr::Alu(AluOp::Adc, Width::W8, Opnd::R, Opnd::RM), OpFlags::MODRM))
    } else if code == 0x014 {
        Some(entry_of(Instr::Alu(AluOp::Adc, Width::W8, Opnd::Acc, Opnd::Imm(Width::W8)), OpFlags::IMM8))
    } else if code == 0x018 {
        Some(entry_of(Instr::Alu(AluOp::Sbb, Width::W8, Opnd::RM, Opnd::R), OpFlags::MODRM))
    } else if code == 0x01a {
        Some(entry_of(Instr::Alu(AluOp::Sbb, Width::W8, Opnd::R, Opnd::RM), OpFlags::MODRM))
    } else if code == 0x01c {
        Some(entry_of(Instr::Alu(AluOp::Sbb, Width::W8, Opnd::Acc, Opnd::Imm(Width::W8)), OpFlags::IMM8))
    } else if code == 0x020 {
        Some(entry_of(Instr::Alu(AluOp::And, Width::W8, Opnd::RM, Opnd::R), OpFlags::MODRM))
    } else if code == 0x022 {
        Some(entry_of(Instr::Alu(AluOp::And, Width::W8, Opnd::R, Opnd::RM), OpFlags::MODRM))
    } else if code == 0x024 {
        Some(entry_of(Instr::Alu(AluOp::And, Width::W8, Opnd::Acc, Opnd::Imm(Width::W8)), OpFlags::IMM8))
    } else if code == 0x028 {
        Some(entry_of(Instr::Alu(AluOp::Sub, Width::W8, Opnd::RM, Opnd::R), OpFlags::MODRM))
    } else if code == 0x02a {
        Some(entry_of(Instr::Alu(AluOp::Sub, Width::W8, Opnd::R, Opnd::RM), OpFlags::MODRM))
    } else if code == 0x02c {
        Some(entry_of(Instr::Alu(AluOp::Sub, Width::W8, Opnd::Acc, Opnd::Imm(Width::W8)), OpFlags::IMM8))
    } else if code == 0x030 {
        Some(entry_of(Instr::Alu(AluOp::Xor, Width::W8, Opnd::RM, Opnd::R), OpFlags::MODRM))
    } else if code == 0x032 {
        Some(entry_of(Instr::Alu(AluOp::Xor, Width::W8, Opnd::R, Opnd::RM), OpFlags::MODRM))
    } else if code == 0x034 {
        Some(entry_of(Instr::Alu(AluOp::Xor, Width::W8, Opnd::Acc, Opnd::Imm(Width::W8)), OpFlags::IMM8))
    } else if code == 0x038 {
        Some(entry_of(Instr::Alu(AluOp::Cmp, Width::W8, Opnd::RM, Opnd::R), OpFlags::MODRM))
    } else if code == 0x03a {
        Some(entry_of(Instr::Alu(AluOp::Cmp, Width::W8, Opnd::R, Opnd::RM), OpFlags::MODRM))
    } else if code == 0x03c {
        Some(entry_of(Instr::Alu(AluOp::Cmp, Width::W8, Opnd::Acc, Opnd::Imm(Width::W8)), OpFlags::IMM8))
    } else if code == 0x070 {
        Some(entry_of(Instr::Jcc(Cond::O, false, Width::W8), OpFlags::IMM8))
    } else if code == 0x071 {
        Some(entry_of(Instr::Jcc(Cond::O, true, Width::W8), OpFlags::IMM8))
    } else if code == 0x072 {
        Some(entry_of(Instr::Jcc(Cond::B, false, Width::W8), OpFlags::IMM8))
    } else if code == 0x073 {
        Some(entry_of(Instr::Jcc(Cond::B, true, Width::W8), OpFlags::IMM8))
    } else if code == 0x074 {
        Some(entry_of(Instr::Jcc(Cond::Z, false, Width::W8), OpFlags::IMM8))
    } else if code == 0x075 {
        Some(entry_of(Instr::Jcc(Cond::Z, true, Width::W8), OpFlags::IMM8))
    } else if code == 0x076 {
        Some(entry_of(Instr::Jcc(Cond::BE, false, Width::W8), OpFlags::IMM8))
    } else if code == 0x077 {
        Some(entry_of(Instr::Jcc(Cond::BE, true, Width::W8), OpFlags::IMM8))
    } else if code == 0x078 {
        Some(entry_of(Instr::Jcc(Cond::S, false, Width::W8), OpFlags::IMM8))
    } else if code == 0x079 {
        Some(entry_of(Instr::Jcc(Cond::S, true, Width::W8), OpFlags::IMM8))
    } else if code == 0x07a {
        Some(entry_of(Instr::Jcc(Cond::P, false, Width::W8), OpFlags::IMM8))
    } else if code == 0x07b {
        Some(entry_of(Instr::Jcc(Cond::P, true, Width::W8), OpFlags::IMM8))
    } else if code == 0x07c {
        Some(entry_of(Instr::Jcc(Cond::L, false, Width::W8), OpFlags::IMM8))
    } else if code == 0x07d {
        Some(entry_of(Instr::Jcc(Cond::L, true, Width::W8), OpFlags::IMM8))
    } else if code == 0x07e {
        Some(entry_of(Instr::Jcc(Cond::LE, false, Width::W8), OpFlags::IMM8))
    } else if code == 0x07f {
        Some(entry_of(Instr::Jcc(Cond::LE, true, Width::W8), OpFlags::IMM8))
    } else if code == 0x080 {
        Some(entry_of(Instr::AluGroup(Width::W8, Opnd::Imm(Width::W8)), OpFlags::MODRM | OpFlags::IMM8))
    } else if code == 0x084 {
        Some(entry_of(Instr::Test(Width::W8, Opnd::RM, Opnd::R), OpFlags::MODRM))
    } else if code == 0x086 {
        Some(entry_of(Instr::Xchg(Width::W8, Opnd::R, Opnd::RM), OpFlags::MODRM))
    } else if code == 0x088 {
        Some(entry_of(Instr::Mov(Width::W8, Opnd::RM, Opnd::R), OpFlags::MODRM))
    } else if code == 0x08a {
        Some(entry_of(Instr::Mov(Width::W8, Opnd::R, Opnd::RM), OpFlags::MODRM))
    } else if code == 0x08e {
        Some(entry_of(Instr::Mov(Width::W16, Opnd::Sreg, Opnd::RM), OpFlags::MODRM))
    } else if code == 0x090 {
        Some(entry_of(Instr::Nop, OpFlags::NONE))
    } else if code == 0x0a0 {
        Some(entry_of(Instr::Mov(Width::W8, Opnd::Acc, Opnd::Moffs), OpFlags::MOFFS))
    } else if code == 0x0a2 {
        Some(entry_of(Instr::Mov(Width::W8, Opnd::Moffs, Opnd::Acc), OpFlags::MOFFS))
    } else if code == 0x0a8 {
        Some(entry_of(Instr::Test(Width::W8, Opnd::Acc, Opnd::Imm(Width::W8)), OpFlags::IMM8))
    } else if 0x0b0 <= code && code <= 0x0b7 {
        Some(entry_of(Instr::Mov(Width::W8, Opnd::Opr, Opnd::Imm(Width::W8)), OpFlags::IMM8))
    } else if code == 0x0c6 {
        Some(entry_of(Instr::Mov(Width::W8, Opnd::RM, Opnd::Imm(Width::W8)), OpFlags::MODRM | OpFlags::IMM8))
    } else if code == 0x0cc {
        Some(entry_of(Instr::Int3, OpFlags::NONE))
    } else if code == 0x0cd {
        Some(entry_of(Instr::IntImm8, OpFlags::IMM8))
    } else if code == 0x0ce {
        Some(entry_of(Instr::Into, OpFlags::NONE))
    } else if code == 0x0e4 {
        Some(entry_of(Instr::In(Width::W8, Opnd::Imm(Width::W8)), OpFlags::IMM8))
    } else if code == 0x0e6 {
        Some(entry_of(Instr::Out(Width::W8, Opnd::Imm(Width::W8)), OpFlags::IMM8))
    } else if code == 0x0eb {
        Some(entry_of(Instr::JmpRel(Width::W8), OpFlags::IMM8))
    } else if code == 0x0ec {
        Some(entry_of(Instr::In(Width::W8, Opnd::Dx), OpFlags::NONE))
    } else if code == 0x0ee {
        Some(entry_of(Instr::Out(Width::W8, Opnd::Dx), OpFlags::NONE))
    } else if code == 0x0f4 {
        Some(entry_of(Instr::Hlt, OpFlags::NONE))
    } else if code == 0x0fa {
        Some(entry_of(Instr::Cli, OpFlags::NONE))
    } else if code == 0x0fb {
        Some(entry_of(Instr::Sti, OpFlags::NONE))
    } else if code == 0x0fc {
        Some(entry_of(Instr::Cld, OpFlags::NONE))
    } else if code == 0x0fd {
        Some(entry_of(Instr::Std, OpFlags::NONE))
    } else if code == 0x100 {
        Some(entry_of(Instr::Group0F00, OpFlags::MODRM))
    } else if code == 0x120 {
        Some(entry_of(Instr::MovR32Cr, OpFlags::MODRM))
    } else if code == 0x122 {
        Some(entry_of(Instr::MovCrR32, OpFlags::MODRM))
    } else if code == 0x190 {
        Some(entry_of(Instr::Setcc(Cond::O, false), OpFlags::MODRM))
    } else if code == 0x191 {
        Some(entry_of(Instr::Setcc(Cond::O, true), OpFlags::MODRM))
    } else if code == 0x192 {
        Some(entry_of(Instr::Setcc(Cond::B, false), OpFlags::MODRM))
    } else if code == 0x193 {
        Some(entry_of(Instr::Setcc(Cond::B, true), OpFlags::MODRM))
    } else if code == 0x194 {
        Some(entry_of(Instr::Setcc(Cond::Z, false), OpFlags::MODRM))
    } else if code == 0x195 {
        Some(entry_of(Instr::Setcc(Cond::Z, true), OpFlags::MODRM))
    } else if code == 0x196 {
        Some(entry_of(Instr::Setcc(Cond::BE, false), OpFlags::MODRM))
    } else if code == 0x197 {
        Some(entry_of(Instr::Setcc(Cond::BE, true), OpFlags::MODRM))
    } else if code == 0x198 {
        Some(entry_of(Instr::Setcc(Cond::S, false), OpFlags::MODRM))
    } else if code == 0x199 {
        Some(entry_of(Instr::Setcc(Cond::S, true), OpFlags::MODRM))
    } else if code == 0x19a {
        Some(entry_of(Instr::Setcc(Cond::P, false), OpFlags::MODRM))
    } else if code == 0x19b {
        Some(entry_of(Instr::Setcc(Cond::P, true), OpFlags::MODRM))
    } else if code == 0x19c {
        Some(entry_of(Instr::Setcc(Cond::L, false), OpFlags::MODRM))
    } else if code == 0x19d {
        Some(entry_of(Instr::Setcc(Cond::L, true), OpFlags::MODRM))
    } else if code == 0x19e {
        Some(entry_of(Instr::Setcc(Cond::LE, false), OpFlags::MODRM))
    } else if code == 0x19f {
        Some(entry_of(Instr::Setcc(Cond::LE, true), OpFlags::MODRM))
    } else {
        None
    }
}

fn cmn_entry(code: u16) -> (e: Option<OpcodeType>)
    ensures
        e == cmn_spec(code),
{
    if code == 0x000 {
        Some(entry(Instr::Alu(AluOp::Add, Width::W8, Opnd::RM, Opnd::R), OpFlags::MODRM))
    } else if code == 0x002 {
        Some(entry(Instr::Alu(AluOp::Add, Width::W8, Opnd::R, Opnd::RM), OpFlags::MODRM))
    } else if code == 0x004 {
        Some(entry(Instr::Alu(AluOp::Add, Width::W8, Opnd::Acc, Opnd::Imm(Width::W8)), OpFlags::IMM8))
    } else if code == 0x008 {
        Some(entry(Instr::Alu(AluOp::Or, Width::W8, Opnd::RM, Opnd::R), OpFlags::MODRM))
    } else if code == 0x00a {
        Some(entry(Instr::Alu(AluOp::Or, Width::W8, Opnd::R, Opnd::RM), OpFlags::MODRM))
    } else if code == 0x00c {
        Some(entry(Instr::Alu(AluOp::Or, Width::W8, Opnd::Acc, Opnd::Imm(Width::W8)), OpFlags::IMM8))
    } else if code == 0x010 {
        Some(entry(Instr::Alu(AluOp::Adc, Width::W8, Opnd::RM, Opnd::R), OpFlags::MODRM))
    } else if code == 0x012 {
        Some(entry(Instr::Alu(AluOp::Adc, Width::W8, Opnd::R, Opnd::RM), OpFlags::MODRM))
    } else if code == 0x014 {
        Some(entry(Instr::Alu(AluOp::Adc, Width::W8, Opnd::Acc, Opnd::Imm(Width::W8)), OpFlags::IMM8))
    } else if code == 0x018 {
        Some(entry(Instr::Alu(AluOp::Sbb, Width::W8, Opnd::RM, Opnd::R), OpFlags::MODRM))
    } else if code == 0x01a {
        Some(entry(Instr::Alu(AluOp::Sbb, Width::W8, Opnd::R, Opnd::RM), OpFlags::MODRM))
    } else if code == 0x01c {
        Some(entry(Instr::Alu(AluOp::Sbb, Width::W8, Opnd::Acc, Opnd::Imm(Width::W8)), OpFlags::IMM8))
    } else if code == 0x020 {
        Some(entry(Instr::Alu(AluOp::And, Width::W8, Opnd::RM, Opnd::R), OpFlags::MODRM))
    } else if code == 0x022 {
        Some(entry(Instr::Alu(AluOp::And, Width::W8, Opnd::R, Opnd::RM), OpFlags::MODRM))
    } else if code == 0x024 {
        Some(entry(Instr::Alu(AluOp::And, Width::W8, Opnd::Acc, Opnd::Imm(Width::W8)), OpFlags::IMM8))
    } else if code == 0x028 {
        Some(entry(Instr::Alu(AluOp::Sub, Width::W8, Opnd::RM, Opnd::R), OpFlags::MODRM))
    } else if code == 0x02a {
        Some(entry(Instr::Alu(AluOp::Sub, Width::W8, Opnd::R, Opnd::RM), OpFlags::MODRM))
    } else if code == 0x02c {
        Some(entry(Instr::Alu(AluOp::Sub, Width::W8, Opnd::Acc, Opnd::Imm(Width::W8)), OpFlags::IMM8))
    } else if code == 0x030 {
        Some(entry(Instr::Alu(AluOp::Xor, Width::W8, Opnd::RM, Opnd::R), OpFlags::MODRM))
    } else if code == 0x032 {
        Some(entry(Instr::Alu(AluOp::Xor, Width::W8, Opnd::R, Opnd::RM), OpFlags::MODRM))
    } else if code == 0x034 {
        Some(entry(Instr::Alu(AluOp::Xor, Width::W8, Opnd::Acc, Opnd::Imm(Width::W8)), OpFlags::IMM8))
    } else if code == 0x038 {
        Some(entry(Instr::Alu(AluOp::Cmp, Width::W8, Opnd::RM, Opnd::R), OpFlags::MODRM))
    } else if code == 0x03a {
        Some(entry(Instr::Alu(AluOp::Cmp, Width::W8, Opnd::R, Opnd::RM), OpFlags::MODRM))
    } else if code == 0x03c {
        Some(entry(Instr::Alu(AluOp::Cmp, Width::W8, Opnd::Acc, Opnd::Imm(Width::W8)), OpFlags::IMM8))
    } else if code == 0x070 {
        Some(entry(Instr::Jcc(Cond::O, false, Width::W8), OpFlags::IMM8))
    } else if code == 0x071 {
        Some(entry(Instr::Jcc(Cond::O, true, Width::W8), OpFlags::IMM8))
    } else if code == 0x072 {
        Some(entry(Instr::Jcc(Cond::B, false, Width::W8), OpFlags::IMM8))
    } else if code == 0x073 {
        Some(entry(Instr::Jcc(Cond::B, true, Width::W8), OpFlags::IMM8))
    } else if code == 0x074 {
        Some(entry(Instr::Jcc(Cond::Z, false, Width::W8), OpFlags::IMM8))
    } else if code == 0x075 {
        Some(entry(Instr::Jcc(Cond::Z, true, Width::W8), OpFlags::IMM8))
    } else if code == 0x076 {
        Some(entry(Instr::Jcc(Cond::BE, false, Width::W8), OpFlags::IMM8))
    } else if code == 0x077 {
        Some(entry(Instr::Jcc(Cond::BE, true, Width::W8), OpFlags::IMM8))
    } else if code == 0x078 {
        Some(entry(Instr::Jcc(Cond::S, false, Width::W8), OpFlags::IMM8))
    } else if code == 0x079 {
        Some(entry(Instr::Jcc(Cond::S, true, Width::W8), OpFlags::IMM8))
    } else if code == 0x07a {
        Some(entry(Instr::Jcc(Cond::P, false, Width::W8), OpFlags::IMM8))
    } else if code == 0x07b {
        Some(entry(Instr::Jcc(Cond::P, true, Width::W8), OpFlags::IMM8))
    } else if code == 0x07c {
        Some(entry(Instr::Jcc(Cond::L, false, Width::W8), OpFlags::IMM8))
    } else if code == 0x07d {
        Some(entry(Instr::Jcc(Cond::L, true, Width::W8), OpFlags::IMM8))
    } else if code == 0x07e {
        Some(entry(Instr::Jcc(Cond::LE, false, Width::W8), OpFlags::IMM8))
    } else if code == 0x07f {
        Some(entry(Instr::Jcc(Cond::LE, true, Width::W8), OpFlags::IMM8))
    } else if code == 0x080 {
        Some(entry(Instr::AluGroup(Width::W8, Opnd::Imm(Width::W8)), OpFlags::MODRM | OpFlags::IMM8))
    } else if code == 0x084 {
        Some(entry(Instr::Test(Width::W8, Opnd::RM, Opnd::R), OpFlags::MODRM))
    } else if code == 0x086 {
        Some(entry(Instr::Xchg(Width::W8, Opnd::R, Opnd::RM), OpFlags::MODRM))
    } else if code == 0x088 {
        Some(entry(Instr::Mov(Width::W8, Opnd::RM, Opnd::R), OpFlags::MODRM))
    } else if code == 0x08a {
        Some(entry(Instr::Mov(Width::W8, Opnd::R, Opnd::RM), OpFlags::MODRM))
    } else if code == 0x08e {
        Some(entry(Instr::Mov(Width::W16, Opnd::Sreg, Opnd::RM), OpFlags::MODRM))
    } else if code == 0x090 {
        Some(entry(Instr::Nop, OpFlags::NONE))
    } else if code == 0x0a0 {
        Some(entry(Instr::Mov(Width::W8, Opnd::Acc, Opnd::Moffs), OpFlags::MOFFS))
    } else if code == 0x0a2 {
        Some(entry(Instr::Mov(Width::W8, Opnd::Moffs, Opnd::Acc), OpFlags::MOFFS))
    } else if code == 0x0a8 {
        Some(entry(Instr::Test(Width::W8, Opnd::Acc, Opnd::Imm(Width::W8)), OpFlags::IMM8))
    } else if 0x0b0 <= code && code <= 0x0b7 {
        Some(entry(Instr::Mov(Width::W8, Opnd::Opr, Opnd::Imm(Width::W8)), OpFlags::IMM8))
    } else if code == 0x0c6 {
        Some(entry(Instr::Mov(Width::W8, Opnd::RM, Opnd::Imm(Width::W8)), OpFlags::MODRM | OpFlags::IMM8))
    } else if code == 0x0cc {
        Some(entry(Instr::Int3, OpFlags::NONE))
    } else if code == 0x0cd {
        Some(entry(Instr::IntImm8, OpFlags::IMM8))
    } else if code == 0x0ce {
        Some(entry(Instr::Into, OpFlags::NONE))
    } else if code == 0x0e4 {
        Some(entry(Instr::In(Width::W8, Opnd::Imm(Width::W8)), OpFlags::IMM8))
    } else if code == 0x0e6 {
        Some(entry(Instr::Out(Width::W8, Opnd::Imm(Width::W8)), OpFlags::IMM8))
    } else if code == 0x0eb {
        Some(entry(Instr::JmpRel(Width::W8), OpFlags::IMM8))
    } else if code == 0x0ec {
        Some(entry(Instr::In(Width::W8, Opnd::Dx), OpFlags::NONE))
    } else if code == 0x0ee {
        Some(entry(Instr::Out(Width::W8, Opnd::Dx), OpFlags::NONE))
    } else if code == 0x0f4 {
        Some(entry(Instr::Hlt, OpFlags::NONE))
    } else if code == 0x0fa {
        Some(entry(Instr::Cli, OpFlags::NONE))
    } else if code == 0x0fb {
        Some(entry(Instr::Sti, OpFlags::NONE))
    } else if code == 0x0fc {
        Some(entry(Instr::Cld, OpFlags::NONE))
    } else if code == 0x0fd {
        Some(entry(Instr::Std, OpFlags::NONE))
    } else if code == 0x100 {
        Some(entry(Instr::Group0F00, OpFlags::MODRM))
    } else if code == 0x120 {
        Some(entry(Instr::MovR32Cr, OpFlags::MODRM))
    } else if code == 0x122 {
        Some(entry(Instr::MovCrR32, OpFlags::MODRM))
    } else if code == 0x190 {
        Some(entry(Instr::Setcc(Cond::O, false), OpFlags::MODRM))
    } else if code == 0x191 {
        Some(entry(Instr::Setcc(Cond::O, true), OpFlags::MODRM))
    } else if code == 0x192 {
        Some(entry(Instr::Setcc(Cond::B, false), OpFlags::MODRM))
    } else if code == 0x193 {
        Some(entry(Instr::Setcc(Cond::B, true), OpFlags::MODRM))
    } else if code == 0x194 {
        Some(entry(Instr::Setcc(Cond::Z, false), OpFlags::MODRM))
    } else if code == 0x195 {
        Some(entry(Instr::Setcc(Cond::Z, true), OpFlags::MODRM))
    } else if code == 0x196 {
        Some(entry(Instr::Setcc(Cond::BE, false), OpFlags::MODRM))
    } else if code == 0x197 {
        Some(entry(Instr::Setcc(Cond::BE, true), OpFlags::MODRM))
    } else if code == 0x198 {
        Some(entry(Instr::Setcc(Cond::S, false), OpFlags::MODRM))
    } else if code == 0x199 {
        Some(entry(Instr::Setcc(Cond::S, true), OpFlags::MODRM))
    } else if code == 0x19a {
        Some(entry(Instr::Setcc(Cond::P, false), OpFlags::MODRM))
    } else if code == 0x19b {
        Some(entry(Instr::Setcc(Cond::P, true), OpFlags::MODRM))
    } else if code == 0x19c {
        Some(entry(Instr::Setcc(Cond::L, false), OpFlags::MODRM))
    } else if code == 0x19d {
        Some(entry(Instr::Setcc(Cond::L, true), OpFlags::MODRM))
    } else if code == 0x19e {
        Some(entry(Instr::Setcc(Cond::LE, false), OpFlags::MODRM))
    } else if code == 0x19f {
        Some(entry(Instr::Setcc(Cond::LE, true), OpFlags::MODRM))
    } else {
        None
    }
}

/// The entries of 16-bit operand size.
pub open spec fn op16_spec(code: u16) -> Option<OpcodeType> {
    if code == 0x001 {
        Some(entry_of(Instr::Alu(AluOp::Add, Width::W16, Opnd::RM, Opnd::R), OpFlags::MODRM))
    } else if code == 0x003 {
        Some(entry_of(Instr::Alu(AluOp::Add, Width::W16, Opnd::R, Opnd::RM), OpFlags::MODRM))
    } else if code == 0x005 {
        Some(entry_of(Instr::Alu(AluOp::Add, Width::W16, Opnd::Acc, Opnd::Imm(Width::W16)), OpFlags::IMM16))
    } else if code == 0x009 {
        Some(entry_of(Instr::Alu(AluOp::Or, Width::W16, Opnd::RM, Opnd::R), OpFlags::MODRM))
    } else if code == 0x00b {
        Some(entry_of(Instr::Alu(AluOp::Or, Width::W16, Opnd::R, Opnd::RM), OpFlags::MODRM))
    } else if code == 0x00d {
        Some(entry_of(Instr::Alu(AluOp::Or, Width::W16, Opnd::Acc, Opnd::Imm(Width::W16)), OpFlags::IMM16))
    } else if code == 0x011 {
        Some(entry_of(Instr::Alu(AluOp::Adc, Width::W16, Opnd::RM, Opnd::R), OpFlags::MODRM))
    } else if code == 0x013 {
        Some(entry_of(Instr::Alu(AluOp::Adc, Width::W16, Opnd::R, Opnd::RM), OpFlags::MODRM))
    } else if code == 0x015 {
        Some(entry_of(Instr::Alu(AluOp::Adc, Width::W16, Opnd::Acc, Opnd::Imm(Width::W16)), OpFlags::IMM16))
    } else if code == 0x019 {
        Some(entry_of(Instr::Alu(AluOp::Sbb, Width::W16, Opnd::RM, Opnd::R), OpFlags::MODRM))
    } else if code == 0x01b {
        Some(entry_of(Instr::Alu(AluOp::Sbb, Width::W16, Opnd::R, Opnd::RM), OpFlags::MODRM))
    } else if code == 0x01d {
        Some(entry_of(Instr::Alu(AluOp::Sbb, Width::W16, Opnd::Acc, Opnd::Imm(Width::W16)), OpFlags::IMM16))
    } else if code == 0x021 {
        Some(entry_of(Instr::Alu(AluOp::And, Width::W16, Opnd::RM, Opnd::R), OpFlags::MODRM))
    } else if code == 0x023 {
        Some(entry_of(Instr::Alu(AluOp::And, Width::W16, Opnd::R, Opnd::RM), OpFlags::MODRM))
    } else if code == 0x025 {
        Some(entry_of(Instr::Alu(AluOp::And, Width::W16, Opnd::Acc, Opnd::Imm(Width::W16)), OpFlags::IMM16))
    } else if code == 0x029 {
        Some(entry_of(Instr::Alu(AluOp::Sub, Width::W16, Opnd::RM, Opnd::R), OpFlags::MODRM))
    } else if code == 0x02b {
        Some(entry_of(Instr::Alu(AluOp::Sub, Width::W16, Opnd::R, Opnd::RM), OpFlags::MODRM))
    } else if code == 0x02d {
        Some(entry_of(Instr::Alu(AluOp::Sub, Width::W16, Opnd::Acc, Opnd::Imm(Width::W16)), OpFlags::IMM16))
    } else if code == 0x031 {
        Some(entry_of(Instr::Alu(AluOp::Xor, Width::W16, Opnd::RM, Opnd::R), OpFlags::MODRM))
    } else if code == 0x033 {
        Some(entry_of(Instr::Alu(AluOp::Xor, Width::W16, Opnd::R, Opnd::RM), OpFlags::MODRM))
    } else if code == 0x035 {
        Some(entry_of(Instr::Alu(AluOp::Xor, Width::W16, Opnd::Acc, Opnd::Imm(Width::W16)), OpFlags::IMM16))
    } else if code == 0x039 {
        Some(entry_of(Instr::Alu(AluOp::Cmp, Width::W16, Opnd::RM, Opnd::R), OpFlags::MODRM))
    } else if code == 0x03b {
        Some(entry_of(Instr::Alu(AluOp::Cmp, Width::W16, Opnd::R, Opnd::RM), OpFlags::MODRM))
    } else if code == 0x03d {
        Some(entry_of(Instr::Alu(AluOp::Cmp, Width::W16, Opnd::Acc, Opnd::Imm(Width::W16)), OpFlags::IMM16))
    } else if 0x040 <= code && code <= 0x047 {
        Some(entry_of(Instr::Inc(Width::W16, Opnd::Opr), OpFlags::NONE))
    } else if 0x048 <= code && code <= 0x04f {
        Some(entry_of(Instr::Dec(Width::W16, Opnd::Opr), OpFlags::NONE))
    } else if 0x050 <= code && code <= 0x057 {
        Some(entry_of(Instr::Push(Width::W16, Opnd::Opr), OpFlags::NONE))
    } else if 0x058 <= code && code <= 0x05f {
        Some(entry_of(Instr::Pop(Width::W16, Opnd::Opr), OpFlags::NONE))
    } else if code == 0x060 {
        Some(entry_of(Instr::Pusha(Width::W16), OpFlags::NONE))
    } else if code == 0x061 {
        Some(entry_of(Instr::Popa(Width::W16), OpFlags::NONE))
    } else if code == 0x068 {
        Some(entry_of(Instr::Push(Width::W16, Opnd::Imm(Width::W16)), OpFlags::IMM16))
    } else if code == 0x069 {
        Some(entry_of(Instr::Imul3(Width::W16, Opnd::Imm(Width::W16)), OpFlags::MODRM | OpFlags::IMM16))
    } else if code == 0x06a {
        Some(entry_of(Instr::Push(Width::W16, Opnd::Imm(Width::W8)), OpFlags::IMM8))
    } else if code == 0x06b {
        Some(entry_of(Instr::Imul3(Width::W16, Opnd::Imm(Width::W8)), OpFlags::MODRM | OpFlags::IMM8))
    } else if code == 0x081 {
        Some(entry_of(Instr::AluGroup(Width::W16, Opnd::Imm(Width::W16)), OpFlags::MODRM | OpFlags::IMM16))
    } else if code == 0x083 {
        Some(entry_of(Instr::AluGroup(Width::W16, Opnd::Imm(Width::W8)), OpFlags::MODRM | OpFlags::IMM8))
    } else if code == 0x085 {
        Some(entry_of(Instr::Test(Width::W16, Opnd::RM, Opnd::R), OpFlags::MODRM))
    } else if code == 0x087 {
        Some(entry_of(Instr::Xchg(Width::W16, Opnd::R, Opnd::RM), OpFlags::MODRM))
    } else if code == 0x089 {
        Some(entry_of(Instr::Mov(Width::W16, Opnd::RM, Opnd::R), OpFlags::MODRM))
    } else if code == 0x08b {
        Some(entry_of(Instr::Mov(Width::W16, Opnd::R, Opnd::RM), OpFlags::MODRM))
    } else if code == 0x08c {
        Some(entry_of(Instr::Mov(Width::W16, Opnd::RM, Opnd::Sreg), OpFlags::MODRM))
    } else if code == 0x08d {
        Some(entry_of(Instr::Lea(Width::W16), OpFlags::MODRM))
    } else if 0x090 <= code && code <= 0x097 {
        Some(entry_of(Instr::Xchg(Width::W16, Opnd::Acc, Opnd::Opr), OpFlags::NONE))
    } else if code == 0x098 {
        Some(entry_of(Instr::SignExtAcc(Width::W16), OpFlags::NONE))
    } else if code == 0x099 {
        Some(entry_of(Instr::SignExtDx(Width::W16), OpFlags::NONE))
    } else if code == 0x09a {
        Some(entry_of(Instr::CallF(Width::W16), OpFlags::PTR16 | OpFlags::IMM16))
    } else if code == 0x09c {
        Some(entry_of(Instr::PushF(Width::W16), OpFlags::NONE))
    } else if code == 0x09d {
        Some(entry_of(Instr::PopF(Width::W16), OpFlags::NONE))
    } else if code == 0x0a1 {
        Some(entry_of(Instr::Mov(Width::W16, Opnd::Acc, Opnd::Moffs), OpFlags::MOFFS))
    } else if code == 0x0a3 {
        Some(entry_of(Instr::Mov(Width::W16, Opnd::Moffs, Opnd::Acc), OpFlags::MOFFS))
    } else if code == 0x0a4 {
        Some(entry_of(Instr::Str(StrOp::Movs, Width::W8, Width::W16), OpFlags::NONE))
    } else if code == 0x0a5 {
        Some(entry_of(Instr::Str(StrOp::Movs, Width::W16, Width::W16), OpFlags::NONE))
    } else if code == 0x0a6 {
        Some(entry_of(Instr::Str(StrOp::Cmps, Width::W8, Width::W16), OpFlags::NONE))
    } else if code == 0x0a7 {
        Some(entry_of(Instr::Str(StrOp::Cmps, Width::W16, Width::W16), OpFlags::NONE))
    } else if code == 0x0a9 {
        Some(entry_of(Instr::Test(Width::W16, Opnd::Acc, Opnd::Imm(Width::W16)), OpFlags::IMM16))
    } else if code == 0x0aa {
        Some(entry_of(Instr::Str(StrOp::Stos, Width::W8, Width::W16), OpFlags::NONE))
    } else if code == 0x0ab {
        Some(entry_of(Instr::Str(StrOp::Stos, Width::W16, Width::W16), OpFlags::NONE))
    } else if code == 0x0ac {
        Some(entry_of(Instr::Str(StrOp::Lods, Width::W8, Width::W16), OpFlags::NONE))
    } else if code == 0x0ad {
        Some(entry_of(Instr::Str(StrOp::Lods, Width::W16, Width::W16), OpFlags::NONE))
    } else if code == 0x0ae {
        Some(entry_of(Instr::Str(StrOp::Scas, Width::W8, Width::W16), OpFlags::NONE))
    } else if code == 0x0af {
        Some(entry_of(Instr::Str(StrOp::Scas, Width::W16, Width::W16), OpFlags::NONE))
    } else if 0x0b8 <= code && code <= 0x0bf {
        Some(entry_of(Instr::Mov(Width::W16, Opnd::Opr, Opnd::Imm(Width::W16)), OpFlags::IMM16))
    } else if code == 0x0c3 {
        Some(entry_of(Instr::Ret(Width::W16), OpFlags::NONE))
    } else if code == 0x0c7 {
        Some(entry_of(Instr::Mov(Width::W16, Opnd::RM, Opnd::Imm(Width::W16)), OpFlags::MODRM | OpFlags::IMM16))
    } else if code == 0x0c9 {
        Some(entry_of(Instr::Leave(Width::W16), OpFlags::NONE))
    } else if code == 0x0cb {
        Some(entry_of(Instr::RetF(Width::W16), OpFlags::NONE))
    } else if code == 0x0cf {
        Some(entry_of(Instr::IRet(Width::W16), OpFlags::NONE))
    } else if code == 0x0e5 {
        Some(entry_of(Instr::In(Width::W16, Opnd::Imm(Width::W8)), OpFlags::IMM8))
    } else if code == 0x0e7 {
        Some(entry_of(Instr::Out(Width::W16, Opnd::Imm(Width::W8)), OpFlags::IMM8))
    } else if code == 0x0e8 {
        Some(entry_of(Instr::CallRel(Width::W16), OpFlags::IMM16))
    } else if code == 0x0e9 {
        Some(entry_of(Instr::JmpRel(Width::W16), OpFlags::IMM16))
    } else if code == 0x0ea {
        Some(entry_of(Instr::JmpF(Width::W16), OpFlags::PTR16 | OpFlags::IMM16))
    } else if code == 0x0ed {
        Some(entry_of(Instr::In(Width::W16, Opnd::Dx), OpFlags::NONE))
    } else if code == 0x0ef {
        Some(entry_of(Instr::Out(Width::W16, Opnd::Dx), OpFlags::NONE))
    } else if code == 0x101 {
        Some(entry_of(Instr::Group0F01(Width::W16), OpFlags::MODRM))
    } else if code == 0x180 {
        Some(entry_of(Instr::Jcc(Cond::O, false, Width::W16), OpFlags::IMM16))
    } else if code == 0x181 {
        Some(entry_of(Instr::Jcc(Cond::O, true, Width::W16), OpFlags::IMM16))
    } else if code == 0x182 {
        Some(entry_of(Instr::Jcc(Cond::B, false, Width::W16), OpFlags::IMM16))
    } else if code == 0x183 {
        Some(entry_of(Instr::Jcc(Cond::B, true, Width::W16), OpFlags::IMM16))
    } else if code == 0x184 {
        Some(entry_of(Instr::Jcc(Cond::Z, false, Width::W16), OpFlags::IMM16))
    } else if code == 0x185 {
        Some(entry_of(Instr::Jcc(Cond::Z, true, Width::W16), OpFlags::IMM16))
    } else if code == 0x186 {
        Some(entry_of(Instr::Jcc(Cond::BE, false, Width::W16), OpFlags::IMM16))
    } else if code == 0x187 {
        Some(entry_of(Instr::Jcc(Cond::BE, true, Width::W16), OpFlags::IMM16))
    } else if code == 0x188 {
        Some(entry_of(Instr::Jcc(Cond::S, false, Width::W16), OpFlags::IMM16))
    } else if code == 0x189 {
        Some(entry_of(Instr::Jcc(Cond::S, true, Width::W16), OpFlags::IMM16))
    } else if code == 0x18a {
        Some(entry_of(Instr::Jcc(Cond::P, false, Width::W16), OpFlags::IMM16))
    } else if code == 0x18b {
        Some(entry_of(Instr::Jcc(Cond::P, true, Width::W16), OpFlags::IMM16))
    } else if code == 0x18c {
        Some(entry_of(Instr::Jcc(Cond::L, false, Width::W16), OpFlags::IMM16))
    } else if code == 0x18d {
        Some(entry_of(Instr::Jcc(Cond::L, true, Width::W16), OpFlags::IMM16))
    } else if code == 0x18e {
        Some(entry_of(Instr::Jcc(Cond::LE, false, Width::W16), OpFlags::IMM16))
    } else if code == 0x18f {
        Some(entry_of(Instr::Jcc(Cond::LE, true, Width::W16), OpFlags::IMM16))
    } else if code == 0x1af {
        Some(entry_of(Instr::Imul2(Width::W16), OpFlags::MODRM))
    } else if code == 0x1b6 {
        Some(entry_of(Instr::Movzx(Width::W16, Width::W8), OpFlags::MODRM))
    } else if code == 0x1b7 {
        Some(entry_of(Instr::Movzx(Width::W16, Width::W16), OpFlags::MODRM))
    } else if code == 0x1be {
        Some(entry_of(Instr::Movsx(Width::W16, Width::W8), OpFlags::MODRM))
    } else if code == 0x1bf {
        Some(entry_of(Instr::Movsx(Width::W16, Width::W16), OpFlags::MODRM))
    } else {
        None
    }
}

fn op16_entry(code: u16) -> (e: Option<OpcodeType>)
    ensures
        e == op16_spec(code),
{
    if code == 0x001 {
        Some(entry(Instr::Alu(AluOp::Add, Width::W16, Opnd::RM, Opnd::R), OpFlags::MODRM))
    } else if code == 0x003 {
        Some(entry(Instr::Alu(AluOp::Add, Width::W16, Opnd::R, Opnd::RM), OpFlags::MODRM))
    } else if code == 0x005 {
        Some(entry(Instr::Alu(AluOp::Add, Width::W16, Opnd::Acc, Opnd::Imm(Width::W16)), OpFlags::IMM16))
    } else if code == 0x009 {
        Some(entry(Instr::Alu(AluOp::Or, Width::W16, Opnd::RM, Opnd::R), OpFlags::MODRM))
    } else if code == 0x00b {
        Some(entry(Instr::Alu(AluOp::Or, Width::W16, Opnd::R, Opnd::RM), OpFlags::MODRM))
    } else if code == 0x00d {
        Some(entry(Instr::Alu(AluOp::Or, Width::W16, Opnd::Acc, Opnd::Imm(Width::W16)), OpFlags::IMM16))
    } else if code == 0x011 {
        Some(entry(Instr::Alu(AluOp::Adc, Width::W16, Opnd::RM, Opnd::R), OpFlags::MODRM))
    } else if code == 0x013 {
        Some(entry(Instr::Alu(AluOp::Adc, Width::W16, Opnd::R, Opnd::RM), OpFlags::MODRM))
    } else if code == 0x015 {
        Some(entry(Instr::Alu(AluOp::Adc, Width::W16, Opnd::Acc, Opnd::Imm(Width::W16)), OpFlags::IMM16))
    } else if code == 0x019 {
        Some(entry(Instr::Alu(AluOp::Sbb, Width::W16, Opnd::RM, Opnd::R), OpFlags::MODRM))
    } else if code == 0x01b {
        Some(entry(Instr::Alu(AluOp::Sbb, Width::W16, Opnd::R, Opnd::RM), OpFlags::MODRM))
    } else if code == 0x01d {
        Some(entry(Instr::Alu(AluOp::Sbb, Width::W16, Opnd::Acc, Opnd::Imm(Width::W16)), OpFlags::IMM16))
    } else if code == 0x021 {
        Some(entry(Instr::Alu(AluOp::And, Width::W16, Opnd::RM, Opnd::R), OpFlags::MODRM))
    } else if code == 0x023 {
        Some(entry(Instr::Alu(AluOp::And, Width::W16, Opnd::R, Opnd::RM), OpFlags::MODRM))
    } else if code == 0x025 {
        Some(entry(Instr::Alu(AluOp::And, Width::W16, Opnd::Acc, Opnd::Imm(Width::W16)), OpFlags::IMM16))
    } else if code == 0x029 {
        Some(entry(Instr::Alu(AluOp::Sub, Width::W16, Opnd::RM, Opnd::R), OpFlags::MODRM))
    } else if code == 0x02b {
        Some(entry(Instr::Alu(AluOp::Sub, Width::W16, Opnd::R, Opnd::RM), OpFlags::MODRM))
    } else if code == 0x02d {
        Some(entry(Instr::Alu(AluOp::Sub, Width::W16, Opnd::Acc, Opnd::Imm(Width::W16)), OpFlags::IMM16))
    } else if code == 0x031 {
        Some(entry(Instr::Alu(AluOp::Xor, Width::W16, Opnd::RM, Opnd::R), OpFlags::MODRM))
    } else if code == 0x033 {
        Some(entry(Instr::Alu(AluOp::Xor, Width::W16, Opnd::R, Opnd::RM), OpFlags::MODRM))
    } else if code == 0x035 {
        Some(entry(Instr::Alu(AluOp::Xor, Width::W16, Opnd::Acc, Opnd::Imm(Width::W16)), OpFlags::IMM16))
    } else if code == 0x039 {
        Some(entry(Instr::Alu(AluOp::Cmp, Width::W16, Opnd::RM, Opnd::R), OpFlags::MODRM))
    } else if code == 0x03b {
        Some(entry(Instr::Alu(AluOp::Cmp, Width::W16, Opnd::R, Opnd::RM), OpFlags::MODRM))
    } else if code == 0x03d {
        Some(entry(Instr::Alu(AluOp::Cmp, Width::W16, Opnd::Acc, Opnd::Imm(Width::W16)), OpFlags::IMM16))
    } else if 0x040 <= code && code <= 0x047 {
        Some(entry(Instr::Inc(Width::W16, Opnd::Opr), OpFlags::NONE))
    } else if 0x048 <= code && code <= 0x04f {
        Some(entry(Instr::Dec(Width::W16, Opnd::Opr), OpFlags::NONE))
    } else if 0x050 <= code && code <= 0x057 {
        Some(entry(Instr::Push(Width::W16, Opnd::Opr), OpFlags::NONE))
    } else if 0x058 <= code && code <= 0x05f {
        Some(entry(Instr::Pop(Width::W16, Opnd::Opr), OpFlags::NONE))
    } else if code == 0x060 {
        Some(entry(Instr::Pusha(Width::W16), OpFlags::NONE))
    } else if code == 0x061 {
        Some(entry(Instr::Popa(Width::W16), OpFlags::NONE))
    } else if code == 0x068 {
        Some(entry(Instr::Push(Width::W16, Opnd::Imm(Width::W16)), OpFlags::IMM16))
    } else if code == 0x069 {
        Some(entry(Instr::Imul3(Width::W16, Opnd::Imm(Width::W16)), OpFlags::MODRM | OpFlags::IMM16))
    } else if code == 0x06a {
        Some(entry(Instr::Push(Width::W16, Opnd::Imm(Width::W8)), OpFlags::IMM8))
    } else if code == 0x06b {
        Some(entry(Instr::Imul3(Width::W16, Opnd::Imm(Width::W8)), OpFlags::MODRM | OpFlags::IMM8))
    } else if code == 0x081 {
        Some(entry(Instr::AluGroup(Width::W16, Opnd::Imm(Width::W16)), OpFlags::MODRM | OpFlags::IMM16))
    } else if code == 0x083 {
        Some(entry(Instr::AluGroup(Width::W16, Opnd::Imm(Width::W8)), OpFlags::MODRM | OpFlags::IMM8))
    } else if code == 0x085 {
        Some(entry(Instr::Test(Width::W16, Opnd::RM, Opnd::R), OpFlags::MODRM))
    } else if code == 0x087 {
        Some(entry(Instr::Xchg(Width::W16, Opnd::R, Opnd::RM), OpFlags::MODRM))
    } else if code == 0x089 {
        Some(entry(Instr::Mov(Width::W16, Opnd::RM, Opnd::R), OpFlags::MODRM))
    } else if code == 0x08b {
        Some(entry(Instr::Mov(Width::W16, Opnd::R, Opnd::RM), OpFlags::MODRM))
    } else if code == 0x08c {
        Some(entry(Instr::Mov(Width::W16, Opnd::RM, Opnd::Sreg), OpFlags::MODRM))
    } else if code == 0x08d {
        Some(entry(Instr::Lea(Width::W16), OpFlags::MODRM))
    } else if 0x090 <= code && code <= 0x097 {
        Some(entry(Instr::Xchg(Width::W16, Opnd::Acc, Opnd::Opr), OpFlags::NONE))
    } else if code == 0x098 {
        Some(entry(Instr::SignExtAcc(Width::W16), OpFlags::NONE))
    } else if code == 0x099 {
        Some(entry(Instr::SignExtDx(Width::W16), OpFlags::NONE))
    } else if code == 0x09a {
        Some(entry(Instr::CallF(Width::W16), OpFlags::PTR16 | OpFlags::IMM16))
    } else if code == 0x09c {
        Some(entry(Instr::PushF(Width::W16), OpFlags::NONE))
    } else if code == 0x09d {
        Some(entry(Instr::PopF(Width::W16), OpFlags::NONE))
    } else if code == 0x0a1 {
        Some(entry(Instr::Mov(Width::W16, Opnd::Acc, Opnd::Moffs), OpFlags::MOFFS))
    } else if code == 0x0a3 {
        Some(entry(Instr::Mov(Width::W16, Opnd::Moffs, Opnd::Acc), OpFlags::MOFFS))
    } else if code == 0x0a4 {
        Some(entry(Instr::Str(StrOp::Movs, Width::W8, Width::W16), OpFlags::NONE))
    } else if code == 0x0a5 {
        Some(entry(Instr::Str(StrOp::Movs, Width::W16, Width::W16), OpFlags::NONE))
    } else if code == 0x0a6 {
        Some(entry(Instr::Str(StrOp::Cmps, Width::W8, Width::W16), OpFlags::NONE))
    } else if code == 0x0a7 {
        Some(entry(Instr::Str(StrOp::Cmps, Width::W16, Width::W16), OpFlags::NONE))
    } else if code == 0x0a9 {
        Some(entry(Instr::Test(Width::W16, Opnd::Acc, Opnd::Imm(Width::W16)), OpFlags::IMM16))
    } else if code == 0x0aa {
        Some(entry(Instr::Str(StrOp::Stos, Width::W8, Width::W16), OpFlags::NONE))
    } else if code == 0x0ab {
        Some(entry(Instr::Str(StrOp::Stos, Width::W16, Width::W16), OpFlags::NONE))
    } else if code == 0x0ac {
        Some(entry(Instr::Str(StrOp::Lods, Width::W8, Width::W16), OpFlags::NONE))
    } else if code == 0x0ad {
        Some(entry(Instr::Str(StrOp::Lods, Width::W16, Width::W16), OpFlags::NONE))
    } else if code == 0x0ae {
        Some(entry(Instr::Str(StrOp::Scas, Width::W8, Width::W16), OpFlags::NONE))
    } else if code == 0x0af {
        Some(entry(Instr::Str(StrOp::Scas, Width::W16, Width::W16), OpFlags::NONE))
    } else if 0x0b8 <= code && code <= 0x0bf {
        Some(entry(Instr::Mov(Width::W16, Opnd::Opr, Opnd::Imm(Width::W16)), OpFlags::IMM16))
    } else if code == 0x0c3 {
        Some(entry(Instr::Ret(Width::W16), OpFlags::NONE))
    } else if code == 0x0c7 {
        Some(entry(Instr::Mov(Width::W16, Opnd::RM, Opnd::Imm(Width::W16)), OpFlags::MODRM | OpFlags::IMM16))
    } else if code == 0x0c9 {
        Some(entry(Instr::Leave(Width::W16), OpFlags::NONE))
    } else if code == 0x0cb {
        Some(entry(Instr::RetF(Width::W16), OpFlags::NONE))
    } else if code == 0x0cf {
        Some(entry(Instr::IRet(Width::W16), OpFlags::NONE))
    } else if code == 0x0e5 {
        Some(entry(Instr::In(Width::W16, Opnd::Imm(Width::W8)), OpFlags::IMM8))
    } else if code == 0x0e7 {
        Some(entry(Instr::Out(Width::W16, Opnd::Imm(Width::W8)), OpFlags::IMM8))
    } else if code == 0x0e8 {
        Some(entry(Instr::CallRel(Width::W16), OpFlags::IMM16))
    } else if code == 0x0e9 {
        Some(entry(Instr::JmpRel(Width::W16), OpFlags::IMM16))
    } else if code == 0x0ea {
        Some(entry(Instr::JmpF(Width::W16), OpFlags::PTR16 | OpFlags::IMM16))
    } else if code == 0x0ed {
        Some(entry(Instr::In(Width::W16, Opnd::Dx), OpFlags::NONE))
    } else if code == 0x0ef {
        Some(entry(Instr::Out(Width::W16, Opnd::Dx), OpFlags::NONE))
    } else if code == 0x101 {
        Some(entry(Instr::Group0F01(Width::W16), OpFlags::MODRM))
    } else if code == 0x180 {
        Some(entry(Instr::Jcc(Cond::O, false, Width::W16), OpFlags::IMM16))
    } else if code == 0x181 {
        Some(entry(Instr::Jcc(Cond::O, true, Width::W16), OpFlags::IMM16))
    } else if code == 0x182 {
        Some(entry(Instr::Jcc(Cond::B, false, Width::W16), OpFlags::IMM16))
    } else if code == 0x183 {
        Some(entry(Instr::Jcc(Cond::B, true, Width::W16), OpFlags::IMM16))
    } else if code == 0x184 {
        Some(entry(Instr::Jcc(Cond::Z, false, Width::W16), OpFlags::IMM16))
    } else if code == 0x185 {
        Some(entry(Instr::Jcc(Cond::Z, true, Width::W16), OpFlags::IMM16))
    } else if code == 0x186 {
        Some(entry(Instr::Jcc(Cond::BE, false, Width::W16), OpFlags::IMM16))
    } else if code == 0x187 {
        Some(entry(Instr::Jcc(Cond::BE, true, Width::W16), OpFlags::IMM16))
    } else if code == 0x188 {
        Some(entry(Instr::Jcc(Cond::S, false, Width::W16), OpFlags::IMM16))
    } else if code == 0x189 {
        Some(entry(Instr::Jcc(Cond::S, true, Width::W16), OpFlags::IMM16))
    } else if code == 0x18a {
        Some(entry(Instr::Jcc(Cond::P, false, Width::W16), OpFlags::IMM16))
    } else if code == 0x18b {
        Some(entry(Instr::Jcc(Cond::P, true, Width::W16), OpFlags::IMM16))
    } else if code == 0x18c {
        Some(entry(Instr::Jcc(Cond::L, false, Width::W16), OpFlags::IMM16))
    } else if code == 0x18d {
        Some(entry(Instr::Jcc(Cond::L, true, Width::W16), OpFlags::IMM16))
    } else if code == 0x18e {
        Some(entry(Instr::Jcc(Cond::LE, false, Width::W16), OpFlags::IMM16))
    } else if code == 0x18f {
        Some(entry(Instr::Jcc(Cond::LE, true, Width::W16), OpFlags::IMM16))
    } else if code == 0x1af {
        Some(entry(Instr::Imul2(Width::W16), OpFlags::MODRM))
    } else if code == 0x1b6 {
        Some(entry(Instr::Movzx(Width::W16, Width::W8), OpFlags::MODRM))
    } else if code == 0x1b7 {
        Some(entry(Instr::Movzx(Width::W16, Width::W16), OpFlags::MODRM))
    } else if code == 0x1be {
        Some(entry(Instr::Movsx(Width::W16, Width::W8), OpFlags::MODRM))
    } else if code == 0x1bf {
        Some(entry(Instr::Movsx(Width::W16, Width::W16), OpFlags::MODRM))
    } else {
        None
    }
}

/// The entries of 32-bit operand size.
pub open spec fn op32_spec(code: u16) -> Option<OpcodeType> {
    if code == 0x001 {
        Some(entry_of(Instr::Alu(AluOp::Add, Width::W32, Opnd::RM, Opnd::R), OpFlags::MODRM))
    } else if code == 0x003 {
        Some(entry_of(Instr::Alu(AluOp::Add, Width::W32, Opnd::R, Opnd::RM), OpFlags::MODRM))
    } else if code == 0x005 {
        Some(entry_of(Instr::Alu(AluOp::Add, Width::W32, Opnd::Acc, Opnd::Imm(Width::W32)), OpFlags::IMM32))
    } else if code == 0x009 {
        Some(entry_of(Instr::Alu(AluOp::Or, Width::W32, Opnd::RM, Opnd::R), OpFlags::MODRM))
    } else if code == 0x00b {
        Some(entry_of(Instr::Alu(AluOp::Or, Width::W32, Opnd::R, Opnd::RM), OpFlags::MODRM))
    } else if code == 0x00d {
        Some(entry_of(Instr::Alu(AluOp::Or, Width::W32, Opnd::Acc, Opnd::Imm(Width::W32)), OpFlags::IMM32))
    } else if code == 0x011 {
        Some(entry_of(Instr::Alu(AluOp::Adc, Width::W32, Opnd::RM, Opnd::R), OpFlags::MODRM))
    } else if code == 0x013 {
        Some(entry_of(Instr::Alu(AluOp::Adc, Width::W32, Opnd::R, Opnd::RM), OpFlags::MODRM))
    } else if code == 0x015 {
        Some(entry_of(Instr::Alu(AluOp::Adc, Width::W32, Opnd::Acc, Opnd::Imm(Width::W32)), OpFlags::IMM32))
    } else if code == 0x019 {
        Some(entry_of(Instr::Alu(AluOp::Sbb, Width::W32, Opnd::RM, Opnd::R), OpFlags::MODRM))
    } else if code == 0x01b {
        Some(entry_of(Instr::Alu(AluOp::Sbb, Width::W32, Opnd::R, Opnd::RM), OpFlags::MODRM))
    } else if code == 0x01d {
        Some(entry_of(Instr::Alu(AluOp::Sbb, Width::W32, Opnd::Acc, Opnd::Imm(Width::W32)), OpFlags::IMM32))
    } else if code == 0x021 {
        Some(entry_of(Instr::Alu(AluOp::And, Width::W32, Opnd::RM, Opnd::R), OpFlags::MODRM))
    } else if code == 0x023 {
        Some(entry_of(Instr::Alu(AluOp::And, Width::W32, Opnd::R, Opnd::RM), OpFlags::MODRM))
    } else if code == 0x025 {
        Some(entry_of(Instr::Alu(AluOp::And, Width::W32, Opnd::Acc, Opnd::Imm(Width::W32)), OpFlags::IMM32))
    } else if code == 0x029 {
        Some(entry_of(Instr::Alu(AluOp::Sub, Width::W32, Opnd::RM, Opnd::R), OpFlags::MODRM))
    } else if code == 0x02b {
        Some(entry_of(Instr::Alu(AluOp::Sub, Width::W32, Opnd::R, Opnd::RM), OpFlags::MODRM))
    } else if code == 0x02d {
        Some(entry_of(Instr::Alu(AluOp::Sub, Width::W32, Opnd::Acc, Opnd::Imm(Width::W32)), OpFlags::IMM32))
    } else if code == 0x031 {
        Some(entry_of(Instr::Alu(AluOp::Xor, Width::W32, Opnd::RM, Opnd::R), OpFlags::MODRM))
    } else if code == 0x033 {
        Some(entry_of(Instr::Alu(AluOp::Xor, Width::W32, Opnd::R, Opnd::RM), OpFlags::MODRM))
    } else if code == 0x035 {
        Some(entry_of(Instr::Alu(AluOp::Xor, Width::W32, Opnd::Acc, Opnd::Imm(Width::W32)), OpFlags::IMM32))
    } else if code == 0x039 {
        Some(entry_of(Instr::Alu(AluOp::Cmp, Width::W32, Opnd::RM, Opnd::R), OpFlags::MODRM))
    } else if code == 0x03b {
        Some(entry_of(Instr::Alu(AluOp::Cmp, Width::W32, Opnd::R, Opnd::RM), OpFlags::MODRM))
    } else if code == 0x03d {
        Some(entry_of(Instr::Alu(AluOp::Cmp, Width::W32, Opnd::Acc, Opnd::Imm(Width::W32)), OpFlags::IMM32))
    } else if 0x040 <= code && code <= 0x047 {
        Some(entry_of(Instr::Inc(Width::W32, Opnd::Opr), OpFlags::NONE))
    } else if 0x048 <= code && code <= 0x04f {
        Some(entry_of(Instr::Dec(Width::W32, Opnd::Opr), OpFlags::NONE))
    } else if 0x050 <= code && code <= 0x057 {
        Some(entry_of(Instr::Push(Width::W32, Opnd::Opr), OpFlags::NONE))
    } else if 0x058 <= code && code <= 0x05f {
        Some(entry_of(Instr::Pop(Width::W32, Opnd::Opr), OpFlags::NONE))
    } else if code == 0x060 {
        Some(entry_of(Instr::Pusha(Width::W32), OpFlags::NONE))
    } else if code == 0x061 {
        Some(entry_of(Instr::Popa(Width::W32), OpFlags::NONE))
    } else if code == 0x068 {
        Some(entry_of(Instr::Push(Width::W32, Opnd::Imm(Width::W32)), OpFlags::IMM32))
    } else if code == 0x069 {
        Some(entry_of(Instr::Imul3(Width::W32, Opnd::Imm(Width::W32)), OpFlags::MODRM | OpFlags::IMM32))
    } else if code == 0x06a {
        Some(entry_of(Instr::Push(Width::W32, Opnd::Imm(Width::W8)), OpFlags::IMM8))
    } else if code == 0x06b {
        Some(entry_of(Instr::Imul3(Width::W32, Opnd::Imm(Width::W8)), OpFlags::MODRM | OpFlags::IMM8))
    } else if code == 0x081 {
        Some(entry_of(Instr::AluGroup(Width::W32, Opnd::Imm(Width::W32)), OpFlags::MODRM | OpFlags::IMM32))
    } else if code == 0x082 {
        Some(entry_of(Instr::AluGroup(Width::W8, Opnd::Imm(Width::W8)), OpFlags::MODRM | OpFlags::IMM8))
    } else if code == 0x083 {
        Some(entry_of(Instr::AluGroup(Width::W32, Opnd::Imm(Width::W8)), OpFlags::MODRM | OpFlags::IMM8))
    } else if code == 0x085 {
        Some(entry_of(Instr::Test(Width::W32, Opnd::RM, Opnd::R), OpFlags::MODRM))
    } else if code == 0x087 {
        Some(entry_of(Instr::Xchg(Width::W32, Opnd::R, Opnd::RM), OpFlags::MODRM))
    } else if code == 0x089 {
        Some(entry_of(Instr::Mov(Width::W32, Opnd::RM, Opnd::R), OpFlags::MODRM))
    } else if code == 0x08b {
        Some(entry_of(Instr::Mov(Width::W32, Opnd::R, Opnd::RM), OpFlags::MODRM))
    } else if code == 0x08c {
        Some(entry_of(Instr::Mov(Width::W32, Opnd::RM, Opnd::Sreg), OpFlags::MODRM))
    } else if code == 0x08d {
        Some(entry_of(Instr::Lea(Width::W32), OpFlags::MODRM))
    } else if 0x090 <= code && code <= 0x097 {
        Some(entry_of(Instr::Xchg(Width::W32, Opnd::Acc, Opnd::Opr), OpFlags::NONE))
    } else if code == 0x098 {
        Some(entry_of(Instr::SignExtAcc(Width::W32), OpFlags::NONE))
    } else if code == 0x099 {
        Some(entry_of(Instr::SignExtDx(Width::W32), OpFlags::NONE))
    } else if code == 0x09a {
        Some(entry_of(Instr::CallF(Width::W32), OpFlags::PTR16 | OpFlags::IMM32))
    } else if code == 0x09c {
        Some(entry_of(Instr::PushF(Width::W32), OpFlags::NONE))
    } else if code == 0x09d {
        Some(entry_of(Instr::PopF(Width::W32), OpFlags::NONE))
    } else if code == 0x0a1 {
        Some(entry_of(Instr::Mov(Width::W32, Opnd::Acc, Opnd::Moffs), OpFlags::MOFFS))
    } else if code == 0x0a3 {
        Some(entry_of(Instr::Mov(Width::W32, Opnd::Moffs, Opnd::Acc), OpFlags::MOFFS))
    } else if code == 0x0a4 {
        Some(entry_of(Instr::Str(StrOp::Movs, Width::W8, Width::W32), OpFlags::NONE))
    } else if code == 0x0a5 {
        Some(entry_of(Instr::Str(StrOp::Movs, Width::W32, Width::W32), OpFlags::NONE))
    } else if code == 0x0a6 {
        Some(entry_of(Instr::Str(StrOp::Cmps, Width::W8, Width::W32), OpFlags::NONE))
    } else if code == 0x0a7 {
        Some(entry_of(Instr::Str(StrOp::Cmps, Width::W32, Width::W32), OpFlags::NONE))
    } else if code == 0x0a9 {
        Some(entry_of(Instr::Test(Width::W32, Opnd::Acc, Opnd::Imm(Width::W32)), OpFlags::IMM32))
    } else if code == 0x0aa {
        Some(entry_of(Instr::Str(StrOp::Stos, Width::W8, Width::W32), OpFlags::NONE))
    } else if code == 0x0ab {
        Some(entry_of(Instr::Str(StrOp::Stos, Width::W32, Width::W32), OpFlags::NONE))
    } else if code == 0x0ac {
        Some(entry_of(Instr::Str(StrOp::Lods, Width::W8, Width::W32), OpFlags::NONE))
    } else if code == 0x0ad {
        Some(entry_of(Instr::Str(StrOp::Lods, Width::W32, Width::W32), OpFlags::NONE))
    } else if code == 0x0ae {
        Some(entry_of(Instr::Str(StrOp::Scas, Width::W8, Width::W32), OpFlags::NONE))
    } else if code == 0x0af {
        Some(entry_of(Instr::Str(StrOp::Scas, Width::W32, Width::W32), OpFlags::NONE))
    } else if 0x0b8 <= code && code <= 0x0bf {
        Some(entry_of(Instr::Mov(Width::W32, Opnd::Opr, Opnd::Imm(Width::W32)), OpFlags::IMM32))
    } else if code == 0x0c1 {
        Some(entry_of(Instr::ShiftGroup(Width::W32, Opnd::Imm(Width::W8)), OpFlags::MODRM | OpFlags::IMM8))
    } else if code == 0x0c3 {
        Some(entry_of(Instr::Ret(Width::W32), OpFlags::NONE))
    } else if code == 0x0c7 {
        Some(entry_of(Instr::Mov(Width::W32, Opnd::RM, Opnd::Imm(Width::W32)), OpFlags::MODRM | OpFlags::IMM32))
    } else if code == 0x0c9 {
        Some(entry_of(Instr::Leave(Width::W32), OpFlags::NONE))
    } else if code == 0x0cb {
        Some(entry_of(Instr::RetF(Width::W32), OpFlags::NONE))
    } else if code == 0x0cf {
        Some(entry_of(Instr::IRet(Width::W32), OpFlags::NONE))
    } else if code == 0x0d3 {
        Some(entry_of(Instr::ShiftGroup(Width::W32, Opnd::Cl), OpFlags::MODRM))
    } else if code == 0x0e5 {
        Some(entry_of(Instr::In(Width::W32, Opnd::Imm(Width::W8)), OpFlags::IMM8))
    } else if code == 0x0e7 {
        Some(entry_of(Instr::Out(Width::W32, Opnd::Imm(Width::W8)), OpFlags::IMM8))
    } else if code == 0x0e8 {
        Some(entry_of(Instr::CallRel(Width::W32), OpFlags::IMM32))
    } else if code == 0x0e9 {
        Some(entry_of(Instr::JmpRel(Width::W32), OpFlags::IMM32))
    } else if code == 0x0ea {
        Some(entry_of(Instr::JmpF(Width::W32), OpFlags::PTR16 | OpFlags::IMM32))
    } else if code == 0x0ed {
        Some(entry_of(Instr::In(Width::W32, Opnd::Dx), OpFlags::NONE))
    } else if code == 0x0ef {
        Some(entry_of(Instr::Out(Width::W32, Opnd::Dx), OpFlags::NONE))
    } else if code == 0x0f7 {
        Some(entry_of(Instr::GroupF7(Width::W32), OpFlags::MODRM | OpFlags::IMM32))
    } else if code == 0x0ff {
        Some(entry_of(Instr::GroupFF(Width::W32), OpFlags::MODRM))
    } else if code == 0x101 {
        Some(entry_of(Instr::Group0F01(Width::W32), OpFlags::MODRM))
    } else if code == 0x180 {
        Some(entry_of(Instr::Jcc(Cond::O, false, Width::W32), OpFlags::IMM32))
    } else if code == 0x181 {
        Some(entry_of(Instr::Jcc(Cond::O, true, Width::W32), OpFlags::IMM32))
    } else if code == 0x182 {
        Some(entry_of(Instr::Jcc(Cond::B, false, Width::W32), OpFlags::IMM32))
    } else if code == 0x183 {
        Some(entry_of(Instr::Jcc(Cond::B, true, Width::W32), OpFlags::IMM32))
    } else if code == 0x184 {
        Some(entry_of(Instr::Jcc(Cond::Z, false, Width::W32), OpFlags::IMM32))
    } else if code == 0x185 {
        Some(entry_of(Instr::Jcc(Cond::Z, true, Width::W32), OpFlags::IMM32))
    } else if code == 0x186 {
        Some(entry_of(Instr::Jcc(Cond::BE, false, Width::W32), OpFlags::IMM32))
    } else if code == 0x187 {
        Some(entry_of(Instr::Jcc(Cond::BE, true, Width::W32), OpFlags::IMM32))
    } else if code == 0x188 {
        Some(entry_of(Instr::Jcc(Cond::S, false, Width::W32), OpFlags::IMM32))
    } else if code == 0x189 {
        Some(entry_of(Instr::Jcc(Cond::S, true, Width::W32), OpFlags::IMM32))
    } else if code == 0x18a {
        Some(entry_of(Instr::Jcc(Cond::P, false, Width::W32), OpFlags::IMM32))
    } else if code == 0x18b {
        Some(entry_of(Instr::Jcc(Cond::P, true, Width::W32), OpFlags::IMM32))
    } else if code == 0x18c {
        Some(entry_of(Instr::Jcc(Cond::L, false, Width::W32), OpFlags::IMM32))
    } else if code == 0x18d {
        Some(entry_of(Instr::Jcc(Cond::L, true, Width::W32), OpFlags::IMM32))
    } else if code == 0x18e {
        Some(entry_of(Instr::Jcc(Cond::LE, false, Width::W32), OpFlags::IMM32))
    } else if code == 0x18f {
        Some(entry_of(Instr::Jcc(Cond::LE, true, Width::W32), OpFlags::IMM32))
    } else if code == 0x1af {
        Some(entry_of(Instr::Imul2(Width::W32), OpFlags::MODRM))
    } else if code == 0x1b6 {
        Some(entry_of(Instr::Movzx(Width::W32, Width::W8), OpFlags::MODRM))
    } else if code == 0x1b7 {
        Some(entry_of(Instr::Movzx(Width::W32, Width::W32), OpFlags::MODRM))
    } else if code == 0x1be {
        Some(entry_of(Instr::Movsx(Width::W32, Width::W8), OpFlags::MODRM))
    } else if code == 0x1bf {
        Some(entry_of(Instr::Movsx(Width::W32, Width::W32), OpFlags::MODRM))
    } else {
        None
    }
}

fn op32_entry(code: u16) -> (e: Option<OpcodeType>)
    ensures
        e == op32_spec(code),
{
    if code == 0x001 {
        Some(entry(Instr::Alu(AluOp::Add, Width::W32, Opnd::RM, Opnd::R), OpFlags::MODRM))
    } else if code == 0x003 {
        Some(entry(Instr::Alu(AluOp::Add, Width::W32, Opnd::R, Opnd::RM), OpFlags::MODRM))
    } else if code == 0x005 {
        Some(entry(Instr::Alu(AluOp::Add, Width::W32, Opnd::Acc, Opnd::Imm(Width::W32)), OpFlags::IMM32))
    } else if code == 0x009 {
        Some(entry(Instr::Alu(AluOp::Or, Width::W32, Opnd::RM, Opnd::R), OpFlags::MODRM))
    } else if code == 0x00b {
        Some(entry(Instr::Alu(AluOp::Or, Width::W32, Opnd::R, Opnd::RM), OpFlags::MODRM))
    } else if code == 0x00d {
        Some(entry(Instr::Alu(AluOp::Or, Width::W32, Opnd::Acc, Opnd::Imm(Width::W32)), OpFlags::IMM32))
    } else if code == 0x011 {
        Some(entry(Instr::Alu(AluOp::Adc, Width::W32, Opnd::RM, Opnd::R), OpFlags::MODRM))
    } else if code == 0x013 {
        Some(entry(Instr::Alu(AluOp::Adc, Width::W32, Opnd::R, Opnd::RM), OpFlags::MODRM))
    } else if code == 0x015 {
        Some(entry(Instr::Alu(AluOp::Adc, Width::W32, Opnd::Acc, Opnd::Imm(Width::W32)), OpFlags::IMM32))
    } else if code == 0x019 {
        Some(entry(Instr::Alu(AluOp::Sbb, Width::W32, Opnd::RM, Opnd::R), OpFlags::MODRM))
    } else if code == 0x01b {
        Some(entry(Instr::Alu(AluOp::Sbb, Width::W32, Opnd::R, Opnd::RM), OpFlags::MODRM))
    } else if code == 0x01d {
        Some(entry(Instr::Alu(AluOp::Sbb, Width::W32, Opnd::Acc, Opnd::Imm(Width::W32)), OpFlags::IMM32))
    } else if code == 0x021 {
        Some(entry(Instr::Alu(AluOp::And, Width::W32, Opnd::RM, Opnd::R), OpFlags::MODRM))
    } else if code == 0x023 {
        Some(entry(Instr::Alu(AluOp::And, Width::W32, Opnd::R, Opnd::RM), OpFlags::MODRM))
    } else if code == 0x025 {
        Some(entry(Instr::Alu(AluOp::And, Width::W32, Opnd::Acc, Opnd::Imm(Width::W32)), OpFlags::IMM32))
    } else if code == 0x029 {
        Some(entry(Instr::Alu(AluOp::Sub, Width::W32, Opnd::RM, Opnd::R), OpFlags::MODRM))
    } else if code == 0x02b {
        Some(entry(Instr::Alu(AluOp::Sub, Width::W32, Opnd::R, Opnd::RM), OpFlags::MODRM))
    } else if code == 0x02d {
        Some(entry(Instr::Alu(AluOp::Sub, Width::W32, Opnd::Acc, Opnd::Imm(Width::W32)), OpFlags::IMM32))
    } else if code == 0x031 {
        Some(entry(Instr::Alu(AluOp::Xor, Width::W32, Opnd::RM, Opnd::R), OpFlags::MODRM))
    } else if code == 0x033 {
        Some(entry(Instr::Alu(AluOp::Xor, Width::W32, Opnd::R, Opnd::RM), OpFlags::MODRM))
    } else if code == 0x035 {
        Some(entry(Instr::Alu(AluOp::Xor, Width::W32, Opnd::Acc, Opnd::Imm(Width::W32)), OpFlags::IMM32))
    } else if code == 0x039 {
        Some(entry(Instr::Alu(AluOp::Cmp, Width::W32, Opnd::RM, Opnd::R), OpFlags::MODRM))
    } else if code == 0x03b {
        Some(entry(Instr::Alu(AluOp::Cmp, Width::W32, Opnd::R, Opnd::RM), OpFlags::MODRM))
    } else if code == 0x03d {
        Some(entry(Instr::Alu(AluOp::Cmp, Width::W32, Opnd::Acc, Opnd::Imm(Width::W32)), OpFlags::IMM32))
    } else if 0x040 <= code && code <= 0x047 {
        Some(entry(Instr::Inc(Width::W32, Opnd::Opr), OpFlags::NONE))
    } else if 0x048 <= code && code <= 0x04f {
        Some(entry(Instr::Dec(Width::W32, Opnd::Opr), OpFlags::NONE))
    } else if 0x050 <= code && code <= 0x057 {
        Some(entry(Instr::Push(Width::W32, Opnd::Opr), OpFlags::NONE))
    } else if 0x058 <= code && code <= 0x05f {
        Some(entry(Instr::Pop(Width::W32, Opnd::Opr), OpFlags::NONE))
    } else if code == 0x060 {
        Some(entry(Instr::Pusha(Width::W32), OpFlags::NONE))
    } else if code == 0x061 {
        Some(entry(Instr::Popa(Width::W32), OpFlags::NONE))
    } else if code == 0x068 {
        Some(entry(Instr::Push(Width::W32, Opnd::Imm(Width::W32)), OpFlags::IMM32))
    } else if code == 0x069 {
        Some(entry(Instr::Imul3(Width::W32, Opnd::Imm(Width::W32)), OpFlags::MODRM | OpFlags::IMM32))
    } else if code == 0x06a {
        Some(entry(Instr::Push(Width::W32, Opnd::Imm(Width::W8)), OpFlags::IMM8))
    } else if code == 0x06b {
        Some(entry(Instr::Imul3(Width::W32, Opnd::Imm(Width::W8)), OpFlags::MODRM | OpFlags::IMM8))
    } else if code == 0x081 {
        Some(entry(Instr::AluGroup(Width::W32, Opnd::Imm(Width::W32)), OpFlags::MODRM | OpFlags::IMM32))
    } else if code == 0x082 {
        Some(entry(Instr::AluGroup(Width::W8, Opnd::Imm(Width::W8)), OpFlags::MODRM | OpFlags::IMM8))
    } else if code == 0x083 {
        Some(entry(Instr::AluGroup(Width::W32, Opnd::Imm(Width::W8)), OpFlags::MODRM | OpFlags::IMM8))
    } else if code == 0x085 {
        Some(entry(Instr::Test(Width::W32, Opnd::RM, Opnd::R), OpFlags::MODRM))
    } else if code == 0x087 {
        Some(entry(Instr::Xchg(Width::W32, Opnd::R, Opnd::RM), OpFlags::MODRM))
    } else if code == 0x089 {
        Some(entry(Instr::Mov(Width::W32, Opnd::RM, Opnd::R), OpFlags::MODRM))
    } else if code == 0x08b {
        Some(entry(Instr::Mov(Width::W32, Opnd::R, Opnd::RM), OpFlags::MODRM))
    } else if code == 0x08c {
        Some(entry(Instr::Mov(Width::W32, Opnd::RM, Opnd::Sreg), OpFlags::MODRM))
    } else if code == 0x08d {
        Some(entry(Instr::Lea(Width::W32), OpFlags::MODRM))
    } else if 0x090 <= code && code <= 0x097 {
        Some(entry(Instr::Xchg(Width::W32, Opnd::Acc, Opnd::Opr), OpFlags::NONE))
    } else if code == 0x098 {
        Some(entry(Instr::SignExtAcc(Width::W32), OpFlags::NONE))
    } else if code == 0x099 {
        Some(entry(Instr::SignExtDx(Width::W32), OpFlags::NONE))
    } else if code == 0x09a {
        Some(entry(Instr::CallF(Width::W32), OpFlags::PTR16 | OpFlags::IMM32))
    } else if code == 0x09c {
        Some(entry(Instr::PushF(Width::W32), OpFlags::NONE))
    } else if code == 0x09d {
        Some(entry(Instr::PopF(Width::W32), OpFlags::NONE))
    } else if code == 0x0a1 {
        Some(entry(Instr::Mov(Width::W32, Opnd::Acc, Opnd::Moffs), OpFlags::MOFFS))
    } else if code == 0x0a3 {
        Some(entry(Instr::Mov(Width::W32, Opnd::Moffs, Opnd::Acc), OpFlags::MOFFS))
    } else if code == 0x0a4 {
        Some(entry(Instr::Str(StrOp::Movs, Width::W8, Width::W32), OpFlags::NONE))
    } else if code == 0x0a5 {
        Some(entry(Instr::Str(StrOp::Movs, Width::W32, Width::W32), OpFlags::NONE))
    } else if code == 0x0a6 {
        Some(entry(Instr::Str(StrOp::Cmps, Width::W8, Width::W32), OpFlags::NONE))
    } else if code == 0x0a7 {
        Some(entry(Instr::Str(StrOp::Cmps, Width::W32, Width::W32), OpFlags::NONE))
    } else if code == 0x0a9 {
        Some(entry(Instr::Test(Width::W32, Opnd::Acc, Opnd::Imm(Width::W32)), OpFlags::IMM32))
    } else if code == 0x0aa {
        Some(entry(Instr::Str(StrOp::Stos, Width::W8, Width::W32), OpFlags::NONE))
    } else if code == 0x0ab {
        Some(entry(Instr::Str(StrOp::Stos, Width::W32, Width::W32), OpFlags::NONE))
    } else if code == 0x0ac {
        Some(entry(Instr::Str(StrOp::Lods, Width::W8, Width::W32), OpFlags::NONE))
    } else if code == 0x0ad {
        Some(entry(Instr::Str(StrOp::Lods, Width::W32, Width::W32), OpFlags::NONE))
    } else if code == 0x0ae {
        Some(entry(Instr::Str(StrOp::Scas, Width::W8, Width::W32), OpFlags::NONE))
    } else if code == 0x0af {
        Some(entry(Instr::Str(StrOp::Scas, Width::W32, Width::W32), OpFlags::NONE))
    } else if 0x0b8 <= code && code <= 0x0bf {
        Some(entry(Instr::Mov(Width::W32, Opnd::Opr, Opnd::Imm(Width::W32)), OpFlags::IMM32))
    } else if code == 0x0c1 {
        Some(entry(Instr::ShiftGroup(Width::W32, Opnd::Imm(Width::W8)), OpFlags::MODRM | OpFlags::IMM8))
    } else if code == 0x0c3 {
        Some(entry(Instr::Ret(Width::W32), OpFlags::NONE))
    } else if code == 0x0c7 {
        Some(entry(Instr::Mov(Width::W32, Opnd::RM, Opnd::Imm(Width::W32)), OpFlags::MODRM | OpFlags::IMM32))
    } else if code == 0x0c9 {
        Some(entry(Instr::Leave(Width::W32), OpFlags::NONE))
    } else if code == 0x0cb {
        Some(entry(Instr::RetF(Width::W32), OpFlags::NONE))
    } else if code == 0x0cf {
        Some(entry(Instr::IRet(Width::W32), OpFlags::NONE))
    } else if code == 0x0d3 {
        Some(entry(Instr::ShiftGroup(Width::W32, Opnd::Cl), OpFlags::MODRM))
    } else if code == 0x0e5 {
        Some(entry(Instr::In(Width::W32, Opnd::Imm(Width::W8)), OpFlags::IMM8))
    } else if code == 0x0e7 {
        Some(entry(Instr::Out(Width::W32, Opnd::Imm(Width::W8)), OpFlags::IMM8))
    } else if code == 0x0e8 {
        Some(entry(Instr::CallRel(Width::W32), OpFlags::IMM32))
    } else if code == 0x0e9 {
        Some(entry(Instr::JmpRel(Width::W32), OpFlags::IMM32))
    } else if code == 0x0ea {
        Some(entry(Instr::JmpF(Width::W32), OpFlags::PTR16 | OpFlags::IMM32))
    } else if code == 0x0ed {
        Some(entry(Instr::In(Width::W32, Opnd::Dx), OpFlags::NONE))
    } else if code == 0x0ef {
        Some(entry(Instr::Out(Width::W32, Opnd::Dx), OpFlags::NONE))
    } else if code == 0x0f7 {
        Some(entry(Instr::GroupF7(Width::W32), OpFlags::MODRM | OpFlags::IMM32))
    } else if code == 0x0ff {
        Some(entry(Instr::GroupFF(Width::W32), OpFlags::MODRM))
    } else if code == 0x101 {
        Some(entry(Instr::Group0F01(Width::W32), OpFlags::MODRM))
    } else if code == 0x180 {
        Some(entry(Instr::Jcc(Cond::O, false, Width::W32), OpFlags::IMM32))
    } else if code == 0x181 {
        Some(entry(Instr::Jcc(Cond::O, true, Width::W32), OpFlags::IMM32))
    } else if code == 0x182 {
        Some(entry(Instr::Jcc(Cond::B, false, Width::W32), OpFlags::IMM32))
    } else if code == 0x183 {
        Some(entry(Instr::Jcc(Cond::B, true, Width::W32), OpFlags::IMM32))
    } else if code == 0x184 {
        Some(entry(Instr::Jcc(Cond::Z, false, Width::W32), OpFlags::IMM32))
    } else if code == 0x185 {
        Some(entry(Instr::Jcc(Cond::Z, true, Width::W32), OpFlags::IMM32))
    } else if code == 0x186 {
        Some(entry(Instr::Jcc(Cond::BE, false, Width::W32), OpFlags::IMM32))
    } else if code == 0x187 {
        Some(entry(Instr::Jcc(Cond::BE, true, Width::W32), OpFlags::IMM32))
    } else if code == 0x188 {
        Some(entry(Instr::Jcc(Cond::S, false, Width::W32), OpFlags::IMM32))
    } else if code == 0x189 {
        Some(entry(Instr::Jcc(Cond::S, true, Width::W32), OpFlags::IMM32))
    } else if code == 0x18a {
        Some(entry(Instr::Jcc(Cond::P, false, Width::W32), OpFlags::IMM32))
    } else if code == 0x18b {
        Some(entry(Instr::Jcc(Cond::P, true, Width::W32), OpFlags::IMM32))
    } else if code == 0x18c {
        Some(entry(Instr::Jcc(Cond::L, false, Width::W32), OpFlags::IMM32))
    } else if code == 0x18d {
        Some(entry(Instr::Jcc(Cond::L, true, Width::W32), OpFlags::IMM32))
    } else if code == 0x18e {
        Some(entry(Instr::Jcc(Cond::LE, false, Width::W32), OpFlags::IMM32))
    } else if code == 0x18f {
        Some(entry(Instr::Jcc(Cond::LE, true, Width::W32), OpFlags::IMM32))
    } else if code == 0x1af {
        Some(entry(Instr::Imul2(Width::W32), OpFlags::MODRM))
    } else if code == 0x1b6 {
        Some(entry(Instr::Movzx(Width::W32, Width::W8), OpFlags::MODRM))
    } else if code == 0x1b7 {
        Some(entry(Instr::Movzx(Width::W32, Width::W32), OpFlags::MODRM))
    } else if code == 0x1be {
        Some(entry(Instr::Movsx(Width::W32, Width::W8), OpFlags::MODRM))
    } else if code == 0x1bf {
        Some(entry(Instr::Movsx(Width::W32, Width::W32), OpFlags::MODRM))
    } else {
        None
    }
}

/// The entries of 64-bit operand size.
pub open spec fn op64_spec(code: u16) -> Option<OpcodeType> {
    if code == 0x001 {
        Some(entry_of(Instr::Alu(AluOp::Add, Width::W64, Opnd::RM, Opnd::R), OpFlags::MODRM))
    } else if code == 0x003 {
        Some(entry_of(Instr::Alu(AluOp::Add, Width::W64, Opnd::R, Opnd::RM), OpFlags::MODRM))
    } else if code == 0x005 {
        Some(entry_of(Instr::Alu(AluOp::Add, Width::W64, Opnd::Acc, Opnd::Imm(Width::W64)), OpFlags::IMM64))
    } else if code == 0x009 {
        Some(entry_of(Instr::Alu(AluOp::Or, Width::W64, Opnd::RM, Opnd::R), OpFlags::MODRM))
    } else if code == 0x00b {
        Some(entry_of(Instr::Alu(AluOp::Or, Width::W64, Opnd::R, Opnd::RM), OpFlags::MODRM))
    } else if code == 0x00d {
        Some(entry_of(Instr::Alu(AluOp::Or, Width::W64, Opnd::Acc, Opnd::Imm(Width::W64)), OpFlags::IMM64))
    } else if code == 0x011 {
        Some(entry_of(Instr::Alu(AluOp::Adc, Width::W64, Opnd::RM, Opnd::R), OpFlags::MODRM))
    } else if code == 0x013 {
        Some(entry_of(Instr::Alu(AluOp::Adc, Width::W64, Opnd::R, Opnd::RM), OpFlags::MODRM))
    } else if code == 0x015 {
        Some(entry_of(Instr::Alu(AluOp::Adc, Width::W64, Opnd::Acc, Opnd::Imm(Width::W64)), OpFlags::IMM64))
    } else if code == 0x019 {
        Some(entry_of(Instr::Alu(AluOp::Sbb, Width::W64, Opnd::RM, Opnd::R), OpFlags::MODRM))
    } else if code == 0x01b {
        Some(entry_of(Instr::Alu(AluOp::Sbb, Width::W64, Opnd::R, Opnd::RM), OpFlags::MODRM))
    } else if code == 0x01d {
        Some(entry_of(Instr::Alu(AluOp::Sbb, Width::W64, Opnd::Acc, Opnd::Imm(Width::W64)), OpFlags::IMM64))
    } else if code == 0x021 {
        Some(entry_of(Instr::Alu(AluOp::And, Width::W64, Opnd::RM, Opnd::R), OpFlags::MODRM))
    } else if code == 0x023 {
        Some(entry_of(Instr::Alu(AluOp::And, Width::W64, Opnd::R, Opnd::RM), OpFlags::MODRM))
    } else if code == 0x025 {
        Some(entry_of(Instr::Alu(AluOp::And, Width::W64, Opnd::Acc, Opnd::Imm(Width::W64)), OpFlags::IMM64))
    } else if code == 0x029 {
        Some(entry_of(Instr::Alu(AluOp::Sub, Width::W64, Opnd::RM, Opnd::R), OpFlags::MODRM))
    } else if code == 0x02b {
        Some(entry_of(Instr::Alu(AluOp::Sub, Width::W64, Opnd::R, Opnd::RM), OpFlags::MODRM))
    } else if code == 0x02d {
        Some(entry_of(Instr::Alu(AluOp::Sub, Width::W64, Opnd::Acc, Opnd::Imm(Width::W64)), OpFlags::IMM64))
    } else if code == 0x031 {
        Some(entry_of(Instr::Alu(AluOp::Xor, Width::W64, Opnd::RM, Opnd::R), OpFlags::MODRM))
    } else if code == 0x033 {
        Some(entry_of(Instr::Alu(AluOp::Xor, Width::W64, Opnd::R, Opnd::RM), OpFlags::MODRM))
    } else if code == 0x035 {
        Some(entry_of(Instr::Alu(AluOp::Xor, Width::W64, Opnd::Acc, Opnd::Imm(Width::W64)), OpFlags::IMM64))
    } else if code == 0x039 {
        Some(entry_of(Instr::Alu(AluOp::Cmp, Width::W64, Opnd::RM, Opnd::R), OpFlags::MODRM))
    } else if code == 0x03b {
        Some(entry_of(Instr::Alu(AluOp::Cmp, Width::W64, Opnd::R, Opnd::RM), OpFlags::MODRM))
    } else if code == 0x03d {
        Some(entry_of(Instr::Alu(AluOp::Cmp, Width::W64, Opnd::Acc, Opnd::Imm(Width::W64)), OpFlags::IMM64))
    } else if 0x040 <= code && code <= 0x047 {
        Some(entry_of(Instr::Inc(Width::W64, Opnd::Opr), OpFlags::NONE))
    } else if 0x048 <= code && code <= 0x04f {
        Some(entry_of(Instr::Dec(Width::W64, Opnd::Opr), OpFlags::NONE))
    } else if 0x050 <= code && code <= 0x057 {
        Some(entry_of(Instr::Push(Width::W64, Opnd::Opr), OpFlags::NONE))
    } else if 0x058 <= code && code <= 0x05f {
        Some(entry_of(Instr::Pop(Width::W64, Opnd::Opr), OpFlags::NONE))
    } else if code == 0x068 {
        Some(entry_of(Instr::Push(Width::W64, Opnd::Imm(Width::W64)), OpFlags::IMM64))
    } else if code == 0x069 {
        Some(entry_of(Instr::Imul3(Width::W64, Opnd::Imm(Width::W64)), OpFlags::MODRM | OpFlags::IMM64))
    } else if code == 0x06a {
        Some(entry_of(Instr::Push(Width::W64, Opnd::Imm(Width::W8)), OpFlags::IMM8))
    } else if code == 0x06b {
        Some(entry_of(Instr::Imul3(Width::W64, Opnd::Imm(Width::W8)), OpFlags::MODRM | OpFlags::IMM8))
    } else if code == 0x081 {
        Some(entry_of(Instr::AluGroup(Width::W64, Opnd::Imm(Width::W64)), OpFlags::MODRM | OpFlags::IMM64))
    } else if code == 0x083 {
        Some(entry_of(Instr::AluGroup(Width::W64, Opnd::Imm(Width::W8)), OpFlags::MODRM | OpFlags::IMM8))
    } else if code == 0x085 {
        Some(entry_of(Instr::Test(Width::W64, Opnd::RM, Opnd::R), OpFlags::MODRM))
    } else if code == 0x087 {
        Some(entry_of(Instr::Xchg(Width::W64, Opnd::R, Opnd::RM), OpFlags::MODRM))
    } else if code == 0x089 {
        Some(entry_of(Instr::Mov(Width::W64, Opnd::RM, Opnd::R), OpFlags::MODRM))
    } else if code == 0x08b {
        Some(entry_of(Instr::Mov(Width::W64, Opnd::R, Opnd::RM), OpFlags::MODRM))
    } else if code == 0x08c {
        Some(entry_of(Instr::Mov(Width::W64, Opnd::RM, Opnd::Sreg), OpFlags::MODRM))
    } else if code == 0x08d {
        Some(entry_of(Instr::Lea(Width::W64), OpFlags::MODRM))
    } else if 0x090 <= code && code <= 0x097 {
        Some(entry_of(Instr::Xchg(Width::W64, Opnd::Acc, Opnd::Opr), OpFlags::NONE))
    } else if code == 0x098 {
        Some(entry_of(Instr::SignExtAcc(Width::W64), OpFlags::NONE))
    } else if code == 0x099 {
        Some(entry_of(Instr::SignExtDx(Width::W64), OpFlags::NONE))
    } else if code == 0x09c {
        Some(entry_of(Instr::PushF(Width::W64), OpFlags::NONE))
    } else if code == 0x09d {
        Some(entry_of(Instr::PopF(Width::W64), OpFlags::NONE))
    } else if code == 0x0a1 {
        Some(entry_of(Instr::Mov(Width::W64, Opnd::Acc, Opnd::Moffs), OpFlags::MOFFS))
    } else if code == 0x0a3 {
        Some(entry_of(Instr::Mov(Width::W64, Opnd::Moffs, Opnd::Acc), OpFlags::MOFFS))
    } else if code == 0x0a4 {
        Some(entry_of(Instr::Str(StrOp::Movs, Width::W8, Width::W64), OpFlags::NONE))
    } else if code == 0x0a5 {
        Some(entry_of(Instr::Str(StrOp::Movs, Width::W64, Width::W64), OpFlags::NONE))
    } else if code == 0x0a6 {
        Some(entry_of(Instr::Str(StrOp::Cmps, Width::W8, Width::W64), OpFlags::NONE))
    } else if code == 0x0a7 {
        Some(entry_of(Instr::Str(StrOp::Cmps, Width::W64, Width::W64), OpFlags::NONE))
    } else if code == 0x0a9 {
        Some(entry_of(Instr::Test(Width::W64, Opnd::Acc, Opnd::Imm(Width::W64)), OpFlags::IMM64))
    } else if code == 0x0aa {
        Some(entry_of(Instr::Str(StrOp::Stos, Width::W8, Width::W64), OpFlags::NONE))
    } else if code == 0x0ab {
        Some(entry_of(Instr::Str(StrOp::Stos, Width::W64, Width::W64), OpFlags::NONE))
    } else if code == 0x0ac {
        Some(entry_of(Instr::Str(StrOp::Lods, Width::W8, Width::W64), OpFlags::NONE))
    } else if code == 0x0ad {
        Some(entry_of(Instr::Str(StrOp::Lods, Width::W64, Width::W64), OpFlags::NONE))
    } else if code == 0x0ae {
        Some(entry_of(Instr::Str(StrOp::Scas, Width::W8, Width::W64), OpFlags::NONE))
    } else if code == 0x0af {
        Some(entry_of(Instr::Str(StrOp::Scas, Width::W64, Width::W64), OpFlags::NONE))
    } else if 0x0b8 <= code && code <= 0x0bf {
        Some(entry_of(Instr::Mov(Width::W64, Opnd::Opr, Opnd::Imm(Width::W64)), OpFlags::IMM64))
    } else if code == 0x0c1 {
        Some(entry_of(Instr::ShiftGroup(Width::W64, Opnd::Imm(Width::W8)), OpFlags::MODRM | OpFlags::IMM8))
    } else if code == 0x0c3 {
        Some(entry_of(Instr::Ret(Width::W64), OpFlags::NONE))
    } else if code == 0x0c7 {
        Some(entry_of(Instr::Mov(Width::W64, Opnd::RM, Opnd::Imm(Width::W64)), OpFlags::MODRM | OpFlags::IMM64))
    } else if code == 0x0c9 {
        Some(entry_of(Instr::Leave(Width::W64), OpFlags::NONE))
    } else if code == 0x0cb {
        Some(entry_of(Instr::RetF(Width::W64), OpFlags::NONE))
    } else if code == 0x0cf {
        Some(entry_of(Instr::IRet(Width::W64), OpFlags::NONE))
    } else if code == 0x0d3 {
        Some(entry_of(Instr::ShiftGroup(Width::W64, Opnd::Cl), OpFlags::MODRM))
    } else if code == 0x0e5 {
        Some(entry_of(Instr::In(Width::W32, Opnd::Imm(Width::W8)), OpFlags::IMM8))
    } else if code == 0x0e7 {
        Some(entry_of(Instr::Out(Width::W32, Opnd::Imm(Width::W8)), OpFlags::IMM8))
    } else if code == 0x0e8 {
        Some(entry_of(Instr::CallRel(Width::W64), OpFlags::IMM64))
    } else if code == 0x0e9 {
        Some(entry_of(Instr::JmpRel(Width::W64), OpFlags::IMM64))
    } else if code == 0x0ed {
        Some(entry_of(Instr::In(Width::W32, Opnd::Dx), OpFlags::NONE))
    } else if code == 0x0ef {
        Some(entry_of(Instr::Out(Width::W32, Opnd::Dx), OpFlags::NONE))
    } else if code == 0x0f7 {
        Some(entry_of(Instr::GroupF7(Width::W64), OpFlags::MODRM | OpFlags::IMM64))
    } else if code == 0x0ff {
        Some(entry_of(Instr::GroupFF(Width::W64), OpFlags::MODRM))
    } else if code == 0x101 {
        Some(entry_of(Instr::Group0F01(Width::W64), OpFlags::MODRM))
    } else if code == 0x180 {
        Some(entry_of(Instr::Jcc(Cond::O, false, Width::W64), OpFlags::IMM64))
    } else if code == 0x181 {
        Some(entry_of(Instr::Jcc(Cond::O, true, Width::W64), OpFlags::IMM64))
    } else if code == 0x182 {
        Some(entry_of(Instr::Jcc(Cond::B, false, Width::W64), OpFlags::IMM64))
    } else if code == 0x183 {
        Some(entry_of(Instr::Jcc(Cond::B, true, Width::W64), OpFlags::IMM64))
    } else if code == 0x184 {
        Some(entry_of(Instr::Jcc(Cond::Z, false, Width::W64), OpFlags::IMM64))
    } else if code == 0x185 {
        Some(entry_of(Instr::Jcc(Cond::Z, true, Width::W64), OpFlags::IMM64))
    } else if code == 0x186 {
        Some(entry_of(Instr::Jcc(Cond::BE, false, Width::W64), OpFlags::IMM64))
    } else if code == 0x187 {
        Some(entry_of(Instr::Jcc(Cond::BE, true, Width::W64), OpFlags::IMM64))
    } else if code == 0x188 {
        Some(entry_of(Instr::Jcc(Cond::S, false, Width::W64), OpFlags::IMM64))
    } else if code == 0x189 {
        Some(entry_of(Instr::Jcc(Cond::S, true, Width::W64), OpFlags::IMM64))
    } else if code == 0x18a {
        Some(entry_of(Instr::Jcc(Cond::P, false, Width::W64), OpFlags::IMM64))
    } else if code == 0x18b {
        Some(entry_of(Instr::Jcc(Cond::P, true, Width::W64), OpFlags::IMM64))
    } else if code == 0x18c {
        Some(entry_of(Instr::Jcc(Cond::L, false, Width::W64), OpFlags::IMM64))
    } else if code == 0x18d {
        Some(entry_of(Instr::Jcc(Cond::L, true, Width::W64), OpFlags::IMM64))
    } else if code == 0x18e {
        Some(entry_of(Instr::Jcc(Cond::LE, false, Width::W64), OpFlags::IMM64))
    } else if code == 0x18f {
        Some(entry_of(Instr::Jcc(Cond::LE, true, Width::W64), OpFlags::IMM64))
    } else if code == 0x1af {
        Some(entry_of(Instr::Imul2(Width::W64), OpFlags::MODRM))
    } else if code == 0x1b6 {
        Some(entry_of(Instr::Movzx(Width::W64, Width::W8), OpFlags::MODRM))
    } else if code == 0x1b7 {
        Some(entry_of(Instr::Movzx(Width::W64, Width::W64), OpFlags::MODRM))
    } else if code == 0x1be {
        Some(entry_of(Instr::Movsx(Width::W64, Width::W8), OpFlags::MODRM))
    } else if code == 0x1bf {
        Some(entry_of(Instr::Movsx(Width::W64, Width::W64), OpFlags::MODRM))
    } else {
        None
    }
}

fn op64_entry(code: u16) -> (e: Option<OpcodeType>)
    ensures
        e == op64_spec(code),
{
    if code == 0x001 {
        Some(entry(Instr::Alu(AluOp::Add, Width::W64, Opnd::RM, Opnd::R), OpFlags::MODRM))
    } else if code == 0x003 {
        Some(entry(Instr::Alu(AluOp::Add, Width::W64, Opnd::R, Opnd::RM), OpFlags::MODRM))
    } else if code == 0x005 {
        Some(entry(Instr::Alu(AluOp::Add, Width::W64, Opnd::Acc, Opnd::Imm(Width::W64)), OpFlags::IMM64))
    } else if code == 0x009 {
        Some(entry(Instr::Alu(AluOp::Or, Width::W64, Opnd::RM, Opnd::R), OpFlags::MODRM))
    } else if code == 0x00b {
        Some(entry(Instr::Alu(AluOp::Or, Width::W64, Opnd::R, Opnd::RM), OpFlags::MODRM))
    } else if code == 0x00d {
        Some(entry(Instr::Alu(AluOp::Or, Width::W64, Opnd::Acc, Opnd::Imm(Width::W64)), OpFlags::IMM64))
    } else if code == 0x011 {
        Some(entry(Instr::Alu(AluOp::Adc, Width::W64, Opnd::RM, Opnd::R), OpFlags::MODRM))
    } else if code == 0x013 {
        Some(entry(Instr::Alu(AluOp::Adc, Width::W64, Opnd::R, Opnd::RM), OpFlags::MODRM))
    } else if code == 0x015 {
        Some(entry(Instr::Alu(AluOp::Adc, Width::W64, Opnd::Acc, Opnd::Imm(Width::W64)), OpFlags::IMM64))
    } else if code == 0x019 {
        Some(entry(Instr::Alu(AluOp::Sbb, Width::W64, Opnd::RM, Opnd::R), OpFlags::MODRM))
    } else if code == 0x01b {
        Some(entry(Instr::Alu(AluOp::Sbb, Width::W64, Opnd::R, Opnd::RM), OpFlags::MODRM))
    } else if code == 0x01d {
        Some(entry(Instr::Alu(AluOp::Sbb, Width::W64, Opnd::Acc, Opnd::Imm(Width::W64)), OpFlags::IMM64))
    } else if code == 0x021 {
        Some(entry(Instr::Alu(AluOp::And, Width::W64, Opnd::RM, Opnd::R), OpFlags::MODRM))
    } else if code == 0x023 {
        Some(entry(Instr::Alu(AluOp::And, Width::W64, Opnd::R, Opnd::RM), OpFlags::MODRM))
    } else if code == 0x025 {
        Some(entry(Instr::Alu(AluOp::And, Width::W64, Opnd::Acc, Opnd::Imm(Width::W64)), OpFlags::IMM64))
    } else if code == 0x029 {
        Some(entry(Instr::Alu(AluOp::Sub, Width::W64, Opnd::RM, Opnd::R), OpFlags::MODRM))
    } else if code == 0x02b {
        Some(entry(Instr::Alu(AluOp::Sub, Width::W64, Opnd::R, Opnd::RM), OpFlags::MODRM))
    } else if code == 0x02d {
        Some(entry(Instr::Alu(AluOp::Sub, Width::W64, Opnd::Acc, Opnd::Imm(Width::W64)), OpFlags::IMM64))
    } else if code == 0x031 {
        Some(entry(Instr::Alu(AluOp::Xor, Width::W64, Opnd::RM, Opnd::R), OpFlags::MODRM))
    } else if code == 0x033 {
        Some(entry(Instr::Alu(AluOp::Xor, Width::W64, Opnd::R, Opnd::RM), OpFlags::MODRM))
    } else if code == 0x035 {
        Some(entry(Instr::Alu(AluOp::Xor, Width::W64, Opnd::Acc, Opnd::Imm(Width::W64)), OpFlags::IMM64))
    } else if code == 0x039 {
        Some(entry(Instr::Alu(AluOp::Cmp, Width::W64, Opnd::RM, Opnd::R), OpFlags::MODRM))
    } else if code == 0x03b {
        Some(entry(Instr::Alu(AluOp::Cmp, Width::W64, Opnd::R, Opnd::RM), OpFlags::MODRM))
    } else if code == 0x03d {
        Some(entry(Instr::Alu(AluOp::Cmp, Width::W64, Opnd::Acc, Opnd::Imm(Width::W64)), OpFlags::IMM64))
    } else if 0x040 <= code && code <= 0x047 {
        Some(entry(Instr::Inc(Width::W64, Opnd::Opr), OpFlags::NONE))
    } else if 0x048 <= code && code <= 0x04f {
        Some(entry(Instr::Dec(Width::W64, Opnd::Opr), OpFlags::NONE))
    } else if 0x050 <= code && code <= 0x057 {
        Some(entry(Instr::Push(Width::W64, Opnd::Opr), OpFlags::NONE))
    } else if 0x058 <= code && code <= 0x05f {
        Some(entry(Instr::Pop(Width::W64, Opnd::Opr), OpFlags::NONE))
    } else if code == 0x068 {
        Some(entry(Instr::Push(Width::W64, Opnd::Imm(Width::W64)), OpFlags::IMM64))
    } else if code == 0x069 {
        Some(entry(Instr::Imul3(Width::W64, Opnd::Imm(Width::W64)), OpFlags::MODRM | OpFlags::IMM64))
    } else if code == 0x06a {
        Some(entry(Instr::Push(Width::W64, Opnd::Imm(Width::W8)), OpFlags::IMM8))
    } else if code == 0x06b {
        Some(entry(Instr::Imul3(Width::W64, Opnd::Imm(Width::W8)), OpFlags::MODRM | OpFlags::IMM8))
    } else if code == 0x081 {
        Some(entry(Instr::AluGroup(Width::W64, Opnd::Imm(Width::W64)), OpFlags::MODRM | OpFlags::IMM64))
    } else if code == 0x083 {
        Some(entry(Instr::AluGroup(Width::W64, Opnd::Imm(Width::W8)), OpFlags::MODRM | OpFlags::IMM8))
    } else if code == 0x085 {
        Some(entry(Instr::Test(Width::W64, Opnd::RM, Opnd::R), OpFlags::MODRM))
    } else if code == 0x087 {
        Some(entry(Instr::Xchg(Width::W64, Opnd::R, Opnd::RM), OpFlags::MODRM))
    } else if code == 0x089 {
        Some(entry(Instr::Mov(Width::W64, Opnd::RM, Opnd::R), OpFlags::MODRM))
    } else if code == 0x08b {
        Some(entry(Instr::Mov(Width::W64, Opnd::R, Opnd::RM), OpFlags::MODRM))
    } else if code == 0x08c {
        Some(entry(Instr::Mov(Width::W64, Opnd::RM, Opnd::Sreg), OpFlags::MODRM))
    } else if code == 0x08d {
        Some(entry(Instr::Lea(Width::W64), OpFlags::MODRM))
    } else if 0x090 <= code && code <= 0x097 {
        Some(entry(Instr::Xchg(Width::W64, Opnd::Acc, Opnd::Opr), OpFlags::NONE))
    } else if code == 0x098 {
        Some(entry(Instr::SignExtAcc(Width::W64), OpFlags::NONE))
    } else if code == 0x099 {
        Some(entry(Instr::SignExtDx(Width::W64), OpFlags::NONE))
    } else if code == 0x09c {
        Some(entry(Instr::PushF(Width::W64), OpFlags::NONE))
    } else if code == 0x09d {
        Some(entry(Instr::PopF(Width::W64), OpFlags::NONE))
    } else if code == 0x0a1 {
        Some(entry(Instr::Mov(Width::W64, Opnd::Acc, Opnd::Moffs), OpFlags::MOFFS))
    } else if code == 0x0a3 {
        Some(entry(Instr::Mov(Width::W64, Opnd::Moffs, Opnd::Acc), OpFlags::MOFFS))
    } else if code == 0x0a4 {
        Some(entry(Instr::Str(StrOp::Movs, Width::W8, Width::W64), OpFlags::NONE))
    } else if code == 0x0a5 {
        Some(entry(Instr::Str(StrOp::Movs, Width::W64, Width::W64), OpFlags::NONE))
    } else if code == 0x0a6 {
        Some(entry(Instr::Str(StrOp::Cmps, Width::W8, Width::W64), OpFlags::NONE))
    } else if code == 0x0a7 {
        Some(entry(Instr::Str(StrOp::Cmps, Width::W64, Width::W64), OpFlags::NONE))
    } else if code == 0x0a9 {
        Some(entry(Instr::Test(Width::W64, Opnd::Acc, Opnd::Imm(Width::W64)), OpFlags::IMM64))
    } else if code == 0x0aa {
        Some(entry(Instr::Str(StrOp::Stos, Width::W8, Width::W64), OpFlags::NONE))
    } else if code == 0x0ab {
        Some(entry(Instr::Str(StrOp::Stos, Width::W64, Width::W64), OpFlags::NONE))
    } else if code == 0x0ac {
        Some(entry(Instr::Str(StrOp::Lods, Width::W8, Width::W64), OpFlags::NONE))
    } else if code == 0x0ad {
        Some(entry(Instr::Str(StrOp::Lods, Width::W64, Width::W64), OpFlags::NONE))
    } else if code == 0x0ae {
        Some(entry(Instr::Str(StrOp::Scas, Width::W8, Width::W64), OpFlags::NONE))
    } else if code == 0x0af {
        Some(entry(Instr::Str(StrOp::Scas, Width::W64, Width::W64), OpFlags::NONE))
    } else if 0x0b8 <= code && code <= 0x0bf {
        Some(entry(Instr::Mov(Width::W64, Opnd::Opr, Opnd::Imm(Width::W64)), OpFlags::IMM64))
    } else if code == 0x0c1 {
        Some(entry(Instr::ShiftGroup(Width::W64, Opnd::Imm(Width::W8)), OpFlags::MODRM | OpFlags::IMM8))
    } else if code == 0x0c3 {
        Some(entry(Instr::Ret(Width::W64), OpFlags::NONE))
    } else if code == 0x0c7 {
        Some(entry(Instr::Mov(Width::W64, Opnd::RM, Opnd::Imm(Width::W64)), OpFlags::MODRM | OpFlags::IMM64))
    } else if code == 0x0c9 {
        Some(entry(Instr::Leave(Width::W64), OpFlags::NONE))
    } else if code == 0x0cb {
        Some(entry(Instr::RetF(Width::W64), OpFlags::NONE))
    } else if code == 0x0cf {
        Some(entry(Instr::IRet(Width::W64), OpFlags::NONE))
    } else if code == 0x0d3 {
        Some(entry(Instr::ShiftGroup(Width::W64, Opnd::Cl), OpFlags::MODRM))
    } else if code == 0x0e5 {
        Some(entry(Instr::In(Width::W32, Opnd::Imm(Width::W8)), OpFlags::IMM8))
    } else if code == 0x0e7 {
        Some(entry(Instr::Out(Width::W32, Opnd::Imm(Width::W8)), OpFlags::IMM8))
    } else if code == 0x0e8 {
        Some(entry(Instr::CallRel(Width::W64), OpFlags::IMM64))
    } else if code == 0x0e9 {
        Some(entry(Instr::JmpRel(Width::W64), OpFlags::IMM64))
    } else if code == 0x0ed {
        Some(entry(Instr::In(Width::W32, Opnd::Dx), OpFlags::NONE))
    } else if code == 0x0ef {
        Some(entry(Instr::Out(Width::W32, Opnd::Dx), OpFlags::NONE))
    } else if code == 0x0f7 {
        Some(entry(Instr::GroupF7(Width::W64), OpFlags::MODRM | OpFlags::IMM64))
    } else if code == 0x0ff {
        Some(entry(Instr::GroupFF(Width::W64), OpFlags::MODRM))
    } else if code == 0x101 {
        Some(entry(Instr::Group0F01(Width::W64), OpFlags::MODRM))
    } else if code == 0x180 {
        Some(entry(Instr::Jcc(Cond::O, false, Width::W64), OpFlags::IMM64))
    } else if code == 0x181 {
        Some(entry(Instr::Jcc(Cond::O, true, Width::W64), OpFlags::IMM64))
    } else if code == 0x182 {
        Some(entry(Instr::Jcc(Cond::B, false, Width::W64), OpFlags::IMM64))
    } else if code == 0x183 {
        Some(entry(Instr::Jcc(Cond::B, true, Width::W64), OpFlags::IMM64))
    } else if code == 0x184 {
        Some(entry(Instr::Jcc(Cond::Z, false, Width::W64), OpFlags::IMM64))
    } else if code == 0x185 {
        Some(entry(Instr::Jcc(Cond::Z, true, Width::W64), OpFlags::IMM64))
    } else if code == 0x186 {
        Some(entry(Instr::Jcc(Cond::BE, false, Width::W64), OpFlags::IMM64))
    } else if code == 0x187 {
        Some(entry(Instr::Jcc(Cond::BE, true, Width::W64), OpFlags::IMM64))
    } else if code == 0x188 {
        Some(entry(Instr::Jcc(Cond::S, false, Width::W64), OpFlags::IMM64))
    } else if code == 0x189 {
        Some(entry(Instr::Jcc(Cond::S, true, Width::W64), OpFlags::IMM64))
    } else if code == 0x18a {
        Some(entry(Instr::Jcc(Cond::P, false, Width::W64), OpFlags::IMM64))
    } else if code == 0x18b {
        Some(entry(Instr::Jcc(Cond::P, true, Width::W64), OpFlags::IMM64))
    } else if code == 0x18c {
        Some(entry(Instr::Jcc(Cond::L, false, Width::W64), OpFlags::IMM64))
    } else if code == 0x18d {
        Some(entry(Instr::Jcc(Cond::L, true, Width::W64), OpFlags::IMM64))
    } else if code == 0x18e {
        Some(entry(Instr::Jcc(Cond::LE, false, Width::W64), OpFlags::IMM64))
    } else if code == 0x18f {
        Some(entry(Instr::Jcc(Cond::LE, true, Width::W64), OpFlags::IMM64))
    } else if code == 0x1af {
        Some(entry(Instr::Imul2(Width::W64), OpFlags::MODRM))
    } else if code == 0x1b6 {
        Some(entry(Instr::Movzx(Width::W64, Width::W8), OpFlags::MODRM))
    } else if code == 0x1b7 {
        Some(entry(Instr::Movzx(Width::W64, Width::W64), OpFlags::MODRM))
    } else if code == 0x1be {
        Some(entry(Instr::Movsx(Width::W64, Width::W8), OpFlags::MODRM))
    } else if code == 0x1bf {
        Some(entry(Instr::Movsx(Width::W64, Width::W64), OpFlags::MODRM))
    } else {
        None
    }
}


/// The table of `n` entries that are all undefined.
fn undefined_table() -> (t: OpcodeArr)
    ensures
        t@.len() == MAX_OPCODE,
        forall|i: int| 0 <= i < MAX_OPCODE ==> t@[i] == undefined_entry(),
{
    let mut t: OpcodeArr = Vec::new();
    let mut i: usize = 0;
    while i < MAX_OPCODE
        invariant
            i <= MAX_OPCODE,
            t@.len() == i,
            forall|k: int| 0 <= k < i ==> t@[k] == undefined_entry(),
        decreases MAX_OPCODE - i,
    {
        t.push(OpcodeType::default());
        i += 1;
    }
    t
}

/// Writes the entries that every operand size shares into `op`.
pub fn init_cmn_opcode(op: &mut OpcodeArr)
    requires
        old(op)@.len() == MAX_OPCODE,
    ensures
        final(op)@.len() == MAX_OPCODE,
        forall|i: int| 0 <= i < MAX_OPCODE ==> final(op)@[i] == overlay(old(op)@, i, cmn_spec(i as u16)),
{
    let ghost base = op@;
    let mut code: usize = 0;
    while code < MAX_OPCODE
        invariant
            code <= MAX_OPCODE,
            op@.len() == MAX_OPCODE,
            base.len() == MAX_OPCODE,
            forall|i: int| 0 <= i < code ==> op@[i] == overlay(base, i, cmn_spec(i as u16)),
            forall|i: int| code <= i < MAX_OPCODE ==> op@[i] == base[i],
        decreases MAX_OPCODE - code,
    {
        if let Some(e) = cmn_entry(code as u16) {
            op.set(code, e);
        }
        code += 1;
    }
}

/// The table of an operand size before its own entries: the shared ones over undefined ones.
pub open spec fn base_entry(i: int) -> OpcodeType {
    overlay(Seq::new(MAX_OPCODE as nat, |k: int| undefined_entry()), i, cmn_spec(i as u16))
}

fn base_table() -> (t: OpcodeArr)
    ensures
        t@.len() == MAX_OPCODE,
        forall|i: int| 0 <= i < MAX_OPCODE ==> t@[i] == base_entry(i),
{
    let mut t = undefined_table();
    let ghost u = t@;
    init_cmn_opcode(&mut t);
    assert(u =~= Seq::new(MAX_OPCODE as nat, |k: int| undefined_entry()));
    t
}

/// Writes the entries of `spec` over `op`: the shape of each operand size's initialisation.
pub open spec fn written(base: Seq<OpcodeType>, table: Seq<OpcodeType>, spec: spec_fn(u16) -> Option<OpcodeType>) -> bool {
    &&& table.len() == MAX_OPCODE
    &&& forall|i: int| 0 <= i < MAX_OPCODE ==> table[i] == overlay(base, i, spec(i as u16))
}

/// The opcode table of 16-bit operand size.
pub struct Opcode16(pub OpcodeArr);

/// The opcode table of 32-bit operand size.
pub struct Opcode32(pub OpcodeArr);

/// The opcode table of 64-bit operand size.
pub struct Opcode64(pub OpcodeArr);

impl Opcode16 {
    pub fn new(op: OpcodeArr) -> (s: Self)
        ensures
            s.0@ == op@,
    {
        Self(op)
    }
}

impl Opcode32 {
    pub fn new(op: OpcodeArr) -> (s: Self)
        ensures
            s.0@ == op@,
    {
        Self(op)
    }
}

impl Opcode64 {
    pub fn new(op: OpcodeArr) -> (s: Self)
        ensures
            s.0@ == op@,
    {
        Self(op)
    }
}

/// An opcode table of one operand size: filled with its own entries, it runs an instruction
/// and tells what follows an opcode.
pub trait OpcodeTrait {
    spec fn entries(&self) -> Seq<OpcodeType>;

    fn init_opcode(&mut self)
        requires
            old(self).entries().len() == MAX_OPCODE,
        ensures
            final(self).entries().len() == MAX_OPCODE,
    ;

    fn exec(&self, arg: &mut Exec) -> (r: Result<(), EmuException>)
        requires
            self.entries().len() == MAX_OPCODE,
            old(arg).idata.opcode < MAX_OPCODE,
        ensures
            Exec::performs(*old(arg), *final(arg), self.entries()[old(arg).idata.opcode as int].func, r),
    ;

    fn flag(&self, opcode: u16) -> (f: OpFlags)
        requires
            self.entries().len() == MAX_OPCODE,
            opcode < MAX_OPCODE,
        ensures
            f == self.entries()[opcode as int].flag,
    ;
}

/// Runs entry `opcode` of `table` on `arg`.
pub fn exec_entry(table: &OpcodeArr, arg: &mut Exec) -> (r: Result<(), EmuException>)
    requires
        table@.len() == MAX_OPCODE,
        old(arg).idata.opcode < MAX_OPCODE,
    ensures
        Exec::performs(*old(arg), *final(arg), table@[old(arg).idata.opcode as int].func, r),
{
    let f = table[arg.idata.opcode as usize].func;
    arg.perform(f)
}

impl OpcodeTrait for Opcode16 {
    open spec fn entries(&self) -> Seq<OpcodeType> {
        self.0@
    }

    fn init_opcode(&mut self)
        ensures
            written(old(self).0@, final(self).0@, |c: u16| op16_spec(c)),
    {
        let ghost base = self.0@;
        let mut code: usize = 0;
        while code < MAX_OPCODE
            invariant
                code <= MAX_OPCODE,
                self.0@.len() == MAX_OPCODE,
                base.len() == MAX_OPCODE,
                forall|i: int| 0 <= i < code ==> self.0@[i] == overlay(base, i, op16_spec(i as u16)),
                forall|i: int| code <= i < MAX_OPCODE ==> self.0@[i] == base[i],
            decreases MAX_OPCODE - code,
        {
            if let Some(e) = op16_entry(code as u16) {
                self.0.set(code, e);
            }
            code += 1;
        }
    }

    fn exec(&self, arg: &mut Exec) -> (r: Result<(), EmuException>) {
        exec_entry(&self.0, arg)
    }

    fn flag(&self, opcode: u16) -> (f: OpFlags) {
        self.0[opcode as usize].flag
    }
}

impl OpcodeTrait for Opcode32 {
    open spec fn entries(&self) -> Seq<OpcodeType> {
        self.0@
    }

    fn init_opcode(&mut self)
        ensures
            written(old(self).0@, final(self).0@, |c: u16| op32_spec(c)),
    {
        let ghost base = self.0@;
        let mut code: usize = 0;
        while code < MAX_OPCODE
            invariant
                code <= MAX_OPCODE,
                self.0@.len() == MAX_OPCODE,
                base.len() == MAX_OPCODE,
                forall|i: int| 0 <= i < code ==> self.0@[i] == overlay(base, i, op32_spec(i as u16)),
                forall|i: int| code <= i < MAX_OPCODE ==> self.0@[i] == base[i],
            decreases MAX_OPCODE - code,
        {
            if let Some(e) = op32_entry(code as u16) {
                self.0.set(code, e);
            }
            code += 1;
        }
    }

    fn exec(&self, arg: &mut Exec) -> (r: Result<(), EmuException>) {
        exec_entry(&self.0, arg)
    }

    fn flag(&self, opcode: u16) -> (f: OpFlags) {
        self.0[opcode as usize].flag
    }
}

impl OpcodeTrait for Opcode64 {
    open spec fn entries(&self) -> Seq<OpcodeType> {
        self.0@
    }

    fn init_opcode(&mut self)
        ensures
            written(old(self).0@, final(self).0@, |c: u16| op64_spec(c)),
    {
        let ghost base = self.0@;
        let mut code: usize = 0;
        while code < MAX_OPCODE
            invariant
                code <= MAX_OPCODE,
                self.0@.len() == MAX_OPCODE,
                base.len() == MAX_OPCODE,
                forall|i: int| 0 <= i < code ==> self.0@[i] == overlay(base, i, op64_spec(i as u16)),
                forall|i: int| code <= i < MAX_OPCODE ==> self.0@[i] == base[i],
            decreases MAX_OPCODE - code,
        {
            if let Some(e) = op64_entry(code as u16) {
                self.0.set(code, e);
            }
            code += 1;
        }
    }

    fn exec(&self, arg: &mut Exec) -> (r: Result<(), EmuException>) {
        exec_entry(&self.0, arg)
    }

    fn flag(&self, opcode: u16) -> (f: OpFlags) {
        self.0[opcode as usize].flag
    }
}

/// Entry `i` of the table of operand size `size`: its own entry, else a shared one, else
/// undefined.
pub open spec fn table_entry(size: AcsSize, i: int) -> OpcodeType {
    overlay(
        Seq::new(MAX_OPCODE as nat, |k: int| base_entry(k)),
        i,
        match size {
            AcsSize::BIT16 => op16_spec(i as u16),
            AcsSize::BIT32 => op32_spec(i as u16),
            AcsSize::BIT64 => op64_spec(i as u16),
        },
    )
}

/// The opcode tables of the three operand sizes.
pub struct Opcode {
    pub op16: Opcode16,
    pub op32: Opcode32,
    pub op64: Opcode64,
}

impl Opcode {
    pub open spec fn wf(self) -> bool {
        &&& self.op16.0@.len() == MAX_OPCODE
        &&& self.op32.0@.len() == MAX_OPCODE
        &&& self.op64.0@.len() == MAX_OPCODE
        &&& forall|i: int| 0 <= i < MAX_OPCODE ==> self.op16.0@[i] == table_entry(AcsSize::BIT16, i)
        &&& forall|i: int| 0 <= i < MAX_OPCODE ==> self.op32.0@[i] == table_entry(AcsSize::BIT32, i)
        &&& forall|i: int| 0 <= i < MAX_OPCODE ==> self.op64.0@[i] == table_entry(AcsSize::BIT64, i)
    }

    pub fn new() -> (op: Self)
        ensures
            op.wf(),
    {
        let mut op = Self {
            op16: Opcode16::new(base_table()),
            op32: Opcode32::new(base_table()),
            op64: Opcode64::new(base_table()),
        };
        op.op16.init_opcode();
        op.op32.init_opcode();
        op.op64.init_opcode();
        op
    }

    /// The table of operand size `op_size`.
    pub fn get(&self, op_size: AcsSize) -> (t: &OpcodeArr)
        requires
            self.wf(),
        ensures
            t@.len() == MAX_OPCODE,
            forall|i: int| 0 <= i < MAX_OPCODE ==> t@[i] == table_entry(op_size, i),
    {
        match op_size {
            AcsSize::BIT16 => &self.op16.0,
            AcsSize::BIT32 => &self.op32.0,
            AcsSize::BIT64 => &self.op64.0,
        }
    }
}

/// An opcode that no operand size defines for itself does the same at every operand size.
pub proof fn law_shared_entries(code: u16)
    requires
        code < MAX_OPCODE,
        op16_spec(code) is None,
        op32_spec(code) is None,
        op64_spec(code) is None,
    ensures
        table_entry(AcsSize::BIT16, code as int) == table_entry(AcsSize::BIT32, code as int),
        table_entry(AcsSize::BIT32, code as int) == table_entry(AcsSize::BIT64, code as int),
        table_entry(AcsSize::BIT16, code as int) == overlay(Seq::new(MAX_OPCODE as nat, |k: int| undefined_entry()), code as int, cmn_spec(code)),
{
}

} // verus!
