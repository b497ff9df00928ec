use vstd::prelude::*;
use crate::emulator::EmuException;
use crate::emulator::access::{Access, AcsSize, CpuMode, unchanged_but_tlb};
use crate::emulator::access::memory::TLBView;
use crate::hardware::processor::segment::SgReg;
use super::opcode::OpFlags;

verus! {

/// A decoded instruction: its prefixes and the rest.
#[derive(Clone, Copy, PartialEq, Eq, Structural, Debug)]
pub struct ParseInstr {
    pub prefix: PrefixData,
    pub instr: InstrData,
}

/// The prefixes of an instruction.
#[derive(Clone, Copy, PartialEq, Eq, Structural, Debug)]
pub struct PrefixData {
    pub segment: Option<SgReg>,
    pub repeat: Option<Rep>,
    pub size: OverrideSize,
    pub rex: Option<Rex>,
}

/// A repeat prefix.
#[derive(Clone, Copy, PartialEq, Eq, Structural, Debug)]
pub enum Rep {
    REPZ,
    REPNZ,
}

/// The operand- and address-size override prefixes that an instruction carries.
#[derive(Clone, Copy, PartialEq, Eq, Structural, Debug)]
pub struct OverrideSize {
    pub bits: u8,
}

impl OverrideSize {
    pub const NONE: u8 = 0b00;

    pub const OP: u8 = 0b01;

    pub const AD: u8 = 0b10;

    /// Whether every override in `flag` is present.
    pub fn contains(&self, flag: u8) -> (b: bool)
        ensures
            b == (self.bits & flag == flag),
    {
        self.bits & flag == flag
    }
}

/// A REX prefix: the extension bits of the base, index and register fields, and the 64-bit
/// operand size.
#[derive(Clone, Copy, PartialEq, Eq, Structural, Debug)]
pub struct Rex {
    pub b: u8,
    pub x: u8,
    pub r: u8,
    pub w: u8,
}

impl Rex {
    /// The REX prefix byte `code`.
    pub open spec fn decode(code: u8) -> Self {
        Rex { b: code & 1, x: (code >> 1u8) & 1, r: (code >> 2u8) & 1, w: (code >> 3u8) & 1 }
    }

    pub fn from_u8(code: u8) -> (r: Self)
        ensures
            r == Self::decode(code),
            r.wf(),
    {
        proof {
            assert(code & 1 <= 1 && (code >> 1u8) & 1 <= 1 && (code >> 2u8) & 1 <= 1 && (code >> 3u8) & 1 <= 1) by (bit_vector);
        }
        Rex { b: code & 1, x: (code >> 1u8) & 1, r: (code >> 2u8) & 1, w: (code >> 3u8) & 1 }
    }

    /// Every field is a single bit.
    pub open spec fn wf(self) -> bool {
        self.b <= 1 && self.x <= 1 && self.r <= 1 && self.w <= 1
    }
}

/// The ModR/M byte.
#[derive(Clone, Copy, PartialEq, Eq, Structural, Debug)]
pub struct ModRM {
    pub rm: u8,
    pub reg: u8,
    pub mod_: u8,
}

impl ModRM {
    pub open spec fn decode(code: u8) -> Self {
        ModRM { rm: code & 7, reg: (code >> 3u8) & 7, mod_: code >> 6u8 }
    }

    pub fn from_u8(code: u8) -> (m: Self)
        ensures
            m == Self::decode(code),
            m.wf(),
    {
        proof {
            assert(code & 7 <= 7 && (code >> 3u8) & 7 <= 7 && code >> 6u8 <= 3) by (bit_vector);
        }
        ModRM { rm: code & 7, reg: (code >> 3u8) & 7, mod_: code >> 6u8 }
    }

    /// Every field fits its width.
    pub open spec fn wf(self) -> bool {
        self.rm <= 7 && self.reg <= 7 && self.mod_ <= 3
    }
}

/// The SIB byte.
#[derive(Clone, Copy, PartialEq, Eq, Structural, Debug)]
pub struct Sib {
    pub base: u8,
    pub index: u8,
    pub scale: u8,
}

impl Sib {
    pub open spec fn decode(code: u8) -> Self {
        Sib { base: code & 7, index: (code >> 3u8) & 7, scale: code >> 6u8 }
    }

    pub fn from_u8(code: u8) -> (s: Self)
        ensures
            s == Self::decode(code),
            s.wf(),
    {
        proof {
            assert(code & 7 <= 7 && (code >> 3u8) & 7 <= 7 && code >> 6u8 <= 3) by (bit_vector);
        }
        Sib { base: code & 7, index: (code >> 3u8) & 7, scale: code >> 6u8 }
    }

    /// Every field fits its width.
    pub open spec fn wf(self) -> bool {
        self.base <= 7 && self.index <= 7 && self.scale <= 3
    }
}

/// The decoded parts of an instruction after its prefixes.
#[derive(Clone, Copy, PartialEq, Eq, Structural, Debug)]
pub struct InstrData {
    /// How many bytes of the instruction have been read.
    pub len: u64,
    pub adsize: AcsSize,
    pub opcode: u16,
    pub modrm: ModRM,
    pub sib: Sib,
    pub disp: u32,
    pub imm: Option<u64>,
    pub ptr16: Option<u16>,
    pub moffs: Option<u64>,
}

impl Default for ParseInstr {
    fn default() -> (p: Self)
        ensures
            p == ParseInstr::empty(),
    {
        ParseInstr {
            prefix: PrefixData { segment: None, repeat: None, size: OverrideSize { bits: 0 }, rex: None },
            instr: InstrData {
                len: 0,
                adsize: AcsSize::BIT16,
                opcode: 0,
                modrm: ModRM { rm: 0, reg: 0, mod_: 0 },
                sib: Sib { base: 0, index: 0, scale: 0 },
                disp: 0,
                imm: None,
                ptr16: None,
                moffs: None,
            },
        }
    }
}

/// What a step of decoding gives: its result, the decoder state and the TLB afterwards.
pub type ReadOutcome = (Result<(), EmuException>, ParseInstr, TLBView);

/// Applying the legacy prefix byte `code` to `pf`; `None` where `code` is no legacy prefix.
pub open spec fn legacy_prefix_of(pf: PrefixData, code: u8) -> Option<PrefixData> {
    if code == 0x26 {
        Some(PrefixData { segment: Some(SgReg::ES), ..pf })
    } else if code == 0x2e {
        Some(PrefixData { segment: Some(SgReg::CS), ..pf })
    } else if code == 0x36 {
        Some(PrefixData { segment: Some(SgReg::SS), ..pf })
    } else if code == 0x3e {
        Some(PrefixData { segment: Some(SgReg::DS), ..pf })
    } else if code == 0x64 {
        Some(PrefixData { segment: Some(SgReg::FS), ..pf })
    } else if code == 0x65 {
        Some(PrefixData { segment: Some(SgReg::GS), ..pf })
    } else if code == 0x66 {
        Some(PrefixData { size: OverrideSize { bits: pf.size.bits | OverrideSize::OP }, ..pf })
    } else if code == 0x67 {
        Some(PrefixData { size: OverrideSize { bits: pf.size.bits | OverrideSize::AD }, ..pf })
    } else if code == 0xf2 {
        Some(PrefixData { repeat: Some(Rep::REPNZ), ..pf })
    } else if code == 0xf3 {
        Some(PrefixData { repeat: Some(Rep::REPZ), ..pf })
    } else {
        None
    }
}

impl ParseInstr {
    /// `self` with `n` more bytes of the instruction read.
    pub open spec fn advanced(self, n: nat) -> Self {
        ParseInstr { instr: InstrData { len: (self.instr.len + n) as u64, ..self.instr }, ..self }
    }

    /// Reading, from the code of `a` while the TLB holds `t`, the legacy prefixes from the
    /// `i`-th on (at most four in all): each one read sets its field; the first byte that
    /// is no legacy prefix stops the reading and is left unread.
    pub open spec fn legacy_read(self, a: Access, t: TLBView, i: nat) -> ReadOutcome
        decreases 4 - i,
    {
        if i >= 4 {
            (Ok(()), self, t)
        } else {
            let (c, t1) = a.code_fetch(t, self.instr.len, 1);
            match c {
                Err(e) => (Err(e), self, t1),
                Ok(v) => match legacy_prefix_of(self.prefix, v as u8) {
                    None => (Ok(()), self, t1),
                    Some(pf) => ParseInstr { prefix: pf, ..self }.advanced(1).legacy_read(a, t1, i + 1),
                },
            }
        }
    }

    /// Reading a REX prefix: a byte 0x40..=0x4f is taken as one, any other is left unread.
    pub open spec fn rex_read(self, a: Access, t: TLBView) -> ReadOutcome {
        let (c, t1) = a.code_fetch(t, self.instr.len, 1);
        match c {
            Err(e) => (Err(e), self, t1),
            Ok(v) => if (v as u8) / 16 != 4 {
                (Ok(()), self, t1)
            } else {
                (Ok(()), ParseInstr { prefix: PrefixData { rex: Some(Rex::decode(v as u8)), ..self.prefix }, ..self }.advanced(1), t1)
            },
        }
    }

    /// Reading the prefixes: the legacy ones, then, with 64-bit addressing in long mode, a
    /// REX prefix.
    pub open spec fn prefix_read(self, a: Access, t: TLBView) -> ReadOutcome {
        let (r1, p1, t1) = self.legacy_read(a, t, 0);
        if r1 is Err {
            (r1, p1, t1)
        } else if a.mode == CpuMode::Long && a.oasz.ad == AcsSize::BIT64 {
            p1.rex_read(a, t1)
        } else {
            (r1, p1, t1)
        }
    }

    /// Reading the ModR/M byte.
    pub open spec fn modrm_read(self, a: Access, t: TLBView) -> ReadOutcome {
        let (c, t1) = a.code_fetch(t, self.instr.len, 1);
        match c {
            Err(e) => (Err(e), self, t1),
            Ok(v) => (Ok(()), ParseInstr { instr: InstrData { modrm: ModRM::decode(v as u8), ..self.instr }, ..self }.advanced(1), t1),
        }
    }

    /// Reading the SIB byte.
    pub open spec fn sib_read(self, a: Access, t: TLBView) -> ReadOutcome {
        let (c, t1) = a.code_fetch(t, self.instr.len, 1);
        match c {
            Err(e) => (Err(e), self, t1),
            Ok(v) => (Ok(()), ParseInstr { instr: InstrData { sib: Sib::decode(v as u8), ..self.instr }, ..self }.advanced(1), t1),
        }
    }

    /// Reading a displacement of `n` bytes (zero-extended).
    pub open spec fn disp_read(self, a: Access, t: TLBView, n: nat) -> ReadOutcome {
        let (c, t1) = a.code_fetch(t, self.instr.len, n);
        match c {
            Err(e) => (Err(e), self, t1),
            Ok(v) => (Ok(()), ParseInstr { instr: InstrData { disp: v as u32, ..self.instr }, ..self }.advanced(n), t1),
        }
    }

    /// Reading what follows the ModR/M byte: with 16-bit addressing a displacement of one
    /// byte (mod 1) or two (mod 2, or mod 0 with r/m 6); with 32- or 64-bit addressing first
    /// a SIB byte where r/m is 4 (mod other than 3), then a displacement of one byte (mod 1)
    /// or four (mod 2, mod 0 with r/m 5, or mod 0 with r/m 4 and SIB base 5).
    pub open spec fn sib_disp_read(self, a: Access, t: TLBView) -> ReadOutcome {
        let m = self.instr.modrm;
        match self.instr.adsize {
            AcsSize::BIT16 => if m.mod_ == 1 {
                self.disp_read(a, t, 1)
            } else if m.mod_ == 2 || (m.mod_ == 0 && m.rm == 6) {
                self.disp_read(a, t, 2)
            } else {
                (Ok(()), self, t)
            },
            _ => {
                let (r1, p1, t1) = if m.mod_ != 3 && m.rm == 4 { self.sib_read(a, t) } else { (Ok(()), self, t) };
                if r1 is Err {
                    (r1, p1, t1)
                } else if m.mod_ == 1 {
                    p1.disp_read(a, t1, 1)
                } else if m.mod_ == 2 || (m.mod_ == 0 && m.rm == 5) || (m.mod_ == 0 && m.rm == 4 && p1.instr.sib.base == 5) {
                    p1.disp_read(a, t1, 4)
                } else {
                    (Ok(()), p1, t1)
                }
            },
        }
    }

    /// Reading a memory offset of the address size: two, four or eight bytes.
    pub open spec fn moffs_read(self, a: Access, t: TLBView) -> ReadOutcome {
        let n: nat = match self.instr.adsize {
            AcsSize::BIT16 => 2,
            AcsSize::BIT32 => 4,
            AcsSize::BIT64 => 8,
        };
        let (c, t1) = a.code_fetch(t, self.instr.len, n);
        match c {
            Err(e) => (Err(e), self, t1),
            Ok(v) => (Ok(()), ParseInstr { instr: InstrData { moffs: Some(v), ..self.instr }, ..self }.advanced(n), t1),
        }
    }

    /// Reading the opcode: one byte, or, after 0x0f, 0x100 plus the byte that follows.
    pub open spec fn opcode_read(self, a: Access, t: TLBView) -> ReadOutcome {
        let (c, t1) = a.code_fetch(t, self.instr.len, 1);
        match c {
            Err(e) => (Err(e), self, t1),
            Ok(v) => if v as u8 == 0x0f {
                let p1 = self.advanced(1);
                let (c2, t2) = a.code_fetch(t1, p1.instr.len, 1);
                match c2 {
                    Err(e) => (Err(e), p1, t2),
                    Ok(v2) => (Ok(()), ParseInstr { instr: InstrData { opcode: (0x100 + v2 as u8) as u16, ..p1.instr }, ..p1 }.advanced(1), t2),
                }
            } else {
                (Ok(()), ParseInstr { instr: InstrData { opcode: v as u8 as u16, ..self.instr }, ..self }.advanced(1), t1)
            },
        }
    }

    /// Reading an immediate whose size the size bits `sz` of the operand flags give (one,
    /// two, four or eight bytes); with no size bit set, nothing is read and the immediate is 0.
    pub open spec fn imm_read(self, a: Access, t: TLBView, sz: u8) -> ReadOutcome {
        let n: nat = if sz == OpFlags::SZ8 { 1 } else if sz == OpFlags::SZ16 { 2 } else if sz == OpFlags::SZ32 { 4 } else if sz == OpFlags::SZ64 { 8 } else { 0 };
        if n == 0 {
            (Ok(()), ParseInstr { instr: InstrData { imm: Some(0), ..self.instr }, ..self }, t)
        } else {
            let (c, t1) = a.code_fetch(t, self.instr.len, n);
            match c {
                Err(e) => (Err(e), self, t1),
                Ok(v) => (Ok(()), ParseInstr { instr: InstrData { imm: Some(v), ..self.instr }, ..self }.advanced(n), t1),
            }
        }
    }

    /// Reading the selector of a far pointer.
    pub open spec fn ptr16_read(self, a: Access, t: TLBView) -> ReadOutcome {
        let (c, t1) = a.code_fetch(t, self.instr.len, 2);
        match c {
            Err(e) => (Err(e), self, t1),
            Ok(v) => (Ok(()), ParseInstr { instr: InstrData { ptr16: Some(v as u16), ..self.instr }, ..self }.advanced(2), t1),
        }
    }

    /// Reading the operands that `flag` announces, with address size `adsize`: ModR/M with
    /// SIB and displacement, an immediate, a far pointer's selector, a memory offset, in
    /// this order; the first fault stops the reading.
    pub open spec fn oprand_read(self, a: Access, t: TLBView, flag: OpFlags, adsize: AcsSize) -> ReadOutcome {
        let p0 = ParseInstr { instr: InstrData { adsize: adsize, ..self.instr }, ..self };
        let (r1, p1, t1) = if flag.bits & OpFlags::MODRM == OpFlags::MODRM {
            let (ra, pa, ta) = p0.modrm_read(a, t);
            if ra is Err { (ra, pa, ta) } else { pa.sib_disp_read(a, ta) }
        } else {
            (Ok(()), p0, t)
        };
        if r1 is Err {
            (r1, p1, t1)
        } else {
            let (r2, p2, t2) = if flag.bits & OpFlags::IMM == OpFlags::IMM {
                p1.imm_read(a, t1, flag.bits & OpFlags::SZBIT)
            } else {
                (Ok(()), p1, t1)
            };
            if r2 is Err {
                (r2, p2, t2)
            } else {
                let (r3, p3, t3) = if flag.bits & OpFlags::PTR16 == OpFlags::PTR16 { p2.ptr16_read(a, t2) } else { (Ok(()), p2, t2) };
                if r3 is Err {
                    (r3, p3, t3)
                } else if flag.bits & OpFlags::MOFFS == OpFlags::MOFFS {
                    p3.moffs_read(a, t3)
                } else {
                    (Ok(()), p3, t3)
                }
            }
        }
    }
}

impl ParseInstr {
    /// Machines that differ at most in their TLB read the same ModR/M byte.
    pub proof fn lemma_modrm_read_same(p: ParseInstr, a: Access, b: Access, t: TLBView)
        requires
            unchanged_but_tlb(a, b),
        ensures
            p.modrm_read(a, t) == p.modrm_read(b, t),
    {
        Access::lemma_code_fetch_same(a, b, t, p.instr.len, 1);
    }

    /// Machines that differ at most in their TLB read the same SIB byte and displacement.
    pub proof fn lemma_sib_disp_read_same(p: ParseInstr, a: Access, b: Access, t: TLBView)
        requires
            unchanged_but_tlb(a, b),
        ensures
            p.sib_disp_read(a, t) == p.sib_disp_read(b, t),
    {
        Access::lemma_code_fetch_same_all(a, b);
    }

    /// Machines that differ at most in their TLB read the same immediate.
    pub proof fn lemma_imm_read_same(p: ParseInstr, a: Access, b: Access, t: TLBView, sz: u8)
        requires
            unchanged_but_tlb(a, b),
        ensures
            p.imm_read(a, t, sz) == p.imm_read(b, t, sz),
    {
        Access::lemma_code_fetch_same_all(a, b);
    }

    /// Machines that differ at most in their TLB read the same far pointer selector.
    pub proof fn lemma_ptr16_read_same(p: ParseInstr, a: Access, b: Access, t: TLBView)
        requires
            unchanged_but_tlb(a, b),
        ensures
            p.ptr16_read(a, t) == p.ptr16_read(b, t),
    {
        Access::lemma_code_fetch_same(a, b, t, p.instr.len, 2);
    }

    /// Machines that differ at most in their TLB read the same memory offset.
    pub proof fn lemma_moffs_read_same(p: ParseInstr, a: Access, b: Access, t: TLBView)
        requires
            unchanged_but_tlb(a, b),
        ensures
            p.moffs_read(a, t) == p.moffs_read(b, t),
    {
        Access::lemma_code_fetch_same_all(a, b);
    }
    /// Machines that differ at most in their TLB read the same opcode.
    pub proof fn lemma_opcode_read_same(p: ParseInstr, a: Access, b: Access, t: TLBView)
        requires
            unchanged_but_tlb(a, b),
        ensures
            p.opcode_read(a, t) == p.opcode_read(b, t),
    {
        Access::lemma_code_fetch_same_all(a, b);
    }

    /// Machines that differ at most in their TLB read the same operands.
    #[verifier::spinoff_prover]
    #[verifier::rlimit(40)]
    pub proof fn lemma_oprand_read_same(p: ParseInstr, a: Access, b: Access, t: TLBView, flag: OpFlags, adsize: AcsSize)
        requires
            unchanged_but_tlb(a, b),
        ensures
            p.oprand_read(a, t, flag, adsize) == p.oprand_read(b, t, flag, adsize),
    {
        let p0 = ParseInstr { instr: InstrData { adsize: adsize, ..p.instr }, ..p };
        Self::lemma_modrm_read_same(p0, a, b, t);
        let (ra, pa, ta) = p0.modrm_read(a, t);
        Self::lemma_sib_disp_read_same(pa, a, b, ta);
        let (r1, p1, t1) = if flag.bits & OpFlags::MODRM == OpFlags::MODRM {
            if ra is Err { (ra, pa, ta) } else { pa.sib_disp_read(a, ta) }
        } else {
            (Ok(()), p0, t)
        };
        Self::lemma_imm_read_same(p1, a, b, t1, flag.bits & OpFlags::SZBIT);
        let (r2, p2, t2) = if flag.bits & OpFlags::IMM == OpFlags::IMM {
            p1.imm_read(a, t1, flag.bits & OpFlags::SZBIT)
        } else {
            (Ok(()), p1, t1)
        };
        Self::lemma_ptr16_read_same(p2, a, b, t2);
        let (r3, p3, t3) = if flag.bits & OpFlags::PTR16 == OpFlags::PTR16 { p2.ptr16_read(a, t2) } else { (Ok(()), p2, t2) };
        Self::lemma_moffs_read_same(p3, a, b, t3);
    }
}

/// The longest instruction this decoder reads, in bytes.
pub const MAX_INSTR_LEN: u64 = 64;

impl ParseInstr {
    /// Nothing decoded yet.
    pub open spec fn empty() -> Self {
        ParseInstr {
            prefix: PrefixData { segment: None, repeat: None, size: OverrideSize { bits: 0 }, rex: None },
            instr: InstrData {
                len: 0,
                adsize: AcsSize::BIT16,
                opcode: 0,
                modrm: ModRM { rm: 0, reg: 0, mod_: 0 },
                sib: Sib { base: 0, index: 0, scale: 0 },
                disp: 0,
                imm: None,
                ptr16: None,
                moffs: None,
            },
        }
    }

    /// Every decoded field fits its width, and the length stays small.
    pub open spec fn wf(self) -> bool {
        &&& self.instr.modrm.wf()
        &&& self.instr.sib.wf()
        &&& self.prefix.rex matches Some(r) ==> r.wf()
        &&& self.instr.len <= MAX_INSTR_LEN
    }

    /// Reads the legacy prefixes and, in 64-bit mode, a REX prefix.
    pub fn parse_prefix(&mut self, ac: &mut Access) -> (r: Result<(), EmuException>)
        requires
            old(self).wf(),
            old(self).instr.len <= 8,
        ensures
            final(self).wf(),
            final(self).instr.len <= old(self).instr.len + 5,
            final(self).instr.len >= old(self).instr.len,
            final(self).instr.opcode == old(self).instr.opcode,
            unchanged_but_tlb(*old(ac), *final(ac)),
            (r, *final(self), final(ac).tlb@) == old(self).prefix_read(*old(ac), old(ac).tlb@),
    {
        self.get_legacy_prefix(ac)?;
        if ac.mode == CpuMode::Long && ac.oasz.ad == AcsSize::BIT64 {
            let ghost a1 = *ac;
            proof {
                Access::lemma_code_fetch_same(*old(ac), a1, a1.tlb@, self.instr.len, 1);
            }
            return self.get_rex_prefix(ac);
        }
        Ok(())
    }

    /// Reads the opcode: one byte, or two after 0x0f, the second in the upper page of
    /// opcodes (0x100 + byte).
    pub fn parse_opcode(&mut self, ac: &mut Access) -> (r: Result<(), EmuException>)
        requires
            old(self).wf(),
            old(self).instr.len <= 13,
        ensures
            final(self).wf(),
            final(self).instr.len <= old(self).instr.len + 2,
            r is Ok ==> final(self).instr.opcode < 0x200,
            final(self).prefix == old(self).prefix,
            unchanged_but_tlb(*old(ac), *final(ac)),
            (r, *final(self), final(ac).tlb@) == old(self).opcode_read(*old(ac), old(ac).tlb@),
    {
        self.get_opcode(ac)
    }

    /// Reads the operands that `flag` announces: ModR/M with SIB and displacement, an
    /// immediate of the announced size, a far pointer's selector, a memory offset.
    #[verifier::spinoff_prover]
    #[verifier::rlimit(50)]
    pub fn parse_oprand(&mut self, ac: &mut Access, flag: OpFlags, adsize: AcsSize) -> (r: Result<(), EmuException>)
        requires
            old(self).wf(),
            old(self).instr.len <= 15,
        ensures
            final(self).wf(),
            final(self).instr.len >= old(self).instr.len,
            final(self).instr.len <= old(self).instr.len + 24,
            final(self).instr.opcode == old(self).instr.opcode,
            final(self).prefix == old(self).prefix,
            r is Ok ==> final(self).instr.adsize == adsize,
            unchanged_but_tlb(*old(ac), *final(ac)),
            (r, *final(self), final(ac).tlb@) == old(self).oprand_read(*old(ac), old(ac).tlb@, flag, adsize),
    {
        self.instr.adsize = adsize;
        if flag.contains(OpFlags::MODRM) {
            let ghost a1 = *ac;
            let ghost p1 = *self;
            let r1 = self.get_modrm(ac);
            proof {
                Self::lemma_modrm_read_same(p1, *old(ac), a1, a1.tlb@);
                assert((r1, *self, ac.tlb@) == p1.modrm_read(*old(ac), a1.tlb@));
            }
            r1?;
            let ghost a2 = *ac;
            let ghost p2 = *self;
            let r2 = self.get_sib_disp(ac);
            proof {
                Self::lemma_sib_disp_read_same(p2, *old(ac), a2, a2.tlb@);
                assert((r2, *self, ac.tlb@) == p2.sib_disp_read(*old(ac), a2.tlb@));
            }
            r2?;
        }
        if flag.contains(OpFlags::IMM) {
            let ghost a3 = *ac;
            let ghost p3 = *self;
            let r3 = self.get_imm(ac, flag.bits & OpFlags::SZBIT);
            proof {
                Self::lemma_imm_read_same(p3, *old(ac), a3, a3.tlb@, flag.bits & OpFlags::SZBIT);
                assert((r3, *self, ac.tlb@) == p3.imm_read(*old(ac), a3.tlb@, flag.bits & OpFlags::SZBIT));
            }
            r3?;
        }
        if flag.contains(OpFlags::PTR16) {
            let ghost a4 = *ac;
            let ghost p4 = *self;
            let r4 = self.get_ptr16(ac);
            proof {
                Self::lemma_ptr16_read_same(p4, *old(ac), a4, a4.tlb@);
                assert((r4, *self, ac.tlb@) == p4.ptr16_read(*old(ac), a4.tlb@));
            }
            r4?;
        }
        if flag.contains(OpFlags::MOFFS) {
            let ghost a5 = *ac;
            let ghost p5 = *self;
            let r5 = self.get_moffs(ac);
            proof {
                Self::lemma_moffs_read_same(p5, *old(ac), a5, a5.tlb@);
                assert((r5, *self, ac.tlb@) == p5.moffs_read(*old(ac), a5.tlb@));
            }
            return r5;
        }
        Ok(())
    }

    fn get_legacy_prefix(&mut self, ac: &mut Access) -> (r: Result<(), EmuException>)
        requires
            old(self).wf(),
            old(self).instr.len <= 8,
        ensures
            final(self).wf(),
            final(self).instr.len <= old(self).instr.len + 4,
            final(self).instr.len >= old(self).instr.len,
            final(self).instr.opcode == old(self).instr.opcode,
            final(self).prefix.rex == old(self).prefix.rex,
            unchanged_but_tlb(*old(ac), *final(ac)),
            (r, *final(self), final(ac).tlb@) == old(self).legacy_read(*old(ac), old(ac).tlb@, 0),
    {
        let mut i: u64 = 0;
        while i < 4
            invariant_except_break
                self.legacy_read(*old(ac), ac.tlb@, i as nat) == old(self).legacy_read(*old(ac), old(ac).tlb@, 0),
            invariant
                i <= 4,
                old(self).instr.len <= 8,
                self.wf(),
                self.instr.len == old(self).instr.len + i,
                self.instr.opcode == old(self).instr.opcode,
                self.prefix.rex == old(self).prefix.rex,
                unchanged_but_tlb(*old(ac), *ac),
            ensures
                (Ok::<(), EmuException>(()), *self, ac.tlb@) == old(self).legacy_read(*old(ac), old(ac).tlb@, 0),
            decreases 4 - i,
        {
            let ghost a0 = *ac;
            let c = ac.get_code8(self.instr.len);
            proof {
                Access::lemma_fetch(*old(ac), a0, *ac, self.instr.len, 1, match c { Ok(x) => Ok(x as u64), Err(e) => Err(e) });
            }
            let code = c?;
            if code == 0x26 {
                self.prefix.segment = Some(SgReg::ES);
            } else if code == 0x2e {
                self.prefix.segment = Some(SgReg::CS);
            } else if code == 0x36 {
                self.prefix.segment = Some(SgReg::SS);
            } else if code == 0x3e {
                self.prefix.segment = Some(SgReg::DS);
            } else if code == 0x64 {
                self.prefix.segment = Some(SgReg::FS);
            } else if code == 0x65 {
                self.prefix.segment = Some(SgReg::GS);
            } else if code == 0x66 {
                self.prefix.size = OverrideSize { bits: self.prefix.size.bits | OverrideSize::OP };
            } else if code == 0x67 {
                self.prefix.size = OverrideSize { bits: self.prefix.size.bits | OverrideSize::AD };
            } else if code == 0xf2 {
                self.prefix.repeat = Some(Rep::REPNZ);
            } else if code == 0xf3 {
                self.prefix.repeat = Some(Rep::REPZ);
            } else {
                break;
            }
            self.instr.len = self.instr.len + 1;
            i = i + 1;
        }
        Ok(())
    }

    fn get_rex_prefix(&mut self, ac: &mut Access) -> (r: Result<(), EmuException>)
        requires
            old(self).wf(),
            old(self).instr.len <= 63,
        ensures
            final(self).wf(),
            final(self).instr.len <= old(self).instr.len + 1,
            final(self).instr.len >= old(self).instr.len,
            final(self).instr.opcode == old(self).instr.opcode,
            unchanged_but_tlb(*old(ac), *final(ac)),
            (r, *final(self), final(ac).tlb@) == old(self).rex_read(*old(ac), old(ac).tlb@),
    {
        let ghost a0 = *ac;
        let c = ac.get_code8(self.instr.len);
        proof {
            Access::lemma_fetch(*old(ac), a0, *ac, self.instr.len, 1, match c { Ok(x) => Ok(x as u64), Err(e) => Err(e) });
        }
        let code = c?;
        if code / 16 != 4 {
            return Ok(());
        }
        self.prefix.rex = Some(Rex::from_u8(code));
        self.instr.len = self.instr.len + 1;
        Ok(())
    }

    fn get_opcode(&mut self, ac: &mut Access) -> (r: Result<(), EmuException>)
        requires
            old(self).wf(),
            old(self).instr.len <= 13,
        ensures
            final(self).wf(),
            final(self).instr.len <= old(self).instr.len + 2,
            r is Ok ==> final(self).instr.opcode < 0x200,
            final(self).prefix == old(self).prefix,
            unchanged_but_tlb(*old(ac), *final(ac)),
            (r, *final(self), final(ac).tlb@) == old(self).opcode_read(*old(ac), old(ac).tlb@),
    {
        let ghost a0 = *ac;
        let c = ac.get_code8(self.instr.len);
        proof {
            Access::lemma_fetch(*old(ac), a0, *ac, self.instr.len, 1, match c { Ok(x) => Ok(x as u64), Err(e) => Err(e) });
        }
        let mut opcode = c? as u16;
        self.instr.len = self.instr.len + 1;
        if opcode == 0x0f {
            let ghost a1 = *ac;
            let c2 = ac.get_code8(self.instr.len);
            proof {
                Access::lemma_fetch(*old(ac), a1, *ac, self.instr.len, 1, match c2 { Ok(x) => Ok(x as u64), Err(e) => Err(e) });
            }
            opcode = 0x100 + c2? as u16;
            self.instr.len = self.instr.len + 1;
        }
        self.instr.opcode = opcode;
        Ok(())
    }

    fn get_modrm(&mut self, ac: &mut Access) -> (r: Result<(), EmuException>)
        requires
            old(self).wf(),
            old(self).instr.len <= 63,
        ensures
            final(self).wf(),
            final(self).instr.len <= old(self).instr.len + 1,
            final(self).instr.len >= old(self).instr.len,
            final(self).instr.opcode == old(self).instr.opcode,
            final(self).instr.adsize == old(self).instr.adsize,
            final(self).prefix == old(self).prefix,
            unchanged_but_tlb(*old(ac), *final(ac)),
            (r, *final(self), final(ac).tlb@) == old(self).modrm_read(*old(ac), old(ac).tlb@),
    {
        let ghost a0 = *ac;
        let c = ac.get_code8(self.instr.len);
        proof {
            Access::lemma_fetch(*old(ac), a0, *ac, self.instr.len, 1, match c { Ok(x) => Ok(x as u64), Err(e) => Err(e) });
        }
        let code = c?;
        self.instr.modrm = ModRM::from_u8(code);
        self.instr.len = self.instr.len + 1;
        Ok(())
    }

    fn get_sib_disp(&mut self, ac: &mut Access) -> (r: Result<(), EmuException>)
        requires
            old(self).wf(),
            old(self).instr.len <= 59,
        ensures
            final(self).wf(),
            final(self).instr.len <= old(self).instr.len + 5,
            final(self).instr.len >= old(self).instr.len,
            final(self).instr.opcode == old(self).instr.opcode,
            final(self).instr.adsize == old(self).instr.adsize,
            final(self).instr.modrm == old(self).instr.modrm,
            final(self).prefix == old(self).prefix,
            unchanged_but_tlb(*old(ac), *final(ac)),
            (r, *final(self), final(ac).tlb@) == old(self).sib_disp_read(*old(ac), old(ac).tlb@),
    {
        let mod_ = self.instr.modrm.mod_;
        let rm = self.instr.modrm.rm;
        match self.instr.adsize {
            AcsSize::BIT16 => {
                if mod_ == 1 {
                    let ghost a0 = *ac;
                    let c = ac.get_code8(self.instr.len);
                    proof {
                        Access::lemma_fetch(*old(ac), a0, *ac, self.instr.len, 1, match c { Ok(x) => Ok(x as u64), Err(e) => Err(e) });
                    }
                    self.instr.disp = c? as u32;
                    self.instr.len = self.instr.len + 1;
                } else if mod_ == 2 || (mod_ == 0 && rm == 6) {
                    let ghost a0 = *ac;
                    let c = ac.get_code16(self.instr.len);
                    proof {
                        Access::lemma_fetch(*old(ac), a0, *ac, self.instr.len, 2, match c { Ok(x) => Ok(x as u64), Err(e) => Err(e) });
                    }
                    self.instr.disp = c? as u32;
                    self.instr.len = self.instr.len + 2;
                }
            },
            AcsSize::BIT32 | AcsSize::BIT64 => {
                if mod_ != 3 && rm == 4 {
                    let ghost a0 = *ac;
                    let c = ac.get_code8(self.instr.len);
                    proof {
                        Access::lemma_fetch(*old(ac), a0, *ac, self.instr.len, 1, match c { Ok(x) => Ok(x as u64), Err(e) => Err(e) });
                    }
                    let code = c?;
                    self.instr.sib = Sib::from_u8(code);
                    self.instr.len = self.instr.len + 1;
                }
                let ghost p1 = *self;
                let ghost t1 = ac.tlb@;
                proof {
                    assert((Ok::<(), EmuException>(()), p1, t1) == (if mod_ != 3 && rm == 4 {
                        old(self).sib_read(*old(ac), old(ac).tlb@)
                    } else {
                        (Ok(()), *old(self), old(ac).tlb@)
                    }));
                }
                if mod_ == 1 {
                    let ghost a0 = *ac;
                    let c = ac.get_code8(self.instr.len);
                    proof {
                        Access::lemma_fetch(*old(ac), a0, *ac, self.instr.len, 1, match c { Ok(x) => Ok(x as u64), Err(e) => Err(e) });
                    }
                    self.instr.disp = c? as u32;
                    self.instr.len = self.instr.len + 1;
                } else if mod_ == 2 || (mod_ == 0 && rm == 5) || (mod_ == 0 && rm == 4 && self.instr.sib.base == 5) {
                    let ghost a0 = *ac;
                    let c = ac.get_code32(self.instr.len);
                    proof {
                        Access::lemma_fetch(*old(ac), a0, *ac, self.instr.len, 4, match c { Ok(x) => Ok(x as u64), Err(e) => Err(e) });
                    }
                    self.instr.disp = c?;
                    self.instr.len = self.instr.len + 4;
                }
            },
        }
        Ok(())
    }

    fn get_imm(&mut self, ac: &mut Access, sz: u8) -> (r: Result<(), EmuException>)
        requires
            old(self).wf(),
            old(self).instr.len <= 56,
        ensures
            final(self).wf(),
            final(self).instr.len <= old(self).instr.len + 8,
            final(self).instr.len >= old(self).instr.len,
            final(self).instr.opcode == old(self).instr.opcode,
            final(self).instr.adsize == old(self).instr.adsize,
            final(self).prefix == old(self).prefix,
            unchanged_but_tlb(*old(ac), *final(ac)),
            (r, *final(self), final(ac).tlb@) == old(self).imm_read(*old(ac), old(ac).tlb@, sz),
    {
        let ghost a0 = *ac;
        let (imm, len): (u64, u64) = if sz == OpFlags::SZ8 {
            let c = ac.get_code8(self.instr.len);
            proof {
                Access::lemma_fetch(*old(ac), a0, *ac, self.instr.len, 1, match c { Ok(x) => Ok(x as u64), Err(e) => Err(e) });
            }
            (c? as u64, 1)
        } else if sz == OpFlags::SZ16 {
            let c = ac.get_code16(self.instr.len);
            proof {
                Access::lemma_fetch(*old(ac), a0, *ac, self.instr.len, 2, match c { Ok(x) => Ok(x as u64), Err(e) => Err(e) });
            }
            (c? as u64, 2)
        } else if sz == OpFlags::SZ32 {
            let c = ac.get_code32(self.instr.len);
            proof {
                Access::lemma_fetch(*old(ac), a0, *ac, self.instr.len, 4, match c { Ok(x) => Ok(x as u64), Err(e) => Err(e) });
            }
            (c? as u64, 4)
        } else if sz == OpFlags::SZ64 {
            let c = ac.get_code64(self.instr.len);
            proof {
                Access::lemma_fetch(*old(ac), a0, *ac, self.instr.len, 8, c);
            }
            (c?, 8)
        } else {
            (0, 0)
        };
        self.instr.imm = Some(imm);
        self.instr.len = self.instr.len + len;
        Ok(())
    }

    fn get_ptr16(&mut self, ac: &mut Access) -> (r: Result<(), EmuException>)
        requires
            old(self).wf(),
            old(self).instr.len <= 62,
        ensures
            final(self).wf(),
            final(self).instr.len <= old(self).instr.len + 2,
            final(self).instr.len >= old(self).instr.len,
            final(self).instr.opcode == old(self).instr.opcode,
            final(self).instr.adsize == old(self).instr.adsize,
            final(self).prefix == old(self).prefix,
            unchanged_but_tlb(*old(ac), *final(ac)),
            (r, *final(self), final(ac).tlb@) == old(self).ptr16_read(*old(ac), old(ac).tlb@),
    {
        let ghost a0 = *ac;
        let c = ac.get_code16(self.instr.len);
        proof {
            Access::lemma_fetch(*old(ac), a0, *ac, self.instr.len, 2, match c { Ok(x) => Ok(x as u64), Err(e) => Err(e) });
        }
        self.instr.ptr16 = Some(c?);
        self.instr.len = self.instr.len + 2;
        Ok(())
    }

    fn get_moffs(&mut self, ac: &mut Access) -> (r: Result<(), EmuException>)
        requires
            old(self).wf(),
            old(self).instr.len <= 56,
        ensures
            final(self).wf(),
            final(self).instr.len <= old(self).instr.len + 8,
            final(self).instr.len >= old(self).instr.len,
            final(self).instr.opcode == old(self).instr.opcode,
            final(self).instr.adsize == old(self).instr.adsize,
            final(self).prefix == old(self).prefix,
            unchanged_but_tlb(*old(ac), *final(ac)),
            (r, *final(self), final(ac).tlb@) == old(self).moffs_read(*old(ac), old(ac).tlb@),
    {
        let ghost a0 = *ac;
        match self.instr.adsize {
            AcsSize::BIT16 => {
                let c = ac.get_code16(self.instr.len);
                proof {
                    Access::lemma_fetch(*old(ac), a0, *ac, self.instr.len, 2, match c { Ok(x) => Ok(x as u64), Err(e) => Err(e) });
                }
                self.instr.moffs = Some(c? as u64);
                self.instr.len = self.instr.len + 2;
            },
            AcsSize::BIT32 => {
                let c = ac.get_code32(self.instr.len);
                proof {
                    Access::lemma_fetch(*old(ac), a0, *ac, self.instr.len, 4, match c { Ok(x) => Ok(x as u64), Err(e) => Err(e) });
                }
                self.instr.moffs = Some(c? as u64);
                self.instr.len = self.instr.len + 4;
            },
            AcsSize::BIT64 => {
                let c = ac.get_code64(self.instr.len);
                proof {
                    Access::lemma_fetch(*old(ac), a0, *ac, self.instr.len, 8, c);
                }
                self.instr.moffs = Some(c?);
                self.instr.len = self.instr.len + 8;
            },
        }
        Ok(())
    }
}

} // verus!
