pub mod basic;
pub mod regmem;
pub mod flag;
pub mod misc;
pub mod string;
pub mod desc;
pub mod ops;
pub mod wide;

use vstd::prelude::*;
use crate::emulator::EmuException;
use crate::emulator::access::{Access, AcsSize, same_config};
use crate::emulator::access::memory::MemAccessMode;
use crate::hardware::processor::general::{low8, high8, with_low8, with_high8, with_low16};
use crate::hardware::processor::segment::SgReg;
use super::parse::{ParseInstr, InstrData, PrefixData};
use super::opcode::{Width, trunc};

verus! {

/// The executing instruction: the machine it runs on and what was decoded of it.
pub struct Exec {
    pub ac: Access,
    pub idata: InstrData,
    pub pdata: PrefixData,
}

/// A place an operand can name: a general purpose register by number (its low part of the
/// operand's width), a legacy byte register (AL..BH by encoding), a memory location, or a
/// fault that computing the address raised.
#[derive(Clone, Copy, PartialEq, Eq, Structural, Debug)]
pub enum Loc {
    Reg(u64),
    Byte(u64),
    Mem(SgReg, u64),
    Bad(EmuException),
}

pub open spec fn widen8(r: Result<u8, EmuException>) -> Result<u64, EmuException> {
    match r {
        Ok(x) => Ok(x as u64),
        Err(e) => Err(e),
    }
}

pub open spec fn widen16(r: Result<u16, EmuException>) -> Result<u64, EmuException> {
    match r {
        Ok(x) => Ok(x as u64),
        Err(e) => Err(e),
    }
}

pub open spec fn widen32(r: Result<u32, EmuException>) -> Result<u64, EmuException> {
    match r {
        Ok(x) => Ok(x as u64),
        Err(e) => Err(e),
    }
}

/// The value of legacy byte register `n` among `regs`: the low bytes of the first four
/// registers, then their second bytes.
pub open spec fn byte_reg(regs: Seq<u64>, n: u64) -> u8 {
    if n < 4 { low8(regs[n as int]) } else { high8(regs[(n - 4) as int]) }
}

/// Register `x` after writing `v` into its low part of width `w`; a doubleword write clears
/// the upper half.
pub open spec fn put(w: Width, x: u64, v: u64) -> u64 {
    match w {
        Width::W8 => with_low8(x, v as u8),
        Width::W16 => with_low16(x, v as u16),
        Width::W32 => (v % 0x1_0000_0000) as u64,
        Width::W64 => v,
    }
}

/// The registers after writing `v` into legacy byte register `n`.
pub open spec fn put_byte(regs: Seq<u64>, n: u64, v: u8) -> Seq<u64> {
    if n < 4 {
        regs.update(n as int, with_low8(regs[n as int], v))
    } else {
        regs.update((n - 4) as int, with_high8(regs[(n - 4) as int], v))
    }
}

impl Exec {
    pub fn new(ac: Access, parse: &ParseInstr) -> (e: Self)
        ensures
            e.ac == ac,
            e.idata == parse.instr,
            e.pdata == parse.prefix,
    {
        Exec { ac, idata: parse.instr, pdata: parse.prefix }
    }

    /// `b` runs the same instruction as `a`.
    pub open spec fn same_instr(a: Exec, b: Exec) -> bool {
        a.idata == b.idata && a.pdata == b.pdata
    }

    /// The REX extension `k` (0: b, 1: x, 2: r) times 8, or 0 without a REX prefix.
    pub open spec fn rex_ext(self, k: nat) -> u64 {
        match self.pdata.rex {
            Some(r) => if k == 0 { (r.b as u64 * 8) as u64 } else if k == 1 { (r.x as u64 * 8) as u64 } else { (r.r as u64 * 8) as u64 },
            None => 0,
        }
    }

    /// The register that the ModR/M reg field names.
    pub open spec fn r_loc(self, w: Width) -> Loc {
        if w == Width::W8 && self.pdata.rex is None {
            Loc::Byte(self.idata.modrm.reg as u64)
        } else {
            Loc::Reg((self.rex_ext(2) + self.idata.modrm.reg) as u64)
        }
    }

    /// The register that the low three bits of the opcode name.
    pub open spec fn opr_loc(self, w: Width) -> Loc {
        if w == Width::W8 && self.pdata.rex is None {
            Loc::Byte((self.idata.opcode % 8) as u64)
        } else {
            Loc::Reg((self.rex_ext(0) + self.idata.opcode % 8) as u64)
        }
    }

    /// The register or memory location that the ModR/M rm field names.
    pub open spec fn rm_loc(self, w: Width) -> Loc {
        if self.idata.modrm.mod_ == 3 {
            if w == Width::W8 && self.pdata.rex is None {
                Loc::Byte(self.idata.modrm.rm as u64)
            } else {
                Loc::Reg((self.rex_ext(0) + self.idata.modrm.rm) as u64)
            }
        } else {
            match self.modrm_addr() {
                Ok((s, o)) => Loc::Mem(s, o),
                Err(e) => Loc::Bad(e),
            }
        }
    }

    /// What reading location `l` with width `w` gives, when it is a register.
    pub open spec fn reg_value(self, w: Width, l: Loc) -> Result<u64, EmuException> {
        let regs = self.ac.core.gpregs@;
        match l {
            Loc::Reg(i) => if i < 16 { Ok(trunc(w, regs[i as int])) } else { Err(EmuException::UnexpectedError) },
            Loc::Byte(n) => if n < 8 { Ok(byte_reg(regs, n) as u64) } else { Err(EmuException::UnexpectedError) },
            Loc::Bad(e) => Err(e),
            Loc::Mem(_, _) => Err(EmuException::UnexpectedError),
        }
    }

    /// `b` is `a` after reading width `w` at location `l` gave `r`.
    pub open spec fn reads(a: Exec, b: Exec, w: Width, l: Loc, r: Result<u64, EmuException>) -> bool {
        &&& Exec::same_instr(a, b)
        &&& match l {
            Loc::Mem(s, o) => Access::loads(a.ac, b.ac, s, o, w.nbytes(), r) && b.ac.core == a.ac.core,
            _ => r == a.reg_value(w, l) && b.ac == a.ac,
        }
    }

    /// `b` is `a` after writing the value `v` of width `w` at location `l` gave `r`.
    pub open spec fn writes(a: Exec, b: Exec, w: Width, l: Loc, v: u64, r: Result<(), EmuException>) -> bool {
        let regs = a.ac.core.gpregs@;
        &&& Exec::same_instr(a, b)
        &&& match l {
            Loc::Reg(i) => if i < 16 {
                r is Ok && Access::gpregs_become(a.ac, b.ac, regs.update(i as int, put(w, regs[i as int], v)))
            } else {
                r == Err::<(), EmuException>(EmuException::UnexpectedError) && b.ac == a.ac
            },
            Loc::Byte(n) => if n < 8 {
                r is Ok && Access::gpregs_become(a.ac, b.ac, put_byte(regs, n, v as u8))
            } else {
                r == Err::<(), EmuException>(EmuException::UnexpectedError) && b.ac == a.ac
            },
            Loc::Mem(s, o) => Access::stores(a.ac, b.ac, s, o, v, w.nbytes(), r) && b.ac.core == a.ac.core,
            Loc::Bad(e) => r == Err::<(), EmuException>(e) && b.ac == a.ac,
        }
    }

    /// The register or memory location that the ModR/M rm field names.
    pub fn rm_location(&self, w: Width) -> (l: Loc)
        ensures
            l == self.rm_loc(w),
    {
        if self.idata.modrm.mod_ == 3 {
            if w == Width::W8 && self.pdata.rex.is_none() {
                Loc::Byte(self.idata.modrm.rm as u64)
            } else {
                Loc::Reg(self.rex_b() + self.idata.modrm.rm as u64)
            }
        } else {
            match self.addr_modrm() {
                Ok((s, o)) => Loc::Mem(s, o),
                Err(e) => Loc::Bad(e),
            }
        }
    }

    pub fn r_location(&self, w: Width) -> (l: Loc)
        ensures
            l == self.r_loc(w),
    {
        if w == Width::W8 && self.pdata.rex.is_none() {
            Loc::Byte(self.idata.modrm.reg as u64)
        } else {
            Loc::Reg(self.rex_r() + self.idata.modrm.reg as u64)
        }
    }

    pub fn opr_location(&self, w: Width) -> (l: Loc)
        ensures
            l == self.opr_loc(w),
    {
        if w == Width::W8 && self.pdata.rex.is_none() {
            Loc::Byte((self.idata.opcode % 8) as u64)
        } else {
            Loc::Reg(self.rex_b() + (self.idata.opcode % 8) as u64)
        }
    }

    pub(crate) fn rex_b(&self) -> (v: u64)
        ensures
            v == self.rex_ext(0),
    {
        match self.pdata.rex {
            Some(r) => r.b as u64 * 8,
            None => 0,
        }
    }

    pub(crate) fn rex_x(&self) -> (v: u64)
        ensures
            v == self.rex_ext(1),
    {
        match self.pdata.rex {
            Some(r) => r.x as u64 * 8,
            None => 0,
        }
    }

    pub(crate) fn rex_r(&self) -> (v: u64)
        ensures
            v == self.rex_ext(2),
    {
        match self.pdata.rex {
            Some(r) => r.r as u64 * 8,
            None => 0,
        }
    }

    /// Reads width `w` at register location `l`.
    pub fn reg_read(&self, w: Width, l: Loc) -> (r: Result<u64, EmuException>)
        requires
            !(l is Mem),
        ensures
            r == self.reg_value(w, l),
            r matches Ok(v) ==> v < w.modulus(),
    {
        proof {
            self.ac.core.gpregs.lemma_wf();
        }
        match l {
            Loc::Reg(i) => {
                if i >= 16 {
                    return Err(EmuException::UnexpectedError);
                }
                let x = self.ac.core.gpregs.get_index(i as usize);
                Ok(super::opcode::truncate(w, x))
            },
            Loc::Byte(n) => {
                if n >= 8 {
                    return Err(EmuException::UnexpectedError);
                }
                let x = if n < 4 {
                    self.ac.core.gpregs.get_index(n as usize) % 0x100
                } else {
                    (self.ac.core.gpregs.get_index((n - 4) as usize) / 0x100) % 0x100
                };
                Ok(x)
            },
            Loc::Bad(e) => Err(e),
            Loc::Mem(_, _) => Err(EmuException::UnexpectedError),
        }
    }

    /// Reads width `w` at location `l`.
    pub fn read_loc(&mut self, w: Width, l: Loc) -> (r: Result<u64, EmuException>)
        ensures
            Exec::reads(*old(self), *final(self), w, l, r),
            same_config(old(self).ac, final(self).ac),
            r matches Ok(v) ==> v < w.modulus(),
    {
        proof {
            self.ac.core.gpregs.lemma_wf();
            crate::hardware::memory::lemma_byte_pow_values();
        }
        match l {
            Loc::Reg(i) => {
                if i >= 16 {
                    return Err(EmuException::UnexpectedError);
                }
                let x = self.ac.core.gpregs.get_index(i as usize);
                Ok(super::opcode::truncate(w, x))
            },
            Loc::Byte(n) => {
                if n >= 8 {
                    return Err(EmuException::UnexpectedError);
                }
                let x = if n < 4 {
                    self.ac.core.gpregs.get_index(n as usize) % 0x100
                } else {
                    (self.ac.core.gpregs.get_index((n - 4) as usize) / 0x100) % 0x100
                };
                Ok(x)
            },
            Loc::Mem(s, o) => match w {
                Width::W8 => match self.ac.get_data8((s, o)) {
                    Ok(v) => Ok(v as u64),
                    Err(e) => Err(e),
                },
                Width::W16 => match self.ac.get_data16((s, o)) {
                    Ok(v) => Ok(v as u64),
                    Err(e) => Err(e),
                },
                Width::W32 => match self.ac.get_data32((s, o)) {
                    Ok(v) => Ok(v as u64),
                    Err(e) => Err(e),
                },
                Width::W64 => self.ac.get_data64((s, o)),
            },
            Loc::Bad(e) => Err(e),
        }
    }

    /// Writes the value `v` of width `w` at location `l`.
    pub fn write_loc(&mut self, w: Width, l: Loc, v: u64) -> (r: Result<(), EmuException>)
        requires
            v < w.modulus(),
        ensures
            Exec::writes(*old(self), *final(self), w, l, v, r),
            same_config(old(self).ac, final(self).ac),
    {
        proof {
            self.ac.core.gpregs.lemma_wf();
        }
        match l {
            Loc::Reg(i) => {
                if i >= 16 {
                    return Err(EmuException::UnexpectedError);
                }
                let x = self.ac.core.gpregs.get_index(i as usize);
                let y = match w {
                    Width::W8 => {
                        proof {
                            general_lemma_byte(x, v as u8);
                        }
                        x - x % 0x100 + v
                    },
                    Width::W16 => {
                        proof {
                            general_lemma_word(x, v as u16);
                        }
                        x - x % 0x1_0000 + v
                    },
                    Width::W32 => v,
                    Width::W64 => v,
                };
                self.ac.core.gpregs.set_index(i as usize, y);
                Ok(())
            },
            Loc::Byte(n) => {
                if n >= 8 {
                    return Err(EmuException::UnexpectedError);
                }
                let i: usize = if n < 4 { n as usize } else { (n - 4) as usize };
                let x = self.ac.core.gpregs.get_index(i);
                let b = v as u8;
                proof {
                    general_lemma_byte(x, b);
                }
                let y = if n < 4 {
                    x - x % 0x100 + b as u64
                } else {
                    x - ((x / 0x100) % 0x100) * 0x100 + (b as u64) * 0x100
                };
                self.ac.core.gpregs.set_index(i, y);
                Ok(())
            },
            Loc::Mem(s, o) => match w {
                Width::W8 => self.ac.set_data8((s, o), v as u8),
                Width::W16 => self.ac.set_data16((s, o), v as u16),
                Width::W32 => self.ac.set_data32((s, o), v as u32),
                Width::W64 => self.ac.set_data64((s, o), v),
            },
            Loc::Bad(e) => Err(e),
        }
    }
}

proof fn general_lemma_byte(x: u64, v: u8)
    ensures
        x - x % 0x100 + v <= u64::MAX,
        x - ((x / 0x100) % 0x100) * 0x100 + v * 0x100 <= u64::MAX,
        with_low8(x, v) == (x - x % 0x100 + v) as u64,
        with_high8(x, v) == (x - ((x / 0x100) % 0x100) * 0x100 + v * 0x100) as u64,
{
    crate::hardware::processor::general::lemma_byte_ops(x, v);
}

proof fn general_lemma_word(x: u64, v: u16)
    ensures
        x - x % 0x1_0000 + v <= u64::MAX,
        with_low16(x, v) == (x - x % 0x1_0000 + v) as u64,
{
    crate::hardware::processor::general::lemma_word_ops(x, v);
}

} // verus!
