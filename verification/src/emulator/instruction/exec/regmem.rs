use vstd::prelude::*;
use crate::emulator::EmuException;
use crate::emulator::access::{Access, AcsSize};
use crate::hardware::processor::general::{low16, low32};
use crate::hardware::processor::segment::SgReg;
use super::{Exec, Loc, widen8, widen16, widen32};
use super::super::opcode::{Width, trunc};

verus! {

/// The factor that a SIB scale field selects; `None` past the two-bit range.
pub open spec fn scale_factor(scale: u8) -> Option<u64> {
    if scale == 0 {
        Some(1)
    } else if scale == 1 {
        Some(2)
    } else if scale == 2 {
        Some(4)
    } else if scale == 3 {
        Some(8)
    } else {
        None
    }
}

/// The segment that an instruction uses: the override prefix, else the one the addressing
/// form implies, else DS.
pub open spec fn pick_segment(prefix: Option<SgReg>, implied: Option<SgReg>) -> SgReg {
    match prefix {
        Some(s) => s,
        None => match implied {
            Some(s) => s,
            None => SgReg::DS,
        },
    }
}

impl Exec {
    /// The base and index part of a SIB address, with the segment the base implies.
    pub open spec fn sib_addr(self) -> Result<(Option<SgReg>, u64), EmuException> {
        let m = self.idata.modrm;
        let sib = self.idata.sib;
        let regs = self.ac.core.gpregs@;
        let b = self.rex_ext(0);
        let x = self.rex_ext(1);
        let base: Result<(Option<SgReg>, u64), EmuException> = if sib.base == 5 && m.mod_ == 0 {
            Ok((None, self.idata.disp as u64))
        } else if (sib.base == 4 || sib.base == 5) && b == 0 {
            Ok((Some(SgReg::SS), regs[sib.base as int]))
        } else if b + sib.base < 16 {
            Ok((None, regs[b + sib.base]))
        } else {
            Err(EmuException::UnexpectedError)
        };
        let idx: Result<u64, EmuException> = if sib.index == 4 {
            Ok(0)
        } else if x + sib.index < 16 {
            Ok(regs[x + sib.index])
        } else {
            Err(EmuException::UnexpectedError)
        };
        match (base, idx, scale_factor(sib.scale)) {
            (Ok((s, bv)), Ok(iv), Some(f)) => Ok((s, bv.wrapping_add(iv.wrapping_mul(f)))),
            (Err(e), _, _) => Err(e),
            (_, Err(e), _) => Err(e),
            _ => Err(EmuException::UnexpectedError),
        }
    }

    /// The segment and offset of the memory operand that the ModR/M byte (with SIB and
    /// displacement) describes; an error for a register operand.
    pub open spec fn modrm_addr(self) -> Result<(SgReg, u64), EmuException> {
        let m = self.idata.modrm;
        let regs = self.ac.core.gpregs@;
        let disp = self.idata.disp as u64;
        let d: u64 = if m.mod_ == 1 || m.mod_ == 2 { disp } else { 0 };
        if m.mod_ == 3 {
            Err(EmuException::UnexpectedError)
        } else {
            let r: Result<(Option<SgReg>, u64), EmuException> = match self.idata.adsize {
                AcsSize::BIT16 => {
                    let (seg, base): (Option<SgReg>, u64) = if m.rm == 6 && m.mod_ == 0 {
                        (None, disp)
                    } else if m.rm == 0 || m.rm == 1 || m.rm == 7 {
                        (None, low16(regs[3]) as u64)
                    } else if m.rm == 2 || m.rm == 3 || m.rm == 6 {
                        (Some(SgReg::SS), low16(regs[5]) as u64)
                    } else {
                        (None, 0)
                    };
                    let idx: u64 = if m.rm == 0 || m.rm == 2 || m.rm == 4 {
                        low16(regs[6]) as u64
                    } else if m.rm == 1 || m.rm == 3 || m.rm == 5 {
                        low16(regs[7]) as u64
                    } else {
                        0
                    };
                    Ok((seg, (d + base + idx) as u64))
                },
                AcsSize::BIT32 => {
                    let sg: Result<(Option<SgReg>, u64), EmuException> = if m.rm == 4 {
                        self.sib_addr()
                    } else if m.rm == 5 && m.mod_ == 0 {
                        Ok((None, disp))
                    } else if m.rm == 5 {
                        Ok((Some(SgReg::SS), low32(regs[5]) as u64))
                    } else if m.rm < 8 {
                        Ok((None, low32(regs[m.rm as int]) as u64))
                    } else {
                        Err(EmuException::UnexpectedError)
                    };
                    match sg {
                        Ok((s, a)) => Ok((s, (d + a % 0x1_0000_0000) as u64)),
                        Err(e) => Err(e),
                    }
                },
                AcsSize::BIT64 => {
                    let b = self.rex_ext(0);
                    let sg: Result<(Option<SgReg>, u64), EmuException> = if m.rm == 4 {
                        self.sib_addr()
                    } else if m.rm == 5 && m.mod_ == 0 {
                        Ok((Some(SgReg::CS), self.ac.core.ip.0.wrapping_add(disp)))
                    } else if m.rm == 5 && b == 0 {
                        Ok((Some(SgReg::SS), regs[5]))
                    } else if b + m.rm < 16 {
                        Ok((None, regs[b + m.rm]))
                    } else {
                        Err(EmuException::UnexpectedError)
                    };
                    match sg {
                        Ok((s, a)) => Ok((s, d.wrapping_add(a))),
                        Err(e) => Err(e),
                    }
                },
            };
            match r {
                Ok((seg, a)) => Ok((pick_segment(self.pdata.segment, seg), a)),
                Err(e) => Err(e),
            }
        }
    }

    pub(crate) fn addr_sib(&self) -> (r: Result<(Option<SgReg>, u64), EmuException>)
        ensures
            r == self.sib_addr(),
    {
        proof {
            self.ac.core.gpregs.lemma_wf();
        }
        let m = self.idata.modrm;
        let sib = self.idata.sib;
        let b = self.rex_b();
        let x = self.rex_x();
        let (seg, base): (Option<SgReg>, u64) = if sib.base == 5 && m.mod_ == 0 {
            (None, self.idata.disp as u64)
        } else if (sib.base == 4 || sib.base == 5) && b == 0 {
            (Some(SgReg::SS), self.ac.core.gpregs.get_index(sib.base as usize))
        } else if b + (sib.base as u64) < 16 {
            (None, self.ac.core.gpregs.get_index((b + sib.base as u64) as usize))
        } else {
            return Err(EmuException::UnexpectedError);
        };
        let idx: u64 = if sib.index == 4 {
            0
        } else if x + (sib.index as u64) < 16 {
            self.ac.core.gpregs.get_index((x + sib.index as u64) as usize)
        } else {
            return Err(EmuException::UnexpectedError);
        };
        let f: u64 = if sib.scale == 0 {
            1
        } else if sib.scale == 1 {
            2
        } else if sib.scale == 2 {
            4
        } else if sib.scale == 3 {
            8
        } else {
            return Err(EmuException::UnexpectedError);
        };
        Ok((seg, base.wrapping_add(idx.wrapping_mul(f))))
    }

    /// The memory operand that the ModR/M byte describes.
    pub(crate) fn addr_modrm(&self) -> (r: Result<(SgReg, u64), EmuException>)
        ensures
            r == self.modrm_addr(),
    {
        proof {
            self.ac.core.gpregs.lemma_wf();
        }
        let m = self.idata.modrm;
        let disp = self.idata.disp as u64;
        if m.mod_ == 3 {
            return Err(EmuException::UnexpectedError);
        }
        let d: u64 = if m.mod_ == 1 || m.mod_ == 2 { disp } else { 0 };
        let (seg, addr): (Option<SgReg>, u64) = match self.idata.adsize {
            AcsSize::BIT16 => {
                let (seg, base): (Option<SgReg>, u64) = if m.rm == 6 && m.mod_ == 0 {
                    (None, disp)
                } else if m.rm == 0 || m.rm == 1 || m.rm == 7 {
                    (None, self.ac.core.gpregs.get_index(3) % 0x1_0000)
                } else if m.rm == 2 || m.rm == 3 || m.rm == 6 {
                    (Some(SgReg::SS), self.ac.core.gpregs.get_index(5) % 0x1_0000)
                } else {
                    (None, 0)
                };
                let idx: u64 = if m.rm == 0 || m.rm == 2 || m.rm == 4 {
                    self.ac.core.gpregs.get_index(6) % 0x1_0000
                } else if m.rm == 1 || m.rm == 3 || m.rm == 5 {
                    self.ac.core.gpregs.get_index(7) % 0x1_0000
                } else {
                    0
                };
                (seg, d + base + idx)
            },
            AcsSize::BIT32 => {
                let (s, a): (Option<SgReg>, u64) = if m.rm == 4 {
                    match self.addr_sib() {
                        Ok(x) => x,
                        Err(e) => return Err(e),
                    }
                } else if m.rm == 5 && m.mod_ == 0 {
                    (None, disp)
                } else if m.rm == 5 {
                    (Some(SgReg::SS), self.ac.core.gpregs.get_index(5) % 0x1_0000_0000)
                } else if m.rm < 8 {
                    (None, self.ac.core.gpregs.get_index(m.rm as usize) % 0x1_0000_0000)
                } else {
                    return Err(EmuException::UnexpectedError);
                };
                (s, d + a % 0x1_0000_0000)
            },
            AcsSize::BIT64 => {
                let b = self.rex_b();
                let (s, a): (Option<SgReg>, u64) = if m.rm == 4 {
                    match self.addr_sib() {
                        Ok(x) => x,
                        Err(e) => return Err(e),
                    }
                } else if m.rm == 5 && m.mod_ == 0 {
                    (Some(SgReg::CS), self.ac.core.ip.0.wrapping_add(disp))
                } else if m.rm == 5 && b == 0 {
                    (Some(SgReg::SS), self.ac.core.gpregs.get_index(5))
                } else if b + (m.rm as u64) < 16 {
                    (None, self.ac.core.gpregs.get_index((b + m.rm as u64) as usize))
                } else {
                    return Err(EmuException::UnexpectedError);
                };
                (s, d.wrapping_add(a))
            },
        };
        let sg = match self.pdata.segment {
            Some(s) => s,
            None => match seg {
                Some(s) => s,
                None => SgReg::DS,
            },
        };
        Ok((sg, addr))
    }

    /// The segment and offset of the memory operand; an error for a register operand.
    pub fn get_m(&self) -> (r: Result<(SgReg, u64), EmuException>)
        ensures
            r == self.modrm_addr(),
    {
        self.addr_modrm()
    }

    pub fn get_imm8(&self) -> (r: Result<u8, EmuException>)
        ensures
            r == (match self.idata.imm {
                Some(v) => Ok((v % 0x100) as u8),
                None => Err(EmuException::UnexpectedError),
            }),
    {
        match self.idata.imm {
            Some(v) => Ok((v % 0x100) as u8),
            None => Err(EmuException::UnexpectedError),
        }
    }

    pub fn get_imm16(&self) -> (r: Result<u16, EmuException>)
        ensures
            r == (match self.idata.imm {
                Some(v) => Ok((v % 0x1_0000) as u16),
                None => Err(EmuException::UnexpectedError),
            }),
    {
        match self.idata.imm {
            Some(v) => Ok((v % 0x1_0000) as u16),
            None => Err(EmuException::UnexpectedError),
        }
    }

    pub fn get_imm32(&self) -> (r: Result<u32, EmuException>)
        ensures
            r == (match self.idata.imm {
                Some(v) => Ok((v % 0x1_0000_0000) as u32),
                None => Err(EmuException::UnexpectedError),
            }),
    {
        match self.idata.imm {
            Some(v) => Ok((v % 0x1_0000_0000) as u32),
            None => Err(EmuException::UnexpectedError),
        }
    }

    pub fn get_imm64(&self) -> (r: Result<u64, EmuException>)
        ensures
            r == (match self.idata.imm {
                Some(v) => Ok(v),
                None => Err(EmuException::UnexpectedError),
            }),
    {
        match self.idata.imm {
            Some(v) => Ok(v),
            None => Err(EmuException::UnexpectedError),
        }
    }

    pub fn get_ptr16(&self) -> (r: Result<u16, EmuException>)
        ensures
            r == (match self.idata.ptr16 {
                Some(v) => Ok(v),
                None => Err(EmuException::UnexpectedError),
            }),
    {
        match self.idata.ptr16 {
            Some(v) => Ok(v),
            None => Err(EmuException::UnexpectedError),
        }
    }

    /// The memory location that the instruction's offset names, in DS.
    pub open spec fn moffs_loc(self) -> Loc {
        match self.idata.moffs {
            Some(o) => Loc::Mem(SgReg::DS, o),
            None => Loc::Bad(EmuException::UnexpectedError),
        }
    }

    pub fn moffs_location(&self) -> (l: Loc)
        ensures
            l == self.moffs_loc(),
    {
        match self.idata.moffs {
            Some(o) => Loc::Mem(SgReg::DS, o),
            None => Loc::Bad(EmuException::UnexpectedError),
        }
    }
}

impl Exec {
    pub fn get_r8(&self) -> (r: Result<u8, EmuException>)
        ensures
            widen8(r) == self.reg_value(Width::W8, self.r_loc(Width::W8)),
    {
        match self.reg_read(Width::W8, self.r_location(Width::W8)) {
            Ok(v) => Ok(v as u8),
            Err(e) => Err(e),
        }
    }

    pub fn set_r8(&mut self, v: u8) -> (r: Result<(), EmuException>)
        ensures
            Exec::writes(*old(self), *final(self), Width::W8, old(self).r_loc(Width::W8), v as u64, r),
    {
        let l = self.r_location(Width::W8);
        self.write_loc(Width::W8, l, v as u64)
    }

    pub fn get_opr8(&self) -> (r: Result<u8, EmuException>)
        ensures
            widen8(r) == self.reg_value(Width::W8, self.opr_loc(Width::W8)),
    {
        match self.reg_read(Width::W8, self.opr_location(Width::W8)) {
            Ok(v) => Ok(v as u8),
            Err(e) => Err(e),
        }
    }

    pub fn set_opr8(&mut self, v: u8) -> (r: Result<(), EmuException>)
        ensures
            Exec::writes(*old(self), *final(self), Width::W8, old(self).opr_loc(Width::W8), v as u64, r),
    {
        let l = self.opr_location(Width::W8);
        self.write_loc(Width::W8, l, v as u64)
    }

    pub fn get_rm8(&mut self) -> (r: Result<u8, EmuException>)
        ensures
            Exec::reads(*old(self), *final(self), Width::W8, old(self).rm_loc(Width::W8), widen8(r)),
    {
        let l = self.rm_location(Width::W8);
        match self.read_loc(Width::W8, l) {
            Ok(v) => Ok(v as u8),
            Err(e) => Err(e),
        }
    }

    pub fn set_rm8(&mut self, v: u8) -> (r: Result<(), EmuException>)
        ensures
            Exec::writes(*old(self), *final(self), Width::W8, old(self).rm_loc(Width::W8), v as u64, r),
    {
        let l = self.rm_location(Width::W8);
        self.write_loc(Width::W8, l, v as u64)
    }

    pub fn get_moffs8(&mut self) -> (r: Result<u8, EmuException>)
        ensures
            Exec::reads(*old(self), *final(self), Width::W8, old(self).moffs_loc(), widen8(r)),
    {
        let l = self.moffs_location();
        match self.read_loc(Width::W8, l) {
            Ok(v) => Ok(v as u8),
            Err(e) => Err(e),
        }
    }

    pub fn set_moffs8(&mut self, v: u8) -> (r: Result<(), EmuException>)
        ensures
            Exec::writes(*old(self), *final(self), Width::W8, old(self).moffs_loc(), v as u64, r),
    {
        let l = self.moffs_location();
        self.write_loc(Width::W8, l, v as u64)
    }

    pub fn get_r16(&self) -> (r: Result<u16, EmuException>)
        ensures
            widen16(r) == self.reg_value(Width::W16, self.r_loc(Width::W16)),
    {
        match self.reg_read(Width::W16, self.r_location(Width::W16)) {
            Ok(v) => Ok(v as u16),
            Err(e) => Err(e),
        }
    }

    pub fn set_r16(&mut self, v: u16) -> (r: Result<(), EmuException>)
        ensures
            Exec::writes(*old(self), *final(self), Width::W16, old(self).r_loc(Width::W16), v as u64, r),
    {
        let l = self.r_location(Width::W16);
        self.write_loc(Width::W16, l, v as u64)
    }

    pub fn get_opr16(&self) -> (r: Result<u16, EmuException>)
        ensures
            widen16(r) == self.reg_value(Width::W16, self.opr_loc(Width::W16)),
    {
        match self.reg_read(Width::W16, self.opr_location(Width::W16)) {
            Ok(v) => Ok(v as u16),
            Err(e) => Err(e),
        }
    }

    pub fn set_opr16(&mut self, v: u16) -> (r: Result<(), EmuException>)
        ensures
            Exec::writes(*old(self), *final(self), Width::W16, old(self).opr_loc(Width::W16), v as u64, r),
    {
        let l = self.opr_location(Width::W16);
        self.write_loc(Width::W16, l, v as u64)
    }

    pub fn get_rm16(&mut self) -> (r: Result<u16, EmuException>)
        ensures
            Exec::reads(*old(self), *final(self), Width::W16, old(self).rm_loc(Width::W16), widen16(r)),
    {
        let l = self.rm_location(Width::W16);
        match self.read_loc(Width::W16, l) {
            Ok(v) => Ok(v as u16),
            Err(e) => Err(e),
        }
    }

    pub fn set_rm16(&mut self, v: u16) -> (r: Result<(), EmuException>)
        ensures
            Exec::writes(*old(self), *final(self), Width::W16, old(self).rm_loc(Width::W16), v as u64, r),
    {
        let l = self.rm_location(Width::W16);
        self.write_loc(Width::W16, l, v as u64)
    }

    pub fn get_moffs16(&mut self) -> (r: Result<u16, EmuException>)
        ensures
            Exec::reads(*old(self), *final(self), Width::W16, old(self).moffs_loc(), widen16(r)),
    {
        let l = self.moffs_location();
        match self.read_loc(Width::W16, l) {
            Ok(v) => Ok(v as u16),
            Err(e) => Err(e),
        }
    }

    pub fn set_moffs16(&mut self, v: u16) -> (r: Result<(), EmuException>)
        ensures
            Exec::writes(*old(self), *final(self), Width::W16, old(self).moffs_loc(), v as u64, r),
    {
        let l = self.moffs_location();
        self.write_loc(Width::W16, l, v as u64)
    }

    pub fn get_r32(&self) -> (r: Result<u32, EmuException>)
        ensures
            widen32(r) == self.reg_value(Width::W32, self.r_loc(Width::W32)),
    {
        match self.reg_read(Width::W32, self.r_location(Width::W32)) {
            Ok(v) => Ok(v as u32),
            Err(e) => Err(e),
        }
    }

    pub fn set_r32(&mut self, v: u32) -> (r: Result<(), EmuException>)
        ensures
            Exec::writes(*old(self), *final(self), Width::W32, old(self).r_loc(Width::W32), v as u64, r),
    {
        let l = self.r_location(Width::W32);
        self.write_loc(Width::W32, l, v as u64)
    }

    pub fn get_opr32(&self) -> (r: Result<u32, EmuException>)
        ensures
            widen32(r) == self.reg_value(Width::W32, self.opr_loc(Width::W32)),
    {
        match self.reg_read(Width::W32, self.opr_location(Width::W32)) {
            Ok(v) => Ok(v as u32),
            Err(e) => Err(e),
        }
    }

    pub fn set_opr32(&mut self, v: u32) -> (r: Result<(), EmuException>)
        ensures
            Exec::writes(*old(self), *final(self), Width::W32, old(self).opr_loc(Width::W32), v as u64, r),
    {
        let l = self.opr_location(Width::W32);
        self.write_loc(Width::W32, l, v as u64)
    }

    pub fn get_rm32(&mut self) -> (r: Result<u32, EmuException>)
        ensures
            Exec::reads(*old(self), *final(self), Width::W32, old(self).rm_loc(Width::W32), widen32(r)),
    {
        let l = self.rm_location(Width::W32);
        match self.read_loc(Width::W32, l) {
            Ok(v) => Ok(v as u32),
            Err(e) => Err(e),
        }
    }

    pub fn set_rm32(&mut self, v: u32) -> (r: Result<(), EmuException>)
        ensures
            Exec::writes(*old(self), *final(self), Width::W32, old(self).rm_loc(Width::W32), v as u64, r),
    {
        let l = self.rm_location(Width::W32);
        self.write_loc(Width::W32, l, v as u64)
    }

    pub fn get_moffs32(&mut self) -> (r: Result<u32, EmuException>)
        ensures
            Exec::reads(*old(self), *final(self), Width::W32, old(self).moffs_loc(), widen32(r)),
    {
        let l = self.moffs_location();
        match self.read_loc(Width::W32, l) {
            Ok(v) => Ok(v as u32),
            Err(e) => Err(e),
        }
    }

    pub fn set_moffs32(&mut self, v: u32) -> (r: Result<(), EmuException>)
        ensures
            Exec::writes(*old(self), *final(self), Width::W32, old(self).moffs_loc(), v as u64, r),
    {
        let l = self.moffs_location();
        self.write_loc(Width::W32, l, v as u64)
    }

    pub fn get_r64(&self) -> (r: Result<u64, EmuException>)
        ensures
            r == self.reg_value(Width::W64, self.r_loc(Width::W64)),
    {
        match self.reg_read(Width::W64, self.r_location(Width::W64)) {
            Ok(v) => Ok(v),
            Err(e) => Err(e),
        }
    }

    pub fn set_r64(&mut self, v: u64) -> (r: Result<(), EmuException>)
        ensures
            Exec::writes(*old(self), *final(self), Width::W64, old(self).r_loc(Width::W64), v as u64, r),
    {
        let l = self.r_location(Width::W64);
        self.write_loc(Width::W64, l, v as u64)
    }

    pub fn get_opr64(&self) -> (r: Result<u64, EmuException>)
        ensures
            r == self.reg_value(Width::W64, self.opr_loc(Width::W64)),
    {
        match self.reg_read(Width::W64, self.opr_location(Width::W64)) {
            Ok(v) => Ok(v),
            Err(e) => Err(e),
        }
    }

    pub fn set_opr64(&mut self, v: u64) -> (r: Result<(), EmuException>)
        ensures
            Exec::writes(*old(self), *final(self), Width::W64, old(self).opr_loc(Width::W64), v as u64, r),
    {
        let l = self.opr_location(Width::W64);
        self.write_loc(Width::W64, l, v as u64)
    }

    pub fn get_rm64(&mut self) -> (r: Result<u64, EmuException>)
        ensures
            Exec::reads(*old(self), *final(self), Width::W64, old(self).rm_loc(Width::W64), r),
    {
        let l = self.rm_location(Width::W64);
        match self.read_loc(Width::W64, l) {
            Ok(v) => Ok(v),
            Err(e) => Err(e),
        }
    }

    pub fn set_rm64(&mut self, v: u64) -> (r: Result<(), EmuException>)
        ensures
            Exec::writes(*old(self), *final(self), Width::W64, old(self).rm_loc(Width::W64), v as u64, r),
    {
        let l = self.rm_location(Width::W64);
        self.write_loc(Width::W64, l, v as u64)
    }

    pub fn get_moffs64(&mut self) -> (r: Result<u64, EmuException>)
        ensures
            Exec::reads(*old(self), *final(self), Width::W64, old(self).moffs_loc(), r),
    {
        let l = self.moffs_location();
        match self.read_loc(Width::W64, l) {
            Ok(v) => Ok(v),
            Err(e) => Err(e),
        }
    }

    pub fn set_moffs64(&mut self, v: u64) -> (r: Result<(), EmuException>)
        ensures
            Exec::writes(*old(self), *final(self), Width::W64, old(self).moffs_loc(), v as u64, r),
    {
        let l = self.moffs_location();
        self.write_loc(Width::W64, l, v as u64)
    }
}

} // verus!
