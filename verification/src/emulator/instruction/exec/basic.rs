use vstd::prelude::*;
use crate::emulator::EmuException;
use crate::hardware::processor::segment::SgReg;
use super::{Exec, Loc, widen8, widen16, widen32};
use super::super::opcode::Width;

verus! {

impl Exec {
    pub fn get_al(&self) -> (r: Result<u8, EmuException>)
        ensures
            widen8(r) == self.reg_value(Width::W8, Loc::Byte(0)),
    {
        match self.reg_read(Width::W8, Loc::Byte(0)) {
            Ok(v) => Ok(v as u8),
            Err(e) => Err(e),
        }
    }

    pub fn set_al(&mut self, v: u8) -> (r: Result<(), EmuException>)
        ensures
            Exec::writes(*old(self), *final(self), Width::W8, Loc::Byte(0), v as u64, r),
    {
        self.write_loc(Width::W8, Loc::Byte(0), v as u64)
    }

    pub fn get_ah(&self) -> (r: Result<u8, EmuException>)
        ensures
            widen8(r) == self.reg_value(Width::W8, Loc::Byte(4)),
    {
        match self.reg_read(Width::W8, Loc::Byte(4)) {
            Ok(v) => Ok(v as u8),
            Err(e) => Err(e),
        }
    }

    pub fn set_ah(&mut self, v: u8) -> (r: Result<(), EmuException>)
        ensures
            Exec::writes(*old(self), *final(self), Width::W8, Loc::Byte(4), v as u64, r),
    {
        self.write_loc(Width::W8, Loc::Byte(4), v as u64)
    }

    pub fn get_ax(&self) -> (r: Result<u16, EmuException>)
        ensures
            widen16(r) == self.reg_value(Width::W16, Loc::Reg(0)),
    {
        match self.reg_read(Width::W16, Loc::Reg(0)) {
            Ok(v) => Ok(v as u16),
            Err(e) => Err(e),
        }
    }

    pub fn set_ax(&mut self, v: u16) -> (r: Result<(), EmuException>)
        ensures
            Exec::writes(*old(self), *final(self), Width::W16, Loc::Reg(0), v as u64, r),
    {
        self.write_loc(Width::W16, Loc::Reg(0), v as u64)
    }

    pub fn get_eax(&self) -> (r: Result<u32, EmuException>)
        ensures
            widen32(r) == self.reg_value(Width::W32, Loc::Reg(0)),
    {
        match self.reg_read(Width::W32, Loc::Reg(0)) {
            Ok(v) => Ok(v as u32),
            Err(e) => Err(e),
        }
    }

    pub fn set_eax(&mut self, v: u32) -> (r: Result<(), EmuException>)
        ensures
            Exec::writes(*old(self), *final(self), Width::W32, Loc::Reg(0), v as u64, r),
    {
        self.write_loc(Width::W32, Loc::Reg(0), v as u64)
    }

    pub fn get_rax(&self) -> (r: Result<u64, EmuException>)
        ensures
            r == self.reg_value(Width::W64, Loc::Reg(0)),
    {
        match self.reg_read(Width::W64, Loc::Reg(0)) {
            Ok(v) => Ok(v),
            Err(e) => Err(e),
        }
    }

    pub fn set_rax(&mut self, v: u64) -> (r: Result<(), EmuException>)
        ensures
            Exec::writes(*old(self), *final(self), Width::W64, Loc::Reg(0), v as u64, r),
    {
        self.write_loc(Width::W64, Loc::Reg(0), v as u64)
    }

    pub fn get_cl(&self) -> (r: Result<u8, EmuException>)
        ensures
            widen8(r) == self.reg_value(Width::W8, Loc::Byte(1)),
    {
        match self.reg_read(Width::W8, Loc::Byte(1)) {
            Ok(v) => Ok(v as u8),
            Err(e) => Err(e),
        }
    }

    pub fn get_cx(&self) -> (r: Result<u16, EmuException>)
        ensures
            widen16(r) == self.reg_value(Width::W16, Loc::Reg(1)),
    {
        match self.reg_read(Width::W16, Loc::Reg(1)) {
            Ok(v) => Ok(v as u16),
            Err(e) => Err(e),
        }
    }

    pub fn set_cx(&mut self, v: u16) -> (r: Result<(), EmuException>)
        ensures
            Exec::writes(*old(self), *final(self), Width::W16, Loc::Reg(1), v as u64, r),
    {
        self.write_loc(Width::W16, Loc::Reg(1), v as u64)
    }

    pub fn get_ecx(&self) -> (r: Result<u32, EmuException>)
        ensures
            widen32(r) == self.reg_value(Width::W32, Loc::Reg(1)),
    {
        match self.reg_read(Width::W32, Loc::Reg(1)) {
            Ok(v) => Ok(v as u32),
            Err(e) => Err(e),
        }
    }

    pub fn set_ecx(&mut self, v: u32) -> (r: Result<(), EmuException>)
        ensures
            Exec::writes(*old(self), *final(self), Width::W32, Loc::Reg(1), v as u64, r),
    {
        self.write_loc(Width::W32, Loc::Reg(1), v as u64)
    }

    pub fn get_rcx(&self) -> (r: Result<u64, EmuException>)
        ensures
            r == self.reg_value(Width::W64, Loc::Reg(1)),
    {
        match self.reg_read(Width::W64, Loc::Reg(1)) {
            Ok(v) => Ok(v),
            Err(e) => Err(e),
        }
    }

    pub fn set_rcx(&mut self, v: u64) -> (r: Result<(), EmuException>)
        ensures
            Exec::writes(*old(self), *final(self), Width::W64, Loc::Reg(1), v as u64, r),
    {
        self.write_loc(Width::W64, Loc::Reg(1), v as u64)
    }

    pub fn get_dx(&self) -> (r: Result<u16, EmuException>)
        ensures
            widen16(r) == self.reg_value(Width::W16, Loc::Reg(2)),
    {
        match self.reg_read(Width::W16, Loc::Reg(2)) {
            Ok(v) => Ok(v as u16),
            Err(e) => Err(e),
        }
    }

    pub fn set_dx(&mut self, v: u16) -> (r: Result<(), EmuException>)
        ensures
            Exec::writes(*old(self), *final(self), Width::W16, Loc::Reg(2), v as u64, r),
    {
        self.write_loc(Width::W16, Loc::Reg(2), v as u64)
    }

    pub fn get_edx(&self) -> (r: Result<u32, EmuException>)
        ensures
            widen32(r) == self.reg_value(Width::W32, Loc::Reg(2)),
    {
        match self.reg_read(Width::W32, Loc::Reg(2)) {
            Ok(v) => Ok(v as u32),
            Err(e) => Err(e),
        }
    }

    pub fn set_edx(&mut self, v: u32) -> (r: Result<(), EmuException>)
        ensures
            Exec::writes(*old(self), *final(self), Width::W32, Loc::Reg(2), v as u64, r),
    {
        self.write_loc(Width::W32, Loc::Reg(2), v as u64)
    }

    pub fn get_rdx(&self) -> (r: Result<u64, EmuException>)
        ensures
            r == self.reg_value(Width::W64, Loc::Reg(2)),
    {
        match self.reg_read(Width::W64, Loc::Reg(2)) {
            Ok(v) => Ok(v),
            Err(e) => Err(e),
        }
    }

    pub fn set_rdx(&mut self, v: u64) -> (r: Result<(), EmuException>)
        ensures
            Exec::writes(*old(self), *final(self), Width::W64, Loc::Reg(2), v as u64, r),
    {
        self.write_loc(Width::W64, Loc::Reg(2), v as u64)
    }

    /// The segment register that the ModR/M reg field names; `None` past the last one.
    pub open spec fn sreg_of(self) -> Option<SgReg> {
        let r = self.idata.modrm.reg;
        if r == 0 {
            Some(SgReg::ES)
        } else if r == 1 {
            Some(SgReg::CS)
        } else if r == 2 {
            Some(SgReg::SS)
        } else if r == 3 {
            Some(SgReg::DS)
        } else if r == 4 {
            Some(SgReg::FS)
        } else if r == 5 {
            Some(SgReg::GS)
        } else if r == 6 {
            Some(SgReg::KernelGS)
        } else {
            None
        }
    }

    pub fn sreg_field(&self) -> (s: Option<SgReg>)
        ensures
            s == self.sreg_of(),
    {
        let r = self.idata.modrm.reg;
        if r == 0 {
            Some(SgReg::ES)
        } else if r == 1 {
            Some(SgReg::CS)
        } else if r == 2 {
            Some(SgReg::SS)
        } else if r == 3 {
            Some(SgReg::DS)
        } else if r == 4 {
            Some(SgReg::FS)
        } else if r == 5 {
            Some(SgReg::GS)
        } else if r == 6 {
            Some(SgReg::KernelGS)
        } else {
            None
        }
    }

    /// The selector of the segment register that the ModR/M reg field names.
    pub fn get_sreg(&self) -> (r: Result<u16, EmuException>)
        ensures
            r == (match self.sreg_of() {
                Some(s) => Ok(self.ac.sgreg(s).selector.value()),
                None => Err(EmuException::UnexpectedError),
            }),
    {
        match self.sreg_field() {
            Some(s) => match self.ac.get_sgreg(s) {
                Ok(x) => Ok(x.0),
                Err(e) => Err(e),
            },
            None => Err(EmuException::UnexpectedError),
        }
    }

    pub fn get_one(&self) -> (r: Result<u8, EmuException>)
        ensures
            r == Ok::<u8, EmuException>(1),
    {
        Ok(1)
    }
}

} // verus!
