#![allow(non_camel_case_types)]
use vstd::prelude::*;
use crate::emulator::{EmuException, CPUException};
use crate::hardware::processor::model_specific::{MSRAccess, IA32_EFER, FMASK, STAR, LSTAR, CSTAR, ModelSpecific};
use crate::hardware::processor::segment::{SgRegUnit, SgDescCache};
use crate::hardware::processor::segment::SgReg;
use super::{Access, same_but_core};

verus! {

/// The model-specific registers that can be read and written.
#[derive(Clone, Copy, PartialEq, Eq, Structural, Debug)]
pub enum MSRAddress {
    IA32_EFER,
    STAR,
    CSTAR,
    LSTAR,
    FMASK,
    FSBase,
    GSBase,
    KernelGSBase,
}

impl MSRAddress {
    /// The register's address.
    pub open spec fn addr(self) -> u32 {
        match self {
            MSRAddress::IA32_EFER => 0xc000_0080,
            MSRAddress::STAR => 0xc000_0081,
            MSRAddress::CSTAR => 0xc000_0082,
            MSRAddress::LSTAR => 0xc000_0083,
            MSRAddress::FMASK => 0xc000_0084,
            MSRAddress::FSBase => 0xc000_0100,
            MSRAddress::GSBase => 0xc000_0101,
            MSRAddress::KernelGSBase => 0xc000_0102,
        }
    }

    pub fn value(self) -> (a: u32)
        ensures
            a == self.addr(),
    {
        match self {
            MSRAddress::IA32_EFER => 0xc000_0080,
            MSRAddress::STAR => 0xc000_0081,
            MSRAddress::CSTAR => 0xc000_0082,
            MSRAddress::LSTAR => 0xc000_0083,
            MSRAddress::FMASK => 0xc000_0084,
            MSRAddress::FSBase => 0xc000_0100,
            MSRAddress::GSBase => 0xc000_0101,
            MSRAddress::KernelGSBase => 0xc000_0102,
        }
    }

    /// The register at address `addr`; `None` for an address that names none.
    pub open spec fn of_addr(addr: u32) -> Option<Self> {
        if addr == 0xc000_0080 {
            Some(MSRAddress::IA32_EFER)
        } else if addr == 0xc000_0081 {
            Some(MSRAddress::STAR)
        } else if addr == 0xc000_0082 {
            Some(MSRAddress::CSTAR)
        } else if addr == 0xc000_0083 {
            Some(MSRAddress::LSTAR)
        } else if addr == 0xc000_0084 {
            Some(MSRAddress::FMASK)
        } else if addr == 0xc000_0100 {
            Some(MSRAddress::FSBase)
        } else if addr == 0xc000_0101 {
            Some(MSRAddress::GSBase)
        } else if addr == 0xc000_0102 {
            Some(MSRAddress::KernelGSBase)
        } else {
            None
        }
    }

    pub fn try_from_u32(addr: u32) -> (r: Option<Self>)
        ensures
            r == Self::of_addr(addr),
            r matches Some(m) ==> m.addr() == addr,
    {
        match addr {
            0xc000_0080 => Some(MSRAddress::IA32_EFER),
            0xc000_0081 => Some(MSRAddress::STAR),
            0xc000_0082 => Some(MSRAddress::CSTAR),
            0xc000_0083 => Some(MSRAddress::LSTAR),
            0xc000_0084 => Some(MSRAddress::FMASK),
            0xc000_0100 => Some(MSRAddress::FSBase),
            0xc000_0101 => Some(MSRAddress::GSBase),
            0xc000_0102 => Some(MSRAddress::KernelGSBase),
            _ => None,
        }
    }
}

impl Access {
    /// The value of the model-specific register `m`.
    pub open spec fn msr_value(self, m: MSRAddress) -> u64 {
        match m {
            MSRAddress::IA32_EFER => self.core.msr.efer.value(),
            MSRAddress::STAR => self.core.msr.star.value(),
            MSRAddress::CSTAR => self.core.msr.cstar.0,
            MSRAddress::LSTAR => self.core.msr.lstar.0,
            MSRAddress::FMASK => self.core.msr.fmask.value(),
            MSRAddress::FSBase => self.sgreg(SgReg::FS).cache.base,
            MSRAddress::GSBase => self.sgreg(SgReg::GS).cache.base,
            MSRAddress::KernelGSBase => self.sgreg(SgReg::KernelGS).cache.base,
        }
    }

    /// Reads the model-specific register at `addr`; a general protection fault for an address
    /// that names none.
    pub fn read_msr(&self, addr: u32) -> (r: Result<u64, EmuException>)
        ensures
            match MSRAddress::of_addr(addr) {
                Some(m) => r == Ok::<u64, EmuException>(self.msr_value(m)),
                None => r == Err::<u64, EmuException>(EmuException::CPUException(CPUException::GP(None))),
            },
    {
        proof {
            self.core.sgregs.lemma_len();
        }
        match MSRAddress::try_from_u32(addr) {
            Some(MSRAddress::IA32_EFER) => Ok(self.core.msr.efer.get()),
            Some(MSRAddress::STAR) => Ok(self.core.msr.star.get()),
            Some(MSRAddress::CSTAR) => Ok(self.core.msr.cstar.get()),
            Some(MSRAddress::LSTAR) => Ok(self.core.msr.lstar.get()),
            Some(MSRAddress::FMASK) => Ok(self.core.msr.fmask.get()),
            Some(MSRAddress::FSBase) => Ok(self.core.sgregs.get(SgReg::FS).cache.get()),
            Some(MSRAddress::GSBase) => Ok(self.core.sgregs.get(SgReg::GS).cache.get()),
            Some(MSRAddress::KernelGSBase) => Ok(self.core.sgregs.get(SgReg::KernelGS).cache.get()),
            None => Err(EmuException::CPUException(CPUException::GP(None))),
        }
    }

    /// `b` holds the registers of `a` after writing `val` to model-specific register `m`:
    /// the written register decoded from `val` (a segment base for the base registers), every
    /// other model-specific register and segment register as in `a`.
    pub open spec fn msr_written(a: Access, b: Access, m: MSRAddress, val: u64) -> bool {
        let msr = a.core.msr;
        let base_set = |r: SgReg| a.core.sgregs@.update(r.num() as int, SgRegUnit {
            cache: SgDescCache { base: val, ..a.sgreg(r).cache },
            ..a.sgreg(r)
        });
        match m {
            MSRAddress::IA32_EFER => b.core.msr == (ModelSpecific { efer: IA32_EFER::decode(val), ..msr }) && b.core.sgregs == a.core.sgregs,
            MSRAddress::STAR => b.core.msr == (ModelSpecific {
                star: STAR { ip: (val % 0x1_0000_0000) as u32, cs: ((val / 0x1_0000_0000) % 0x1_0000) as u16,
                    l_csss: (val / 0x1_0000_0000_0000) as u16 },
                ..msr
            }) && b.core.sgregs == a.core.sgregs,
            MSRAddress::CSTAR => b.core.msr == (ModelSpecific { cstar: CSTAR(val), ..msr }) && b.core.sgregs == a.core.sgregs,
            MSRAddress::LSTAR => b.core.msr == (ModelSpecific { lstar: LSTAR(val), ..msr }) && b.core.sgregs == a.core.sgregs,
            MSRAddress::FMASK => b.core.msr == (ModelSpecific { fmask: FMASK::decode(val), ..msr }) && b.core.sgregs == a.core.sgregs,
            MSRAddress::FSBase => b.core.msr == msr && b.core.sgregs@ == base_set(SgReg::FS),
            MSRAddress::GSBase => b.core.msr == msr && b.core.sgregs@ == base_set(SgReg::GS),
            MSRAddress::KernelGSBase => b.core.msr == msr && b.core.sgregs@ == base_set(SgReg::KernelGS),
        }
    }

    /// Writes `val` to the model-specific register at `addr`; a general protection fault,
    /// changing nothing, for an address that names none.
    pub fn write_msr(&mut self, addr: u32, val: u64) -> (r: Result<(), EmuException>)
        ensures
            same_but_core(*old(self), *final(self)),
            final(self).core.ip == old(self).core.ip,
            final(self).core.gpregs == old(self).core.gpregs,
            final(self).core.rflags == old(self).core.rflags,
            final(self).core.cregs == old(self).core.cregs,
            final(self).core.dtregs == old(self).core.dtregs,
            match MSRAddress::of_addr(addr) {
                Some(m) => r is Ok && final(self).msr_value(m) == (match m {
                    MSRAddress::IA32_EFER => IA32_EFER::decode(val).value(),
                    MSRAddress::FMASK => FMASK::decode(val).value(),
                    _ => val,
                }) && Access::msr_written(*old(self), *final(self), m, val),
                None => r == Err::<(), EmuException>(EmuException::CPUException(CPUException::GP(None)))
                    && final(self).core == old(self).core,
            },
    {
        proof {
            self.core.sgregs.lemma_len();
        }
        match MSRAddress::try_from_u32(addr) {
            Some(MSRAddress::IA32_EFER) => self.core.msr.efer.set(val),
            Some(MSRAddress::STAR) => self.core.msr.star.set(val),
            Some(MSRAddress::CSTAR) => self.core.msr.cstar.set(val),
            Some(MSRAddress::LSTAR) => self.core.msr.lstar.set(val),
            Some(MSRAddress::FMASK) => self.core.msr.fmask.set(val),
            Some(MSRAddress::FSBase) => self.core.sgregs.get_mut(SgReg::FS).cache.set(val),
            Some(MSRAddress::GSBase) => self.core.sgregs.get_mut(SgReg::GS).cache.set(val),
            Some(MSRAddress::KernelGSBase) => self.core.sgregs.get_mut(SgReg::KernelGS).cache.set(val),
            None => return Err(EmuException::CPUException(CPUException::GP(None))),
        }
        Ok(())
    }
}

} // verus!
