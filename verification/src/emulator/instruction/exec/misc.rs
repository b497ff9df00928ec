use vstd::prelude::*;
use crate::emulator::{EmuException, CPUException};
use crate::emulator::access::{Access, cpumode_for};
use crate::emulator::access::msr::MSRAddress;
use crate::hardware::processor::control::{creg_value, CR0, CR3, CR4};
use crate::hardware::processor::general::low32;
use crate::hardware::processor::model_specific::{IA32_EFER, FMASK};
use super::{Exec, Loc};
use super::super::opcode::Width;

verus! {

impl Exec {
    /// `b` is `a` after the move from a control register (`cr_to_reg`) gave `r`.
    pub open spec fn cr_to_reg_done(a: Exec, b: Exec, r: Result<(), EmuException>) -> bool {
        &&& match creg_value(a.ac.core.cregs, a.idata.modrm.reg as int) {
                Some(v) => Exec::writes(a, b, Width::W32, Loc::Reg(a.idata.modrm.rm as u64), v as u64, r),
                None => r == Err::<(), EmuException>(EmuException::NotImplementedFunction) && b == a,
            }
    }

    /// `mov r32, crN`: copies control register `reg` into general register `rm`.
    pub fn cr_to_reg(&mut self) -> (r: Result<(), EmuException>)
        ensures
            Exec::cr_to_reg_done(*old(self), *final(self), r),
    {
        let cr = match self.ac.get_creg(self.idata.modrm.reg as usize) {
            Ok(v) => v,
            Err(e) => return Err(e),
        };
        self.write_loc(Width::W32, Loc::Reg(self.idata.modrm.rm as u64), cr as u64)
    }

    /// `b` is `a` after the move to a control register (`cr_from_reg`) gave `r`.
    pub open spec fn cr_from_reg_done(a: Exec, b: Exec, r: Result<(), EmuException>) -> bool {
        &&& Exec::same_instr(a, b)
        &&& a.idata.modrm.rm >= 16 ==> r == Err::<(), EmuException>(EmuException::UnexpectedError)
        &&& r is Ok ==> {
                let v = low32(a.ac.core.gpregs@[a.idata.modrm.rm as int]);
                let n = a.idata.modrm.reg;
                &&& n == 0 || n == 2 || n == 3 || n == 4
                &&& b.ac.core.cregs.0 == (if n == 0 { CR0::decode(v) } else { a.ac.core.cregs.0 })
                &&& b.ac.core.cregs.2.0 == (if n == 2 { v as u64 } else { a.ac.core.cregs.2.0 })
                &&& b.ac.core.cregs.3 == (if n == 3 { CR3::decode(v) } else { a.ac.core.cregs.3 })
                &&& b.ac.core.cregs.4 == (if n == 4 { CR4::decode(v) } else { a.ac.core.cregs.4 })
                &&& n == 0 ==> cpumode_for(b.ac.core.msr.efer.LME, b.ac.core.cregs.0.PE) == Some(b.ac.mode)
            }
    }

    /// `mov crN, r32`: loads control register `reg` from general register `rm`, then updates
    /// the processor mode (after CR0) and the paging mode (after CR0 or CR4).
    pub fn cr_from_reg(&mut self) -> (r: Result<(), EmuException>)
        ensures
            Exec::cr_from_reg_done(*old(self), *final(self), r),
    {
        let n = self.idata.modrm.reg as usize;
        let v = match self.reg_read(Width::W32, Loc::Reg(self.idata.modrm.rm as u64)) {
            Ok(v) => v as u32,
            Err(e) => return Err(e),
        };
        self.ac.set_creg(n, v)?;
        if n == 0 {
            self.ac.update_cpumode()?;
            self.ac.update_pgmode()?;
        } else if n == 4 {
            self.ac.update_pgmode()?;
        }
        Ok(())
    }

    /// `rdmsr`: reads the model-specific register that ECX names into EDX:EAX.
    pub fn msr_to_reg(&mut self) -> (r: Result<(), EmuException>)
        ensures
            Exec::same_instr(*old(self), *final(self)),
            match MSRAddress::of_addr(low32(old(self).ac.core.gpregs@[1])) {
                Some(m) => {
                    let v = old(self).ac.msr_value(m);
                    &&& r is Ok
                    &&& Access::gpregs_become(old(self).ac, final(self).ac, old(self).ac.core.gpregs@.update(2,
                        (v / 0x1_0000_0000) as u64).update(0, v % 0x1_0000_0000))
                },
                None => r == Err::<(), EmuException>(EmuException::CPUException(CPUException::GP(None)))
                    && *final(self) == *old(self),
            },
    {
        proof {
            self.ac.core.gpregs.lemma_wf();
        }
        let addr = self.ac.core.gpregs.get32(crate::hardware::processor::general::GpReg32::ECX);
        let v = match self.ac.read_msr(addr) {
            Ok(v) => v,
            Err(e) => return Err(e),
        };
        self.set_edx((v / 0x1_0000_0000) as u32)?;
        self.set_eax((v % 0x1_0000_0000) as u32)?;
        Ok(())
    }

    /// `wrmsr`: writes EDX:EAX to the model-specific register that ECX names.
    pub fn msr_from_reg(&mut self) -> (r: Result<(), EmuException>)
        ensures
            Exec::same_instr(*old(self), *final(self)),
            ({
                let regs = old(self).ac.core.gpregs@;
                let v = (low32(regs[2]) as u64 * 0x1_0000_0000 + low32(regs[0]) as u64) as u64;
                match MSRAddress::of_addr(low32(regs[1])) {
                    Some(m) => r is Ok && final(self).ac.msr_value(m) == (match m {
                        MSRAddress::IA32_EFER => IA32_EFER::decode(v).value(),
                        MSRAddress::FMASK => FMASK::decode(v).value(),
                        _ => v,
                    }),
                    None => r == Err::<(), EmuException>(EmuException::CPUException(CPUException::GP(None)))
                        && final(self).ac.core == old(self).ac.core,
                }
            }),
    {
        proof {
            self.ac.core.gpregs.lemma_wf();
        }
        let addr = self.ac.core.gpregs.get32(crate::hardware::processor::general::GpReg32::ECX);
        let edx = self.get_edx()?;
        let eax = self.get_eax()?;
        let v = edx as u64 * 0x1_0000_0000 + eax as u64;
        self.ac.write_msr(addr, v)
    }
}

} // verus!
