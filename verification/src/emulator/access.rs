pub mod register;
pub mod memory;
pub mod descriptor;
pub mod port;
pub mod msr;

use vstd::prelude::*;
use crate::hardware;
use crate::device;
use crate::emulator::{EmuException, CPUException};
use crate::hardware::processor::segment::SgReg;

verus! {

/// The processor's operating mode.
#[derive(Clone, Copy, PartialEq, Eq, Structural, Debug)]
pub enum CpuMode {
    Real,
    Protected,
    Long,
}

/// An operand or address width.
#[derive(Clone, Copy, PartialEq, Eq, Structural, Debug)]
pub enum AcsSize {
    BIT16,
    BIT32,
    BIT64,
}

impl Default for AcsSize {
    fn default() -> (r: Self)
        ensures
            r == AcsSize::BIT16,
    {
        AcsSize::BIT16
    }
}

/// The default operand and address widths of the current code segment.
#[derive(Clone, Copy, PartialEq, Eq, Structural, Debug)]
pub struct OpAdSize {
    pub op: AcsSize,
    pub ad: AcsSize,
}

impl Default for OpAdSize {
    fn default() -> (r: Self)
        ensures
            r == (OpAdSize { op: AcsSize::BIT16, ad: AcsSize::BIT16 }),
    {
        OpAdSize { op: AcsSize::BIT16, ad: AcsSize::BIT16 }
    }
}

/// How linear addresses are translated.
#[derive(Clone, Copy, PartialEq, Eq, Structural, Debug)]
pub enum PagingMode {
    Legacy,
    LegacyPAE,
    Ia32e4Lv,
    Ia32e5Lv,
}

/// The operand and address widths that the flags and code segment select; `None` for the
/// combination that does not exist.
pub open spec fn opad_for(lma: u8, l: u8, db: u8) -> Option<OpAdSize> {
    if (lma == 1 && l == 0 && db == 0) || (lma == 0 && db == 0) {
        Some(OpAdSize { op: AcsSize::BIT16, ad: AcsSize::BIT16 })
    } else if (lma == 1 && l == 0 && db == 1) || (lma == 0 && db == 1) {
        Some(OpAdSize { op: AcsSize::BIT32, ad: AcsSize::BIT32 })
    } else if lma == 1 && l == 1 && db == 0 {
        Some(OpAdSize { op: AcsSize::BIT32, ad: AcsSize::BIT64 })
    } else {
        None
    }
}

/// The paging mode for the processor mode and control bits; `None` inside `Some` for no paging,
/// and `None` for a combination that faults.
pub open spec fn pgmode_for(mode: CpuMode, pg: u8, pae: u8, la57: u8) -> Option<Option<PagingMode>> {
    if mode == CpuMode::Real || pg == 0 {
        Some(None)
    } else if mode == CpuMode::Protected && pg == 1 && pae == 0 {
        Some(Some(PagingMode::Legacy))
    } else if mode == CpuMode::Protected && pg == 1 && pae == 1 {
        Some(Some(PagingMode::LegacyPAE))
    } else if mode == CpuMode::Long && pg == 1 && pae == 1 && la57 == 0 {
        Some(Some(PagingMode::Ia32e4Lv))
    } else if mode == CpuMode::Long && pg == 1 && pae == 1 && la57 == 1 {
        Some(Some(PagingMode::Ia32e5Lv))
    } else {
        None
    }
}

/// The processor, memory and devices, with the state that governs how they are accessed.
pub struct Access {
    pub core: hardware::processor::Processor,
    pub mem: hardware::memory::Memory,
    pub dev: device::Device,
    pub mode: CpuMode,
    pub oasz: OpAdSize,
    pub stsz: AcsSize,
    pub pgmd: Option<PagingMode>,
    pub tlb: memory::TLB,
    pub a20gate: bool,
}

/// Whether two device states hold the same devices, pending interrupts and routed ranges.
pub open spec fn dev_same(a: device::Device, b: device::Device) -> bool {
    &&& a.irq_queue@ == b.irq_queue@
    &&& a.dma == b.dma
    &&& a.timer == b.timer
    &&& a.memio_range@ == b.memio_range@
}

/// Whether `b` differs from `a` at most in the processor state and the TLB.
pub open spec fn same_but_core_tlb(a: Access, b: Access) -> bool {
    &&& a.mem@ == b.mem@
    &&& dev_same(a.dev, b.dev)
    &&& a.mode == b.mode
    &&& a.oasz == b.oasz
    &&& a.stsz == b.stsz
    &&& a.pgmd == b.pgmd
    &&& a.a20gate == b.a20gate
}

/// Whether `b` has the modes, sizes and paging settings of `a`.
pub open spec fn same_config(a: Access, b: Access) -> bool {
    &&& a.mode == b.mode
    &&& a.oasz == b.oasz
    &&& a.stsz == b.stsz
    &&& a.pgmd == b.pgmd
    &&& a.a20gate == b.a20gate
}

/// Whether `b` differs from `a` at most in the processor state.
pub open spec fn same_but_core(a: Access, b: Access) -> bool {
    same_but_core_tlb(a, b) && a.tlb@ == b.tlb@
}

/// Whether `b` differs from `a` at most in what the TLB caches.
pub open spec fn unchanged_but_tlb(a: Access, b: Access) -> bool {
    same_but_core_tlb(a, b) && a.core == b.core
}

impl Access {
    /// The current privilege level: the requested privilege level of the code segment selector.
    pub open spec fn cpl(self) -> u8 {
        self.core.sgregs@[SgReg::CS.num() as int].selector.RPL
    }

    /// The segment register `r`.
    pub open spec fn sgreg(self, r: SgReg) -> hardware::processor::segment::SgRegUnit {
        self.core.sgregs@[r.num() as int]
    }
}

/// The processor mode that EFER.LME and CR0.PE select; `None` for a combination that faults.
pub open spec fn cpumode_for(lme: u8, pe: u8) -> Option<CpuMode> {
    if lme == 0 && pe == 0 {
        Some(CpuMode::Real)
    } else if lme == 0 && pe == 1 {
        Some(CpuMode::Protected)
    } else if lme == 1 && pe == 1 {
        Some(CpuMode::Long)
    } else {
        None
    }
}

/// The stack width that the stack segment's L and D/B bits select; `None` for the
/// combination that faults.
pub open spec fn stsize_for(l: u8, db: u8) -> Option<AcsSize> {
    if l == 0 && db == 0 {
        Some(AcsSize::BIT16)
    } else if l == 0 && db == 1 {
        Some(AcsSize::BIT32)
    } else if l == 1 && db == 0 {
        Some(AcsSize::BIT64)
    } else {
        None
    }
}

impl Access {
    /// Access to the machine `hw` and devices `dev`, in real mode with 16-bit sizes, no paging,
    /// an empty TLB and the A20 gate closed.
    pub fn new(hw: hardware::Hardware, dev: device::Device) -> (ac: Self)
        ensures
            ac.core == hw.core,
            ac.mem@ == hw.mem@,
            dev_same(ac.dev, dev),
            ac.mode == CpuMode::Real,
            ac.oasz == (OpAdSize { op: AcsSize::BIT16, ad: AcsSize::BIT16 }),
            ac.stsz == AcsSize::BIT16,
            ac.pgmd is None,
            ac.tlb@ == memory::TLBView::empty(),
            !ac.a20gate,
    {
        Self {
            core: hw.core,
            mem: hw.mem,
            dev,
            mode: CpuMode::Real,
            oasz: OpAdSize::default(),
            stsz: AcsSize::default(),
            pgmd: None,
            tlb: memory::TLB::default(),
            a20gate: false,
        }
    }

    /// Sets the processor mode from EFER.LME and CR0.PE; a general protection fault, changing
    /// nothing, for long mode enabled without protection.
    pub fn update_cpumode(&mut self) -> (r: Result<(), EmuException>)
        ensures
            match cpumode_for(old(self).core.msr.efer.LME, old(self).core.cregs.0.PE) {
                Some(m) => r is Ok && final(self).mode == m,
                None => r == Err::<(), EmuException>(EmuException::CPUException(CPUException::GP(None)))
                    && final(self).mode == old(self).mode,
            },
            final(self).core == old(self).core,
            final(self).mem@ == old(self).mem@,
            dev_same(old(self).dev, final(self).dev),
            final(self).oasz == old(self).oasz,
            final(self).stsz == old(self).stsz,
            final(self).pgmd == old(self).pgmd,
            final(self).a20gate == old(self).a20gate,
            final(self).tlb@ == old(self).tlb@,
    {
        let lme = self.core.msr.efer.LME;
        let pe = self.core.cregs.0.PE;
        self.mode = if lme == 0 && pe == 0 {
            CpuMode::Real
        } else if lme == 0 && pe == 1 {
            CpuMode::Protected
        } else if lme == 1 && pe == 1 {
            CpuMode::Long
        } else {
            return Err(EmuException::CPUException(CPUException::GP(None)));
        };
        Ok(())
    }

    /// `b` is `a` after the operand and address sizes were set from EFER.LMA and the code
    /// segment's L and D/B bits, which gave `r` (see `update_opadsize`).
    pub open spec fn opad_set(a: Access, b: Access, r: Result<(), EmuException>) -> bool {
        &&& match opad_for(a.core.msr.efer.LMA, a.sgreg(SgReg::CS).cache.L, a.sgreg(SgReg::CS).cache.DB) {
            Some(o) => r is Ok && b.oasz == o,
            None => r == Err::<(), EmuException>(EmuException::CPUException(CPUException::GP(None))) && b.oasz == a.oasz,
        }
        &&& b.core == a.core
        &&& b.mem@ == a.mem@
        &&& dev_same(a.dev, b.dev)
        &&& b.mode == a.mode
        &&& b.stsz == a.stsz
        &&& b.pgmd == a.pgmd
        &&& b.a20gate == a.a20gate
        &&& b.tlb@ == a.tlb@
    }

    /// Sets the operand and address sizes from EFER.LMA and the code segment's L and D/B bits;
    /// a general protection fault, changing nothing, for the combination that does not exist.
    pub fn update_opadsize(&mut self) -> (r: Result<(), EmuException>)
        ensures
            Access::opad_set(*old(self), *final(self), r),
            match opad_for(old(self).core.msr.efer.LMA, old(self).sgreg(SgReg::CS).cache.L, old(self).sgreg(SgReg::CS).cache.DB) {
                Some(o) => r is Ok && final(self).oasz == o,
                None => r == Err::<(), EmuException>(EmuException::CPUException(CPUException::GP(None)))
                    && final(self).oasz == old(self).oasz,
            },
            final(self).core == old(self).core,
            final(self).mem@ == old(self).mem@,
            dev_same(old(self).dev, final(self).dev),
            final(self).mode == old(self).mode,
            final(self).stsz == old(self).stsz,
            final(self).pgmd == old(self).pgmd,
            final(self).a20gate == old(self).a20gate,
            final(self).tlb@ == old(self).tlb@,
    {
        proof {
            self.core.sgregs.lemma_len();
        }
        let lma = self.core.msr.efer.LMA;
        let cs = self.core.sgregs.get(SgReg::CS).cache;
        let (op, ad) = if (lma == 1 && cs.L == 0 && cs.DB == 0) || (lma == 0 && cs.DB == 0) {
            (AcsSize::BIT16, AcsSize::BIT16)
        } else if (lma == 1 && cs.L == 0 && cs.DB == 1) || (lma == 0 && cs.DB == 1) {
            (AcsSize::BIT32, AcsSize::BIT32)
        } else if lma == 1 && cs.L == 1 && cs.DB == 0 {
            (AcsSize::BIT32, AcsSize::BIT64)
        } else {
            return Err(EmuException::CPUException(CPUException::GP(None)));
        };
        self.oasz = OpAdSize { op, ad };
        Ok(())
    }

    /// Sets the stack width from the stack segment's L and D/B bits; a stack fault with the
    /// stack selector, changing nothing, when both are set.
    pub fn update_stacksize(&mut self) -> (r: Result<(), EmuException>)
        ensures
            match stsize_for(old(self).sgreg(SgReg::SS).cache.L, old(self).sgreg(SgReg::SS).cache.DB) {
                Some(z) => r is Ok && final(self).stsz == z,
                None => r == Err::<(), EmuException>(EmuException::CPUException(CPUException::SS(Some(old(self).sgreg(SgReg::SS).selector.value()))))
                    && final(self).stsz == old(self).stsz,
            },
            final(self).core == old(self).core,
            final(self).mem@ == old(self).mem@,
            dev_same(old(self).dev, final(self).dev),
            final(self).mode == old(self).mode,
            final(self).oasz == old(self).oasz,
            final(self).pgmd == old(self).pgmd,
            final(self).a20gate == old(self).a20gate,
            final(self).tlb@ == old(self).tlb@,
    {
        proof {
            self.core.sgregs.lemma_len();
        }
        let ss = *self.core.sgregs.get(SgReg::SS);
        self.stsz = if ss.cache.L == 0 && ss.cache.DB == 0 {
            AcsSize::BIT16
        } else if ss.cache.L == 0 && ss.cache.DB == 1 {
            AcsSize::BIT32
        } else if ss.cache.L == 1 && ss.cache.DB == 0 {
            AcsSize::BIT64
        } else {
            return Err(EmuException::CPUException(CPUException::SS(Some(ss.selector.to_u16()))));
        };
        Ok(())
    }

    /// Sets the paging mode from the processor mode, CR0.PG, CR4.PAE and CR4.LA57, and sets
    /// EFER.LMA when the mode is one of long mode's; a general protection fault, changing
    /// nothing, for long mode without PAE or a combination that does not exist.
    pub fn update_pgmode(&mut self) -> (r: Result<(), EmuException>)
        ensures
            ({
                let c = old(self).core.cregs;
                let fault = (c.4.PAE == 0 && old(self).core.msr.efer.LMA == 1)
                    || pgmode_for(old(self).mode, c.0.PG, c.4.PAE, c.4.LA57) is None;
                if fault {
                    &&& r == Err::<(), EmuException>(EmuException::CPUException(CPUException::GP(None)))
                    &&& final(self).pgmd == old(self).pgmd
                    &&& final(self).core == old(self).core
                } else {
                    let md = pgmode_for(old(self).mode, c.0.PG, c.4.PAE, c.4.LA57)->0;
                    &&& r is Ok
                    &&& final(self).pgmd == md
                    &&& old(self).core.same_but_msr(final(self).core)
                    &&& final(self).core.msr == (hardware::processor::model_specific::ModelSpecific {
                        efer: hardware::processor::model_specific::IA32_EFER {
                            LMA: if md == Some(PagingMode::Ia32e4Lv) || md == Some(PagingMode::Ia32e5Lv) { 1u8 } else { 0u8 },
                            ..old(self).core.msr.efer
                        },
                        ..old(self).core.msr
                    })
                }
            }),
            final(self).mem@ == old(self).mem@,
            dev_same(old(self).dev, final(self).dev),
            final(self).mode == old(self).mode,
            final(self).oasz == old(self).oasz,
            final(self).stsz == old(self).stsz,
            final(self).a20gate == old(self).a20gate,
            final(self).tlb@ == old(self).tlb@,
    {
        let pg = self.core.cregs.0.PG;
        let pae = self.core.cregs.4.PAE;
        let la57 = self.core.cregs.4.LA57;
        if pae == 0 && self.core.msr.efer.LMA == 1 {
            return Err(EmuException::CPUException(CPUException::GP(None)));
        }
        let md = if self.mode == CpuMode::Real || pg == 0 {
            None
        } else if self.mode == CpuMode::Protected && pg == 1 && pae == 0 {
            Some(PagingMode::Legacy)
        } else if self.mode == CpuMode::Protected && pg == 1 && pae == 1 {
            Some(PagingMode::LegacyPAE)
        } else if self.mode == CpuMode::Long && pg == 1 && pae == 1 && la57 == 0 {
            Some(PagingMode::Ia32e4Lv)
        } else if self.mode == CpuMode::Long && pg == 1 && pae == 1 && la57 == 1 {
            Some(PagingMode::Ia32e5Lv)
        } else {
            return Err(EmuException::CPUException(CPUException::GP(None)));
        };
        self.pgmd = md;
        self.core.msr.efer.LMA = match md {
            Some(PagingMode::Ia32e4Lv) | Some(PagingMode::Ia32e5Lv) => 1,
            _ => 0,
        };
        Ok(())
    }

    /// Whether the processor is in `mode`.
    pub fn test_cpumode(&self, mode: CpuMode) -> (b: bool)
        ensures
            b == (self.mode == mode),
    {
        self.mode == mode
    }

    /// Takes the oldest pending interrupt when interrupts are enabled; `None` when they are
    /// disabled or none is pending.
    pub fn check_irq(&mut self, block: bool) -> (r: Option<u8>)
        ensures
            final(self).core == old(self).core,
            final(self).mem@ == old(self).mem@,
            final(self).mode == old(self).mode,
            final(self).oasz == old(self).oasz,
            final(self).stsz == old(self).stsz,
            final(self).pgmd == old(self).pgmd,
            final(self).a20gate == old(self).a20gate,
            final(self).tlb@ == old(self).tlb@,
            final(self).dev.dma == old(self).dev.dma,
            final(self).dev.timer == old(self).dev.timer,
            final(self).dev.memio_range@ == old(self).dev.memio_range@,
            (old(self).core.rflags.IF == 0 || old(self).dev.irq_queue@.len() == 0) ==> r is None
                && final(self).dev.irq_queue@ == old(self).dev.irq_queue@,
            (old(self).core.rflags.IF != 0 && old(self).dev.irq_queue@.len() > 0) ==> r == Some(old(self).dev.irq_queue@[0])
                && final(self).dev.irq_queue@ == old(self).dev.irq_queue@.drop_first(),
    {
        if self.core.rflags.is_interrupt() {
            self.dev.get_interrupt_req(block)
        } else {
            None
        }
    }
}

} // verus!
