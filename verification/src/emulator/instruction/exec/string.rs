use vstd::prelude::*;
use crate::emulator::EmuException;
use crate::emulator::access::{Access, AcsSize, same_but_core};
use crate::emulator::access::register::{GpRegAccess, IpAccess, GpReg16, GpReg32, GpReg64};
use crate::hardware::processor::general::{low16, low32, add16, add32, add64};
use crate::hardware::processor::ip::sext16;
use crate::hardware::processor::segment::SgReg;
use super::super::parse::Rep;
use super::{Exec, Loc};
use super::ops::regs_after;
use super::flag::sub_flags;
use super::super::opcode::{Width, StrOp};

verus! {

/// The register value after advancing its address-size part by `step`.
pub open spec fn advance(adsize: AcsSize, x: u64, step: i64) -> u64 {
    match adsize {
        AcsSize::BIT16 => add16(x, step as i16),
        AcsSize::BIT32 => add32(x, step as i32),
        AcsSize::BIT64 => add64(x, step),
    }
}

/// The address-size part of a register value.
pub open spec fn addr_part(adsize: AcsSize, x: u64) -> u64 {
    match adsize {
        AcsSize::BIT16 => low16(x) as u64,
        AcsSize::BIT32 => low32(x) as u64,
        AcsSize::BIT64 => x,
    }
}

/// The count register after a repeat of operand width `w` counts it down.
pub open spec fn count_down(w: Width, c: u64) -> u64 {
    match w {
        Width::W64 => add64(c, -1i64),
        Width::W32 => add32(c, -1i32),
        _ => add16(c, -1i16),
    }
}

/// The part of the count register that a repeat of operand width `w` tests.
pub open spec fn count_part(w: Width, c: u64) -> u64 {
    match w {
        Width::W64 => c,
        Width::W32 => low32(c) as u64,
        _ => low16(c) as u64,
    }
}

impl Exec {
    /// The step of a string instruction of width `w`: backwards when the direction flag is set.
    pub open spec fn str_delta(self, w: Width) -> i64 {
        if self.ac.core.rflags.DF != 0 { -(w.nbytes() as int) as i64 } else { w.nbytes() as i64 }
    }

    /// The general registers after a string instruction of width `w` steps the source index
    /// (`si`) and the destination index (`di`).
    pub open spec fn str_regs(self, w: Width, si: bool, di: bool) -> Seq<u64> {
        let regs = self.ac.core.gpregs@;
        let step = self.str_delta(w);
        let r1 = if si { regs.update(6, advance(self.idata.adsize, regs[6], step)) } else { regs };
        if di { r1.update(7, advance(self.idata.adsize, r1[7], step)) } else { r1 }
    }

    /// The segment of the source operand: the override prefix's, else DS.
    pub open spec fn si_seg(self) -> SgReg {
        match self.pdata.segment {
            Some(s) => s,
            None => SgReg::DS,
        }
    }

    /// The offset of the source operand.
    pub open spec fn si_addr(self) -> u64 {
        addr_part(self.idata.adsize, self.ac.core.gpregs@[6])
    }

    /// The offset of the destination operand, in ES.
    pub open spec fn di_addr(self) -> u64 {
        addr_part(self.idata.adsize, self.ac.core.gpregs@[7])
    }

    /// The accumulator of width `w`.
    pub open spec fn acc_value(self, w: Width) -> u64 {
        match self.reg_value(w, Exec::acc_loc(w)) {
            Ok(v) => v,
            Err(_) => 0,
        }
    }

    /// What a string instruction `op` of width `w` does when it succeeds: it steps the
    /// indexes it uses, then `movs` copies the source to the destination, `cmps` sets the
    /// flags of source minus destination, `stos` stores the accumulator at the destination,
    /// `lods` loads the accumulator from the source, `scas` sets the flags of accumulator
    /// minus destination.
    pub open spec fn string_done(a: Exec, b: Exec, op: StrOp, w: Width) -> bool {
        let n = w.nbytes();
        let f = a.ac.core.rflags;
        &&& Exec::same_instr(a, b)
        &&& b.ac.mode == a.ac.mode
        &&& match op {
            StrOp::Movs => exists|m0: Access, m: Access, v: u64| #[trigger] Access::loads(m0, m, a.si_seg(), a.si_addr(), n, Ok(v))
                && Access::gpregs_become(a.ac, m0, a.str_regs(w, true, true))
                && Access::stores(m, b.ac, SgReg::ES, a.di_addr(), v, n, Ok(())) && b.ac.core == m.core,
            StrOp::Cmps => exists|m0: Access, m1: Access, v1: u64, v2: u64|
                #![trigger Access::loads(m0, m1, a.si_seg(), a.si_addr(), n, Ok(v1)), Access::loads(m1, b.ac, SgReg::ES, a.di_addr(), n, Ok(v2))]
                Access::gpregs_become(a.ac, m0, a.str_regs(w, true, true))
                && Access::loads(m0, m1, a.si_seg(), a.si_addr(), n, Ok(v1))
                && Access::loads(m1, b.ac, SgReg::ES, a.di_addr(), n, Ok(v2))
                && b.ac.core.rflags == sub_flags(f, w, v1, v2) && m0.core.same_but_rflags(b.ac.core),
            StrOp::Stos => exists|m0: Access| #[trigger] Access::gpregs_become(a.ac, m0, a.str_regs(w, false, true))
                && Access::stores(m0, b.ac, SgReg::ES, a.di_addr(), a.acc_value(w), n, Ok(())) && b.ac.core == m0.core,
            StrOp::Lods => exists|m0: Access, m: Access, v: u64| #[trigger] Access::loads(m0, m, a.si_seg(), a.si_addr(), n, Ok(v))
                && Access::gpregs_become(a.ac, m0, a.str_regs(w, true, false))
                && Access::gpregs_become(m, b.ac, regs_after(a.str_regs(w, true, false), w, Exec::acc_loc(w), v)),
            StrOp::Scas => exists|m0: Access, v: u64| #[trigger] Access::loads(m0, b.ac, SgReg::ES, a.di_addr(), n, Ok(v))
                && Access::gpregs_become(a.ac, m0, a.str_regs(w, false, true))
                && b.ac.core.rflags == sub_flags(f, w, a.acc_value(w), v) && m0.core.same_but_rflags(b.ac.core),
        }
    }

    /// What a string instruction `op` of width `w` does whether or not it succeeds: after
    /// stepping its indexes, the first memory access that faults ends it with that fault;
    /// else it succeeds (a store's fault is its result).
    pub open spec fn string_attempt(a: Exec, b: Exec, op: StrOp, w: Width, r: Result<(), EmuException>) -> bool {
        let n = w.nbytes();
        match op {
            StrOp::Movs => exists|m0: Access, m: Access, v: Result<u64, EmuException>|
                #[trigger] Access::loads(m0, m, a.si_seg(), a.si_addr(), n, v)
                && Access::gpregs_become(a.ac, m0, a.str_regs(w, true, true))
                && (v matches Err(e) ==> r == Err::<(), EmuException>(e) && b.ac == m)
                && (v matches Ok(x) ==> Access::stores(m, b.ac, SgReg::ES, a.di_addr(), x, n, r)),
            StrOp::Cmps => exists|m0: Access, m1: Access, v1: Result<u64, EmuException>|
                #[trigger] Access::loads(m0, m1, a.si_seg(), a.si_addr(), n, v1)
                && Access::gpregs_become(a.ac, m0, a.str_regs(w, true, true))
                && (v1 matches Err(e) ==> r == Err::<(), EmuException>(e) && b.ac == m1)
                && (v1 is Ok ==> exists|m2: Access, v2: Result<u64, EmuException>|
                    #[trigger] Access::loads(m1, m2, SgReg::ES, a.di_addr(), n, v2)
                    && (v2 matches Err(e) ==> r == Err::<(), EmuException>(e) && b.ac == m2)
                    && (v2 is Ok ==> r is Ok)),
            StrOp::Stos => exists|m0: Access| #[trigger] Access::gpregs_become(a.ac, m0, a.str_regs(w, false, true))
                && Access::stores(m0, b.ac, SgReg::ES, a.di_addr(), a.acc_value(w), n, r),
            StrOp::Lods => exists|m0: Access, m: Access, v: Result<u64, EmuException>|
                #[trigger] Access::loads(m0, m, a.si_seg(), a.si_addr(), n, v)
                && Access::gpregs_become(a.ac, m0, a.str_regs(w, true, false))
                && (v matches Err(e) ==> r == Err::<(), EmuException>(e) && b.ac == m)
                && (v is Ok ==> r is Ok),
            StrOp::Scas => exists|m0: Access, m: Access, v: Result<u64, EmuException>|
                #[trigger] Access::loads(m0, m, SgReg::ES, a.di_addr(), n, v)
                && Access::gpregs_become(a.ac, m0, a.str_regs(w, false, true))
                && (v matches Err(e) ==> r == Err::<(), EmuException>(e) && b.ac == m)
                && (v is Ok ==> r is Ok),
        }
    }

    /// What `repeat` does: without a repeat prefix nothing; with one, the count register of
    /// width `w` counts down, and unless the count ran out or the zero flag ends the
    /// repetition, the instruction pointer moves back onto the instruction.
    pub open spec fn repeat_done(a: Exec, b: Exec, w: Width, r: Result<(), EmuException>) -> bool {
        &&& r is Ok
        &&& Exec::same_instr(a, b)
        &&& match a.pdata.repeat {
            None => b == a,
            Some(rp) => {
                let regs = a.ac.core.gpregs@;
                let c = count_down(w, regs[1]);
                let zf = a.ac.core.rflags.ZF != 0;
                let again = !(count_part(w, c) == 0 || (rp == Rep::REPZ && !zf) || (rp == Rep::REPNZ && zf));
                let ip = a.ac.core.ip.0;
                let back = sext16(vstd::wrapping::u16_specs::wrapping_add_signed(low16(ip), -((a.idata.len % 0x8000) as i16) as i16));
                &&& same_but_core(a.ac, b.ac)
                &&& b.ac.core.gpregs@ == regs.update(1, c)
                &&& b.ac.core.ip.0 == (if again { back } else { ip })
                &&& b.ac.core.rflags == a.ac.core.rflags
                &&& b.ac.core.cregs == a.ac.core.cregs
                &&& b.ac.core.sgregs == a.ac.core.sgregs
                &&& b.ac.core.dtregs == a.ac.core.dtregs
                &&& b.ac.core.msr == a.ac.core.msr
            },
        }
    }
}

impl Exec {
    /// Advances register `reg` (RSI or RDI) by `step` in the address size and returns its
    /// value before.
    fn step_index(&mut self, reg: u64, step: i64) -> (r: u64)
        requires
            reg == 6 || reg == 7,
        ensures
            r == addr_part(old(self).idata.adsize, old(self).ac.core.gpregs@[reg as int]),
            Exec::same_instr(*old(self), *final(self)),
            Access::gpregs_become(old(self).ac, final(self).ac, old(self).ac.core.gpregs@.update(reg as int,
                advance(old(self).idata.adsize, old(self).ac.core.gpregs@[reg as int], step))),
    {
        proof {
            self.ac.core.gpregs.lemma_wf();
        }
        let addr = self.ac.core.gpregs.get_index(reg as usize);
        match self.idata.adsize {
            AcsSize::BIT16 => {
                let r = if reg == 6 { GpReg16::SI } else { GpReg16::DI };
                let _ = self.ac.update_gpreg(r, step as i16);
                addr % 0x1_0000
            },
            AcsSize::BIT32 => {
                let r = if reg == 6 { GpReg32::ESI } else { GpReg32::EDI };
                let _ = self.ac.update_gpreg(r, step as i32);
                addr % 0x1_0000_0000
            },
            AcsSize::BIT64 => {
                let r = if reg == 6 { GpReg64::RSI } else { GpReg64::RDI };
                let _ = self.ac.update_gpreg(r, step);
                addr
            },
        }
    }

    /// The source operand of a string instruction, advancing the source index by `step`.
    pub fn get_si_addr(&mut self, step: i64) -> (r: Result<(SgReg, u64), EmuException>)
        ensures
            r == Ok::<(SgReg, u64), EmuException>((match old(self).pdata.segment {
                Some(s) => s,
                None => SgReg::DS,
            }, addr_part(old(self).idata.adsize, old(self).ac.core.gpregs@[6]))),
            Exec::same_instr(*old(self), *final(self)),
            Access::gpregs_become(old(self).ac, final(self).ac, old(self).ac.core.gpregs@.update(6,
                advance(old(self).idata.adsize, old(self).ac.core.gpregs@[6], step))),
    {
        let seg = match self.pdata.segment {
            Some(s) => s,
            None => SgReg::DS,
        };
        let addr = self.step_index(6, step);
        Ok((seg, addr))
    }

    /// The destination operand of a string instruction (in ES), advancing the destination
    /// index by `step`.
    pub fn get_di_addr(&mut self, step: i64) -> (r: Result<(SgReg, u64), EmuException>)
        ensures
            r == Ok::<(SgReg, u64), EmuException>((SgReg::ES, addr_part(old(self).idata.adsize, old(self).ac.core.gpregs@[7]))),
            Exec::same_instr(*old(self), *final(self)),
            Access::gpregs_become(old(self).ac, final(self).ac, old(self).ac.core.gpregs@.update(7,
                advance(old(self).idata.adsize, old(self).ac.core.gpregs@[7], step))),
    {
        let addr = self.step_index(7, step);
        Ok((SgReg::ES, addr))
    }

    /// The step of a string instruction of width `w`: backwards when the direction flag is set.
    pub fn str_step(&self, w: Width) -> (s: i64)
        ensures
            s == (if self.ac.core.rflags.DF != 0 { -(w.nbytes() as int) } else { w.nbytes() as int }),
    {
        let n = w.bytes() as i64;
        if self.ac.core.rflags.is_direction() { -n } else { n }
    }

    /// `movs`: copies width `w` from the source to the destination operand.
    pub fn move_str(&mut self, w: Width) -> (r: Result<(), EmuException>)
        ensures
            Exec::same_instr(*old(self), *final(self)),
            final(self).ac.mode == old(self).ac.mode,
            r is Ok ==> Exec::string_done(*old(self), *final(self), StrOp::Movs, w),
            Exec::string_attempt(*old(self), *final(self), StrOp::Movs, w, r),
    {
        let ghost a = *self;
        let step = self.str_step(w);
        let si = self.get_si_addr(step)?;
        let di = self.get_di_addr(step)?;
        let ghost m0 = self.ac;
        proof {
            assert(m0.core.gpregs@ == a.str_regs(w, true, true));
            assert(si == (a.si_seg(), a.si_addr()));
            a.ac.core.gpregs.lemma_wf();
            assert(di.1 == a.di_addr());
        }
        let rv = self.read_loc(w, Loc::Mem(si.0, si.1));
        let ghost m = self.ac;
        proof {
            assert(Access::loads(m0, m, a.si_seg(), a.si_addr(), w.nbytes(), rv));
        }
        let src = rv?;
        let rw = self.write_loc(w, Loc::Mem(di.0, di.1), src);
        proof {
            assert(Access::stores(m, self.ac, SgReg::ES, a.di_addr(), src, w.nbytes(), rw));
        }
        rw?;
        proof {
            assert(m0.core.gpregs@ == a.str_regs(w, true, true));
            assert(si == (a.si_seg(), a.si_addr()));
            a.ac.core.gpregs.lemma_wf();
            assert(di.1 == a.di_addr());
            assert(Access::loads(m0, m, a.si_seg(), a.si_addr(), w.nbytes(), Ok(src)));
            assert(Access::stores(m, self.ac, SgReg::ES, a.di_addr(), src, w.nbytes(), Ok(())));
        }
        Ok(())
    }

    /// `cmps`: compares the source with the destination operand.
    pub fn cmp_str(&mut self, w: Width) -> (r: Result<(), EmuException>)
        ensures
            Exec::same_instr(*old(self), *final(self)),
            final(self).ac.mode == old(self).ac.mode,
            r is Ok ==> Exec::string_done(*old(self), *final(self), StrOp::Cmps, w),
            Exec::string_attempt(*old(self), *final(self), StrOp::Cmps, w, r),
    {
        let ghost a = *self;
        let step = self.str_step(w);
        let si = self.get_si_addr(step)?;
        let di = self.get_di_addr(step)?;
        let ghost m0 = self.ac;
        proof {
            assert(m0.core.gpregs@ == a.str_regs(w, true, true));
            assert(si == (a.si_seg(), a.si_addr()));
            a.ac.core.gpregs.lemma_wf();
            assert(di.1 == a.di_addr());
        }
        let rv1 = self.read_loc(w, Loc::Mem(si.0, si.1));
        let ghost m1 = self.ac;
        proof {
            assert(Access::loads(m0, m1, a.si_seg(), a.si_addr(), w.nbytes(), rv1));
        }
        let src = rv1?;
        let rv2 = self.read_loc(w, Loc::Mem(di.0, di.1));
        let ghost m2 = self.ac;
        proof {
            assert(Access::loads(m1, m2, SgReg::ES, a.di_addr(), w.nbytes(), rv2));
        }
        let dst = rv2?;
        self.update_rflags_sub(w, src, dst)?;
        proof {
            assert(m0.core.gpregs@ == a.str_regs(w, true, true));
            assert(si == (a.si_seg(), a.si_addr()));
            a.ac.core.gpregs.lemma_wf();
            assert(di.1 == a.di_addr());
            assert(Access::loads(m1, m2, SgReg::ES, a.di_addr(), w.nbytes(), Ok(dst)));
            crate::emulator::access::memory::lemma_loads_core_free(m1, m2, self.ac, SgReg::ES, a.di_addr(), w.nbytes(), Ok(dst));
            assert(Access::loads(m0, m1, a.si_seg(), a.si_addr(), w.nbytes(), Ok(src)));
            assert(Access::loads(m1, self.ac, SgReg::ES, a.di_addr(), w.nbytes(), Ok(dst)));
        }
        Ok(())
    }

    /// The accumulator (AL, AX, EAX, RAX) of width `w`.
    pub open spec fn acc_loc(w: Width) -> Loc {
        if w == Width::W8 { Loc::Byte(0) } else { Loc::Reg(0) }
    }

    pub fn acc_location(w: Width) -> (l: Loc)
        ensures
            l == Self::acc_loc(w),
    {
        if w == Width::W8 { Loc::Byte(0) } else { Loc::Reg(0) }
    }

    /// `stos`: stores the accumulator at the destination operand.
    pub fn store_str(&mut self, w: Width) -> (r: Result<(), EmuException>)
        ensures
            Exec::same_instr(*old(self), *final(self)),
            final(self).ac.mode == old(self).ac.mode,
            r is Ok ==> Exec::string_done(*old(self), *final(self), StrOp::Stos, w),
            Exec::string_attempt(*old(self), *final(self), StrOp::Stos, w, r),
    {
        let ghost a = *self;
        let step = self.str_step(w);
        let di = self.get_di_addr(step)?;
        let ghost m0 = self.ac;
        proof {
            m0.core.gpregs.lemma_wf();
        }
        let src = self.reg_read(w, Self::acc_location(w))?;
        proof {
            assert(m0.core.gpregs@ == a.str_regs(w, false, true));
            a.ac.core.gpregs.lemma_wf();
            assert(m0.core.gpregs@[0] == a.ac.core.gpregs@[0]);
            assert(src == a.acc_value(w));
            assert(di.1 == a.di_addr());
        }
        let rw = self.write_loc(w, Loc::Mem(di.0, di.1), src);
        proof {
            assert(Access::stores(m0, self.ac, SgReg::ES, a.di_addr(), a.acc_value(w), w.nbytes(), rw));
        }
        rw?;
        proof {
            assert(m0.core.gpregs@ == a.str_regs(w, false, true));
            a.ac.core.gpregs.lemma_wf();
            assert(m0.core.gpregs@[0] == a.ac.core.gpregs@[0]);
            assert(src == a.acc_value(w));
        }
        Ok(())
    }

    /// `lods`: loads the accumulator from the source operand.
    pub fn load_str(&mut self, w: Width) -> (r: Result<(), EmuException>)
        ensures
            Exec::same_instr(*old(self), *final(self)),
            final(self).ac.mode == old(self).ac.mode,
            r is Ok ==> Exec::string_done(*old(self), *final(self), StrOp::Lods, w),
            Exec::string_attempt(*old(self), *final(self), StrOp::Lods, w, r),
    {
        let ghost a = *self;
        let step = self.str_step(w);
        let si = self.get_si_addr(step)?;
        let ghost m0 = self.ac;
        proof {
            assert(m0.core.gpregs@ == a.str_regs(w, true, false));
            assert(si == (a.si_seg(), a.si_addr()));
        }
        let rv = self.read_loc(w, Loc::Mem(si.0, si.1));
        let ghost m = self.ac;
        proof {
            assert(Access::loads(m0, m, a.si_seg(), a.si_addr(), w.nbytes(), rv));
        }
        let src = rv?;
        proof {
            m.core.gpregs.lemma_wf();
        }
        self.write_loc(w, Self::acc_location(w), src)?;
        proof {
            assert(m0.core.gpregs@ == a.str_regs(w, true, false));
            assert(si == (a.si_seg(), a.si_addr()));
            assert(Access::loads(m0, m, a.si_seg(), a.si_addr(), w.nbytes(), Ok(src)));
        }
        Ok(())
    }

    /// `scas`: compares the accumulator with the destination operand.
    pub fn scan_str(&mut self, w: Width) -> (r: Result<(), EmuException>)
        ensures
            Exec::same_instr(*old(self), *final(self)),
            final(self).ac.mode == old(self).ac.mode,
            r is Ok ==> Exec::string_done(*old(self), *final(self), StrOp::Scas, w),
            Exec::string_attempt(*old(self), *final(self), StrOp::Scas, w, r),
    {
        let ghost a = *self;
        let step = self.str_step(w);
        let di = self.get_di_addr(step)?;
        let ghost m0 = self.ac;
        proof {
            m0.core.gpregs.lemma_wf();
            assert(m0.core.gpregs@ == a.str_regs(w, false, true));
            a.ac.core.gpregs.lemma_wf();
            assert(di.1 == a.di_addr());
        }
        let src = self.reg_read(w, Self::acc_location(w))?;
        let rv = self.read_loc(w, Loc::Mem(di.0, di.1));
        let ghost m1 = self.ac;
        proof {
            assert(Access::loads(m0, m1, SgReg::ES, a.di_addr(), w.nbytes(), rv));
        }
        let dst = rv?;
        self.update_rflags_sub(w, src, dst)?;
        proof {
            assert(m0.core.gpregs@ == a.str_regs(w, false, true));
            a.ac.core.gpregs.lemma_wf();
            assert(m0.core.gpregs@[0] == a.ac.core.gpregs@[0]);
            assert(src == a.acc_value(w));
            crate::emulator::access::memory::lemma_loads_core_free(m0, m1, self.ac, SgReg::ES, a.di_addr(), w.nbytes(), Ok(dst));
        }
        Ok(())
    }

    /// Under a repeat prefix, counts down the count register of width `w` (CX, ECX, RCX) and
    /// moves the instruction pointer back onto the instruction unless the count ran out or
    /// the zero flag ends the repetition.
    pub fn repeat(&mut self, w: Width) -> (r: Result<(), EmuException>)
        ensures
            Exec::same_instr(*old(self), *final(self)),
            final(self).ac.mode == old(self).ac.mode,
            Exec::repeat_done(*old(self), *final(self), w, r),
    {
        proof {
            self.ac.core.gpregs.lemma_wf();
        }
        let mut rep = false;
        if let Some(rp) = self.pdata.repeat {
            let cnt: u64 = match w {
                Width::W64 => {
                    self.ac.update_gpreg(GpReg64::RCX, -1i64)?;
                    self.ac.get_gpreg(GpReg64::RCX)?
                },
                Width::W32 => {
                    self.ac.update_gpreg(GpReg32::ECX, -1i32)?;
                    let c: u32 = self.ac.get_gpreg(GpReg32::ECX)?;
                    c as u64
                },
                _ => {
                    self.ac.update_gpreg(GpReg16::CX, -1i16)?;
                    let c: u16 = self.ac.get_gpreg(GpReg16::CX)?;
                    c as u64
                },
            };
            let zf = self.ac.core.rflags.is_zero();
            rep = !(cnt == 0 || (rp == Rep::REPZ && !zf) || (rp == Rep::REPNZ && zf));
        }
        if rep {
            let back: i16 = -((self.idata.len % 0x8000) as i16);
            self.ac.update_ip(back)?;
        }
        Ok(())
    }
}

/// A repeated string instruction stops on the zero flag as its prefix says: once the count
/// register, counted down, is still nonzero, under REPNZ the instruction runs again (the
/// instruction pointer moves back by the instruction's length) exactly when the zero flag is
/// clear, and under REPZ exactly when it is set; otherwise the instruction pointer stays past
/// the instruction. A count that reaches zero always ends the repetition.
pub proof fn law_repeat_stops_on_zero_flag(a: Exec, b: Exec, w: Width, r: Result<(), EmuException>)
    requires
        Exec::repeat_done(a, b, w, r),
        a.pdata.repeat is Some,
    ensures
        ({
            let ip = a.ac.core.ip.0;
            let back = sext16(vstd::wrapping::u16_specs::wrapping_add_signed(low16(ip), -((a.idata.len % 0x8000) as i16) as i16));
            let left = count_part(w, b.ac.core.gpregs@[1]);
            let zf = a.ac.core.rflags.ZF;
            &&& left == 0 ==> b.ac.core.ip.0 == ip
            &&& left != 0 && a.pdata.repeat == Some(Rep::REPNZ) && zf == 0 ==> b.ac.core.ip.0 == back
            &&& left != 0 && a.pdata.repeat == Some(Rep::REPNZ) && zf != 0 ==> b.ac.core.ip.0 == ip
            &&& left != 0 && a.pdata.repeat == Some(Rep::REPZ) && zf != 0 ==> b.ac.core.ip.0 == back
            &&& left != 0 && a.pdata.repeat == Some(Rep::REPZ) && zf == 0 ==> b.ac.core.ip.0 == ip
            &&& b.ac.core.rflags == a.ac.core.rflags
            &&& left == (count_part(w, a.ac.core.gpregs@[1]) + count_modulus(w) - 1) % count_modulus(w)
        }),
{
    a.ac.core.gpregs.lemma_wf();
    let x = a.ac.core.gpregs@[1];
    match w {
        Width::W64 | Width::W32 => {},
        _ => {
            let v = vstd::wrapping::u16_specs::wrapping_add_signed(low16(x), -1i16);
            assert(x as int == 0x1_0000 * (x as int / 0x1_0000) + x as int % 0x1_0000) by {
                vstd::arithmetic::div_mod::lemma_fundamental_div_mod(x as int, 0x1_0000);
            }
            assert((0x1_0000 * (x as int / 0x1_0000) + v as int) % 0x1_0000 == v as int % 0x1_0000) by {
                vstd::arithmetic::div_mod::lemma_mod_multiples_vanish(x as int / 0x1_0000, v as int, 0x1_0000);
            }
            vstd::arithmetic::div_mod::lemma_small_mod(v as nat, 0x1_0000);
            assert(low16(add16(x, -1i16)) == v);
        },
    }
}

/// The modulus of the count register that a repeat of operand width `w` uses: CX, ECX or
/// RCX.
pub open spec fn count_modulus(w: Width) -> int {
    match w {
        Width::W64 => 0x1_0000_0000_0000_0000,
        Width::W32 => 0x1_0000_0000,
        _ => 0x1_0000,
    }
}

} // verus!
