use vstd::prelude::*;
use crate::emulator::{EmuException, CPUException};
use crate::emulator::access::{Access, AcsSize, CpuMode, same_config, unchanged_but_tlb};
use crate::emulator::access::register::{IpAccess, GpRegAccess};
use crate::emulator::access::descriptor::{DescType, SysDescType, SegDescType, SegDesc, TSMode, TSSDesc, CallGateDesc, segdesc_select};
use crate::hardware::processor::segment::{SgReg, SgDescCache, SgDescSelector, SgRegUnit};
use crate::hardware::processor::Processor;
use crate::hardware::processor::rflags::RFlags;
use super::Exec;
use super::super::opcode::Width;

verus! {

/// The limit that segment descriptor `d` gives its segment.
pub open spec fn seg_limit(d: SegDesc) -> u32 {
    (d.limit_h as u32 * 0x1_0000 + d.limit_l as u32) as u32
}

/// The descriptor cache that a far return or interrupt return from `a` to selector `new_cs`
/// at offset `new_ip` loads into CS, or the fault it raises: the descriptor must be a code
/// segment, not a conforming one more privileged than the requested level, and (but with a
/// 64-bit operand size) `new_ip` must lie within its limit.
pub open spec fn return_cs(a: Access, new_ip: u64, new_cs: u16) -> Result<SgDescCache, EmuException> {
    let rpl = (new_cs % 4) as u8;
    match a.gl_desc(new_cs).0 {
        Err(e) => Err(e),
        Ok(Some(DescType::Segment(SegDescType::Code(d)))) => if d.Type & 4 != 0 && d.DPL > rpl {
            Err(EmuException::CPUException(CPUException::GP(None)))
        } else if a.oasz.op != AcsSize::BIT64 && new_ip % 0x1_0000_0000 > seg_limit(d) {
            Err(EmuException::CPUException(CPUException::GP(None)))
        } else {
            segdesc_select(SgReg::CS, a.cpl(), rpl, Some(SegDescType::Code(d)))
        },
        Ok(_) => Err(EmuException::CPUException(CPUException::GP(None))),
    }
}

/// A data segment register after a return to the outer level `rpl`: emptied where its
/// segment is more privileged than `rpl`.
pub open spec fn outer_data_seg(u: SgRegUnit, rpl: u8) -> SgRegUnit {
    if rpl > u.cache.DPL {
        SgRegUnit { selector: SgDescSelector::decode(0), cache: SgDescCache::reset() }
    } else {
        u
    }
}

/// The code segment register that a return to `new_cs` with descriptor cache `c` loads.
pub open spec fn returned_cs(new_cs: u16, c: SgDescCache) -> SgRegUnit {
    SgRegUnit { selector: SgDescSelector::decode(new_cs), cache: c }
}

/// Whether a far transfer at privilege level `cpl` with requested level `rpl` may enter
/// code segment `desc` at offset `abs`: a conforming segment of no higher privilege, or a
/// nonconforming one of the same privilege; and, but with a 64-bit operand, `abs` within the
/// limit.
pub open spec fn code_entry_ok(desc: SegDesc, cpl: u8, rpl: u8, abs: u64, op: AcsSize) -> bool {
    &&& if desc.Type & 4 != 0 { desc.DPL <= cpl } else { rpl <= cpl && desc.DPL == cpl }
    &&& op == AcsSize::BIT64 || abs % 0x1_0000_0000 <= seg_limit(desc) as int
}

/// `b` continues after a far transfer from `a` into the code segment `sel` (its
/// requested privilege replaced by the current one) at offset `abs` cut to width `w`.
pub open spec fn entered_code(a: Access, b: Access, w: Width, sel: u16, abs: u64) -> bool {
    &&& b.core.ip.0 == ip_cut(w, abs)
    &&& b.sgreg(SgReg::CS).selector == SgDescSelector::decode((sel & 0xfff8) | a.cpl() as u16)
}

fn limit_of(d: &SegDesc) -> (l: u32)
    ensures
        l == seg_limit(*d),
{
    d.limit_h as u32 * 0x1_0000 + d.limit_l as u32
}

impl Exec {
    /// Pushes the low `w` bits of `v` (a byte as a word).
    pub fn push_w(&mut self, w: Width, v: u64) -> (r: Result<(), EmuException>)
        ensures
            Exec::same_instr(*old(self), *final(self)),
            final(self).ac.mode == old(self).ac.mode,
            Access::pushes(old(self).ac, final(self).ac, w, v, r),
    {
        match w {
            Width::W8 | Width::W16 => self.ac.push_u16((v % 0x1_0000) as u16),
            Width::W32 => self.ac.push_u32((v % 0x1_0000_0000) as u32),
            Width::W64 => self.ac.push_u64(v),
        }
    }

    /// Pops a value of width `w` (a byte as a word).
    pub fn pop_w(&mut self, w: Width) -> (r: Result<u64, EmuException>)
        ensures
            Exec::same_instr(*old(self), *final(self)),
            final(self).ac.mode == old(self).ac.mode,
            Access::pops(old(self).ac, final(self).ac, w, r),
            r matches Ok(v) ==> (w == Width::W8 || w == Width::W16 ==> v < 0x1_0000) && (w == Width::W32 ==> v < 0x1_0000_0000),
    {
        match w {
            Width::W8 | Width::W16 => match self.ac.pop_u16() {
                Ok(v) => Ok(v as u64),
                Err(e) => Err(e),
            },
            Width::W32 => match self.ac.pop_u32() {
                Ok(v) => Ok(v as u64),
                Err(e) => Err(e),
            },
            Width::W64 => self.ac.pop_u64(),
        }
    }

    /// The instruction pointer in width `w`.
    pub fn get_ip_w(&self, w: Width) -> (v: u64)
        ensures
            v == (match w {
                Width::W64 => self.ac.core.ip.0,
                Width::W32 => self.ac.core.ip.0 % 0x1_0000_0000,
                _ => self.ac.core.ip.0 % 0x1_0000,
            }),
    {
        match w {
            Width::W64 => self.ac.core.ip.get_rip(),
            Width::W32 => self.ac.core.ip.get_eip() as u64,
            _ => self.ac.core.ip.get_ip() as u64,
        }
    }

    /// Sets the instruction pointer to `v` cut to width `w`.
    pub fn set_ip_w(&mut self, w: Width, v: u64) -> (r: Result<(), EmuException>)
        ensures
            r is Ok,
            Exec::same_instr(*old(self), *final(self)),
            final(self).ac.mode == old(self).ac.mode,
            final(self).ac.core.ip.0 == (match w {
                Width::W64 => v,
                Width::W32 => v % 0x1_0000_0000,
                _ => v % 0x1_0000,
            }),
            Access::ip_becomes(old(self).ac, final(self).ac, final(self).ac.core.ip.0),
    {
        match w {
            Width::W64 => self.ac.core.ip.set_rip(v),
            Width::W32 => self.ac.core.ip.set_eip((v % 0x1_0000_0000) as u32),
            _ => self.ac.core.ip.set_ip((v % 0x1_0000) as u16),
        }
        Ok(())
    }

    /// Checks that a far transfer may enter code segment `desc` at privilege level `cpl` with
    /// requested level `rpl`, and that offset `abs` lies within its limit.
    fn check_code_entry(&self, desc: &SegDesc, cpl: u8, rpl: u8, abs: u64) -> (r: Result<(), EmuException>)
        ensures
            r is Ok <==> code_entry_ok(*desc, cpl, rpl, abs, self.ac.oasz.op),
            r is Err ==> r == Err::<(), EmuException>(EmuException::CPUException(CPUException::GP(None))),
    {
        if desc.Type & 4 != 0 {
            if desc.DPL > cpl {
                return Err(EmuException::CPUException(CPUException::GP(None)));
            }
        } else if rpl > cpl || desc.DPL != cpl {
            return Err(EmuException::CPUException(CPUException::GP(None)));
        }
        if self.ac.oasz.op != AcsSize::BIT64 && abs % 0x1_0000_0000 > limit_of(desc) as u64 {
            return Err(EmuException::CPUException(CPUException::GP(None)));
        }
        Ok(())
    }

    /// The entry point of call gate `g`.
    pub open spec fn callgate_offset(g: CallGateDesc) -> u64 {
        (g.offset_h as u64 * 0x1_0000 + g.offset_l as u64) as u64
    }

    /// What a far jump through call gate `g` does from `m` at privilege level `cpl`, reached
    /// with selector `sel` and offset `abs`, giving `b` and `r`.
    ///
    /// A gate less privileged than the current level, or than the selector's requested level,
    /// is a protection fault. The code segment of `g` is then looked up as `select_callgate`
    /// does: an absent gate, a fault of the lookup, or a descriptor that is no code segment
    /// ends there. A conforming segment less privileged than the current level, a
    /// nonconforming one of another level, or an offset past its limit outside 64-bit mode is
    /// a protection fault. The segment's cache is selected, and its fault ends there.
    /// Otherwise CS takes the selector of `g` at the current level and IP its entry
    /// point, and the operand and address sizes are set as `opad_set` says.
    pub open spec fn callgate_jumped(m: Access, b: Access, sel: u16, g: CallGateDesc, cpl: u8, abs: u64,
        r: Result<(), EmuException>) -> bool {
        let gp = Err::<(), EmuException>(EmuException::CPUException(CPUException::GP(None)));
        if g.DPL < cpl || g.DPL < (sel % 4) as u8 {
            r == gp && b == m
        } else if g.P == 0 {
            r == Err::<(), EmuException>(EmuException::CPUException(CPUException::NP)) && unchanged_but_tlb(m, b) && b.tlb@ == m.tlb@
        } else {
            match m.gl_desc(g.selector).0 {
                Err(e) => r == Err::<(), EmuException>(e) && unchanged_but_tlb(m, b),
                Ok(Some(DescType::Segment(SegDescType::Code(c)))) =>
                    if (c.Type & 4 != 0 && c.DPL > cpl) || (c.Type & 4 == 0 && c.DPL != cpl)
                        || (m.oasz.op != AcsSize::BIT64 && abs % 0x1_0000_0000 > seg_limit(c) as u64) {
                        r == gp && unchanged_but_tlb(m, b)
                    } else {
                        match segdesc_select(SgReg::CS, m.cpl(), cpl, Some(SegDescType::Code(c))) {
                            Err(e) => r == Err::<(), EmuException>(e) && unchanged_but_tlb(m, b),
                            Ok(cache) => exists|x: Access| #[trigger] Access::opad_set(x, b, r)
                                && crate::emulator::access::same_but_core_tlb(m, x) && x.tlb@ == m.gl_desc(g.selector).1
                                && x.core.sgregs@ == m.core.sgregs@.update(SgReg::CS.num() as int, SgRegUnit {
                                    selector: SgDescSelector::decode(((g.selector & 0xfff8) | cpl as u16) as u16),
                                    cache,
                                })
                                && x.core.ip.0 == Exec::callgate_offset(g)
                                && x.core.gpregs == m.core.gpregs && x.core.rflags == m.core.rflags,
                        }
                    },
                Ok(_) => r == Err::<(), EmuException>(EmuException::CPUException(CPUException::GP(Some(g.selector))))
                    && unchanged_but_tlb(m, b),
            }
        }
    }

    /// A far jump through call gate `gate` (see `callgate_jumped`).
    fn jump_callgate(&mut self, sel: u16, gate: CallGateDesc, cpl: u8, abs: u64) -> (r: Result<(), EmuException>)
        requires
            cpl == old(self).ac.cpl(),
        ensures
            Exec::same_instr(*old(self), *final(self)),
            final(self).ac.mode == old(self).ac.mode,
            Exec::callgate_jumped(old(self).ac, final(self).ac, sel, gate, cpl, abs, r),
    {
        let rpl = (sel % 4) as u8;
        if gate.DPL < cpl || gate.DPL < rpl {
            return Err(EmuException::CPUException(CPUException::GP(None)));
        }
        let ip = gate.offset_h as u32 * 0x1_0000 + gate.offset_l as u32;
        let (sel2, desc) = self.ac.select_callgate(gate)?;
        if desc.Type & 4 != 0 {
            if desc.DPL > cpl {
                return Err(EmuException::CPUException(CPUException::GP(None)));
            }
        } else if desc.DPL != cpl {
            return Err(EmuException::CPUException(CPUException::GP(None)));
        }
        if self.ac.oasz.op != AcsSize::BIT64 && abs % 0x1_0000_0000 > limit_of(&desc) as u64 {
            return Err(EmuException::CPUException(CPUException::GP(None)));
        }
        let cache = self.ac.select_segdesc(SgReg::CS, cpl, Some(SegDescType::Code(desc)))?;
        proof {
            self.ac.core.sgregs.lemma_len();
        }
        self.ac.set_sgreg(SgReg::CS, (sel2 & 0xfff8) | cpl as u16, cache)?;
        self.ac.set_ip(ip)?;
        let ghost x = self.ac;
        let r = self.ac.update_opadsize();
        proof {
            assert(Access::opad_set(x, self.ac, r));
        }
        r
    }

    /// What a far call through call gate `g` does from `m` at privilege level `cpl`, reached
    /// with selector `sel`, with return point `cs_sel`:`ret_ip` in width `w`, giving `b` and `r`.
    ///
    /// A gate less privileged than the current level, or than the selector's requested level,
    /// is a protection fault. The code segment of `g` is then looked up as `select_callgate`
    /// does: an absent gate, a fault of the lookup, or a descriptor that is no code segment
    /// ends there. A segment less privileged than the current level is a protection fault; a
    /// call into a more privileged nonconforming segment is not implemented; its entry
    /// point past the segment's limit outside 64-bit mode is a protection fault. The segment's
    /// cache is selected, and its fault ends there. The return selector and offset are pushed,
    /// each fault ending there. Then CS takes the selector of `g` at the current level and IP
    /// the value `ret_ip`, and the operand and address sizes are set as `opad_set` says.
    pub open spec fn callgate_called(m: Access, b: Access, w: Width, sel: u16, g: CallGateDesc, cpl: u8, cs_sel: u64,
        ret_ip: u64, r: Result<(), EmuException>) -> bool {
        let gp = Err::<(), EmuException>(EmuException::CPUException(CPUException::GP(None)));
        if g.DPL < cpl || g.DPL < (sel % 4) as u8 {
            r == gp && b == m
        } else if g.P == 0 {
            r == Err::<(), EmuException>(EmuException::CPUException(CPUException::NP)) && unchanged_but_tlb(m, b) && b.tlb@ == m.tlb@
        } else {
            match m.gl_desc(g.selector).0 {
                Err(e) => r == Err::<(), EmuException>(e) && unchanged_but_tlb(m, b),
                Ok(Some(DescType::Segment(SegDescType::Code(c)))) =>
                    if c.DPL > cpl {
                        r == gp && unchanged_but_tlb(m, b)
                    } else if c.Type & 4 == 0 && c.DPL < cpl {
                        r == Err::<(), EmuException>(EmuException::NotImplementedFunction) && unchanged_but_tlb(m, b)
                    } else if m.oasz.op != AcsSize::BIT64 && Exec::callgate_offset(g) > seg_limit(c) {
                        r == gp && unchanged_but_tlb(m, b)
                    } else {
                        match segdesc_select(SgReg::CS, m.cpl(), cpl, Some(SegDescType::Code(c))) {
                            Err(e) => r == Err::<(), EmuException>(e) && unchanged_but_tlb(m, b),
                            Ok(cache) => exists|m0: Access, m1: Access, p1: Result<(), EmuException>|
                                #[trigger] Access::pushes(m0, m1, w, cs_sel, p1)
                                && unchanged_but_tlb(m, m0) && m0.tlb@ == m.gl_desc(g.selector).1
                                && (p1 matches Err(e) ==> r == Err::<(), EmuException>(e) && b == m1)
                                && (p1 is Ok ==> exists|m2: Access, p2: Result<(), EmuException>|
                                    #[trigger] Access::pushes(m1, m2, w, ret_ip, p2)
                                    && (p2 matches Err(e) ==> r == Err::<(), EmuException>(e) && b == m2)
                                    && (p2 is Ok ==> exists|x: Access| #[trigger] Access::opad_set(x, b, r)
                                        && crate::emulator::access::same_but_core(m2, x)
                                        && x.core.sgregs@ == m2.core.sgregs@.update(SgReg::CS.num() as int, SgRegUnit {
                                            selector: SgDescSelector::decode(((g.selector & 0xfff8) | cpl as u16) as u16),
                                            cache,
                                        })
                                        && x.core.ip.0 == ip_cut(w, ret_ip)
                                        && x.core.gpregs == m2.core.gpregs && x.core.rflags == m2.core.rflags)),
                        }
                    },
                Ok(_) => r == Err::<(), EmuException>(EmuException::CPUException(CPUException::GP(Some(g.selector))))
                    && unchanged_but_tlb(m, b),
            }
        }
    }

    /// A far call through call gate `gate` (see `callgate_called`).
    fn call_callgate(&mut self, w: Width, sel: u16, gate: CallGateDesc, cpl: u8, cs_sel: u64, ip: u64) -> (r: Result<(), EmuException>)
        requires
            cpl == old(self).ac.cpl(),
        ensures
            Exec::same_instr(*old(self), *final(self)),
            final(self).ac.mode == old(self).ac.mode,
            Exec::callgate_called(old(self).ac, final(self).ac, w, sel, gate, cpl, cs_sel, ip, r),
    {
        let rpl = (sel % 4) as u8;
        if gate.DPL < cpl || gate.DPL < rpl {
            return Err(EmuException::CPUException(CPUException::GP(None)));
        }
        let new_ip = gate.offset_h as u32 * 0x1_0000 + gate.offset_l as u32;
        let (sel2, desc) = self.ac.select_callgate(gate)?;
        if desc.DPL > cpl {
            return Err(EmuException::CPUException(CPUException::GP(None)));
        }
        if desc.Type & 4 == 0 && desc.DPL < cpl {
            return Err(EmuException::NotImplementedFunction);
        }
        if self.ac.oasz.op != AcsSize::BIT64 && new_ip > limit_of(&desc) {
            return Err(EmuException::CPUException(CPUException::GP(None)));
        }
        let cache = self.ac.select_segdesc(SgReg::CS, cpl, Some(SegDescType::Code(desc)))?;
        let ghost m0 = self.ac;
        let p1 = self.push_w(w, cs_sel);
        let ghost m1 = self.ac;
        proof {
            assert(Access::pushes(m0, m1, w, cs_sel, p1));
        }
        p1?;
        let p2 = self.push_w(w, ip);
        let ghost m2 = self.ac;
        proof {
            assert(Access::pushes(m1, m2, w, ip, p2));
        }
        p2?;
        proof {
            self.ac.core.sgregs.lemma_len();
        }
        self.ac.set_sgreg(SgReg::CS, (sel2 & 0xfff8) | cpl as u16, cache)?;
        self.set_ip_w(w, ip)?;
        let ghost x = self.ac;
        let r = self.ac.update_opadsize();
        proof {
            assert(Access::opad_set(x, self.ac, r));
        }
        r
    }

    /// `b` is `m` after a far jump or call (`mode`) at privilege level `cpl` reached, through
    /// selector `sel`, the descriptor `d` that `m` had looked up, and gave `r`: a TSS descriptor
    /// or task gate of lower privilege than `cpl` or than `sel`'s requested level is a general
    /// protection fault; a task gate's TSS descriptor is looked up (`taskgate_selected`; its
    /// fault is the result); the task is switched to (`task_switch_done`; its fault is the
    /// result); then the operand and address sizes are set (`opad_set`).
    pub open spec fn task_transfer_done(m: Access, b: Access, sel: u16, d: DescType, mode: TSMode, cpl: u8,
        r: Result<(), EmuException>) -> bool {
        let gp = Err::<(), EmuException>(EmuException::CPUException(CPUException::GP(None)));
        match d {
            DescType::System(SysDescType::TSS(t)) => if t.DPL < cpl || t.DPL < (sel % 4) as u8 {
                r == gp && b == m
            } else {
                exists|x: Access, rt: Result<(), EmuException>| #[trigger] Access::task_switch_done(m, x, mode, sel, t, rt)
                    && (rt matches Err(e) ==> r == Err::<(), EmuException>(e) && b == x)
                    && (rt is Ok ==> Access::opad_set(x, b, r))
            },
            DescType::System(SysDescType::Task(g)) => if g.DPL < cpl || g.DPL < (sel % 4) as u8 {
                r == gp && b == m
            } else {
                exists|m2: Access, rd: Result<TSSDesc, EmuException>| #[trigger] Access::taskgate_selected(m, m2, g, rd)
                    && match rd {
                        Err(e) => r == Err::<(), EmuException>(e) && b == m2,
                        Ok(t) => exists|x: Access, rt: Result<(), EmuException>|
                            #[trigger] Access::task_switch_done(m2, x, mode, g.tss_sel, t, rt)
                            && (rt matches Err(e) ==> r == Err::<(), EmuException>(e) && b == x)
                            && (rt is Ok ==> Access::opad_set(x, b, r)),
                    }
            },
            _ => true,
        }
    }

    /// `b` is `a` after a far jump or call (`mode`) to selector `sel` outside real mode, as far
    /// as its descriptor lookup decides: the lookup's fault is the result; a TSS descriptor or
    /// task gate goes on as `task_transfer_done` says; a code segment or call gate goes on as
    /// the far jump's or call's own specification says; any other descriptor is a general
    /// protection fault.
    pub open spec fn far_target_done(a: Access, b: Access, sel: u16, mode: TSMode, r: Result<(), EmuException>) -> bool {
        match a.gl_desc(sel).0 {
            Err(e) => r == Err::<(), EmuException>(e) && unchanged_but_tlb(a, b),
            Ok(Some(DescType::Segment(SegDescType::Code(_)))) => true,
            Ok(Some(DescType::System(SysDescType::Call(_)))) => true,
            Ok(Some(DescType::System(SysDescType::TSS(t)))) => exists|m: Access|
                #[trigger] Exec::task_transfer_done(m, b, sel, DescType::System(SysDescType::TSS(t)), mode, a.cpl(), r)
                && unchanged_but_tlb(a, m) && m.tlb@ == a.gl_desc(sel).1,
            Ok(Some(DescType::System(SysDescType::Task(g)))) => exists|m: Access|
                #[trigger] Exec::task_transfer_done(m, b, sel, DescType::System(SysDescType::Task(g)), mode, a.cpl(), r)
                && unchanged_but_tlb(a, m) && m.tlb@ == a.gl_desc(sel).1,
            Ok(_) => r == Err::<(), EmuException>(EmuException::CPUException(CPUException::GP(None)))
                && unchanged_but_tlb(a, b),
        }
    }

    /// `b` is `a` after a far jump to `sel`:`abs` (`jmp_far`) gave `r`.
    pub open spec fn jmp_far_done(a: Exec, b: Exec, w: Width, sel: u16, abs: u64, r: Result<(), EmuException>) -> bool {
        &&& Exec::same_instr(a, b)
        &&& b.ac.mode == a.ac.mode
        &&& a.ac.mode == CpuMode::Real && r is Ok ==> {
                &&& b.ac.core.ip.0 == ip_cut(w, abs)
                &&& b.ac.sgreg(SgReg::CS) == Access::real_segment(sel)
                &&& b.ac.core.gpregs == a.ac.core.gpregs
            }
        &&& a.ac.mode != CpuMode::Real ==> (a.ac.gl_desc(sel).0 matches Ok(Some(DescType::Segment(SegDescType::Code(desc)))) ==> {
                &&& !code_entry_ok(desc, a.ac.cpl(), (sel % 4) as u8, abs, a.ac.oasz.op)
                    ==> r == Err::<(), EmuException>(EmuException::CPUException(CPUException::GP(None)))
                &&& r is Ok ==> entered_code(a.ac, b.ac, w, sel, abs)
                    && b.ac.core.gpregs == a.ac.core.gpregs
            })
        &&& a.ac.mode != CpuMode::Real ==> Exec::far_target_done(a.ac, b.ac, sel, TSMode::Jmp, r)
        &&& a.ac.mode != CpuMode::Real ==> (a.ac.gl_desc(sel).0 matches Ok(Some(DescType::System(SysDescType::Call(g))))
                ==> exists|m: Access| #[trigger] Exec::callgate_jumped(m, b.ac, sel, g, a.ac.cpl(), abs, r)
                && unchanged_but_tlb(a.ac, m) && m.tlb@ == a.ac.gl_desc(sel).1)
    }

    /// A far jump to `sel:abs`: in real mode a plain load of CS; otherwise through a code
    /// segment, call gate, task gate or TSS descriptor with their privilege checks.
    pub fn jmp_far(&mut self, w: Width, sel: u16, abs: u64) -> (r: Result<(), EmuException>)
        ensures
            Exec::jmp_far_done(*old(self), *final(self), w, sel, abs, r),
    {
        proof {
            self.ac.core.sgregs.lemma_len();
        }
        if self.ac.mode == CpuMode::Real {
            self.ac.load_segment(SgReg::CS, sel)?;
            self.set_ip_w(w, abs)?;
        } else {
            let cpl = self.ac.get_cpl()?;
            let rpl = (sel % 4) as u8;
            let rdesc = self.ac.obtain_gl_desc(sel);
            let ghost m = self.ac;
            match rdesc? {
                Some(DescType::Segment(SegDescType::Code(desc))) => {
                    self.check_code_entry(&desc, cpl, rpl, abs)?;
                    let cache = self.ac.select_segdesc(SgReg::CS, cpl, Some(SegDescType::Code(desc)))?;
                    self.ac.set_sgreg(SgReg::CS, (sel & 0xfff8) | cpl as u16, cache)?;
                    self.set_ip_w(w, abs)?;
                },
                Some(DescType::System(SysDescType::Call(gate))) => {
                    let r = self.jump_callgate(sel, gate, cpl, abs);
                    proof {
                        assert(Exec::callgate_jumped(m, self.ac, sel, gate, cpl, abs, r));
                    }
                    return r;
                },
                Some(DescType::System(SysDescType::Task(gate))) => {
                    if gate.DPL < cpl || gate.DPL < rpl {
                        proof {
                            assert(Exec::task_transfer_done(m, self.ac, sel, DescType::System(SysDescType::Task(gate)), TSMode::Jmp, cpl,
                                Err::<(), EmuException>(EmuException::CPUException(CPUException::GP(None)))));
                        }
                        return Err(EmuException::CPUException(CPUException::GP(None)));
                    }
                    let tss_sel = gate.tss_sel;
                    let rg = self.ac.select_taskgate(gate);
                    let ghost m2 = self.ac;
                    proof {
                        assert(Access::taskgate_selected(m, m2, gate, rg));
                        if rg is Err {
                            assert(Exec::task_transfer_done(m, m2, sel, DescType::System(SysDescType::Task(gate)), TSMode::Jmp, cpl,
                                Err::<(), EmuException>(rg->Err_0)));
                        }
                    }
                    let desc = rg?;
                    let rt = self.ac.switch_task(TSMode::Jmp, tss_sel, desc);
                    let ghost x = self.ac;
                    proof {
                        assert(Access::task_switch_done(m2, x, TSMode::Jmp, tss_sel, desc, rt));
                        if rt is Err {
                            assert(Exec::task_transfer_done(m, x, sel, DescType::System(SysDescType::Task(gate)), TSMode::Jmp, cpl, rt));
                        }
                    }
                    rt?;
                    let r = self.ac.update_opadsize();
                    proof {
                        assert(Exec::task_transfer_done(m, self.ac, sel, DescType::System(SysDescType::Task(gate)), TSMode::Jmp, cpl, r));
                    }
                    return r;
                },
                Some(DescType::System(SysDescType::TSS(desc))) => {
                    if desc.DPL < cpl || desc.DPL < rpl {
                        proof {
                            assert(Exec::task_transfer_done(m, self.ac, sel, DescType::System(SysDescType::TSS(desc)), TSMode::Jmp, cpl,
                                Err::<(), EmuException>(EmuException::CPUException(CPUException::GP(None)))));
                        }
                        return Err(EmuException::CPUException(CPUException::GP(None)));
                    }
                    let rt = self.ac.switch_task(TSMode::Jmp, sel, desc);
                    let ghost x = self.ac;
                    proof {
                        assert(Access::task_switch_done(m, x, TSMode::Jmp, sel, desc, rt));
                        if rt is Err {
                            assert(Exec::task_transfer_done(m, x, sel, DescType::System(SysDescType::TSS(desc)), TSMode::Jmp, cpl, rt));
                        }
                    }
                    rt?;
                    let r = self.ac.update_opadsize();
                    proof {
                        assert(Exec::task_transfer_done(m, self.ac, sel, DescType::System(SysDescType::TSS(desc)), TSMode::Jmp, cpl, r));
                    }
                    return r;
                },
                _ => {
                    return Err(EmuException::CPUException(CPUException::GP(None)));
                },
            }
        }
        self.ac.update_opadsize()
    }

    /// `b` is `a` after a far call to `sel`:`abs` (`call_far`) gave `r`.
    pub open spec fn call_far_done(a: Exec, b: Exec, w: Width, sel: u16, abs: u64, r: Result<(), EmuException>) -> bool {
        &&& Exec::same_instr(a, b)
        &&& b.ac.mode == a.ac.mode
        &&& a.ac.mode == CpuMode::Real && abs % 0x1_0000_0000 > a.ac.sgreg(SgReg::CS).cache.limit ==>
                r == Err::<(), EmuException>(EmuException::CPUException(CPUException::GP(None))) && b == a
        &&& a.ac.mode == CpuMode::Real && r is Ok ==> {
                &&& b.ac.core.ip.0 == ip_cut(w, abs)
                &&& b.ac.sgreg(SgReg::CS) == Access::real_segment(sel)
                &&& exists|m0: Access, m1: Access, m2: Access|
                    #![trigger Access::pushes(m0, m1, w, a.ac.sgreg(SgReg::CS).selector.value() as u64, Ok(())), Access::pushes(m1, m2, w, ip_cut(w, a.ac.core.ip.0), Ok(()))]
                    m0.core.gpregs == a.ac.core.gpregs
                    && Access::pushes(m0, m1, w, a.ac.sgreg(SgReg::CS).selector.value() as u64, Ok(()))
                    && Access::pushes(m1, m2, w, ip_cut(w, a.ac.core.ip.0), Ok(()))
                    && b.ac.core == m2.core && b.ac.mem@ == m2.mem@
            }
        &&& a.ac.mode != CpuMode::Real ==> (a.ac.gl_desc(sel).0 matches Ok(Some(DescType::Segment(SegDescType::Code(desc)))) ==> {
                &&& !code_entry_ok(desc, a.ac.cpl(), (sel % 4) as u8, abs, a.ac.oasz.op)
                    ==> r == Err::<(), EmuException>(EmuException::CPUException(CPUException::GP(None)))
                &&& r is Ok ==> entered_code(a.ac, b.ac, w, sel, abs)
                    && exists|m0: Access, m1: Access, m2: Access|
                        #![trigger Access::pushes(m0, m1, w, a.ac.sgreg(SgReg::CS).selector.value() as u64, Ok(())), Access::pushes(m1, m2, w, ip_cut(w, a.ac.core.ip.0), Ok(()))]
                        unchanged_but_tlb(a.ac, m0)
                        && Access::pushes(m0, m1, w, a.ac.sgreg(SgReg::CS).selector.value() as u64, Ok(()))
                        && Access::pushes(m1, m2, w, ip_cut(w, a.ac.core.ip.0), Ok(()))
                        && b.ac.core.gpregs == m2.core.gpregs
            })
        &&& a.ac.mode != CpuMode::Real ==> Exec::far_target_done(a.ac, b.ac, sel, TSMode::CallInt, r)
        &&& a.ac.mode != CpuMode::Real ==> (a.ac.gl_desc(sel).0 matches Ok(Some(DescType::System(SysDescType::Call(g))))
                ==> exists|m: Access| #[trigger] Exec::callgate_called(m, b.ac, w, sel, g, a.ac.cpl(),
                    a.ac.sgreg(SgReg::CS).selector.value() as u64, ip_cut(w, a.ac.core.ip.0), r)
                && unchanged_but_tlb(a.ac, m) && m.tlb@ == a.ac.gl_desc(sel).1)
    }

    /// A far call to `sel:abs`: pushes the return selector and offset in width `w`, then
    /// transfers as a far jump does (a task gate or TSS switches tasks as a call).
    pub fn call_far(&mut self, w: Width, sel: u16, abs: u64) -> (r: Result<(), EmuException>)
        ensures
            Exec::call_far_done(*old(self), *final(self), w, sel, abs, r),
    {
        proof {
            self.ac.core.sgregs.lemma_len();
        }
        let ghost a = self.ac;
        let cs = self.ac.get_sgreg(SgReg::CS)?;
        let cs_sel = cs.0 as u64;
        let ip = self.get_ip_w(w);
        if self.ac.mode == CpuMode::Real {
            if abs % 0x1_0000_0000 > cs.1.limit as u64 {
                return Err(EmuException::CPUException(CPUException::GP(None)));
            }
            self.ac.load_segment(SgReg::CS, sel)?;
            self.set_ip_w(w, abs)?;
            let ghost m0 = self.ac;
            self.push_w(w, cs_sel)?;
            let ghost m1 = self.ac;
            self.push_w(w, ip)?;
            proof {
                assert(Access::pushes(m0, m1, w, a.sgreg(SgReg::CS).selector.value() as u64, Ok(())));
                assert(Access::pushes(m1, self.ac, w, ip_cut(w, a.core.ip.0), Ok(())));
            }
            let ghost m2 = self.ac;
            let r = self.ac.update_opadsize();
            proof {
                assert(self.ac.core == m2.core && self.ac.mem@ == m2.mem@);
            }
            return r;
        } else {
            let cpl = self.ac.get_cpl()?;
            let rpl = (sel % 4) as u8;
            let rdesc = self.ac.obtain_gl_desc(sel);
            let ghost m = self.ac;
            match rdesc? {
                Some(DescType::Segment(SegDescType::Code(cdesc))) => {
                    self.check_code_entry(&cdesc, cpl, rpl, abs)?;
                    let cache = self.ac.select_segdesc(SgReg::CS, cpl, Some(SegDescType::Code(cdesc)))?;
                    let ghost m0 = self.ac;
                    self.push_w(w, cs_sel)?;
                    let ghost m1 = self.ac;
                    self.push_w(w, ip)?;
                    let ghost m2 = self.ac;
                    self.ac.set_sgreg(SgReg::CS, (sel & 0xfff8) | cpl as u16, cache)?;
                    self.set_ip_w(w, abs)?;
                    proof {
                        assert(Access::pushes(m0, m1, w, a.sgreg(SgReg::CS).selector.value() as u64, Ok(())));
                        assert(Access::pushes(m1, m2, w, ip_cut(w, a.core.ip.0), Ok(())));
                    }
                },
                Some(DescType::System(SysDescType::Call(gate))) => {
                    let r = self.call_callgate(w, sel, gate, cpl, cs_sel, ip);
                    proof {
                        assert(cs_sel == a.sgreg(SgReg::CS).selector.value() as u64);
                        assert(ip == ip_cut(w, a.core.ip.0));
                        assert(Exec::callgate_called(m, self.ac, w, sel, gate, cpl,
                            a.sgreg(SgReg::CS).selector.value() as u64, ip_cut(w, a.core.ip.0), r));
                    }
                    return r;
                },
                Some(DescType::System(SysDescType::Task(gate))) => {
                    if gate.DPL < cpl || gate.DPL < rpl {
                        proof {
                            assert(Exec::task_transfer_done(m, self.ac, sel, DescType::System(SysDescType::Task(gate)), TSMode::CallInt, cpl,
                                Err::<(), EmuException>(EmuException::CPUException(CPUException::GP(None)))));
                        }
                        return Err(EmuException::CPUException(CPUException::GP(None)));
                    }
                    let tss_sel = gate.tss_sel;
                    let rg = self.ac.select_taskgate(gate);
                    let ghost m2 = self.ac;
                    proof {
                        assert(Access::taskgate_selected(m, m2, gate, rg));
                        if rg is Err {
                            assert(Exec::task_transfer_done(m, m2, sel, DescType::System(SysDescType::Task(gate)), TSMode::CallInt, cpl,
                                Err::<(), EmuException>(rg->Err_0)));
                        }
                    }
                    let desc = rg?;
                    let rt = self.ac.switch_task(TSMode::CallInt, tss_sel, desc);
                    let ghost x = self.ac;
                    proof {
                        assert(Access::task_switch_done(m2, x, TSMode::CallInt, tss_sel, desc, rt));
                        if rt is Err {
                            assert(Exec::task_transfer_done(m, x, sel, DescType::System(SysDescType::Task(gate)), TSMode::CallInt, cpl, rt));
                        }
                    }
                    rt?;
                    let r = self.ac.update_opadsize();
                    proof {
                        assert(Exec::task_transfer_done(m, self.ac, sel, DescType::System(SysDescType::Task(gate)), TSMode::CallInt, cpl, r));
                    }
                    return r;
                },
                Some(DescType::System(SysDescType::TSS(desc))) => {
                    if desc.DPL < cpl || desc.DPL < rpl {
                        proof {
                            assert(Exec::task_transfer_done(m, self.ac, sel, DescType::System(SysDescType::TSS(desc)), TSMode::CallInt, cpl,
                                Err::<(), EmuException>(EmuException::CPUException(CPUException::GP(None)))));
                        }
                        return Err(EmuException::CPUException(CPUException::GP(None)));
                    }
                    let rt = self.ac.switch_task(TSMode::CallInt, sel, desc);
                    let ghost x = self.ac;
                    proof {
                        assert(Access::task_switch_done(m, x, TSMode::CallInt, sel, desc, rt));
                        if rt is Err {
                            assert(Exec::task_transfer_done(m, x, sel, DescType::System(SysDescType::TSS(desc)), TSMode::CallInt, cpl, rt));
                        }
                    }
                    rt?;
                    let r = self.ac.update_opadsize();
                    proof {
                        assert(Exec::task_transfer_done(m, self.ac, sel, DescType::System(SysDescType::TSS(desc)), TSMode::CallInt, cpl, r));
                    }
                    return r;
                },
                _ => {
                    return Err(EmuException::CPUException(CPUException::GP(None)));
                },
            }
        }
        self.ac.update_opadsize()
    }

    /// `b` is `a` after a return to `new_cs`:`new_ip` in width `w` outside real mode (`return_to`)
    /// gave `r`.
    pub open spec fn returned_to(a: Exec, b: Exec, w: Width, new_ip: u64, new_cs: u16, r: Result<(), EmuException>) -> bool {
        &&& (Exec::same_instr(a, b))
        &&& (b.ac.mode == a.ac.mode)
        &&& ((new_cs % 4) < a.ac.cpl() ==> r == Err::<(), EmuException>(EmuException::CPUException(CPUException::GP(None)))
                && b == a)
        &&& ((new_cs % 4) >= a.ac.cpl() ==> (return_cs(a.ac, new_ip, new_cs) matches Err(e) ==>
                r == Err::<(), EmuException>(e) && unchanged_but_tlb(a.ac, b.ac)))
        &&& (r is Ok ==> (new_cs % 4) >= a.ac.cpl() && (return_cs(a.ac, new_ip, new_cs) matches Ok(c)
                && b.ac.sgreg(SgReg::CS) == returned_cs(new_cs, c)))
        &&& ((new_cs % 4) == a.ac.cpl() ==> (return_cs(a.ac, new_ip, new_cs) matches Ok(c) ==> r is Ok
                && b.ac.core.sgregs@ == a.ac.core.sgregs@.update(1, returned_cs(new_cs, c))
                && a.ac.core.same_but_sgregs(b.ac.core)))
        &&& (r is Ok && (new_cs % 4) > a.ac.cpl() ==> exists|m: Access, m1: Access, m2: Access, sp: u64, ss: u64|
                #![trigger Access::pops(m, m1, w, Ok(sp)), Access::pops(m1, m2, w, Ok(ss))] {
                &&& m.core.sgregs@ == a.ac.core.sgregs@.update(1, b.ac.sgreg(SgReg::CS))
                &&& a.ac.core.same_but_sgregs(m.core)
                &&& Access::pops(m, m1, w, Ok(sp))
                &&& Access::pops(m1, m2, w, Ok(ss))
                &&& b.ac.core.gpregs@ == a.ac.core.gpregs@.update(4, sp)
                &&& b.ac.sgreg(SgReg::SS).selector == SgDescSelector::decode((ss % 0x1_0000) as u16)
                &&& forall|k: int| k == 0 || k == 3 || k == 4 || k == 5 ==> #[trigger] b.ac.core.sgregs@[k]
                    == outer_data_seg(a.ac.core.sgregs@[k], (new_cs % 4) as u8)
                &&& b.ac.core.ip == a.ac.core.ip && b.ac.core.rflags == a.ac.core.rflags
                &&& b.ac.core.cregs == a.ac.core.cregs && b.ac.core.dtregs == a.ac.core.dtregs
                &&& b.ac.core.msr == a.ac.core.msr
            })
        &&& ((new_cs % 4) > a.ac.cpl() && return_cs(a.ac, new_ip, new_cs) is Ok ==> exists|m: Access, m1: Access, v1: Result<u64, EmuException>|
                #[trigger] Access::pops(m, m1, w, v1)
                && m.core.sgregs@ == a.ac.core.sgregs@.update(1, returned_cs(new_cs, return_cs(a.ac, new_ip, new_cs)->Ok_0))
                && a.ac.core.same_but_sgregs(m.core)
                && (v1 matches Err(e) ==> r == Err::<(), EmuException>(e) && b.ac == m1)
                && (v1 is Ok ==> exists|m2: Access, v2: Result<u64, EmuException>| #[trigger] Access::pops(m1, m2, w, v2)
                    && (v2 matches Err(e) ==> r == Err::<(), EmuException>(e) && b.ac == m2)
                    && (v2 is Ok ==> exists|s1: Access, s2: Access, rl: Result<(), EmuException>|
                        #[trigger] Access::load_segment_done(s1, s2, SgReg::SS, (v2->Ok_0 % 0x1_0000) as u16, rl)
                        && Access::gpregs_become(m2, s1, m2.core.gpregs@.update(4, v1->Ok_0))
                        && (rl matches Err(e) ==> r == Err::<(), EmuException>(e) && b.ac == s2)
                        && (rl is Ok ==> r is Ok))))
    }

    /// Loads CS from a far return or interrupt return: checks the code segment descriptor of
    /// `new_cs` against the return's privilege level and offset `new_ip`, and on a return to
    /// an outer level pops the outer stack and clears data segments the outer level may not use.
    fn return_to(&mut self, w: Width, new_ip: u64, new_cs: u16) -> (r: Result<(), EmuException>)
        ensures
            Exec::returned_to(*old(self), *final(self), w, new_ip, new_cs, r),
    {
        let ghost a = self.ac;
        proof {
            self.ac.core.sgregs.lemma_len();
        }
        let cpl = self.ac.get_cpl()?;
        let rpl = (new_cs % 4) as u8;
        if rpl < cpl {
            return Err(EmuException::CPUException(CPUException::GP(None)));
        }
        match self.ac.obtain_gl_desc(new_cs)? {
            Some(DescType::Segment(SegDescType::Code(cdesc))) => {
                if cdesc.Type & 4 != 0 && cdesc.DPL > rpl {
                    return Err(EmuException::CPUException(CPUException::GP(None)));
                }
                if self.ac.oasz.op != AcsSize::BIT64 && new_ip % 0x1_0000_0000 > limit_of(&cdesc) as u64 {
                    return Err(EmuException::CPUException(CPUException::GP(None)));
                }
                let cache = self.ac.select_segdesc(SgReg::CS, rpl, Some(SegDescType::Code(cdesc)))?;
                self.ac.set_sgreg(SgReg::CS, new_cs, cache)?;
            },
            _ => {
                return Err(EmuException::CPUException(CPUException::GP(None)));
            },
        }
        let ghost m = self.ac;
        if rpl > cpl {
            let rp1 = self.pop_w(w);
            let ghost m1 = self.ac;
            proof {
                assert(Access::pops(m, m1, w, rp1));
            }
            let new_sp = rp1?;
            let rp2 = self.pop_w(w);
            let ghost m2 = self.ac;
            proof {
                assert(Access::pops(m1, m2, w, rp2));
            }
            let v2 = rp2?;
            let new_ss = (v2 % 0x1_0000) as u16;
            self.ac.set_gpreg(crate::hardware::processor::general::GpReg64::RSP, new_sp)?;
            let ghost s1 = self.ac;
            let rl = self.ac.load_segment(SgReg::SS, new_ss);
            proof {
                assert(Access::load_segment_done(s1, self.ac, SgReg::SS, (v2 % 0x1_0000) as u16, rl));
            }
            rl?;
            let ghost s = self.ac;
            proof {
                self.ac.core.sgregs.lemma_len();
                a.core.gpregs.lemma_wf();
                assert(m.core.gpregs == a.core.gpregs);
                assert(m1.core.gpregs@ =~= a.core.gpregs@.update(4, m1.core.gpregs@[4]));
                assert(m2.core.gpregs@ =~= a.core.gpregs@.update(4, m2.core.gpregs@[4]));
                assert(s.core.gpregs@ =~= a.core.gpregs@.update(4, new_sp));
            }
            let segs = [SgReg::ES, SgReg::FS, SgReg::GS, SgReg::DS];
            let mut i: usize = 0;
            while i < 4
                invariant
                    i <= 4,
                    Exec::same_instr(*old(self), *self),
                    self.ac.mode == old(self).ac.mode,
                    segs@ == seq![SgReg::ES, SgReg::FS, SgReg::GS, SgReg::DS],
                    self.ac.core.sgregs@.len() == s.core.sgregs@.len(),
                    self.ac.core.gpregs == s.core.gpregs,
                    s.core.same_but_sgregs(self.ac.core),
                    self.ac.core.sgregs@[1] == s.core.sgregs@[1],
                    self.ac.core.sgregs@[2] == s.core.sgregs@[2],
                    s.core.sgregs@.len() == 7,
                    self.ac.core.sgregs@[0] == (if 0 < i { outer_data_seg(s.core.sgregs@[0], rpl) } else { s.core.sgregs@[0] }),
                    self.ac.core.sgregs@[4] == (if 1 < i { outer_data_seg(s.core.sgregs@[4], rpl) } else { s.core.sgregs@[4] }),
                    self.ac.core.sgregs@[5] == (if 2 < i { outer_data_seg(s.core.sgregs@[5], rpl) } else { s.core.sgregs@[5] }),
                    self.ac.core.sgregs@[3] == (if 3 < i { outer_data_seg(s.core.sgregs@[3], rpl) } else { s.core.sgregs@[3] }),
                decreases 4 - i,
            {
                let dpl = self.ac.get_sgreg(segs[i])?.1.DPL;
                if rpl > dpl {
                    self.ac.set_sgreg(segs[i], 0, SgDescCache::default())?;
                }
                i = i + 1;
            }
            proof {
                assert(Access::pops(m, m1, w, Ok(new_sp)) && Access::pops(m1, m2, w, Ok(v2)));
            }
        }
        Ok(())
    }

    /// `b` is `a` after the far return (`ret_far`) gave `r`.
    pub open spec fn ret_far_done(a: Exec, b: Exec, w: Width, r: Result<(), EmuException>) -> bool {
        &&& Exec::same_instr(a, b)
        &&& b.ac.mode == a.ac.mode
        &&& a.ac.mode == CpuMode::Real && r is Ok ==> exists|m1: Access, m2: Access, v1: u64, v2: u64|
                #![trigger Access::pops(a.ac, m1, w, Ok(v1)), Access::pops(m1, m2, w, Ok(v2))]
                Access::pops(a.ac, m1, w, Ok(v1)) && Access::pops(m1, m2, w, Ok(v2))
                && Exec::far_returned(m2, b.ac, w, v1, v2)
        &&& exists|m1: Access, v1: Result<u64, EmuException>| #[trigger] Access::pops(a.ac, m1, w, v1)
                && (v1 matches Err(e) ==> r == Err::<(), EmuException>(e) && b.ac == m1)
                && (v1 is Ok ==> exists|m2: Access, v2: Result<u64, EmuException>| #[trigger] Access::pops(m1, m2, w, v2)
                    && (v2 matches Err(e) ==> r == Err::<(), EmuException>(e) && b.ac == m2)
                    && (a.ac.mode != CpuMode::Real && v2 is Ok ==> Exec::returned_from(Exec { ac: m2, ..a }, b, w,
                        v1->Ok_0, v2->Ok_0, false, r)))
    }

    /// A far return in width `w`.
    pub fn ret_far(&mut self, w: Width) -> (r: Result<(), EmuException>)
        ensures
            Exec::ret_far_done(*old(self), *final(self), w, r),
    {
        let ghost a = self.ac;
        let rv1 = self.pop_w(w);
        let ghost m1 = self.ac;
        proof {
            assert(Access::pops(a, m1, w, rv1));
        }
        let new_ip = rv1?;
        let rv2 = self.pop_w(w);
        let ghost m2 = self.ac;
        proof {
            assert(Access::pops(m1, m2, w, rv2));
        }
        let v2 = rv2?;
        let new_cs = (v2 % 0x1_0000) as u16;
        if self.ac.mode == CpuMode::Real {
            proof {
                self.ac.core.sgregs.lemma_len();
            }
            self.ac.load_segment(SgReg::CS, new_cs)?;
        } else {
            let ghost x = *self;
            let rr = self.return_to(w, new_ip, new_cs);
            let ghost y = *self;
            proof {
                assert(x == Exec { ac: m2, ..*old(self) });
                assert(Exec::returned_to(x, y, w, new_ip, (v2 % 0x1_0000) as u16, rr));
            }
            rr?;
            self.set_ip_w(w, new_ip)?;
            let r = self.ac.update_opadsize();
            proof {
                assert(Exec::resumed_at(y, *self, w, new_ip, r));
                assert(Exec::returned_from(x, *self, w, new_ip, v2, false, r));
            }
            return r;
        }
        self.set_ip_w(w, new_ip)?;
        let r = self.ac.update_opadsize();
        proof {
            if a.mode == CpuMode::Real && r is Ok {
                assert(Access::pops(a, m1, w, Ok(new_ip)) && Access::pops(m1, m2, w, Ok(v2)));
                assert(Exec::far_returned(m2, self.ac, w, new_ip, v2));
            }
        }
        r
    }

    /// `b` continues, after a far return popped `v1` and `v2` from `m` in real mode, at the
    /// popped offset (cut to width `w`) in the popped code segment, the general registers
    /// as `m` left them.
    pub open spec fn far_returned(m: Access, b: Access, w: Width, v1: u64, v2: u64) -> bool {
        &&& b.core.ip.0 == ip_cut(w, v1)
        &&& b.sgreg(SgReg::CS) == Access::real_segment((v2 % 0x1_0000) as u16)
        &&& b.core.gpregs == m.core.gpregs
    }

    /// `b` is `x` after the instruction pointer took `ip` (cut to width `w`) and the operand
    /// and address sizes were set from the code segment, which gave `r`.
    pub open spec fn resumed_at(x: Exec, b: Exec, w: Width, ip: u64, r: Result<(), EmuException>) -> bool {
        &&& Exec::same_instr(x, b)
        &&& b.ac.core.ip.0 == ip_cut(w, ip)
        &&& x.ac.core.same_but_ip(b.ac.core)
        &&& b.ac.mem@ == x.ac.mem@
        &&& b.ac.mode == x.ac.mode
        &&& match crate::emulator::access::opad_for(x.ac.core.msr.efer.LMA, x.ac.sgreg(SgReg::CS).cache.L, x.ac.sgreg(SgReg::CS).cache.DB) {
            Some(o) => r is Ok && b.ac.oasz == o,
            None => r == Err::<(), EmuException>(EmuException::CPUException(CPUException::GP(None))) && b.ac.oasz == x.ac.oasz,
        }
    }

    /// `b` is `x` after a far return or interrupt return outside real mode, which popped
    /// offset `ip` and selector `cs`, went on and gave `r`: from a nested task (`nested`) the
    /// previous task is resumed (`task_restored`); otherwise CS is loaded from `cs`
    /// (`returned_to`; its fault is the result) and execution resumes at `ip` (`resumed_at`).
    pub open spec fn returned_from(x: Exec, b: Exec, w: Width, ip: u64, cs: u64, nested: bool, r: Result<(), EmuException>) -> bool {
        if nested {
            Exec::same_instr(x, b) && Access::task_restored(x.ac, b.ac, r)
        } else {
            exists|y: Exec, rr: Result<(), EmuException>| #[trigger] Exec::returned_to(x, y, w, ip, (cs % 0x1_0000) as u16, rr)
                && (rr matches Err(e) ==> r == Err::<(), EmuException>(e) && b == y)
                && (rr is Ok ==> Exec::resumed_at(y, b, w, ip, r))
        }
    }

    /// `b` is `a` after the interrupt return (`int_ret`) gave `r`.
    pub open spec fn int_ret_done(a: Exec, b: Exec, w: Width, r: Result<(), EmuException>) -> bool {
        &&& Exec::same_instr(a, b)
        &&& b.ac.mode == a.ac.mode
        &&& a.ac.mode == CpuMode::Real && r is Ok ==> exists|m1: Access, m2: Access, m3: Access, v1: u64, v2: u64, v3: u64|
                #![trigger Access::pops(a.ac, m1, w, Ok(v1)), Access::pops(m1, m2, w, Ok(v2)), Access::pops(m2, m3, w, Ok(v3))]
                Access::pops(a.ac, m1, w, Ok(v1)) && Access::pops(m1, m2, w, Ok(v2)) && Access::pops(m2, m3, w, Ok(v3))
                && Exec::far_returned(m3, b.ac, w, v1, v2)
                && b.ac.core.rflags == crate::hardware::processor::rflags::RFlags::decode(v3)
        &&& exists|m1: Access, v1: Result<u64, EmuException>| #[trigger] Access::pops(a.ac, m1, w, v1)
                && (v1 matches Err(e) ==> r == Err::<(), EmuException>(e) && b.ac == m1)
                && (v1 is Ok ==> exists|m2: Access, v2: Result<u64, EmuException>| #[trigger] Access::pops(m1, m2, w, v2)
                    && (v2 matches Err(e) ==> r == Err::<(), EmuException>(e) && b.ac == m2)
                    && (v2 is Ok ==> exists|m3: Access, v3: Result<u64, EmuException>| #[trigger] Access::pops(m2, m3, w, v3)
                        && (v3 matches Err(e) ==> r == Err::<(), EmuException>(e) && b.ac == m3)
                        && (a.ac.mode != CpuMode::Real && v3 is Ok ==> Exec::returned_from(
                            Exec { ac: Access { core: Processor { rflags: RFlags::decode(v3->Ok_0), ..m3.core }, ..m3 }, ..a },
                            b, w, v1->Ok_0, v2->Ok_0, a.ac.core.rflags.NT != 0, r))))
    }

    /// An interrupt return in width `w`: pops the offset, selector and flags; a nested task
    /// returns to the previous task instead.
    pub fn int_ret(&mut self, w: Width) -> (r: Result<(), EmuException>)
        ensures
            Exec::int_ret_done(*old(self), *final(self), w, r),
    {
        let ghost a = self.ac;
        let old_flag = self.ac.core.rflags;
        let rv1 = self.pop_w(w);
        let ghost m1 = self.ac;
        proof {
            assert(Access::pops(a, m1, w, rv1));
        }
        let new_ip = rv1?;
        let rv2 = self.pop_w(w);
        let ghost m2 = self.ac;
        proof {
            assert(Access::pops(m1, m2, w, rv2));
        }
        let v2 = rv2?;
        let new_cs = (v2 % 0x1_0000) as u16;
        let rv3 = self.pop_w(w);
        let ghost m3 = self.ac;
        proof {
            assert(Access::pops(m2, m3, w, rv3));
        }
        let new_flag = rv3?;
        self.ac.core.rflags.from_u64(new_flag);
        if self.ac.mode == CpuMode::Real {
            proof {
                self.ac.core.sgregs.lemma_len();
            }
            self.ac.load_segment(SgReg::CS, new_cs)?;
            self.set_ip_w(w, new_ip)?;
            let r = self.ac.update_opadsize();
            proof {
                if r is Ok {
                    assert(Access::pops(a, m1, w, Ok(new_ip)) && Access::pops(m1, m2, w, Ok(v2)) && Access::pops(m2, m3, w, Ok(new_flag)));
                    assert(Exec::far_returned(m3, self.ac, w, new_ip, v2));
                }
            }
            return r;
        } else {
            let ghost x = *self;
            proof {
                assert(x == Exec { ac: Access { core: Processor { rflags: RFlags::decode(new_flag), ..m3.core }, ..m3 }, ..*old(self) });
            }
            if old_flag.is_nesttask() {
                let r = self.ac.restore_task();
                proof {
                    assert(Exec::returned_from(x, *self, w, new_ip, v2, true, r));
                }
                return r;
            }
            let rr = self.return_to(w, new_ip, new_cs);
            let ghost y = *self;
            proof {
                assert(Exec::returned_to(x, y, w, new_ip, (v2 % 0x1_0000) as u16, rr));
            }
            rr?;
            self.set_ip_w(w, new_ip)?;
            let r = self.ac.update_opadsize();
            proof {
                assert(Exec::resumed_at(y, *self, w, new_ip, r));
                assert(Exec::returned_from(x, *self, w, new_ip, v2, false, r));
            }
            return r;
        }
    }

    /// Loads segment register `reg` with `sel`; CS cannot be loaded this way, and loading SS
    /// updates the stack width.
    pub fn mov_to_sreg(&mut self, reg: SgReg, sel: u16) -> (r: Result<(), EmuException>)
        ensures
            Exec::same_instr(*old(self), *final(self)),
            final(self).ac.mode == old(self).ac.mode,
            reg == SgReg::CS ==> r == Err::<(), EmuException>(EmuException::CPUException(CPUException::UD))
                && *final(self) == *old(self),
            reg != SgReg::CS && r is Ok ==> ({
                &&& final(self).ac.tlb@ == old(self).ac.segment_load(reg, sel).1
                &&& old(self).ac.segment_load(reg, sel).0 is Ok
                &&& final(self).ac.core.sgregs@ == old(self).ac.core.sgregs@.update(reg.num() as int,
                    crate::hardware::processor::segment::SgRegUnit {
                        selector: crate::hardware::processor::segment::SgDescSelector::decode(sel),
                        cache: old(self).ac.segment_load(reg, sel).0->Ok_0,
                    })
            }),
    {
        if reg == SgReg::CS {
            return Err(EmuException::CPUException(CPUException::UD));
        }
        self.ac.load_segment(reg, sel)?;
        if reg == SgReg::SS {
            self.ac.update_stacksize()?;
        }
        Ok(())
    }

    /// Loads the segment register that the ModR/M reg field names with `v`.
    pub fn set_sreg(&mut self, v: u16) -> (r: Result<(), EmuException>)
        ensures
            Exec::same_instr(*old(self), *final(self)),
            final(self).ac.mode == old(self).ac.mode,
            old(self).sreg_of() is None ==> r == Err::<(), EmuException>(EmuException::UnexpectedError),
            old(self).sreg_of() == Some(SgReg::CS) ==> r == Err::<(), EmuException>(EmuException::CPUException(CPUException::UD)),
    {
        match self.sreg_field() {
            Some(s) => self.mov_to_sreg(s, v),
            None => Err(EmuException::UnexpectedError),
        }
    }
}

/// How far a push or pop of width `w` moves the stack: a byte moves it as a word.
pub open spec fn stack_delta(w: Width) -> i8 {
    match w {
        Width::W8 | Width::W16 => 2,
        Width::W32 => 4,
        Width::W64 => 8,
    }
}

/// The part of `v` that a push of width `w` stores.
pub open spec fn stack_value(w: Width, v: u64) -> u64 {
    match w {
        Width::W8 | Width::W16 => (v % 0x1_0000) as u64,
        Width::W32 => (v % 0x1_0000_0000) as u64,
        Width::W64 => v,
    }
}

impl Access {
    /// `b` is `a` after pushing `v` with width `w` gave `r`: the stack pointer moves down and
    /// the value is stored at the new top of the stack segment.
    pub open spec fn pushes(a: Access, b: Access, w: Width, v: u64, r: Result<(), EmuException>) -> bool {
        let d = stack_delta(w);
        &&& same_config(a, b)
        &&& b.core.gpregs@ == a.stack_step((-d) as i8).0
        &&& a.core.same_but_gpregs(b.core)
        &&& Access::stores(a, b, SgReg::SS, a.stack_step((-d) as i8).1, stack_value(w, v), d as nat, r)
    }

    /// `b` is `a` after popping with width `w` gave `r`: the value is read at the top of the
    /// stack segment and the stack pointer moves up.
    pub open spec fn pops(a: Access, b: Access, w: Width, r: Result<u64, EmuException>) -> bool {
        let d = stack_delta(w);
        &&& same_config(a, b)
        &&& b.core.gpregs@ == a.stack_step(d).0
        &&& a.core.same_but_gpregs(b.core)
        &&& Access::loads(a, b, SgReg::SS, vstd::wrapping::u64_specs::wrapping_sub(a.stack_step(d).1, d as u64), d as nat, r)
    }
}

/// `v` cut to the instruction pointer of width `w`.
pub open spec fn ip_cut(w: Width, v: u64) -> u64 {
    match w {
        Width::W64 => v,
        Width::W32 => (v % 0x1_0000_0000) as u64,
        _ => (v % 0x1_0000) as u64,
    }
}

/// A 16-bit stack offset that a push of `d` bytes does not wrap comes back with the pop.
proof fn lemma_step16(rsp: u64, d: i8)
    requires
        d == 2 || d == 4 || d == 8,
        rsp % 0x1_0000 >= d,
    ensures
        ({
            let x = crate::hardware::processor::general::add16(rsp, (-d) as i16);
            let y = crate::hardware::processor::general::add16(x, d as i16);
            &&& y == rsp
            &&& vstd::wrapping::u64_specs::wrapping_sub(crate::hardware::processor::general::low16(y) as u64, d as u64)
                == crate::hardware::processor::general::low16(x) as u64
        }),
{
    let r0 = rsp % 0x1_0000;
    let x = crate::hardware::processor::general::add16(rsp, (-d) as i16);
    assert(x == rsp - d);
    assert(x % 0x1_0000 == r0 - d);
}

/// A 32-bit stack offset that a push of `d` bytes does not wrap comes back with the pop.
proof fn lemma_step32(rsp: u64, d: i8)
    requires
        d == 2 || d == 4 || d == 8,
        rsp % 0x1_0000_0000 >= d,
    ensures
        ({
            let x = crate::hardware::processor::general::add32(rsp, (-d) as i32);
            let y = crate::hardware::processor::general::add32(x, d as i32);
            &&& y == rsp % 0x1_0000_0000
            &&& vstd::wrapping::u64_specs::wrapping_sub(crate::hardware::processor::general::low32(y) as u64, d as u64)
                == crate::hardware::processor::general::low32(x) as u64
        }),
{
    let r0 = rsp % 0x1_0000_0000;
    let x = crate::hardware::processor::general::add32(rsp, (-d) as i32);
    assert(x == r0 - d);
}

/// A 64-bit stack pointer comes back with the pop, the address too.
proof fn lemma_step64(rsp: u64, d: i8)
    requires
        d == 2 || d == 4 || d == 8,
    ensures
        ({
            let x = crate::hardware::processor::general::add64(rsp, (-d) as i64);
            let y = crate::hardware::processor::general::add64(x, d as i64);
            &&& y == rsp
            &&& vstd::wrapping::u64_specs::wrapping_sub(y, d as u64) == x
        }),
{
    assert(vstd::wrapping::u64_specs::wrapping_add_signed(vstd::wrapping::u64_specs::wrapping_add_signed(rsp, (-d) as i64), d as i64) == rsp) by (bit_vector)
        requires
            d == 2 || d == 4 || d == 8,
    ;
    let x = vstd::wrapping::u64_specs::wrapping_add_signed(rsp, (-d) as i64);
    assert(vstd::wrapping::u64_specs::wrapping_sub(vstd::wrapping::u64_specs::wrapping_add_signed(x, d as i64), d as u64) == x) by (bit_vector)
        requires
            d == 2 || d == 4 || d == 8,
    ;
}

/// Stepping the stack pointer down by `d` and up again restores it, and the address read
/// on the way up is the one written on the way down, unless a 16- or 32-bit offset wrapped.
proof fn lemma_stack_back(a: Access, b: Access, d: i8)
    requires
        d == 2 || d == 4 || d == 8,
        a.core.gpregs@.len() == 16,
        b.core.gpregs@ == a.stack_step((-d) as i8).0,
        b.stsz == a.stsz,
        a.stsz == AcsSize::BIT64 || stack_offset(a) >= d,
        a.stsz == AcsSize::BIT32 ==> a.core.gpregs@[4] < 0x1_0000_0000,
    ensures
        b.stack_step(d).0 == a.core.gpregs@,
        vstd::wrapping::u64_specs::wrapping_sub(b.stack_step(d).1, d as u64) == a.stack_step((-d) as i8).1,
{
    let rsp = a.core.gpregs@[4];
    match a.stsz {
        AcsSize::BIT16 => lemma_step16(rsp, d),
        AcsSize::BIT32 => lemma_step32(rsp, d),
        AcsSize::BIT64 => lemma_step64(rsp, d),
    }
    assert(b.stack_step(d).0 =~= a.core.gpregs@);
}

/// The offset within the stack segment that the stack pointer of `a` gives.
pub open spec fn stack_offset(a: Access) -> u64 {
    let rsp = a.core.gpregs@[4];
    match a.stsz {
        AcsSize::BIT16 => rsp % 0x1_0000,
        AcsSize::BIT32 => rsp % 0x1_0000_0000,
        AcsSize::BIT64 => rsp,
    }
}

/// What is pushed is popped: without paging, pushing `v` with width `w` (to memory that no
/// device answers for) and then popping with the same width gives back the part of `v`
/// that the push stored, and the stack pointer its old value. A 16- or 32-bit stack
/// offset must not wrap below zero on the push (the pop then reads another address), and
/// with a 32-bit stack the upper half of the stack pointer must be clear (the push clears
/// it).
pub proof fn law_push_pop(a: Access, b: Access, c: Access, w: Width, v: u64, r: Result<u64, EmuException>)
    requires
        Access::pushes(a, b, w, v, Ok(())),
        Access::pops(b, c, w, r),
        a.core.gpregs@.len() == 16,
        a.pgmd is None,
        a.stsz == AcsSize::BIT64 || stack_offset(a) >= stack_delta(w),
        a.stsz == AcsSize::BIT32 ==> a.core.gpregs@[4] < 0x1_0000_0000,
        a.v2p(crate::emulator::access::memory::MemAccessMode::Write, SgReg::SS, a.stack_step((-stack_delta(w)) as i8).1).0 matches Ok(p)
            ==> !crate::device::memio_hit(a.dev.memio_range@, p, (stack_delta(w) - 1) as u64)
                && crate::hardware::memory::in_bounds(a.mem@, p as int, stack_delta(w) as nat),
    ensures
        r == Ok::<u64, EmuException>(stack_value(w, v)),
        c.core.gpregs@ == a.core.gpregs@,
{
    let d = stack_delta(w);
    let addr = a.stack_step((-d) as i8).1;
    lemma_stack_back(a, b, d);
    crate::emulator::access::memory::law_store_load(a, b, c, SgReg::SS, addr, stack_value(w, v), d as nat, r);
    crate::hardware::memory::lemma_byte_pow_values();
    let sv = stack_value(w, v);
    let bp = crate::hardware::memory::byte_pow(d as nat);
    match w {
        Width::W8 | Width::W16 => {
            assert(bp == 0x1_0000);
            assert(sv < 0x1_0000);
        },
        Width::W32 => {
            assert(bp == 0x1_0000_0000);
            assert(sv < 0x1_0000_0000);
        },
        Width::W64 => {
            assert(bp == 0x1_0000_0000_0000_0000);
        },
    }
    vstd::arithmetic::div_mod::lemma_small_mod(sv as nat, bp);
    assert(c.core.gpregs@ =~= a.core.gpregs@);
}

} // verus!
