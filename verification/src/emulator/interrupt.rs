use vstd::prelude::*;
use std::collections::VecDeque;
use crate::emulator::{EmuException, CPUException};
use crate::emulator::access::{Access, AcsSize, CpuMode, unchanged_but_tlb};
use crate::emulator::access::register::IpAccess;
use crate::emulator::access::descriptor::{DescType, SysDescType, SegDescType, TSMode, IntrTrapGateDesc, frame_bytes, segdesc_select};
use crate::hardware::processor::segment::SgRegUnit;
use crate::hardware::processor::rflags::RFlags;
use crate::hardware::memory::in_bounds;
use crate::hardware::processor::segment::{SgReg, SgDescSelector};
use crate::emulator::access::memory::MemAccessMode;

verus! {

/// An interrupt waiting to be taken: raised by a device, or by an instruction.
#[derive(Clone, Copy, PartialEq, Eq, Structural, Debug)]
pub enum IntrEvent {
    Hardware(u8),
    Software(u8),
}

/// The interrupts waiting to be taken, the next one first.
pub struct Interrupt(pub VecDeque<IntrEvent>);

impl Default for Interrupt {
    fn default() -> (i: Self)
        ensures
            i.0@ == Seq::<IntrEvent>::empty(),
    {
        Interrupt(VecDeque::new())
    }
}

/// The vector of an event and whether a device raised it.
pub open spec fn event_vector(e: IntrEvent) -> (u8, bool) {
    match e {
        IntrEvent::Hardware(n) => (n, true),
        IntrEvent::Software(n) => (n, false),
    }
}

impl Interrupt {
    /// Queues `e` behind the waiting interrupts.
    pub fn enqueue(&mut self, e: IntrEvent)
        ensures
            final(self).0@ == old(self).0@.push(e),
    {
        self.0.push_back(e);
    }

    /// Queues `e` before the waiting interrupts.
    pub fn enqueue_top(&mut self, e: IntrEvent)
        ensures
            final(self).0@ == seq![e] + old(self).0@,
    {
        self.0.push_front(e);
        assert(self.0@ =~= seq![e] + old(self).0@);
    }

    /// Takes the next waiting interrupt, if any, through its vector.
    pub fn handle(&mut self, ac: &mut Access) -> (r: Result<(), EmuException>)
        ensures
            old(self).0@.len() == 0 ==> r is Ok && final(self).0@ == old(self).0@ && *final(ac) == *old(ac),
            old(self).0@.len() > 0 ==> final(self).0@ == old(self).0@.drop_first() && {
                let (n, hw) = event_vector(old(self).0@[0]);
                vector_taken(*old(ac), *final(ac), n, hw, r)
            },
    {
        match self.0.pop_front() {
            Some(e) => {
                let (n, hw) = match e {
                    IntrEvent::Hardware(n) => (n, true),
                    IntrEvent::Software(n) => (n, false),
                };
                interrupt_vector(ac, n, hw)
            },
            None => Ok(()),
        }
    }
}

/// What taking interrupt `ivec` (from a device when `hw`) from `a` gives: `b` and `r`.
///
/// In real mode a vector past the table's limit is a general protection fault and changes
/// nothing; otherwise the vector's entry is read (a translation fault, or an entry outside
/// memory, is the result), the flags, CS and IP are pushed (`frame_attempt`; its fault is the
/// result), then CS and IP take the entry's segment and offset.
///
/// Otherwise the vector's descriptor is read from the interrupt table (its fault is the
/// result): an interrupt or trap gate is entered as `gate_entry_done` says; a task gate of
/// lower privilege than the current level is a general protection fault, else its TSS
/// descriptor is looked up (`taskgate_selected`) and the task switched to
/// (`task_switch_done`); any other descriptor is a general protection fault. The processor
/// mode stays.
pub open spec fn vector_taken(a: Access, b: Access, ivec: u8, hw: bool, r: Result<(), EmuException>) -> bool {
    let gp = Err::<(), EmuException>(EmuException::CPUException(CPUException::GP(None)));
    let laddr = vstd::wrapping::u64_specs::wrapping_add(a.core.dtregs.idtr.base, (ivec as u32 * 4) as u64);
    &&& b.mode == a.mode
    &&& a.mode == CpuMode::Real && ivec as u32 * 4 > a.core.dtregs.idtr.limit ==> r == gp && b == a
    &&& a.mode == CpuMode::Real && ivec as u32 * 4 <= a.core.dtregs.idtr.limit ==> match a.l2p(MemAccessMode::Read, laddr).0 {
        Err(e) => r == Err::<(), EmuException>(e) && unchanged_but_tlb(a, b),
        Ok(p) => if !in_bounds(a.mem@, p as int, 4) {
            r == Err::<(), EmuException>(EmuException::UnexpectedError) && unchanged_but_tlb(a, b)
        } else {
            exists|a1: Access, m3: Access, rs: Result<(), EmuException>|
                #[trigger] Access::frame_attempt(a1, a1, m3, 2, rs)
                && unchanged_but_tlb(a, a1) && a1.tlb@ == a.l2p(MemAccessMode::Read, laddr).1
                && (rs matches Err(e) ==> r == Err::<(), EmuException>(e) && b == m3)
                && (rs is Ok ==> {
                    &&& r is Ok
                    &&& b.core.ip.0 == ivt_word(a.mem@, p as int)
                    &&& b.sgreg(SgReg::CS) == Access::real_segment(ivt_word(a.mem@, p + 2) as u16)
                    &&& b.core.gpregs == m3.core.gpregs && b.core.rflags == m3.core.rflags
                    &&& b.mem@ == m3.mem@
                    &&& exists|m1: Access, m2: Access| #[trigger] Access::frame_saved(a1, m1, m2, m3, 2)
                })
        },
    }
    &&& a.mode != CpuMode::Real ==> match a.i_desc(ivec).0 {
        Err(e) => r == Err::<(), EmuException>(e) && unchanged_but_tlb(a, b),
        Ok(Some(DescType::System(SysDescType::Intr(g)))) => exists|a1: Access| #[trigger] gate_entry_done(a1, b, a.cpl(), g, hw, true, r)
            && unchanged_but_tlb(a, a1) && a1.tlb@ == a.i_desc(ivec).1,
        Ok(Some(DescType::System(SysDescType::Trap(g)))) => exists|a1: Access| #[trigger] gate_entry_done(a1, b, a.cpl(), g, hw, false, r)
            && unchanged_but_tlb(a, a1) && a1.tlb@ == a.i_desc(ivec).1,
        Ok(Some(DescType::System(SysDescType::Task(g)))) => if g.DPL < a.cpl() {
            r == gp && unchanged_but_tlb(a, b)
        } else {
            exists|a1: Access, a2: Access, rt: Result<crate::emulator::access::descriptor::TSSDesc, EmuException>|
                #[trigger] Access::taskgate_selected(a1, a2, g, rt)
                && unchanged_but_tlb(a, a1) && a1.tlb@ == a.i_desc(ivec).1
                && match rt {
                    Err(e) => r == Err::<(), EmuException>(e) && b == a2,
                    Ok(d) => Access::task_switch_done(a2, b, TSMode::CallInt, g.tss_sel, d, r),
                }
        },
        _ => r == gp && unchanged_but_tlb(a, b),
    }
}

/// Takes interrupt `ivec`: in real mode through the vector table, saving the flags, CS and
/// IP; otherwise through an interrupt or trap gate (an interrupt gate also clears IF), with
/// a stack switch to a more privileged level, or a task gate's task switch.
pub fn interrupt_vector(ac: &mut Access, ivec: u8, hw: bool) -> (r: Result<(), EmuException>)
    ensures
        vector_taken(*old(ac), *final(ac), ivec, hw, r),
{
    let ghost a = *ac;
    let limit = ac.core.dtregs.idtr.limit;
    let base = ac.core.dtregs.idtr.base;
    if ac.mode == CpuMode::Real {
        let ivt_ofs = ivec as u32 * 4;
        if ivt_ofs > limit {
            return Err(EmuException::CPUException(CPUException::GP(None)));
        }
        let mut raw: Vec<u8> = vec![0; 4];
        ac.read_l(raw.as_mut_slice(), base.wrapping_add(ivt_ofs as u64), 4)?;
        let offset = raw[0] as u16 + raw[1] as u16 * 0x100;
        let segment = raw[2] as u16 + raw[3] as u16 * 0x100;
        proof {
            let p = a.l2p(MemAccessMode::Read, base.wrapping_add(ivt_ofs as u64)).0->Ok_0;
            assert(raw@[0] == a.mem@[p + 0] && raw@[1] == a.mem@[p + 1]);
            assert(raw@[2] == a.mem@[p + 2] && raw@[3] == a.mem@[p + 3]);
        }
        let ghost a1 = *ac;
        let rs = ac.save_regs(AcsSize::BIT16, None);
        let ghost m3 = *ac;
        proof {
            assert(Access::regs_saved(a1, m3, AcsSize::BIT16, None, rs));
            assert(Access::frame_attempt(a1, a1, m3, 2, rs));
        }
        rs?;
        proof {
            ac.core.sgregs.lemma_len();
        }
        ac.load_segment(SgReg::CS, segment)?;
        let r = ac.set_ip(offset);
        proof {
            let (m1, m2) = choose|m1: Access, m2: Access| #[trigger] Access::frame_saved(a1, m1, m2, m3, frame_bytes(AcsSize::BIT16));
            assert(Access::frame_saved(a1, m1, m2, m3, 2));
        }
        r
    } else {
        let cpl = ac.get_cpl()?;
        match ac.obtain_i_desc(ivec)? {
            Some(DescType::System(SysDescType::Intr(gate))) => gate_entry(ac, cpl, gate, hw, true),
            Some(DescType::System(SysDescType::Trap(gate))) => gate_entry(ac, cpl, gate, hw, false),
            Some(DescType::System(SysDescType::Task(gate))) => {
                if gate.DPL < cpl {
                    return Err(EmuException::CPUException(CPUException::GP(None)));
                }
                let tss_sel = gate.tss_sel;
                let ghost a1 = *ac;
                let rt = ac.select_taskgate(gate);
                let ghost a2 = *ac;
                proof {
                    assert(Access::taskgate_selected(a1, a2, gate, rt));
                }
                let desc = rt?;
                ac.switch_task(TSMode::CallInt, tss_sel, desc)
            },
            _ => Err(EmuException::CPUException(CPUException::GP(None))),
        }
    }
}

/// The entry point of an interrupt or trap gate.
pub open spec fn gate_offset(gate: IntrTrapGateDesc) -> u64 {
    (gate.offset_h as u64 * 0x1_0000 + gate.offset_l as u64) as u64
}

/// `b` runs the handler of `gate`: its code selector and entry point, with interrupts
/// disabled when it is an interrupt gate (`intr`).
pub open spec fn gate_entered(b: Access, gate: IntrTrapGateDesc, intr: bool) -> bool {
    &&& b.core.ip.0 == gate_offset(gate)
    &&& b.sgreg(SgReg::CS).selector == SgDescSelector::decode(gate.selector)
    &&& intr ==> b.core.rflags.IF == 0
}

/// The privilege level that entering a code segment of requested level `rpl` from level
/// `cpl` switches stacks to, if any.
pub open spec fn gate_new_pl(rpl: u8, cpl: u8) -> Option<u8> {
    if rpl < cpl && rpl < 3 { Some(rpl) } else { None }
}

/// The frame size of `gate` in `mode`.
pub open spec fn gate_size(gate: IntrTrapGateDesc, mode: CpuMode) -> AcsSize {
    if gate.D == 0 { AcsSize::BIT16 } else if mode == CpuMode::Long { AcsSize::BIT64 } else { AcsSize::BIT32 }
}

/// `b` is `a` after entering the handler of interrupt or trap gate `gate` (an interrupt gate
/// when `intr`) at privilege level `cpl` gave `r`, for a device's interrupt when `hw`: the
/// gate's code segment is looked up (`intrtrapgate_selected`; its fault is the result); a
/// segment whose requested level is above `cpl`, or, for an interrupt that no device raised,
/// a gate of lower privilege than `cpl`, is a general protection fault; the code segment's
/// cache is selected (`segdesc_select`; its fault is the result); the frame is saved, with a
/// stack switch to a more privileged level (`regs_saved`; its fault is the result); then an
/// interrupt gate clears IF and CS and IP take the handler's selector and entry point.
pub open spec fn gate_entry_done(a: Access, b: Access, cpl: u8, gate: IntrTrapGateDesc, hw: bool, intr: bool, r: Result<(), EmuException>) -> bool {
    exists|a1: Access, rs: Result<(u16, crate::emulator::access::descriptor::SegDesc), EmuException>|
        #[trigger] Access::intrtrapgate_selected(a, a1, gate, rs) && match rs {
            Err(e) => r == Err::<(), EmuException>(e) && b == a1,
            Ok((sel, desc)) => {
                let rpl = (sel & 3) as u8;
                if cpl < rpl || (!hw && cpl > gate.DPL) {
                    r == Err::<(), EmuException>(EmuException::CPUException(CPUException::GP(None))) && b == a1
                } else {
                    match segdesc_select(SgReg::CS, a1.cpl(), rpl, Some(SegDescType::Code(desc))) {
                        Err(e) => r == Err::<(), EmuException>(e) && b == a1,
                        Ok(cache) => exists|a2: Access, r2: Result<(), EmuException>|
                            #[trigger] Access::regs_saved(a1, a2, gate_size(gate, a.mode), gate_new_pl(rpl, cpl), r2)
                            && (r2 matches Err(e) ==> r == Err::<(), EmuException>(e) && b == a2)
                            && (r2 is Ok ==> {
                                &&& r is Ok
                                &&& gate_entered(b, gate, intr)
                                &&& b.sgreg(SgReg::CS) == (SgRegUnit { selector: SgDescSelector::decode(sel), cache })
                                &&& b.core.rflags == (if intr { RFlags { IF: 0, ..a2.core.rflags } } else { a2.core.rflags })
                                &&& b.core.gpregs == a2.core.gpregs
                                &&& b.mem@ == a2.mem@
                                &&& b.mode == a.mode
                            }),
                    }
                }
            },
        }
}

/// Enters the handler of an interrupt (`intr`, which also clears IF) or trap gate at
/// privilege level `cpl`.
fn gate_entry(ac: &mut Access, cpl: u8, gate: IntrTrapGateDesc, hw: bool, intr: bool) -> (r: Result<(), EmuException>)
    requires
        cpl == old(ac).cpl(),
    ensures
        final(ac).mode == old(ac).mode,
        r is Ok ==> gate_entered(*final(ac), gate, intr),
        gate_entry_done(*old(ac), *final(ac), cpl, gate, hw, intr, r),
{
    let new_ip: u32 = gate.offset_h as u32 * 0x1_0000 + gate.offset_l as u32;
    let dpl = gate.DPL;
    let gatesize = if gate.D == 0 {
        AcsSize::BIT16
    } else if ac.mode == CpuMode::Long {
        AcsSize::BIT64
    } else {
        AcsSize::BIT32
    };
    let ghost a = *ac;
    let rs = ac.select_intrtrapgate(gate);
    let ghost a1 = *ac;
    proof {
        assert(Access::intrtrapgate_selected(a, a1, gate, rs));
    }
    let (sel, desc) = rs?;
    let rpl = (sel & 3) as u8;
    if cpl < rpl || (!hw && cpl > dpl) {
        return Err(EmuException::CPUException(CPUException::GP(None)));
    }
    let cache = ac.select_segdesc(SgReg::CS, rpl, Some(SegDescType::Code(desc)))?;
    let new_pl = if rpl < cpl && rpl < 3 { Some(rpl) } else { None };
    let ghost a1b = *ac;
    proof {
        assert(gatesize == gate_size(gate, a.mode));
    }
    let r2 = ac.save_regs(gatesize, new_pl);
    let ghost a2 = *ac;
    proof {
        assert(Access::regs_saved(a1b, a2, gate_size(gate, a.mode), new_pl, r2));
    }
    r2?;
    if intr {
        ac.core.rflags.set_interrupt(false);
    }
    proof {
        ac.core.sgregs.lemma_len();
    }
    ac.set_sgreg(SgReg::CS, sel, cache)?;
    let r = ac.set_ip(new_ip);
    proof {
        assert(ac.core.ip.0 == gate_offset(gate));
    }
    r
}

/// Interrupts are taken in the order they wait: one queued on top is the next taken and leaves
/// the others as they were; one queued behind is taken only after those already waiting.
pub proof fn law_queue_order(q: Seq<IntrEvent>, e: IntrEvent)
    ensures
        (seq![e] + q)[0] == e,
        (seq![e] + q).drop_first() == q,
        q.len() > 0 ==> q.push(e)[0] == q[0] && q.push(e).drop_first() == q.drop_first().push(e),
        q.len() == 0 ==> q.push(e)[0] == e,
{
    assert((seq![e] + q).drop_first() =~= q);
    if q.len() > 0 {
        assert(q.push(e).drop_first() =~= q.drop_first().push(e));
    }
}

/// The little-endian word at `p` of memory `mem`.
pub open spec fn ivt_word(mem: Seq<u8>, p: int) -> u64 {
    (mem[p] + mem[p + 1] * 0x100) as u64
}

/// The entry point of an interrupt or trap gate joins its two offset halves: the high half
/// (bits 48..=63 of the descriptor) above the low half (bits 0..=15).
pub proof fn law_gate_offset_halves(gate: IntrTrapGateDesc, lo: u64)
    ensures
        gate_offset(gate) == ((gate.offset_h as u64) << 16u64) | (gate.offset_l as u64),
        gate_offset(crate::emulator::access::descriptor::intr_trap_gate_of(lo)) == ((lo >> 48u64) << 16u64) | (lo & 0xffffu64),
{
    let h = gate.offset_h as u64;
    let l = gate.offset_l as u64;
    let g = crate::emulator::access::descriptor::intr_trap_gate_of(lo);
    let gh = g.offset_h as u64;
    let gl = g.offset_l as u64;
    assert(
        (h < 0x1_0000 && l < 0x1_0000 ==> (h * 0x1_0000 + l) == (h << 16u64) | l)
        && (gh < 0x1_0000 && gl < 0x1_0000 ==> (gh * 0x1_0000 + gl) == (gh << 16u64) | gl)
        && ((lo >> 48u64) & 0xffffu64 == lo >> 48u64)
        && ((lo >> 48u64) & 0xffffu64 <= 0xffffu64)
        && ((lo >> 0u64) & 0xffffu64 <= 0xffffu64)
        && (lo >> 0u64 == lo)
    ) by (bit_vector);
    assert(h < 0x1_0000 && l < 0x1_0000 && gh < 0x1_0000 && gl < 0x1_0000);
    assert(gh == (lo >> 48u64) & 0xffffu64 && gl == (lo >> 0u64) & 0xffffu64);
}

/// When entering an interrupt or trap gate succeeds, IP holds the upper offset half of
/// `gate` in bits 16..=31 and the lower half in bits 0..=15; an interrupt gate (`intr`)
/// also leaves interrupts disabled.
pub proof fn law_gate_entry_point(a: Access, b: Access, cpl: u8, gate: IntrTrapGateDesc, hw: bool, intr: bool, r: Result<(), EmuException>)
    requires
        gate_entry_done(a, b, cpl, gate, hw, intr, r),
        r is Ok,
    ensures
        b.core.ip.0 == ((gate.offset_h as u64) << 16u64) | (gate.offset_l as u64),
        intr ==> b.core.rflags.IF == 0,
{
    law_gate_offset_halves(gate, 0);
}

/// Outside real mode, an interrupt whose descriptor is an interrupt gate (or a trap gate) is
/// taken, when it succeeds, at that gate's entry point: the high offset half shifted above the
/// low half; an interrupt gate leaves interrupts disabled.
pub proof fn law_interrupt_through_gate(a: Access, b: Access, ivec: u8, hw: bool, r: Result<(), EmuException>, gate: IntrTrapGateDesc)
    requires
        vector_taken(a, b, ivec, hw, r),
        a.mode != CpuMode::Real,
        a.i_desc(ivec).0 == Ok::<Option<DescType>, EmuException>(Some(DescType::System(SysDescType::Intr(gate))))
            || a.i_desc(ivec).0 == Ok::<Option<DescType>, EmuException>(Some(DescType::System(SysDescType::Trap(gate)))),
        r is Ok,
    ensures
        b.core.ip.0 == ((gate.offset_h as u64) << 16u64) | (gate.offset_l as u64),
        a.i_desc(ivec).0 == Ok::<Option<DescType>, EmuException>(Some(DescType::System(SysDescType::Intr(gate)))) ==> b.core.rflags.IF == 0,
{
    if a.i_desc(ivec).0 == Ok::<Option<DescType>, EmuException>(Some(DescType::System(SysDescType::Intr(gate)))) {
        let a1 = choose|a1: Access| #[trigger] gate_entry_done(a1, b, a.cpl(), gate, hw, true, r)
            && unchanged_but_tlb(a, a1) && a1.tlb@ == a.i_desc(ivec).1;
        law_gate_entry_point(a1, b, a.cpl(), gate, hw, true, r);
    } else {
        let a1 = choose|a1: Access| #[trigger] gate_entry_done(a1, b, a.cpl(), gate, hw, false, r)
            && unchanged_but_tlb(a, a1) && a1.tlb@ == a.i_desc(ivec).1;
        law_gate_entry_point(a1, b, a.cpl(), gate, hw, false, r);
    }
}

/// A real-mode vector table word is read little-endian: the low byte first.
pub proof fn law_ivt_word_little_endian(mem: Seq<u8>, p: int)
    ensures
        ivt_word(mem, p) == crate::hardware::memory::le_value(mem, p, 2),
{
    reveal_with_fuel(crate::hardware::memory::le_value, 3);
}

/// A software interrupt cannot enter a gate of higher privilege than the current level: with
/// a gate whose DPL is below `cpl` and no device behind the interrupt, the entry fails.
pub proof fn law_gate_privilege(a: Access, b: Access, cpl: u8, gate: IntrTrapGateDesc, intr: bool, r: Result<(), EmuException>)
    requires
        gate_entry_done(a, b, cpl, gate, false, intr, r),
        cpl > gate.DPL,
    ensures
        r is Err,
{
}

} // verus!
