#![allow(non_snake_case)]
use vstd::prelude::*;
use crate::emulator::{EmuException, CPUException};
use crate::hardware::memory::{le_value, le_store, in_bounds, lemma_le_value_bound, lemma_byte_pow_values, lemma_le_value_shift, lemma_le_store_len, le_from_bytes, le_to_bytes, buf_get_le, buf_put_le};
use crate::hardware::processor::segment::{SgReg, SgDescSelector, SgDescCache, SgRegUnit};
use crate::hardware::processor::descriptor::{DescTbl, DescTblSel};
use crate::hardware::processor::rflags::RFlags;
use crate::hardware::processor::control::{CR3, CRegisters};
use crate::hardware::processor::Processor;
use super::{Access, same_config, AcsSize, CpuMode, unchanged_but_tlb, same_but_core_tlb, same_but_core, dev_same};
use super::register::{GpRegAccess, IpAccess, GpReg16, GpReg32, GpReg64};
use super::memory::{MemAccessMode, TLBView, reads_phys};

verus! {

/// A descriptor as a system or segment descriptor.
#[derive(Clone, Copy, PartialEq, Eq, Structural, Debug)]
pub enum DescType {
    System(SysDescType),
    Segment(SegDescType),
}

/// The kinds of system descriptor.
#[derive(Clone, Copy, PartialEq, Eq, Structural, Debug)]
pub enum SysDescType {
    TSS(TSSDesc),
    LDT(LDTDesc),
    Call(CallGateDesc),
    Task(TaskGateDesc),
    Intr(IntrTrapGateDesc),
    Trap(IntrTrapGateDesc),
}

/// The kinds of segment descriptor.
#[derive(Clone, Copy, PartialEq, Eq, Structural, Debug)]
pub enum SegDescType {
    Data(SegDesc),
    Code(SegDesc),
}

/// The fields that every descriptor shares: its type (bits 40..=43) and the segment flag S
/// (bit 44).
#[derive(Clone, Copy, PartialEq, Eq, Structural, Debug)]
pub struct Desc {
    pub Type: u8,
    pub S: u8,
}

/// A code or data segment descriptor.
#[derive(Clone, Copy, PartialEq, Eq, Structural, Debug)]
pub struct SegDesc {
    pub limit_l: u16,
    pub base_l: u32,
    pub Type: u8,
    pub DPL: u8,
    pub P: u8,
    pub limit_h: u8,
    pub AVL: u8,
    pub L: u8,
    pub DB: u8,
    pub G: u8,
    pub base_h: u8,
}

/// A task state segment descriptor.
#[derive(Clone, Copy, PartialEq, Eq, Structural, Debug)]
pub struct TSSDesc {
    pub limit_l: u16,
    pub base_l: u32,
    /// Busy (bit 41).
    pub B: u8,
    /// 32-bit task state segment (bit 43).
    pub D: u8,
    pub DPL: u8,
    pub P: u8,
    pub limit_h: u8,
    /// Bits 24..=63 of the base (descriptor bits 56..=95).
    pub base_h: u64,
}

/// A local descriptor table descriptor.
#[derive(Clone, Copy, PartialEq, Eq, Structural, Debug)]
pub struct LDTDesc {
    pub limit_l: u16,
    pub base_l: u32,
    pub Type: u8,
    pub P: u8,
    pub limit_h: u8,
    pub base_h: u64,
}

/// A call gate.
#[derive(Clone, Copy, PartialEq, Eq, Structural, Debug)]
pub struct CallGateDesc {
    pub offset_l: u16,
    pub selector: u16,
    pub pc: u8,
    pub Type: u8,
    pub DPL: u8,
    pub P: u8,
    pub offset_h: u16,
}

/// A task gate.
#[derive(Clone, Copy, PartialEq, Eq, Structural, Debug)]
pub struct TaskGateDesc {
    pub tss_sel: u16,
    pub Type: u8,
    pub DPL: u8,
    pub P: u8,
}

/// An interrupt or trap gate.
#[derive(Clone, Copy, PartialEq, Eq, Structural, Debug)]
pub struct IntrTrapGateDesc {
    pub offset_l: u16,
    pub selector: u16,
    pub Type: u8,
    pub D: u8,
    pub DPL: u8,
    pub P: u8,
    pub offset_h: u16,
}

/// An entry of the real-mode interrupt vector table.
#[derive(Clone, Copy, PartialEq, Eq, Structural, Debug)]
pub struct IVT {
    pub offset: u16,
    pub segment: u16,
}

/// What started a task switch.
#[derive(Clone, Copy, PartialEq, Eq, Structural, Debug)]
pub enum TSMode {
    Jmp,
    CallInt,
    Iret,
}

/// The size of a 16-bit task state segment.
pub const TSS16_SIZE: usize = 44;

/// The size of a 32-bit task state segment.
pub const TSS32_SIZE: usize = 104;

/// The bits of a descriptor from bit `k`, `width` bits wide, where `lo` holds bits 0..=63.
pub open spec fn bits(lo: u64, k: u64, mask: u64) -> u64 {
    (lo >> k) & mask
}

pub open spec fn seg_desc_of(lo: u64) -> SegDesc {
    SegDesc {
        limit_l: bits(lo, 0, 0xffff) as u16,
        base_l: bits(lo, 16, 0xff_ffff) as u32,
        Type: bits(lo, 40, 0xf) as u8,
        DPL: bits(lo, 45, 0x3) as u8,
        P: bits(lo, 47, 0x1) as u8,
        limit_h: bits(lo, 48, 0xf) as u8,
        AVL: bits(lo, 52, 0x1) as u8,
        L: bits(lo, 53, 0x1) as u8,
        DB: bits(lo, 54, 0x1) as u8,
        G: bits(lo, 55, 0x1) as u8,
        base_h: bits(lo, 56, 0xff) as u8,
    }
}

/// Bits 56..=95 of a 16-byte descriptor whose halves are `lo` and `hi`.
pub open spec fn base_h_of(lo: u64, hi: u64) -> u64 {
    bits(lo, 56, 0xff) | ((hi & 0xffff_ffff) << 8u64)
}

pub open spec fn tss_desc_of(lo: u64, hi: u64) -> TSSDesc {
    TSSDesc {
        limit_l: bits(lo, 0, 0xffff) as u16,
        base_l: bits(lo, 16, 0xff_ffff) as u32,
        B: bits(lo, 41, 0x1) as u8,
        D: bits(lo, 43, 0x1) as u8,
        DPL: bits(lo, 45, 0x3) as u8,
        P: bits(lo, 47, 0x1) as u8,
        limit_h: bits(lo, 48, 0xf) as u8,
        base_h: base_h_of(lo, hi),
    }
}

pub open spec fn ldt_desc_of(lo: u64, hi: u64) -> LDTDesc {
    LDTDesc {
        limit_l: bits(lo, 0, 0xffff) as u16,
        base_l: bits(lo, 16, 0xff_ffff) as u32,
        Type: bits(lo, 40, 0x7) as u8,
        P: bits(lo, 47, 0x1) as u8,
        limit_h: bits(lo, 48, 0xf) as u8,
        base_h: base_h_of(lo, hi),
    }
}

pub open spec fn call_gate_of(lo: u64) -> CallGateDesc {
    CallGateDesc {
        offset_l: bits(lo, 0, 0xffff) as u16,
        selector: bits(lo, 16, 0xffff) as u16,
        pc: bits(lo, 32, 0xff) as u8,
        Type: bits(lo, 40, 0x7) as u8,
        DPL: bits(lo, 45, 0x3) as u8,
        P: bits(lo, 47, 0x1) as u8,
        offset_h: bits(lo, 48, 0xffff) as u16,
    }
}

pub open spec fn task_gate_of(lo: u64) -> TaskGateDesc {
    TaskGateDesc {
        tss_sel: bits(lo, 16, 0xffff) as u16,
        Type: bits(lo, 40, 0x7) as u8,
        DPL: bits(lo, 45, 0x3) as u8,
        P: bits(lo, 47, 0x1) as u8,
    }
}

pub open spec fn intr_trap_gate_of(lo: u64) -> IntrTrapGateDesc {
    IntrTrapGateDesc {
        offset_l: bits(lo, 0, 0xffff) as u16,
        selector: bits(lo, 16, 0xffff) as u16,
        Type: bits(lo, 40, 0x7) as u8,
        D: bits(lo, 43, 0x1) as u8,
        DPL: bits(lo, 45, 0x3) as u8,
        P: bits(lo, 47, 0x1) as u8,
        offset_h: bits(lo, 48, 0xffff) as u16,
    }
}

/// What the 16-byte descriptor with halves `lo` and `hi` is: a segment descriptor when S is
/// set (code when type bit 3 is set), else the system descriptor its low three type bits name;
/// `None` for a system type of 0.
pub open spec fn classify(lo: u64, hi: u64) -> Option<DescType> {
    let t = bits(lo, 40, 0xf);
    if bits(lo, 44, 0x1) == 0 {
        let st = t & 7;
        if st == 1 || st == 3 {
            Some(DescType::System(SysDescType::TSS(tss_desc_of(lo, hi))))
        } else if st == 2 {
            Some(DescType::System(SysDescType::LDT(ldt_desc_of(lo, hi))))
        } else if st == 4 {
            Some(DescType::System(SysDescType::Call(call_gate_of(lo))))
        } else if st == 5 {
            Some(DescType::System(SysDescType::Task(task_gate_of(lo))))
        } else if st == 6 {
            Some(DescType::System(SysDescType::Intr(intr_trap_gate_of(lo))))
        } else if st == 7 {
            Some(DescType::System(SysDescType::Trap(intr_trap_gate_of(lo))))
        } else {
            None
        }
    } else if t & 8 == 0 {
        Some(DescType::Segment(SegDescType::Data(seg_desc_of(lo))))
    } else {
        Some(DescType::Segment(SegDescType::Code(seg_desc_of(lo))))
    }
}

fn ex_bits(lo: u64, k: u64, mask: u64) -> (r: u64)
    requires
        k < 64,
    ensures
        r == bits(lo, k, mask),
{
    (lo >> k) & mask
}

fn decode_seg(lo: u64) -> (d: SegDesc)
    ensures
        d == seg_desc_of(lo),
{
    SegDesc {
        limit_l: ex_bits(lo, 0, 0xffff) as u16,
        base_l: ex_bits(lo, 16, 0xff_ffff) as u32,
        Type: ex_bits(lo, 40, 0xf) as u8,
        DPL: ex_bits(lo, 45, 0x3) as u8,
        P: ex_bits(lo, 47, 0x1) as u8,
        limit_h: ex_bits(lo, 48, 0xf) as u8,
        AVL: ex_bits(lo, 52, 0x1) as u8,
        L: ex_bits(lo, 53, 0x1) as u8,
        DB: ex_bits(lo, 54, 0x1) as u8,
        G: ex_bits(lo, 55, 0x1) as u8,
        base_h: ex_bits(lo, 56, 0xff) as u8,
    }
}

fn decode_base_h(lo: u64, hi: u64) -> (b: u64)
    ensures
        b == base_h_of(lo, hi),
{
    ex_bits(lo, 56, 0xff) | ((hi & 0xffff_ffff) << 8u64)
}

/// Classifies the 16-byte descriptor with halves `lo` and `hi`.
fn classify_descriptor(lo: u64, hi: u64) -> (r: Option<DescType>)
    ensures
        r == classify(lo, hi),
{
    let t = ex_bits(lo, 40, 0xf);
    if ex_bits(lo, 44, 0x1) == 0 {
        let st = t & 7;
        if st == 1 || st == 3 {
            Some(DescType::System(SysDescType::TSS(TSSDesc {
                limit_l: ex_bits(lo, 0, 0xffff) as u16,
                base_l: ex_bits(lo, 16, 0xff_ffff) as u32,
                B: ex_bits(lo, 41, 0x1) as u8,
                D: ex_bits(lo, 43, 0x1) as u8,
                DPL: ex_bits(lo, 45, 0x3) as u8,
                P: ex_bits(lo, 47, 0x1) as u8,
                limit_h: ex_bits(lo, 48, 0xf) as u8,
                base_h: decode_base_h(lo, hi),
            })))
        } else if st == 2 {
            Some(DescType::System(SysDescType::LDT(LDTDesc {
                limit_l: ex_bits(lo, 0, 0xffff) as u16,
                base_l: ex_bits(lo, 16, 0xff_ffff) as u32,
                Type: ex_bits(lo, 40, 0x7) as u8,
                P: ex_bits(lo, 47, 0x1) as u8,
                limit_h: ex_bits(lo, 48, 0xf) as u8,
                base_h: decode_base_h(lo, hi),
            })))
        } else if st == 4 {
            Some(DescType::System(SysDescType::Call(CallGateDesc {
                offset_l: ex_bits(lo, 0, 0xffff) as u16,
                selector: ex_bits(lo, 16, 0xffff) as u16,
                pc: ex_bits(lo, 32, 0xff) as u8,
                Type: ex_bits(lo, 40, 0x7) as u8,
                DPL: ex_bits(lo, 45, 0x3) as u8,
                P: ex_bits(lo, 47, 0x1) as u8,
                offset_h: ex_bits(lo, 48, 0xffff) as u16,
            })))
        } else if st == 5 {
            Some(DescType::System(SysDescType::Task(TaskGateDesc {
                tss_sel: ex_bits(lo, 16, 0xffff) as u16,
                Type: ex_bits(lo, 40, 0x7) as u8,
                DPL: ex_bits(lo, 45, 0x3) as u8,
                P: ex_bits(lo, 47, 0x1) as u8,
            })))
        } else if st == 6 || st == 7 {
            let g = IntrTrapGateDesc {
                offset_l: ex_bits(lo, 0, 0xffff) as u16,
                selector: ex_bits(lo, 16, 0xffff) as u16,
                Type: ex_bits(lo, 40, 0x7) as u8,
                D: ex_bits(lo, 43, 0x1) as u8,
                DPL: ex_bits(lo, 45, 0x3) as u8,
                P: ex_bits(lo, 47, 0x1) as u8,
                offset_h: ex_bits(lo, 48, 0xffff) as u16,
            };
            if st == 6 {
                Some(DescType::System(SysDescType::Intr(g)))
            } else {
                Some(DescType::System(SysDescType::Trap(g)))
            }
        } else {
            None
        }
    } else if t & 8 == 0 {
        Some(DescType::Segment(SegDescType::Data(decode_seg(lo))))
    } else {
        Some(DescType::Segment(SegDescType::Code(decode_seg(lo))))
    }
}

impl Access {
    /// The current privilege level.
    pub fn get_cpl(&self) -> (r: Result<u8, EmuException>)
        ensures
            r == Ok::<u8, EmuException>(self.cpl()),
    {
        proof {
            self.core.sgregs.lemma_len();
        }
        Ok(self.core.sgregs.get(SgReg::CS).selector.RPL)
    }
}

impl Access {
    /// How many bytes a descriptor takes: 16 in 64-bit mode, else 8.
    pub open spec fn desc_size(self) -> nat {
        if self.mode == CpuMode::Long && self.oasz.ad == AcsSize::BIT64 { 16 } else { 8 }
    }

    /// The descriptor at linear address `addr`, and the TLB afterwards.
    pub open spec fn desc_at(self, addr: u64) -> (Result<Option<DescType>, EmuException>, TLBView) {
        let (t, tlb) = self.l2p(MemAccessMode::Read, addr);
        match t {
            Err(e) => (Err(e), tlb),
            Ok(p) => if in_bounds(self.mem@, p as int, self.desc_size()) {
                let lo = le_value(self.mem@, p as int, 8) as u64;
                let hi = if self.desc_size() == 16 { le_value(self.mem@, p + 8, 8) as u64 } else { 0 };
                (Ok(classify(lo, hi)), tlb)
            } else {
                (Err(EmuException::UnexpectedError), tlb)
            },
        }
    }

    /// The descriptor that selector `sel` designates in the table `(base, limit)`: `None` for
    /// the null selector, a general protection fault past the limit.
    pub open spec fn desc_in(self, sel: u16, base: u64, limit: u32) -> (Result<Option<DescType>, EmuException>, TLBView) {
        let idx = SgDescSelector::decode(sel).IDX as u32 * 8;
        if idx == 0 {
            (Ok(None), self.tlb@)
        } else if idx > limit {
            (Err(EmuException::CPUException(CPUException::GP(Some(sel)))), self.tlb@)
        } else {
            self.desc_at(vstd::wrapping::u64_specs::wrapping_add(base, idx as u64))
        }
    }

    /// The descriptor that `sel` designates in the global or local table.
    pub open spec fn gl_desc(self, sel: u16) -> (Result<Option<DescType>, EmuException>, TLBView) {
        let t = if SgDescSelector::decode(sel).TI == 1 { self.core.dtregs.ldtr.cache } else { self.core.dtregs.gdtr };
        self.desc_in(sel, t.base, t.limit)
    }

    /// The descriptor that `sel` designates in the global table.
    pub open spec fn g_desc(self, sel: u16) -> (Result<Option<DescType>, EmuException>, TLBView) {
        self.desc_in(sel, self.core.dtregs.gdtr.base, self.core.dtregs.gdtr.limit)
    }

    /// The descriptor that the interrupt table holds at index `idx`; a general protection fault
    /// past the table's limit.
    pub open spec fn i_desc(self, idx: u8) -> (Result<Option<DescType>, EmuException>, TLBView) {
        let i = idx as u32 * 8;
        if i > self.core.dtregs.idtr.limit {
            (Err(EmuException::CPUException(CPUException::GP(None))), self.tlb@)
        } else {
            self.desc_at(vstd::wrapping::u64_specs::wrapping_add(self.core.dtregs.idtr.base, i as u64))
        }
    }

    /// Reads the descriptor at linear address `desc_addr`.
    fn obtain_descriptor(&mut self, desc_addr: u64) -> (r: Result<Option<DescType>, EmuException>)
        ensures
            (r, final(self).tlb@) == old(self).desc_at(desc_addr),
            unchanged_but_tlb(*old(self), *final(self)),
    {
        let size: usize = if self.mode == CpuMode::Long && self.oasz.ad == AcsSize::BIT64 { 16 } else { 8 };
        let mut raw: Vec<u8> = vec![0; 16];
        let ghost s0 = *self;
        let res = self.read_l(raw.as_mut_slice(), desc_addr, size);
        if let Err(e) = res {
            return Err(e);
        }
        let ghost p = s0.l2p(MemAccessMode::Read, desc_addr).0->Ok_0;
        let lo_bytes = vstd::slice::slice_subrange(raw.as_slice(), 0, 8);
        proof {
            lemma_le_value_shift(lo_bytes@, 0, self.mem@, p as int, 8);
        }
        let lo = le_from_bytes(lo_bytes);
        let hi = if size == 16 {
            let hi_bytes = vstd::slice::slice_subrange(raw.as_slice(), 8, 16);
            proof {
                assert forall|i: int| 0 <= i < 8 implies #[trigger] hi_bytes@[0 + i] == self.mem@[(p + 8) + i] by {
                    assert(raw@[8 + i] == self.mem@[p + (8 + i)]);
                }
                lemma_le_value_shift(hi_bytes@, 0, self.mem@, p + 8, 8);
            }
            le_from_bytes(hi_bytes)
        } else {
            0
        };
        Ok(classify_descriptor(lo, hi))
    }

    fn obtain_in(&mut self, sel: u16, base: u64, limit: u32) -> (r: Result<Option<DescType>, EmuException>)
        ensures
            (r, final(self).tlb@) == old(self).desc_in(sel, base, limit),
            unchanged_but_tlb(*old(self), *final(self)),
    {
        let selector = SgDescSelector::new(sel);
        proof {
            assert(((sel >> 3u16) & 0x1fff) <= 0x1fff) by (bit_vector);
        }
        let dt_index = selector.IDX as u32 * 8;
        if dt_index == 0 {
            return Ok(None);
        }
        if dt_index > limit {
            return Err(EmuException::CPUException(CPUException::GP(Some(sel))));
        }
        self.obtain_descriptor(base.wrapping_add(dt_index as u64))
    }

    /// The descriptor that `sel` designates in the global or local descriptor table.
    pub fn obtain_gl_desc(&mut self, sel: u16) -> (r: Result<Option<DescType>, EmuException>)
        ensures
            (r, final(self).tlb@) == old(self).gl_desc(sel),
            unchanged_but_tlb(*old(self), *final(self)),
    {
        let selector = SgDescSelector::new(sel);
        let (base, limit) = if selector.TI == 1 {
            self.core.dtregs.ldtr.cache.get()
        } else {
            self.core.dtregs.gdtr.get()
        };
        self.obtain_in(sel, base, limit)
    }

    /// The descriptor that `sel` designates in the global descriptor table.
    pub fn obtain_g_desc(&mut self, sel: u16) -> (r: Result<Option<DescType>, EmuException>)
        ensures
            (r, final(self).tlb@) == old(self).g_desc(sel),
            unchanged_but_tlb(*old(self), *final(self)),
    {
        let (base, limit) = self.core.dtregs.gdtr.get();
        self.obtain_in(sel, base, limit)
    }

    /// The descriptor at index `idx` of the interrupt descriptor table.
    pub fn obtain_i_desc(&mut self, idx: u8) -> (r: Result<Option<DescType>, EmuException>)
        ensures
            (r, final(self).tlb@) == old(self).i_desc(idx),
            unchanged_but_tlb(*old(self), *final(self)),
    {
        let dt_index = idx as u32 * 8;
        let (base, limit) = self.core.dtregs.idtr.get();
        if dt_index > limit {
            return Err(EmuException::CPUException(CPUException::GP(None)));
        }
        self.obtain_descriptor(base.wrapping_add(dt_index as u64))
    }
}

/// The descriptor cache that segment descriptor `d` loads.
pub open spec fn cache_of_seg(d: SegDesc) -> SgDescCache {
    SgDescCache {
        base: (d.base_h as u64 * 0x100_0000 + d.base_l as u64) as u64,
        limit: (d.limit_h as u32 * 0x1_0000 + d.limit_l as u32) as u32,
        Type: d.Type,
        DPL: d.DPL,
        P: d.P,
        AVL: d.AVL,
        L: d.L,
        DB: d.DB,
        G: d.G,
    }
}

/// The table that a TSS or LDT descriptor designates: base `base_h * 2^24 + base_l` (modulo
/// 2^64) and limit `limit_h * 2^16 + limit_l`.
pub open spec fn table_of(base_h: u64, base_l: u32, limit_h: u8, limit_l: u16) -> DescTbl {
    DescTbl {
        base: vstd::wrapping::u64_specs::wrapping_add(base_h << 24u64, base_l as u64),
        limit: (limit_h as u32 * 0x1_0000 + limit_l as u32) as u32,
    }
}

/// A segment descriptor with every field zero.
pub open spec fn zero_seg() -> SegDesc {
    SegDesc { limit_l: 0, base_l: 0, Type: 0, DPL: 0, P: 0, limit_h: 0, AVL: 0, L: 0, DB: 0, G: 0, base_h: 0 }
}

/// The descriptor cache that loading segment register `reg` with descriptor `desc`, at
/// privilege level `cpl` and with requested level `rpl`, gives; or the fault it raises.
pub open spec fn segdesc_select(reg: SgReg, cpl: u8, rpl: u8, desc: Option<SegDescType>) -> Result<SgDescCache, EmuException> {
    match desc {
        None => if reg == SgReg::CS || reg == SgReg::SS {
            Err(EmuException::CPUException(CPUException::GP(Some(0))))
        } else {
            Ok(cache_of_seg(zero_seg()))
        },
        Some(SegDescType::Data(d)) => if reg == SgReg::CS {
            Err(EmuException::CPUException(CPUException::GP(Some(0))))
        } else if reg == SgReg::SS {
            if cpl != rpl || cpl != d.DPL || d.Type & 2 == 0 {
                Err(EmuException::CPUException(CPUException::GP(None)))
            } else if d.P == 0 {
                Err(EmuException::CPUException(CPUException::SS(None)))
            } else {
                Ok(cache_of_seg(d))
            }
        } else if d.P == 0 {
            Err(EmuException::CPUException(CPUException::NP))
        } else {
            Ok(cache_of_seg(d))
        },
        Some(SegDescType::Code(d)) => if reg == SgReg::SS {
            Err(EmuException::CPUException(CPUException::GP(Some(0))))
        } else if reg == SgReg::CS {
            if d.P == 0 {
                Err(EmuException::CPUException(CPUException::NP))
            } else {
                Ok(cache_of_seg(d))
            }
        } else if d.Type & 2 == 0 {
            Err(EmuException::CPUException(CPUException::GP(None)))
        } else if d.P == 0 {
            Err(EmuException::CPUException(CPUException::NP))
        } else {
            Ok(cache_of_seg(d))
        },
    }
}

fn seg_cache(d: SegDesc) -> (c: SgDescCache)
    ensures
        c == cache_of_seg(d),
{
    SgDescCache {
        base: d.base_h as u64 * 0x100_0000 + d.base_l as u64,
        limit: d.limit_h as u32 * 0x1_0000 + d.limit_l as u32,
        Type: d.Type,
        DPL: d.DPL,
        P: d.P,
        AVL: d.AVL,
        L: d.L,
        DB: d.DB,
        G: d.G,
    }
}

fn desc_table(base_h: u64, base_l: u32, limit_h: u8, limit_l: u16) -> (t: DescTbl)
    ensures
        t == table_of(base_h, base_l, limit_h, limit_l),
{
    DescTbl {
        base: (base_h << 24u64).wrapping_add(base_l as u64),
        limit: limit_h as u32 * 0x1_0000 + limit_l as u32,
    }
}

impl From<TSSDesc> for DescTbl {
    fn from(desc: TSSDesc) -> (t: DescTbl) {
        desc_table(desc.base_h, desc.base_l, desc.limit_h, desc.limit_l)
    }
}

impl vstd::std_specs::convert::FromSpecImpl<TSSDesc> for DescTbl {
    open spec fn obeys_from_spec() -> bool {
        true
    }

    open spec fn from_spec(desc: TSSDesc) -> DescTbl {
        table_of(desc.base_h, desc.base_l, desc.limit_h, desc.limit_l)
    }
}

impl From<LDTDesc> for DescTbl {
    fn from(desc: LDTDesc) -> (t: DescTbl) {
        desc_table(desc.base_h, desc.base_l, desc.limit_h, desc.limit_l)
    }
}

impl vstd::std_specs::convert::FromSpecImpl<LDTDesc> for DescTbl {
    open spec fn obeys_from_spec() -> bool {
        true
    }

    open spec fn from_spec(desc: LDTDesc) -> DescTbl {
        table_of(desc.base_h, desc.base_l, desc.limit_h, desc.limit_l)
    }
}

impl From<SegDesc> for SgDescCache {
    fn from(desc: SegDesc) -> (c: SgDescCache) {
        seg_cache(desc)
    }
}

impl vstd::std_specs::convert::FromSpecImpl<SegDesc> for SgDescCache {
    open spec fn obeys_from_spec() -> bool {
        true
    }

    open spec fn from_spec(desc: SegDesc) -> SgDescCache {
        cache_of_seg(desc)
    }
}

impl Default for SegDesc {
    fn default() -> (d: Self)
        ensures
            d == zero_seg(),
    {
        SegDesc { limit_l: 0, base_l: 0, Type: 0, DPL: 0, P: 0, limit_h: 0, AVL: 0, L: 0, DB: 0, G: 0, base_h: 0 }
    }
}

/// The segment descriptor inside `d`, if it is one.
pub open spec fn seg_part(d: Option<DescType>) -> Option<SegDescType> {
    match d {
        Some(DescType::Segment(s)) => Some(s),
        _ => None,
    }
}

impl Access {
    /// The segment register that loading selector `sel` in real mode gives: base `sel` * 16,
    /// with the limit and attributes of a reset segment (limit 0xffff).
    pub open spec fn real_segment(sel: u16) -> SgRegUnit {
        SgRegUnit {
            selector: SgDescSelector::decode(sel),
            cache: SgDescCache { base: (sel as u64 * 16) as u64, ..SgDescCache::reset() },
        }
    }

    /// What loading segment register `reg` with selector `sel` gives: in real mode a cache with
    /// base `sel * 16` and limit 0xffff, else the cache of the descriptor that `sel` designates
    /// (a general protection or stack fault for an unusable one carries the selector); and the
    /// TLB afterwards.
    pub open spec fn segment_load(self, reg: SgReg, sel: u16) -> (Result<SgDescCache, EmuException>, TLBView) {
        if self.mode == CpuMode::Real {
            (Ok(SgDescCache { base: (sel as u64 * 16) as u64, ..SgDescCache::reset() }), self.tlb@)
        } else {
            let (d, tlb) = self.gl_desc(sel);
            match d {
                Err(e) => (Err(e), tlb),
                Ok(Some(DescType::System(_))) => (Err(EmuException::CPUException(CPUException::GP(Some(sel)))), tlb),
                Ok(x) => (match segdesc_select(reg, self.cpl(), (sel % 4) as u8, seg_part(x)) {
                    Ok(c) => Ok(c),
                    Err(EmuException::CPUException(CPUException::GP(None))) => Err(EmuException::CPUException(CPUException::GP(Some(sel)))),
                    Err(EmuException::CPUException(CPUException::SS(None))) => Err(EmuException::CPUException(CPUException::SS(Some(sel)))),
                    Err(e) => Err(e),
                }, tlb),
            }
        }
    }

    /// The descriptor cache that loading `reg` with `desc` gives, at the current privilege level
    /// and requested level `rpl`.
    pub fn select_segdesc(&mut self, reg: SgReg, rpl: u8, desc: Option<SegDescType>) -> (r: Result<SgDescCache, EmuException>)
        ensures
            r == segdesc_select(reg, old(self).cpl(), rpl, desc),
            unchanged_but_tlb(*old(self), *final(self)),
            final(self).tlb@ == old(self).tlb@,
            *final(self) == *old(self),
    {
        let cpl = match self.get_cpl() {
            Ok(c) => c,
            Err(e) => return Err(e),
        };
        let segdesc = match desc {
            None => {
                if reg == SgReg::CS || reg == SgReg::SS {
                    return Err(EmuException::CPUException(CPUException::GP(Some(0))));
                }
                SegDesc::default()
            },
            Some(SegDescType::Data(ddesc)) => {
                if reg == SgReg::CS {
                    return Err(EmuException::CPUException(CPUException::GP(Some(0))));
                } else if reg == SgReg::SS {
                    if cpl != rpl || cpl != ddesc.DPL || ddesc.Type & 2 == 0 {
                        return Err(EmuException::CPUException(CPUException::GP(None)));
                    } else if ddesc.P == 0 {
                        return Err(EmuException::CPUException(CPUException::SS(None)));
                    }
                } else if ddesc.P == 0 {
                    return Err(EmuException::CPUException(CPUException::NP));
                }
                ddesc
            },
            Some(SegDescType::Code(cdesc)) => {
                if reg == SgReg::SS {
                    return Err(EmuException::CPUException(CPUException::GP(Some(0))));
                } else if reg == SgReg::CS {
                    if cdesc.P == 0 {
                        return Err(EmuException::CPUException(CPUException::NP));
                    }
                } else {
                    if cdesc.Type & 2 == 0 {
                        return Err(EmuException::CPUException(CPUException::GP(None)));
                    }
                    if cdesc.P == 0 {
                        return Err(EmuException::CPUException(CPUException::NP));
                    }
                }
                cdesc
            },
        };
        Ok(seg_cache(segdesc))
    }

    /// `b` is `a` after loading segment register `reg` with selector `sel` gave `r` (`load_segment`).
    pub open spec fn load_segment_done(a: Access, b: Access, reg: SgReg, sel: u16, r: Result<(), EmuException>) -> bool {
        &&& b.tlb@ == a.segment_load(reg, sel).1
        &&& same_but_core_tlb(a, b)
        &&& a.core.same_but_sgregs(b.core)
        &&& match a.segment_load(reg, sel).0 {
                Ok(c) => r is Ok && b.core.sgregs@ == a.core.sgregs@.update(reg.num() as int, SgRegUnit {
                    selector: SgDescSelector::decode(sel),
                    cache: c,
                }),
                Err(e) => r == Err::<(), EmuException>(e) && b.core.sgregs == a.core.sgregs,
            }
    }

    /// Loads segment register `reg` with selector `sel`, and the descriptor it designates
    /// outside real mode.
    pub fn load_segment(&mut self, reg: SgReg, sel: u16) -> (r: Result<(), EmuException>)
        ensures
            Access::load_segment_done(*old(self), *final(self), reg, sel, r),
    {
        let cache = if self.mode == CpuMode::Real {
            let mut cache = SgDescCache::default();
            cache.base = sel as u64 * 16;
            cache.limit = 0xffff;
            cache
        } else {
            let rpl = (sel % 4) as u8;
            let desc = match self.obtain_gl_desc(sel) {
                Err(e) => return Err(e),
                Ok(Some(DescType::System(_))) => return Err(EmuException::CPUException(CPUException::GP(Some(sel)))),
                Ok(Some(DescType::Segment(segdsc))) => Some(segdsc),
                Ok(None) => None,
            };
            match self.select_segdesc(reg, rpl, desc) {
                Ok(c) => c,
                Err(EmuException::CPUException(CPUException::GP(None))) => {
                    return Err(EmuException::CPUException(CPUException::GP(Some(sel))));
                },
                Err(EmuException::CPUException(CPUException::SS(None))) => {
                    return Err(EmuException::CPUException(CPUException::SS(Some(sel))));
                },
                Err(e) => return Err(e),
            }
        };
        self.set_sgreg(reg, sel, cache)
    }

    /// The code segment that call gate `desc` leads to, with its selector.
    pub fn select_callgate(&mut self, desc: CallGateDesc) -> (r: Result<(u16, SegDesc), EmuException>)
        ensures
            unchanged_but_tlb(*old(self), *final(self)),
            desc.P == 0 ==> r == Err::<(u16, SegDesc), EmuException>(EmuException::CPUException(CPUException::NP))
                && final(self).tlb@ == old(self).tlb@,
            desc.P != 0 ==> final(self).tlb@ == old(self).gl_desc(desc.selector).1 && r == match old(self).gl_desc(desc.selector).0 {
                Ok(Some(DescType::Segment(SegDescType::Code(c)))) => Ok((desc.selector, c)),
                Err(e) => Err(e),
                _ => Err(EmuException::CPUException(CPUException::GP(Some(desc.selector)))),
            },
    {
        if desc.P == 0 {
            return Err(EmuException::CPUException(CPUException::NP));
        }
        match self.obtain_gl_desc(desc.selector) {
            Ok(Some(DescType::Segment(SegDescType::Code(cdesc)))) => Ok((desc.selector, cdesc)),
            Err(e) => Err(e),
            _ => Err(EmuException::CPUException(CPUException::GP(Some(desc.selector)))),
        }
    }

    /// `b` is `a` after looking up the TSS descriptor of task gate `desc` gave `r`.
    pub open spec fn taskgate_selected(a: Access, b: Access, desc: TaskGateDesc, r: Result<TSSDesc, EmuException>) -> bool {
        &&& unchanged_but_tlb(a, b)
        &&& desc.P == 0 ==> r == Err::<TSSDesc, EmuException>(EmuException::CPUException(CPUException::NP))
                && b.tlb@ == a.tlb@
        &&& desc.P != 0 && SgDescSelector::decode(desc.tss_sel).TI == 1 ==> r == Err::<TSSDesc, EmuException>(
                EmuException::CPUException(CPUException::GP(Some(desc.tss_sel)))) && b.tlb@ == a.tlb@
        &&& desc.P != 0 && SgDescSelector::decode(desc.tss_sel).TI != 1 ==> b.tlb@ == a.g_desc(desc.tss_sel).1
                && r == match a.g_desc(desc.tss_sel).0 {
                    Ok(Some(DescType::System(SysDescType::TSS(t)))) => Ok(t),
                    Err(e) => Err(e),
                    _ => Err(EmuException::CPUException(CPUException::GP(Some(desc.tss_sel)))),
                }
    }

    /// The task state segment descriptor that task gate `desc` leads to.
    pub fn select_taskgate(&mut self, desc: TaskGateDesc) -> (r: Result<TSSDesc, EmuException>)
        ensures
            Access::taskgate_selected(*old(self), *final(self), desc, r),
    {
        if desc.P == 0 {
            return Err(EmuException::CPUException(CPUException::NP));
        }
        if SgDescSelector::new(desc.tss_sel).TI == 1 {
            return Err(EmuException::CPUException(CPUException::GP(Some(desc.tss_sel))));
        }
        match self.obtain_g_desc(desc.tss_sel) {
            Ok(Some(DescType::System(SysDescType::TSS(tssdesc)))) => Ok(tssdesc),
            Err(e) => Err(e),
            _ => Err(EmuException::CPUException(CPUException::GP(Some(desc.tss_sel)))),
        }
    }

    /// `b` is `a` after looking up the code segment of interrupt or trap gate `desc` gave `r`.
    pub open spec fn intrtrapgate_selected(a: Access, b: Access, desc: IntrTrapGateDesc, r: Result<(u16, SegDesc), EmuException>) -> bool {
        &&& unchanged_but_tlb(a, b)
        &&& desc.P == 0 ==> r == Err::<(u16, SegDesc), EmuException>(EmuException::CPUException(CPUException::NP))
                && b.tlb@ == a.tlb@
        &&& desc.P != 0 ==> b.tlb@ == a.gl_desc(desc.selector).1 && r == match a.gl_desc(desc.selector).0 {
                Ok(Some(DescType::Segment(SegDescType::Code(c)))) => Ok((desc.selector, c)),
                Err(e) => Err(e),
                _ => Err(EmuException::CPUException(CPUException::GP(Some(desc.selector)))),
            }
    }

    /// The code segment that interrupt or trap gate `desc` leads to, with its selector.
    pub fn select_intrtrapgate(&mut self, desc: IntrTrapGateDesc) -> (r: Result<(u16, SegDesc), EmuException>)
        ensures
            Access::intrtrapgate_selected(*old(self), *final(self), desc, r),
    {
        if desc.P == 0 {
            return Err(EmuException::CPUException(CPUException::NP));
        }
        match self.obtain_gl_desc(desc.selector) {
            Ok(Some(DescType::Segment(SegDescType::Code(cdesc)))) => Ok((desc.selector, cdesc)),
            Err(e) => Err(e),
            _ => Err(EmuException::CPUException(CPUException::GP(Some(desc.selector)))),
        }
    }
}

pub open spec fn seg_lo(x: SegDesc) -> u64 {
    (x.limit_l as u64 & 0xffff) | ((x.base_l as u64 & 0xff_ffff) << 16u64) | ((x.Type as u64 & 0xf) << 40u64)
        | ((x.DPL as u64 & 0x3) << 45u64) | ((x.P as u64 & 0x1) << 47u64) | ((x.limit_h as u64 & 0xf) << 48u64)
        | ((x.AVL as u64 & 0x1) << 52u64) | ((x.L as u64 & 0x1) << 53u64) | ((x.DB as u64 & 0x1) << 54u64)
        | ((x.G as u64 & 0x1) << 55u64) | ((x.base_h as u64 & 0xff) << 56u64)
}

pub open spec fn tss_lo(t: TSSDesc) -> u64 {
    (t.limit_l as u64 & 0xffff) | ((t.base_l as u64 & 0xff_ffff) << 16u64) | (1u64 << 40u64)
        | ((t.B as u64 & 0x1) << 41u64) | ((t.D as u64 & 0x1) << 43u64) | ((t.DPL as u64 & 0x3) << 45u64)
        | ((t.P as u64 & 0x1) << 47u64) | ((t.limit_h as u64 & 0xf) << 48u64) | ((t.base_h & 0xff) << 56u64)
}

pub open spec fn ldt_lo(t: LDTDesc) -> u64 {
    (t.limit_l as u64 & 0xffff) | ((t.base_l as u64 & 0xff_ffff) << 16u64) | ((t.Type as u64 & 0x7) << 40u64)
        | ((t.P as u64 & 0x1) << 47u64) | ((t.limit_h as u64 & 0xf) << 48u64) | ((t.base_h & 0xff) << 56u64)
}

/// Bits 64..=95 of a TSS or LDT descriptor: the upper part of its base.
pub open spec fn base_hi(base_h: u64) -> u64 {
    (base_h >> 8u64) & 0xffff_ffff
}

pub open spec fn call_lo(c: CallGateDesc) -> u64 {
    (c.offset_l as u64 & 0xffff) | ((c.selector as u64 & 0xffff) << 16u64) | ((c.pc as u64 & 0xff) << 32u64)
        | ((c.Type as u64 & 0x7) << 40u64) | ((c.DPL as u64 & 0x3) << 45u64) | ((c.P as u64 & 0x1) << 47u64)
        | ((c.offset_h as u64 & 0xffff) << 48u64)
}

pub open spec fn task_lo(c: TaskGateDesc) -> u64 {
    ((c.tss_sel as u64 & 0xffff) << 16u64) | ((c.Type as u64 & 0x7) << 40u64) | ((c.DPL as u64 & 0x3) << 45u64)
        | ((c.P as u64 & 0x1) << 47u64)
}

pub open spec fn gate_lo(c: IntrTrapGateDesc) -> u64 {
    (c.offset_l as u64 & 0xffff) | ((c.selector as u64 & 0xffff) << 16u64) | ((c.Type as u64 & 0x7) << 40u64)
        | ((c.D as u64 & 0x1) << 43u64) | ((c.DPL as u64 & 0x3) << 45u64) | ((c.P as u64 & 0x1) << 47u64)
        | ((c.offset_h as u64 & 0xffff) << 48u64)
}

/// The two halves of the 16-byte image of descriptor `d`; the fields are masked to their
/// widths, every other bit is zero except bit 40 of a TSS descriptor, which is one.
pub open spec fn encode(d: DescType) -> (u64, u64) {
    match d {
        DescType::Segment(SegDescType::Code(x)) => (seg_lo(x), 0),
        DescType::Segment(SegDescType::Data(x)) => (seg_lo(x), 0),
        DescType::System(SysDescType::TSS(t)) => (tss_lo(t), base_hi(t.base_h)),
        DescType::System(SysDescType::LDT(t)) => (ldt_lo(t), base_hi(t.base_h)),
        DescType::System(SysDescType::Call(c)) => (call_lo(c), 0),
        DescType::System(SysDescType::Task(c)) => (task_lo(c), 0),
        DescType::System(SysDescType::Intr(c)) => (gate_lo(c), 0),
        DescType::System(SysDescType::Trap(c)) => (gate_lo(c), 0),
    }
}

/// The bytes of the little-endian image of `d`.
pub open spec fn desc_image(d: DescType) -> Seq<u8> {
    let (lo, hi) = encode(d);
    le_store(Seq::new(8, |i: int| 0u8), 0, lo as nat, 8) + le_store(Seq::new(8, |i: int| 0u8), 0, hi as nat, 8)
}

fn encode_descriptor(d: DescType) -> (r: (u64, u64))
    ensures
        r == encode(d),
{
    match d {
        DescType::Segment(SegDescType::Code(x)) | DescType::Segment(SegDescType::Data(x)) => ((x.limit_l as u64 & 0xffff)
            | ((x.base_l as u64 & 0xff_ffff) << 16u64) | ((x.Type as u64 & 0xf) << 40u64) | ((x.DPL as u64 & 0x3) << 45u64)
            | ((x.P as u64 & 0x1) << 47u64) | ((x.limit_h as u64 & 0xf) << 48u64) | ((x.AVL as u64 & 0x1) << 52u64)
            | ((x.L as u64 & 0x1) << 53u64) | ((x.DB as u64 & 0x1) << 54u64) | ((x.G as u64 & 0x1) << 55u64)
            | ((x.base_h as u64 & 0xff) << 56u64), 0),
        DescType::System(SysDescType::TSS(t)) => ((t.limit_l as u64 & 0xffff) | ((t.base_l as u64 & 0xff_ffff) << 16u64)
            | (1u64 << 40u64) | ((t.B as u64 & 0x1) << 41u64) | ((t.D as u64 & 0x1) << 43u64) | ((t.DPL as u64 & 0x3) << 45u64)
            | ((t.P as u64 & 0x1) << 47u64) | ((t.limit_h as u64 & 0xf) << 48u64) | ((t.base_h & 0xff) << 56u64),
            (t.base_h >> 8u64) & 0xffff_ffff),
        DescType::System(SysDescType::LDT(t)) => ((t.limit_l as u64 & 0xffff) | ((t.base_l as u64 & 0xff_ffff) << 16u64)
            | ((t.Type as u64 & 0x7) << 40u64) | ((t.P as u64 & 0x1) << 47u64) | ((t.limit_h as u64 & 0xf) << 48u64)
            | ((t.base_h & 0xff) << 56u64), (t.base_h >> 8u64) & 0xffff_ffff),
        DescType::System(SysDescType::Call(c)) => ((c.offset_l as u64 & 0xffff) | ((c.selector as u64 & 0xffff) << 16u64)
            | ((c.pc as u64 & 0xff) << 32u64) | ((c.Type as u64 & 0x7) << 40u64) | ((c.DPL as u64 & 0x3) << 45u64)
            | ((c.P as u64 & 0x1) << 47u64) | ((c.offset_h as u64 & 0xffff) << 48u64), 0),
        DescType::System(SysDescType::Task(c)) => (((c.tss_sel as u64 & 0xffff) << 16u64) | ((c.Type as u64 & 0x7) << 40u64)
            | ((c.DPL as u64 & 0x3) << 45u64) | ((c.P as u64 & 0x1) << 47u64), 0),
        DescType::System(SysDescType::Intr(c)) | DescType::System(SysDescType::Trap(c)) => ((c.offset_l as u64 & 0xffff)
            | ((c.selector as u64 & 0xffff) << 16u64) | ((c.Type as u64 & 0x7) << 40u64) | ((c.D as u64 & 0x1) << 43u64)
            | ((c.DPL as u64 & 0x3) << 45u64) | ((c.P as u64 & 0x1) << 47u64) | ((c.offset_h as u64 & 0xffff) << 48u64), 0),
    }
}

fn image_bytes(d: DescType) -> (v: Vec<u8>)
    ensures
        v@ == desc_image(d),
        v@.len() == 16,
{
    let (lo, hi) = encode_descriptor(d);
    let mut v = le_to_bytes(lo, 8);
    let mut w = le_to_bytes(hi, 8);
    proof {
        lemma_le_store_len(Seq::new(8, |i: int| 0u8), 0, lo as nat, 8);
        lemma_le_store_len(Seq::new(8, |i: int| 0u8), 0, hi as nat, 8);
    }
    v.append(&mut w);
    v
}

impl Access {
    /// How many bytes installing `d` writes: a TSS or LDT descriptor takes the mode's size,
    /// every other descriptor 8.
    pub open spec fn install_size(self, d: DescType) -> nat {
        match d {
            DescType::System(SysDescType::TSS(_)) => self.desc_size(),
            DescType::System(SysDescType::LDT(_)) => self.desc_size(),
            _ => 8,
        }
    }

    /// `b` is `a` after writing descriptor `d` at linear address `addr` gave `r`.
    pub open spec fn installs(a: Access, b: Access, addr: u64, d: DescType, r: Result<(), EmuException>) -> bool {
        let n = a.install_size(d);
        &&& b.tlb@ == a.l2p(MemAccessMode::Write, addr).1
        &&& a.core == b.core
        &&& dev_same(a.dev, b.dev)
        &&& b.mode == a.mode
        &&& b.oasz == a.oasz
        &&& b.stsz == a.stsz
        &&& b.pgmd == a.pgmd
        &&& b.a20gate == a.a20gate
        &&& match a.l2p(MemAccessMode::Write, addr).0 {
            Ok(p) => if in_bounds(a.mem@, p as int, n) {
                r is Ok && b.mem@ == a.mem@.subrange(0, p as int) + desc_image(d).subrange(0, n as int)
                    + a.mem@.subrange(p + n, a.mem@.len() as int)
            } else {
                r == Err::<(), EmuException>(EmuException::UnexpectedError) && b.mem@ == a.mem@
            },
            Err(e) => r == Err::<(), EmuException>(e) && b.mem@ == a.mem@,
        }
    }

    /// Writes the image of descriptor `desc` at linear address `desc_addr`.
    fn install_descriptor(&mut self, desc_addr: u64, desc: DescType) -> (r: Result<(), EmuException>)
        ensures
            Access::installs(*old(self), *final(self), desc_addr, desc, r),
    {
        let size: usize = match desc {
            DescType::System(SysDescType::TSS(_)) | DescType::System(SysDescType::LDT(_)) => {
                if self.mode == CpuMode::Long && self.oasz.ad == AcsSize::BIT64 { 16 } else { 8 }
            },
            _ => 8,
        };
        let raw = image_bytes(desc);
        match self.write_l(desc_addr, raw.as_slice(), size) {
            Ok(_) => Ok(()),
            Err(e) => Err(e),
        }
    }

    /// `b` is `a` after writing descriptor `desc` into the global descriptor table at
    /// selector `sel` gave `r`: a general protection fault past the table's limit.
    pub open spec fn g_installs(a: Access, b: Access, sel: u16, desc: DescType, r: Result<(), EmuException>) -> bool {
        let idx = SgDescSelector::decode(sel).IDX as u32 * 8;
        if idx > a.core.dtregs.gdtr.limit {
            &&& r == Err::<(), EmuException>(EmuException::CPUException(CPUException::GP(Some(sel))))
            &&& unchanged_but_tlb(a, b)
            &&& b.tlb@ == a.tlb@
        } else {
            Access::installs(a, b, vstd::wrapping::u64_specs::wrapping_add(a.core.dtregs.gdtr.base, idx as u64), desc, r)
        }
    }

    /// Writes descriptor `desc` into the global descriptor table at selector `sel`; a general
    /// protection fault past the table's limit.
    fn install_g_desc(&mut self, sel: u16, desc: DescType) -> (r: Result<(), EmuException>)
        ensures
            Access::g_installs(*old(self), *final(self), sel, desc, r),
    {
        let selector = SgDescSelector::new(sel);
        proof {
            assert(((sel >> 3u16) & 0x1fff) <= 0x1fff) by (bit_vector);
        }
        let dt_index = selector.IDX as u32 * 8;
        let (base, limit) = self.core.dtregs.gdtr.get();
        if dt_index > limit {
            return Err(EmuException::CPUException(CPUException::GP(Some(sel))));
        }
        self.install_descriptor(base.wrapping_add(dt_index as u64), desc)
    }

    /// `b` is `a` after setting (`busy`) or clearing the busy bit of the TSS descriptor `sel` gave `r` (`set_busy_tssdesc`).
    pub open spec fn set_busy_tssdesc_done(a: Access, b: Access, sel: u16, busy: bool, r: Result<(), EmuException>) -> bool {
        &&& b.core == a.core
        &&& dev_same(a.dev, b.dev)
        &&& b.mode == a.mode
        &&& b.oasz == a.oasz
        &&& b.stsz == a.stsz
        &&& b.pgmd == a.pgmd
        &&& b.a20gate == a.a20gate
        &&& a.g_desc(sel).0 matches Err(e) ==> r == Err::<(), EmuException>(e) && b.mem@ == a.mem@
        &&& (a.g_desc(sel).0 matches Ok(d) && !(d matches Some(DescType::System(SysDescType::TSS(_)))))
                ==> r == Err::<(), EmuException>(EmuException::UnexpectedError) && b.mem@ == a.mem@
        &&& a.g_desc(sel).0 matches Ok(Some(DescType::System(SysDescType::TSS(t)))) ==> exists|m: Access|
                #[trigger] Access::g_installs(m, b, sel, busy_marked(t, busy), r)
                && unchanged_but_tlb(a, m) && m.tlb@ == a.g_desc(sel).1
    }

    /// Sets or clears the busy bit of the TSS descriptor that `sel` designates in the global
    /// table; an error when it is not one.
    pub fn set_busy_tssdesc(&mut self, sel: u16, busy: bool) -> (r: Result<(), EmuException>)
        ensures
            Access::set_busy_tssdesc_done(*old(self), *final(self), sel, busy, r),
    {
        match self.obtain_g_desc(sel) {
            Ok(Some(DescType::System(SysDescType::TSS(tssdesc)))) => {
                let mut t = tssdesc;
                t.B = if busy { 1 } else { 0 };
                let ghost m = *self;
                let r = self.install_g_desc(sel, DescType::System(SysDescType::TSS(t)));
                proof {
                    assert(Access::g_installs(m, *self, sel, DescType::System(SysDescType::TSS(t)), r));
                }
                r
            },
            Ok(_) => Err(EmuException::UnexpectedError),
            Err(e) => Err(e),
        }
    }

    /// Loads the local descriptor table register from the LDT descriptor that `sel` designates.
    /// `b` is `a` after loading the LDT register with selector `sel` gave `r`: the descriptor
    /// is looked up in the GDT; an error there, a descriptor that is no LDT, a current
    /// privilege level above 0 or a missing segment is an error and changes no register.
    pub open spec fn ldtr_loaded(a: Access, b: Access, sel: u16, r: Result<(), EmuException>) -> bool {
        &&& b.tlb@ == a.g_desc(sel).1
        &&& same_but_core_tlb(a, b)
        &&& a.core.same_but_dtregs(b.core)
        &&& match a.g_desc(sel).0 {
            Err(e) => r == Err::<(), EmuException>(e) && b.core == a.core,
            Ok(Some(DescType::System(SysDescType::LDT(l)))) => if a.cpl() > 0 {
                r == Err::<(), EmuException>(EmuException::CPUException(CPUException::GP(None))) && b.core == a.core
            } else if l.P == 0 {
                r == Err::<(), EmuException>(EmuException::CPUException(CPUException::NP)) && b.core == a.core
            } else {
                r is Ok && b.core.dtregs == (crate::hardware::processor::descriptor::DTRegisters {
                    ldtr: DescTblSel { selector: sel, cache: table_of(l.base_h, l.base_l, l.limit_h, l.limit_l) },
                    ..a.core.dtregs
                })
            },
            Ok(_) => r == Err::<(), EmuException>(EmuException::CPUException(CPUException::GP(None))) && b.core == a.core,
        }
    }

    pub fn set_ldtr(&mut self, sel: u16) -> (r: Result<(), EmuException>)
        ensures
            Access::ldtr_loaded(*old(self), *final(self), sel, r),
    {
        match self.obtain_g_desc(sel) {
            Ok(Some(DescType::System(SysDescType::LDT(ldtd)))) => {
                let cpl = match self.get_cpl() {
                    Ok(c) => c,
                    Err(e) => return Err(e),
                };
                if cpl > 0 {
                    return Err(EmuException::CPUException(CPUException::GP(None)));
                }
                if ldtd.P == 0 {
                    return Err(EmuException::CPUException(CPUException::NP));
                }
                self.core.dtregs.ldtr.cache = DescTbl::from(ldtd);
                self.core.dtregs.ldtr.selector = sel;
                Ok(())
            },
            Ok(_) => Err(EmuException::CPUException(CPUException::GP(None))),
            Err(e) => Err(e),
        }
    }

    /// Loads the task register from the TSS descriptor that `sel` designates.
    /// `b` is `a` after loading the task register with selector `sel` gave `r`: the
    /// descriptor is looked up in the GDT; an error there, a descriptor that is no TSS or a
    /// missing segment is an error and changes no register.
    pub open spec fn tr_loaded(a: Access, b: Access, sel: u16, r: Result<(), EmuException>) -> bool {
        &&& b.tlb@ == a.g_desc(sel).1
        &&& same_but_core_tlb(a, b)
        &&& a.core.same_but_dtregs(b.core)
        &&& match a.g_desc(sel).0 {
            Err(e) => r == Err::<(), EmuException>(e) && b.core == a.core,
            Ok(Some(DescType::System(SysDescType::TSS(t)))) => if t.P == 0 {
                r == Err::<(), EmuException>(EmuException::CPUException(CPUException::NP)) && b.core == a.core
            } else {
                r is Ok && b.core.dtregs == (crate::hardware::processor::descriptor::DTRegisters {
                    tr: DescTblSel { selector: sel, cache: table_of(t.base_h, t.base_l, t.limit_h, t.limit_l) },
                    ..a.core.dtregs
                })
            },
            Ok(_) => r == Err::<(), EmuException>(EmuException::CPUException(CPUException::GP(None))) && b.core == a.core,
        }
    }

    pub fn set_tr(&mut self, sel: u16) -> (r: Result<(), EmuException>)
        ensures
            Access::tr_loaded(*old(self), *final(self), sel, r),
    {
        match self.obtain_g_desc(sel) {
            Ok(Some(DescType::System(SysDescType::TSS(tssd)))) => {
                if tssd.P == 0 {
                    return Err(EmuException::CPUException(CPUException::NP));
                }
                self.core.dtregs.tr.cache = DescTbl::from(tssd);
                self.core.dtregs.tr.selector = sel;
                Ok(())
            },
            Ok(_) => Err(EmuException::CPUException(CPUException::GP(None))),
            Err(e) => Err(e),
        }
    }
}

impl Access {
    /// `m` is `a` after the current task's state was saved into its task state segment: the
    /// processor state is as in `a`, and memory differs only within one window.
    pub open spec fn tss_saved(a: Access, m: Access, n: nat) -> bool {
        &&& m.core == a.core
        &&& Access::tss_window_written(a, m, n)
    }

    /// `m`'s memory differs from `a`'s only within one window of `n` bytes.
    pub open spec fn tss_window_written(a: Access, m: Access, n: nat) -> bool {
        &&& m.mem@.len() == a.mem@.len()
        &&& exists|q: int| #[trigger] same_outside(a.mem@, m.mem@, q, n)
    }

    /// `b` runs the task of the 32-bit task state segment at linear address `new_base`: its
    /// registers come from the image there (`tss32_loaded`), read after the
    /// state of `a`'s task was saved (which changed `a`'s memory within one such window).
    pub open spec fn tss32_entered(a: Access, b: Access, new_base: u64, nt: bool) -> bool {
        exists|m: Access| #[trigger] Access::tss_window_written(a, m, TSS32_SIZE as nat)
            && (m.image_at(new_base, TSS32_SIZE as nat) matches Some(img) && tss32_loaded(img, b, nt))
    }

    /// `b` runs the task of the 16-bit task state segment at linear address `new_base`: its
    /// registers come from the image there (`tss16_loaded`), read after the state of `a`'s task was saved (which changed `a`'s memory within
    /// one such window).
    pub open spec fn tss16_entered(a: Access, b: Access, new_base: u64, nt: bool) -> bool {
        exists|m: Access| #[trigger] Access::tss_window_written(a, m, TSS16_SIZE as nat)
            && (m.image_at(new_base, TSS16_SIZE as nat) matches Some(img) && tss16_loaded(img, a.core.gpregs@, b, nt))
    }

    /// The `n` bytes of memory at linear address `base`, when it translates and they lie in
    /// memory.
    pub open spec fn image_at(self, base: u64, n: nat) -> Option<Seq<u8>> {
        match self.l2p(MemAccessMode::Read, base).0 {
            Ok(p) => if in_bounds(self.mem@, p as int, n) { Some(self.mem@.subrange(p as int, p + n)) } else { None },
            Err(_) => None,
        }
    }
}

/// The TSS descriptor `t` with its busy bit set where `busy`, cleared elsewhere.
pub open spec fn busy_marked(t: TSSDesc, busy: bool) -> DescType {
    DescType::System(SysDescType::TSS(TSSDesc { B: if busy { 1 } else { 0 }, ..t }))
}

/// `t` agrees with `s` but within the `n` bytes from `q`.
pub open spec fn same_outside(s: Seq<u8>, t: Seq<u8>, q: int, n: nat) -> bool {
    forall|i: int| 0 <= i < s.len() && !(q <= i < q + n) ==> #[trigger] t[i] == s[i]
}

/// The flags that a task switch loads from the saved value `v`, with the nested-task flag
/// set where `nt`.
pub open spec fn task_flags(v: u64, nt: bool) -> RFlags {
    if nt { RFlags { NT: 1, ..RFlags::decode(v) } } else { RFlags::decode(v) }
}

/// `b` holds the state of the 16-bit task state segment image `img`: the low words of the
/// general registers `regs`, the instruction pointer, the flags (the nested-task flag set
/// where `nt`), the selectors of ES, CS, SS and DS, and the LDT selector.
pub open spec fn tss16_loaded(img: Seq<u8>, regs: Seq<u64>, b: Access, nt: bool) -> bool {
    &&& forall|k: int| 0 <= k < 8 ==> #[trigger] b.core.gpregs@[k]
        == crate::hardware::processor::general::with_low16(regs[k], le_value(img, 18 + 2 * k, 2) as u16)
    &&& b.core.ip.0 == le_value(img, 14, 2)
    &&& b.core.rflags == task_flags(le_value(img, 16, 2) as u64, nt)
    &&& forall|k: int| 0 <= k < 4 ==> #[trigger] b.core.sgregs@[k].selector
        == SgDescSelector::decode(le_value(img, 34 + 2 * k, 2) as u16)
    &&& b.core.dtregs.ldtr.selector == le_value(img, 42, 2) as u16
}

/// `b` holds the state of the 32-bit task state segment image `img`: the general registers,
/// the instruction pointer, control register 3, the flags (the nested-task flag set where
/// `nt`), the six segment selectors and the LDT selector.
pub open spec fn tss32_loaded(img: Seq<u8>, b: Access, nt: bool) -> bool {
    &&& forall|k: int| 0 <= k < 8 ==> #[trigger] b.core.gpregs@[k] == le_value(img, 40 + 4 * k, 4)
    &&& b.core.ip.0 == le_value(img, 32, 4)
    &&& b.core.cregs.3 == CR3::decode(le_value(img, 28, 4) as u32)
    &&& b.core.rflags == task_flags(le_value(img, 36, 4) as u64, nt)
    &&& forall|k: int| 0 <= k < 6 ==> #[trigger] b.core.sgregs@[k].selector
        == SgDescSelector::decode(le_value(img, 72 + 4 * k, 2) as u16)
    &&& b.core.dtregs.ldtr.selector == le_value(img, 96, 2) as u16
}

/// `img` with the first `k` general registers of `regs` stored at their places in a task
/// state segment image: the low doublewords from offset 40 in a 32-bit one (`wide`), the low
/// words from offset 18 in a 16-bit one.
pub open spec fn gpregs_stored(img: Seq<u8>, regs: Seq<u64>, wide: bool, k: nat) -> Seq<u8>
    decreases k,
{
    if k == 0 {
        img
    } else if wide {
        le_store(gpregs_stored(img, regs, wide, (k - 1) as nat), 40 + 4 * (k - 1),
            crate::hardware::processor::general::low32(regs[k - 1]) as nat, 4)
    } else {
        le_store(gpregs_stored(img, regs, wide, (k - 1) as nat), 18 + 2 * (k - 1),
            crate::hardware::processor::general::low16(regs[k - 1]) as nat, 2)
    }
}

/// `img` with the selectors of the first `k` segment registers of `c` that a task switch
/// saves (ES, CS, SS, DS, FS, GS) stored at their places in a task state segment image: every
/// 4 bytes from offset 72 in a 32-bit one (`wide`), every 2 bytes from offset 34 in a 16-bit
/// one.
pub open spec fn selectors_stored(img: Seq<u8>, c: Processor, wide: bool, k: nat) -> Seq<u8>
    decreases k,
{
    if k == 0 {
        img
    } else {
        le_store(selectors_stored(img, c, wide, (k - 1) as nat),
            if wide { 72 + 4 * (k - 1) } else { 34 + 2 * (k - 1) },
            c.sgregs@[task_seg(wide, k - 1).num() as int].selector.value() as nat, 2)
    }
}

/// The 32-bit task state segment image `img0` with the state `c` of the task saved into
/// it: the link to the task register's selector, CR3, EIP, EFLAGS, the eight general
/// registers, the six segment selectors and the LDT selector; every other byte as in `img0`.
pub open spec fn tss32_saved_image(img0: Seq<u8>, c: Processor) -> Seq<u8> {
    let s0 = le_store(img0, 0, c.dtregs.tr.selector as nat, 2);
    let s1 = le_store(s0, 28, c.cregs.3.value() as nat, 4);
    let s2 = le_store(s1, 32, crate::hardware::processor::general::low32(c.ip.0) as nat, 4);
    let s3 = le_store(s2, 36, (c.rflags.value() % 0x1_0000_0000) as nat, 4);
    let s4 = gpregs_stored(s3, c.gpregs@, true, 8);
    let s5 = selectors_stored(s4, c, true, 6);
    le_store(s5, 96, c.dtregs.ldtr.selector as nat, 2)
}

/// The 16-bit task state segment image `img0` with the state `c` of the task saved into
/// it: the link to the task register's selector, IP, FLAGS, the eight general registers, the
/// selectors of ES, CS, SS and DS and the LDT selector; every other byte as in `img0`.
pub open spec fn tss16_saved_image(img0: Seq<u8>, c: Processor) -> Seq<u8> {
    let s0 = le_store(img0, 0, c.dtregs.tr.selector as nat, 2);
    let s1 = le_store(s0, 14, crate::hardware::processor::general::low16(c.ip.0) as nat, 2);
    let s2 = le_store(s1, 16, (c.rflags.value() % 0x1_0000) as nat, 2);
    let s3 = gpregs_stored(s2, c.gpregs@, false, 8);
    let s4 = selectors_stored(s3, c, false, 4);
    le_store(s4, 42, c.dtregs.ldtr.selector as nat, 2)
}

/// The image a task switch writes back for the task in state `c` over its image `img0`
/// (`wide`: a 32-bit task state segment).
pub open spec fn tss_saved_image(img0: Seq<u8>, c: Processor, wide: bool) -> Seq<u8> {
    if wide { tss32_saved_image(img0, c) } else { tss16_saved_image(img0, c) }
}

impl Access {
    /// `s` is `a` after switching to the stack of privilege level `pl` that the task state
    /// segment image `img` holds, with entries of `n` bytes (2 or 4): SS gets the selector
    /// stored there and the stack pointer register the stack pointer stored there (its low
    /// word, with 2-byte entries); no other register changes.
    pub open spec fn stack_switched(a: Access, s: Access, img: Seq<u8>, pl: u8, n: i8) -> bool {
        let off: int = if n == 2 { 2 + 4 * pl } else { 4 + 8 * pl };
        &&& same_but_core_tlb(a, s)
        &&& a.core.ip == s.core.ip && a.core.rflags == s.core.rflags && a.core.cregs == s.core.cregs
        &&& a.core.dtregs == s.core.dtregs && a.core.msr == s.core.msr
        &&& s.core.sgregs@ == a.core.sgregs@.update(2, SgRegUnit {
            selector: SgDescSelector::decode(le_value(img, off + n, 2) as u16),
            cache: s.sgreg(SgReg::SS).cache,
        })
        &&& s.core.gpregs@ == a.core.gpregs@.update(4, if n == 2 {
            crate::hardware::processor::general::with_low16(a.core.gpregs@[4], le_value(img, off, 2) as u16)
        } else {
            le_value(img, off, 4) as u64
        })
    }

    /// `b` is `a` after pushing `v1` then `v2`, `n` bytes each, gave `r`: the first push
    /// that faults ends it with its fault.
    pub open spec fn pushes2(a: Access, b: Access, n: i8, v1: u64, v2: u64, r: Result<(), EmuException>) -> bool {
        exists|m1: Access, r1: Result<(), EmuException>| #[trigger] Access::pushed(a, m1, n, v1, r1)
            && (r1 matches Err(e) ==> r == Err::<(), EmuException>(e) && b == m1)
            && (r1 is Ok ==> Access::pushed(m1, b, n, v2, r))
    }

    /// `b` is `a` after pushing `v1`, `v2` then `v3`, `n` bytes each, gave `r`: the first
    /// push that faults ends it with its fault.
    pub open spec fn pushes3(a: Access, b: Access, n: i8, v1: u64, v2: u64, v3: u64, r: Result<(), EmuException>) -> bool {
        exists|m2: Access, r2: Result<(), EmuException>| #[trigger] Access::pushes2(a, m2, n, v1, v2, r2)
            && (r2 matches Err(e) ==> r == Err::<(), EmuException>(e) && b == m2)
            && (r2 is Ok ==> Access::pushed(m2, b, n, v3, r))
    }

    /// `b` is `s` after trying to push the frame of `a` (its flags, code selector and
    /// instruction pointer, `n` bytes each) gave `r`.
    pub open spec fn frame_attempt(a: Access, s: Access, b: Access, n: i8, r: Result<(), EmuException>) -> bool {
        Access::pushes3(s, b, n, low_bytes(a.core.rflags.value(), n), a.sgreg(SgReg::CS).selector.value() as u64,
            low_bytes(a.core.ip.0, n), r)
    }

    /// Whether a frame of gate size `size` can be saved in `mode`.
    pub open spec fn frame_size_ok(mode: CpuMode, size: AcsSize) -> bool {
        ||| (mode == CpuMode::Real || mode == CpuMode::Protected) && size == AcsSize::BIT16
        ||| mode == CpuMode::Protected && size == AcsSize::BIT32
        ||| mode == CpuMode::Long && size == AcsSize::BIT64
    }

    /// `b` is `a` after trying to switch to the stack of privilege level `pl` that the task
    /// state segment holds, for gate size `size` (16 or 32 bits), which gave `r`: the task
    /// state segment is read (a translation fault, or an image outside memory, is the
    /// result); SS is loaded with the selector stored there (a fault is the result); then
    /// the stack pointer is loaded (`stack_switched`).
    #[verifier::opaque]
    pub open spec fn tss_stack_read(a: Access, b: Access, pl: u8, size: AcsSize, r: Result<(), EmuException>) -> bool {
        let n = frame_bytes(size);
        let tsz: nat = if size == AcsSize::BIT16 { TSS16_SIZE as nat } else { TSS32_SIZE as nat };
        let base = a.core.dtregs.tr.cache.base;
        let off: int = if n == 2 { 2 + 4 * pl } else { 4 + 8 * pl };
        match a.l2p(MemAccessMode::Read, base).0 {
            Err(e) => r == Err::<(), EmuException>(e) && unchanged_but_tlb(a, b),
            Ok(p) => if !in_bounds(a.mem@, p as int, tsz) {
                r == Err::<(), EmuException>(EmuException::UnexpectedError) && unchanged_but_tlb(a, b)
            } else {
                let img = a.mem@.subrange(p as int, p + tsz);
                exists|a1: Access| #[trigger] unchanged_but_tlb(a, a1) && a1.tlb@ == a.l2p(MemAccessMode::Read, base).1
                    && match a1.segment_load(SgReg::SS, le_value(img, off + n, 2) as u16).0 {
                        Err(e) => r == Err::<(), EmuException>(e) && unchanged_but_tlb(a, b),
                        Ok(_) => r is Ok && Access::stack_switched(a, b, img, pl, n),
                    }
            },
        }
    }

    /// `b` is `a` after trying, for an interrupt or far call to privilege level `pl` with gate
    /// size `size` (16 or 32 bits), to switch stacks (`tss_stack_read`) and save the frame,
    /// which gave `r`: after the switch the old SS selector and stack pointer are pushed,
    /// then the frame (`frame_attempt`), unless `frame_size_ok` fails, a general protection
    /// fault; the first fault ends it.
    pub open spec fn stack_switch_attempt(a: Access, b: Access, pl: u8, size: AcsSize, r: Result<(), EmuException>) -> bool {
        let n = frame_bytes(size);
        exists|sw: Access, rs: Result<(), EmuException>| #[trigger] Access::tss_stack_read(a, sw, pl, size, rs)
            && (rs matches Err(e) ==> r == Err::<(), EmuException>(e) && b == sw)
            && (rs is Ok ==> exists|p2: Access, r2: Result<(), EmuException>|
                #[trigger] Access::pushes2(sw, p2, n, a.sgreg(SgReg::SS).selector.value() as u64, low_bytes(a.core.gpregs@[4], n), r2)
                && (r2 matches Err(e) ==> r == Err::<(), EmuException>(e) && b == p2)
                && (r2 is Ok ==> if Access::frame_size_ok(a.mode, size) {
                    Access::frame_attempt(a, p2, b, n, r)
                } else {
                    r == Err::<(), EmuException>(EmuException::CPUException(CPUException::GP(None))) && b == p2
                }))
    }

    /// Pushes the low `n` bytes (2, 4 or 8) of `v`.
    fn push_low(&mut self, n: i8, v: u64) -> (r: Result<(), EmuException>)
        requires
            n == 2 || n == 4 || n == 8,
        ensures
            Access::pushed(*old(self), *final(self), n, low_bytes(v, n), r),
    {
        if n == 2 {
            self.push_u16((v % 0x1_0000) as u16)
        } else if n == 4 {
            self.push_u32((v % 0x1_0000_0000) as u32)
        } else {
            self.push_u64(v)
        }
    }

    /// Pushes `v1` then `v2`, the low `n` bytes of each.
    fn push_two(&mut self, n: i8, v1: u64, v2: u64) -> (r: Result<(), EmuException>)
        requires
            n == 2 || n == 4 || n == 8,
        ensures
            Access::pushes2(*old(self), *final(self), n, low_bytes(v1, n), low_bytes(v2, n), r),
    {
        let ghost a = *self;
        let r1 = self.push_low(n, v1);
        let ghost m1 = *self;
        proof {
            assert(Access::pushed(a, m1, n, low_bytes(v1, n), r1));
        }
        r1?;
        self.push_low(n, v2)
    }

    /// Pushes the frame `flags`, `cs`, `ip`, the low `n` bytes of each.
    fn push_frame(&mut self, n: i8, flags: u64, cs: u16, ip: u64) -> (r: Result<(), EmuException>)
        requires
            n == 2 || n == 4 || n == 8,
        ensures
            Access::pushes3(*old(self), *final(self), n, low_bytes(flags, n), cs as u64, low_bytes(ip, n), r),
    {
        let ghost a = *self;
        let r2 = self.push_two(n, flags, cs as u64);
        let ghost m2 = *self;
        proof {
            assert(low_bytes(cs as u64, n) == cs as u64);
            assert(Access::pushes2(a, m2, n, low_bytes(flags, n), cs as u64, r2));
        }
        r2?;
        self.push_low(n, ip)
    }

    /// A push that succeeded is a push that gave `Ok(())`.
    pub proof fn lemma_pushed_ok(a: Access, b: Access, n: i8, v: u64, r: Result<(), EmuException>)
        requires
            Access::pushed(a, b, n, v, r),
            r is Ok,
        ensures
            Access::pushed(a, b, n, v, Ok(())),
    {
        reveal(Access::stores);
    }

    /// A frame saved without a fault went through three pushes.
    pub proof fn lemma_frame_ok(a: Access, b: Access, n: i8, r: Result<(), EmuException>)
        requires
            Access::frame_attempt(a, a, b, n, r),
            r is Ok,
        ensures
            exists|m1: Access, m2: Access| #[trigger] Access::frame_saved(a, m1, m2, b, n),
    {
        let v1 = low_bytes(a.core.rflags.value(), n);
        let v2 = a.sgreg(SgReg::CS).selector.value() as u64;
        let (m2, r2) = choose|m2: Access, r2: Result<(), EmuException>| #[trigger] Access::pushes2(a, m2, n, v1, v2, r2)
            && (r2 matches Err(e) ==> r == Err::<(), EmuException>(e) && b == m2)
            && (r2 is Ok ==> Access::pushed(m2, b, n, low_bytes(a.core.ip.0, n), r));
        assert(r2 is Ok);
        let (m1, r1) = choose|m1: Access, r1: Result<(), EmuException>| #[trigger] Access::pushed(a, m1, n, v1, r1)
            && (r1 matches Err(e) ==> r2 == Err::<(), EmuException>(e) && m2 == m1)
            && (r1 is Ok ==> Access::pushed(m1, m2, n, v2, r2));
        assert(r1 is Ok);
        Access::lemma_pushed_ok(a, m1, n, v1, r1);
        Access::lemma_pushed_ok(m1, m2, n, v2, r2);
        Access::lemma_pushed_ok(m2, b, n, low_bytes(a.core.ip.0, n), r);
        assert(Access::frame_saved(a, m1, m2, b, n));
    }

    /// Switches to the stack of privilege level `pl` that the task state segment holds.
    #[verifier::spinoff_prover]
    #[verifier::rlimit(60)]
    fn switch_to_tss_stack(&mut self, size: AcsSize, pl: u8) -> (r: Result<(), EmuException>)
        requires
            pl <= 2,
            size == AcsSize::BIT16 || size == AcsSize::BIT32,
        ensures
            Access::tss_stack_read(*old(self), *final(self), pl, size, r),
            r is Ok ==> final(self).core.rflags == old(self).core.rflags && final(self).core.ip == old(self).core.ip
                && final(self).sgreg(SgReg::CS) == old(self).sgreg(SgReg::CS),
            final(self).mode == old(self).mode,
            final(self).oasz == old(self).oasz,
            final(self).stsz == old(self).stsz,
            final(self).pgmd == old(self).pgmd,
            final(self).a20gate == old(self).a20gate,
    {
        let ghost a = *self;
        proof {
            self.core.sgregs.lemma_len();
            self.core.gpregs.lemma_wf();
        }
        proof {
            reveal(Access::tss_stack_read);
        }
        let n: i8 = if size == AcsSize::BIT16 { 2 } else { 4 };
        let tssd = self.core.dtregs.tr.cache;
        let tsz: usize = if size == AcsSize::BIT16 { TSS16_SIZE } else { TSS32_SIZE };
        let mut tss: Vec<u8> = vec![0; tsz];
        self.read_l(tss.as_mut_slice(), tssd.base, tsz)?;
        let ghost a1 = *self;
        let ghost img = tss@;
        proof {
            let p = a.l2p(MemAccessMode::Read, tssd.base).0->Ok_0;
            assert(img =~= a.mem@.subrange(p as int, p + tsz));
        }
        let off: usize = if n == 2 { 2 + pl as usize * 4 } else { 4 + pl as usize * 8 };
        proof {
            lemma_le_value_bound(img, off as int, 4);
            lemma_le_value_bound(img, off as int, 2);
            lemma_byte_pow_values();
        }
        let ss = buf_get_le(tss.as_slice(), off + n as usize, 2) as u16;
        self.load_segment(SgReg::SS, ss)?;
        if n == 2 {
            let sp = buf_get_le(tss.as_slice(), off, 2) as u16;
            self.set_gpreg(GpReg16::SP, sp)?;
        } else {
            let esp = buf_get_le(tss.as_slice(), off, 4) as u32;
            self.set_gpreg(GpReg32::ESP, esp)?;
        }
        proof {
            assert(Access::stack_switched(a, *self, img, pl, n));
        }
        Ok(())
    }

    /// On a privilege change to `pl`, switches to that level's stack from the task state
    /// segment, pushes the old stack, then the frame `flags`, `cs_sel`, `ip` of the current
    /// state where `ok`, else fails.
    #[verifier::spinoff_prover]
    #[verifier::rlimit(60)]
    fn save_on_new_stack(&mut self, size: AcsSize, pl: u8, flags: u64, cs_sel: u16, ip: u64, ok: bool) -> (r: Result<(), EmuException>)
        requires
            pl <= 2,
            size == AcsSize::BIT16 || size == AcsSize::BIT32,
            flags == old(self).core.rflags.value(),
            cs_sel == old(self).sgreg(SgReg::CS).selector.value(),
            ip == old(self).core.ip.0,
            ok == Access::frame_size_ok(old(self).mode, size),
        ensures
            Access::stack_switch_attempt(*old(self), *final(self), pl, size, r),
            final(self).mode == old(self).mode,
            final(self).oasz == old(self).oasz,
            final(self).stsz == old(self).stsz,
            final(self).pgmd == old(self).pgmd,
            final(self).a20gate == old(self).a20gate,
    {
        let ghost a = *self;
        proof {
            self.core.sgregs.lemma_len();
            self.core.gpregs.lemma_wf();
        }
        let n: i8 = if size == AcsSize::BIT16 { 2 } else { 4 };
        let old_rsp: u64 = self.get_gpreg(GpReg64::RSP)?;
        let old_ss = self.get_sgreg(SgReg::SS)?.0;
        proof {
            assert(n == frame_bytes(size));
        }
        let rs = self.switch_to_tss_stack(size, pl);
        let ghost sw = *self;
        proof {
            assert(Access::tss_stack_read(a, sw, pl, size, rs));
        }
        rs?;
        let r2 = self.push_two(n, old_ss as u64, old_rsp);
        let ghost p2 = *self;
        proof {
            assert(low_bytes(old_ss as u64, n) == old_ss as u64);
            assert(Access::pushes2(sw, p2, n, a.sgreg(SgReg::SS).selector.value() as u64, low_bytes(a.core.gpregs@[4], n), r2));
        }
        r2?;
        if !ok {
            return Err(EmuException::CPUException(CPUException::GP(None)));
        }
        let r = self.push_frame(n, flags, cs_sel, ip);
        proof {
            assert(a.core.rflags == sw.core.rflags);
            assert(Access::frame_attempt(a, p2, *self, n, r));
        }
        r
    }

    /// `b` is `a` after saving an interrupt's or far call's frame of gate size `size`, with a
    /// privilege change to `new_pl` where it is `Some`, gave `r` (see `save_regs`).
    pub open spec fn regs_saved(a: Access, b: Access, size: AcsSize, new_pl: Option<u8>, r: Result<(), EmuException>) -> bool {
        &&& new_pl is None && !Access::frame_size_ok(a.mode, size)
                ==> r == Err::<(), EmuException>(EmuException::CPUException(CPUException::GP(None)))
                    && unchanged_but_tlb(a, b) && b.tlb@ == a.tlb@
        &&& new_pl is None && Access::frame_size_ok(a.mode, size)
                ==> Access::frame_attempt(a, a, b, frame_bytes(size), r)
        &&& new_pl is None && r is Ok ==> exists|m1: Access, m2: Access|
                #[trigger] Access::frame_saved(a, m1, m2, b, frame_bytes(size))
        &&& new_pl is Some && size == AcsSize::BIT64 ==> exists|rp: Result<(), EmuException>|
                #[trigger] Access::pushed(a, b, 8, a.core.gpregs@[4], rp)
                && r == (match rp {
                    Ok(_) => Err::<(), EmuException>(EmuException::NotImplementedFunction),
                    Err(e) => Err(e),
                })
        &&& new_pl is Some && size == AcsSize::BIT16 && a.core.dtregs.tr.cache.limit < TSS16_SIZE - 1
                ==> r == Err::<(), EmuException>(EmuException::CPUException(CPUException::TS))
                    && unchanged_but_tlb(a, b) && b.tlb@ == a.tlb@
        &&& new_pl is Some && size == AcsSize::BIT32 && a.core.dtregs.tr.cache.limit < TSS32_SIZE - 1
                ==> r == Err::<(), EmuException>(EmuException::CPUException(CPUException::TS))
                    && unchanged_but_tlb(a, b) && b.tlb@ == a.tlb@
        &&& new_pl is Some && ((size == AcsSize::BIT16 && a.core.dtregs.tr.cache.limit >= TSS16_SIZE - 1)
                || (size == AcsSize::BIT32 && a.core.dtregs.tr.cache.limit >= TSS32_SIZE - 1))
                ==> Access::stack_switch_attempt(a, b, new_pl->Some_0, size, r)
        &&& b.mode == a.mode
        &&& b.oasz == a.oasz
        &&& b.stsz == a.stsz
        &&& b.pgmd == a.pgmd
        &&& b.a20gate == a.a20gate
    }

    /// Pushes what an interrupt or far call saves: on a privilege change to `new_pl`, first
    /// switches to that level's stack from the task state segment and pushes the old stack
    /// pointer; then the flags, the code selector and the instruction pointer, in the width
    /// `size`.
    #[verifier::spinoff_prover]
    #[verifier::rlimit(60)]
    pub fn save_regs(&mut self, size: AcsSize, new_pl: Option<u8>) -> (r: Result<(), EmuException>)
        requires
            size != AcsSize::BIT64 ==> (new_pl matches Some(pl) ==> pl <= 2),
        ensures
            Access::regs_saved(*old(self), *final(self), size, new_pl, r),
    {
        let r = self.save_frame(size, new_pl);
        proof {
            assert(Access::regs_saved(*old(self), *self, size, new_pl, r));
        }
        r
    }

    /// `save_regs`, with its promises one by one.
    #[verifier::spinoff_prover]
    #[verifier::rlimit(60)]
    fn save_frame(&mut self, size: AcsSize, new_pl: Option<u8>) -> (r: Result<(), EmuException>)
        requires
            size != AcsSize::BIT64 ==> (new_pl matches Some(pl) ==> pl <= 2),
        ensures
            new_pl is None && !Access::frame_size_ok(old(self).mode, size)
                ==> r == Err::<(), EmuException>(EmuException::CPUException(CPUException::GP(None)))
                    && unchanged_but_tlb(*old(self), *final(self)) && final(self).tlb@ == old(self).tlb@,
            new_pl is None && Access::frame_size_ok(old(self).mode, size)
                ==> Access::frame_attempt(*old(self), *old(self), *final(self), frame_bytes(size), r),
            new_pl is None && r is Ok ==> exists|m1: Access, m2: Access|
                #[trigger] Access::frame_saved(*old(self), m1, m2, *final(self), frame_bytes(size)),
            new_pl is Some && size == AcsSize::BIT64 ==> exists|rp: Result<(), EmuException>|
                #[trigger] Access::pushed(*old(self), *final(self), 8, old(self).core.gpregs@[4], rp)
                && r == (match rp {
                    Ok(_) => Err::<(), EmuException>(EmuException::NotImplementedFunction),
                    Err(e) => Err(e),
                }),
            new_pl is Some && size == AcsSize::BIT16 && old(self).core.dtregs.tr.cache.limit < TSS16_SIZE - 1
                ==> r == Err::<(), EmuException>(EmuException::CPUException(CPUException::TS))
                    && unchanged_but_tlb(*old(self), *final(self)) && final(self).tlb@ == old(self).tlb@,
            new_pl is Some && size == AcsSize::BIT32 && old(self).core.dtregs.tr.cache.limit < TSS32_SIZE - 1
                ==> r == Err::<(), EmuException>(EmuException::CPUException(CPUException::TS))
                    && unchanged_but_tlb(*old(self), *final(self)) && final(self).tlb@ == old(self).tlb@,
            new_pl is Some && ((size == AcsSize::BIT16 && old(self).core.dtregs.tr.cache.limit >= TSS16_SIZE - 1)
                || (size == AcsSize::BIT32 && old(self).core.dtregs.tr.cache.limit >= TSS32_SIZE - 1))
                ==> Access::stack_switch_attempt(*old(self), *final(self), new_pl->Some_0, size, r),
            final(self).mode == old(self).mode,
            final(self).oasz == old(self).oasz,
            final(self).stsz == old(self).stsz,
            final(self).pgmd == old(self).pgmd,
            final(self).a20gate == old(self).a20gate,
    {
        let ghost a = *self;
        proof {
            self.core.sgregs.lemma_len();
            self.core.gpregs.lemma_wf();
        }
        let cs_sel = self.get_sgreg(SgReg::CS)?.0;
        let flags = self.get_rflags()?;
        let ip: u64 = self.get_ip()?;
        let n: i8 = match size {
            AcsSize::BIT16 => 2,
            AcsSize::BIT32 => 4,
            AcsSize::BIT64 => 8,
        };
        let ok = (self.mode == CpuMode::Real || self.mode == CpuMode::Protected) && size == AcsSize::BIT16
            || (self.mode == CpuMode::Protected && size == AcsSize::BIT32)
            || (self.mode == CpuMode::Long && size == AcsSize::BIT64);
        match new_pl {
            None => {
                if !ok {
                    return Err(EmuException::CPUException(CPUException::GP(None)));
                }
                let r = self.push_frame(n, flags, cs_sel, ip);
                proof {
                    assert(n == frame_bytes(size));
                    assert(Access::frame_attempt(a, a, *self, n, r));
                    if r is Ok {
                        Access::lemma_frame_ok(a, *self, n, r);
                        let (m1, m2) = choose|m1: Access, m2: Access| #[trigger] Access::frame_saved(a, m1, m2, *self, n);
                        assert(Access::frame_saved(a, m1, m2, *self, frame_bytes(size)));
                    }
                }
                r
            },
            Some(pl) => {
                if size == AcsSize::BIT64 {
                    let old_rsp: u64 = self.get_gpreg(GpReg64::RSP)?;
                    let rp = self.push_u64(old_rsp);
                    proof {
                        assert(Access::pushed(a, *self, 8, a.core.gpregs@[4], rp));
                    }
                    rp?;
                    return Err(EmuException::NotImplementedFunction);
                }
                let tsz: usize = if size == AcsSize::BIT16 { TSS16_SIZE } else { TSS32_SIZE };
                if (self.core.dtregs.tr.cache.limit as usize) < tsz - 1 {
                    return Err(EmuException::CPUException(CPUException::TS));
                }
                self.save_on_new_stack(size, pl, flags, cs_sel, ip, ok)
            },
        }
    }
}

impl Access {
    /// `b` is `m` after loading the general registers, the instruction pointer, the flags
    /// and (for a 32-bit task state segment, `wide`) control register 3 from the task state
    /// segment image `img`; nothing else changes.
    pub open spec fn task_regs_set(m: Access, b: Access, img: Seq<u8>, wide: bool) -> bool {
        &&& same_but_core_tlb(m, b)
        &&& b.tlb@ == m.tlb@
        &&& b.core.sgregs == m.core.sgregs && b.core.dtregs == m.core.dtregs && b.core.msr == m.core.msr
        &&& b.core.gpregs@.len() == m.core.gpregs@.len()
        &&& forall|k: int| 8 <= k < m.core.gpregs@.len() ==> #[trigger] b.core.gpregs@[k] == m.core.gpregs@[k]
        &&& if wide {
            &&& forall|k: int| 0 <= k < 8 ==> #[trigger] b.core.gpregs@[k] == le_value(img, 40 + 4 * k, 4)
            &&& b.core.ip.0 == le_value(img, 32, 4)
            &&& b.core.rflags == RFlags::decode(le_value(img, 36, 4) as u64)
            &&& b.core.cregs == CRegisters(m.core.cregs.0, m.core.cregs.1, m.core.cregs.2,
                CR3::decode(le_value(img, 28, 4) as u32), m.core.cregs.4)
        } else {
            &&& forall|k: int| 0 <= k < 8 ==> #[trigger] b.core.gpregs@[k]
                == crate::hardware::processor::general::with_low16(m.core.gpregs@[k], le_value(img, 18 + 2 * k, 2) as u16)
            &&& b.core.ip.0 == le_value(img, 14, 2)
            &&& b.core.rflags == RFlags::decode(le_value(img, 16, 2) as u64)
            &&& b.core.cregs == m.core.cregs
        }
    }

    /// `cur` is `x0` after the first `j` segment loads of a task switch from image `img`
    /// (`wide`: a 32-bit task state segment) all succeeded.
    pub open spec fn segs_done(x0: Access, cur: Access, img: Seq<u8>, wide: bool, j: nat) -> bool
        decreases j,
    {
        if j == 0 {
            cur == x0
        } else {
            exists|m: Access| Access::segs_done(x0, m, img, wide, (j - 1) as nat)
                && #[trigger] Access::load_segment_done(m, cur, task_seg(wide, j - 1), task_sel(img, wide, j - 1), Ok(()))
        }
    }

    /// `b` is `a` after trying a task switch's save of the current task into the task state
    /// segment at `old_base` and load of the one at `new_base` (`wide`: 32-bit ones), in
    /// `mode`, which gave `r`. In order: the old image is read, the current state written
    /// back into it (`tss_saved_image`), the new image read (each fault of these is the result); the registers are loaded
    /// (`task_regs_set`); the segment registers are loaded one by one (the first fault is the
    /// result); the LDT register is loaded (its fault is the result); for a call or interrupt
    /// the new image is written back with the link to the old task, the task register's
    /// selector (its fault is the result).
    #[verifier::opaque]
    pub open spec fn tss_switch_attempt(a: Access, b: Access, mode: TSMode, old_base: u64, new_base: u64, wide: bool,
        r: Result<(), EmuException>) -> bool {
        let n = tss_size(wide);
        exists|a1: Access, img0: Seq<u8>, r0: Result<(), EmuException>| #[trigger] Access::read_done(a, a1, old_base, n, img0, r0)
            && (r0 matches Err(e) ==> r == Err::<(), EmuException>(e) && b == a1)
            && (r0 is Ok ==> exists|m: Access, r1: Result<(), EmuException>| #[trigger] Access::write_done(a1, m, old_base, n, r1)
                && Access::bytes_written(a1, m, old_base, n, tss_saved_image(img0, a.core, wide))
                && (r1 matches Err(e) ==> r == Err::<(), EmuException>(e) && b == m)
                && (r1 is Ok ==> exists|m1: Access, img: Seq<u8>, r2: Result<(), EmuException>|
                    #[trigger] Access::read_done(m, m1, new_base, n, img, r2)
                    && (r2 matches Err(e) ==> r == Err::<(), EmuException>(e) && b == m1)
                    && (r2 is Ok ==> exists|x0: Access, xj: Access, j: nat|
                        #![trigger Access::task_regs_set(m1, x0, img, wide), Access::segs_done(x0, xj, img, wide, j)]
                        Access::task_regs_set(m1, x0, img, wide) && Access::segs_done(x0, xj, img, wide, j)
                        && j <= task_seg_count(wide)
                        && (j < task_seg_count(wide) ==> r is Err
                            && Access::load_segment_done(xj, b, task_seg(wide, j as int), task_sel(img, wide, j as int), r))
                        && (j == task_seg_count(wide) ==> exists|y: Access, rl: Result<(), EmuException>|
                            #[trigger] Access::ldtr_loaded(xj, y, task_ldt(img, wide), rl)
                            && (rl matches Err(e) ==> r == Err::<(), EmuException>(e) && b == y)
                            && (rl is Ok ==> if mode == TSMode::CallInt {
                                exists|rw: Result<(), EmuException>| #[trigger] Access::write_done(y, b, new_base, n, rw) && r == rw
                                    && Access::bytes_written(y, b, new_base, n, le_store(img, 0, a.core.dtregs.tr.selector as nat, 2))
                            } else {
                                r is Ok && b == y
                            })))))
    }
    /// The save of the current task and the read of the new task's image went through.
    pub open spec fn tss_images(a: Access, a1: Access, m: Access, m1: Access, old_base: u64, new_base: u64, wide: bool,
        img0: Seq<u8>, img: Seq<u8>) -> bool {
        &&& Access::read_done(a, a1, old_base, tss_size(wide), img0, Ok(()))
        &&& Access::write_done(a1, m, old_base, tss_size(wide), Ok(()))
        &&& Access::bytes_written(a1, m, old_base, tss_size(wide), tss_saved_image(img0, a.core, wide))
        &&& Access::read_done(m, m1, new_base, tss_size(wide), img, Ok(()))
    }

    /// A task switch whose first read of the old image faults ends there.
    pub proof fn lemma_tss_read0_fails(a: Access, a1: Access, mode: TSMode, old_base: u64, new_base: u64, wide: bool,
        img0: Seq<u8>, r: Result<(), EmuException>)
        requires
            Access::read_done(a, a1, old_base, tss_size(wide), img0, r),
            r is Err,
        ensures
            Access::tss_switch_attempt(a, a1, mode, old_base, new_base, wide, r),
    {
        reveal(Access::tss_switch_attempt);
    }

    /// A task switch whose write-back of the old task faults ends there.
    pub proof fn lemma_tss_write_fails(a: Access, a1: Access, m: Access, mode: TSMode, old_base: u64, new_base: u64, wide: bool,
        img0: Seq<u8>, r0: Result<(), EmuException>, r: Result<(), EmuException>)
        requires
            Access::read_done(a, a1, old_base, tss_size(wide), img0, r0),
            r0 is Ok,
            Access::write_done(a1, m, old_base, tss_size(wide), r),
            r is Err,
        ensures
            Access::tss_switch_attempt(a, m, mode, old_base, new_base, wide, r),
    {
        reveal(Access::tss_switch_attempt);
    }

    /// A task switch whose read of the new image faults ends there.
    pub proof fn lemma_tss_read_fails(a: Access, a1: Access, m: Access, m1: Access, mode: TSMode, old_base: u64, new_base: u64,
        wide: bool, img0: Seq<u8>, img: Seq<u8>, r0: Result<(), EmuException>, r1: Result<(), EmuException>, r: Result<(), EmuException>)
        requires
            Access::read_done(a, a1, old_base, tss_size(wide), img0, r0),
            r0 is Ok,
            Access::write_done(a1, m, old_base, tss_size(wide), r1),
            Access::bytes_written(a1, m, old_base, tss_size(wide), tss_saved_image(img0, a.core, wide)),
            r1 is Ok,
            Access::read_done(m, m1, new_base, tss_size(wide), img, r),
            r is Err,
        ensures
            Access::tss_switch_attempt(a, m1, mode, old_base, new_base, wide, r),
    {
        reveal(Access::tss_switch_attempt);
    }

    /// A task switch whose load of a segment register faults ends there.
    pub proof fn lemma_tss_seg_fails(a: Access, a1: Access, m: Access, m1: Access, x0: Access, xj: Access, b: Access,
        mode: TSMode, old_base: u64, new_base: u64, wide: bool, img0: Seq<u8>, img: Seq<u8>, j: nat, r: Result<(), EmuException>)
        requires
            Access::tss_images(a, a1, m, m1, old_base, new_base, wide, img0, img),
            Access::task_regs_set(m1, x0, img, wide),
            Access::segs_done(x0, xj, img, wide, j),
            j < task_seg_count(wide),
            Access::load_segment_done(xj, b, task_seg(wide, j as int), task_sel(img, wide, j as int), r),
            r is Err,
        ensures
            Access::tss_switch_attempt(a, b, mode, old_base, new_base, wide, r),
    {
        reveal(Access::tss_switch_attempt);
        let n: nat = tss_size(wide);
        assert(Access::read_done(a, a1, old_base, n, img0, Ok(())));
        assert(Access::write_done(a1, m, old_base, n, Ok(())));
        assert(Access::read_done(m, m1, new_base, n, img, Ok(())));
    }

    /// A task switch that loaded every segment register ends with the load of the LDT
    /// register and, for a call or interrupt, the write-back of the new image.
    pub proof fn lemma_tss_tail(a: Access, a1: Access, m: Access, m1: Access, x0: Access, xj: Access, y: Access, b: Access,
        mode: TSMode, old_base: u64, new_base: u64, wide: bool, img0: Seq<u8>, img: Seq<u8>, rl: Result<(), EmuException>,
        r: Result<(), EmuException>)
        requires
            Access::tss_images(a, a1, m, m1, old_base, new_base, wide, img0, img),
            Access::task_regs_set(m1, x0, img, wide),
            Access::segs_done(x0, xj, img, wide, task_seg_count(wide)),
            Access::ldtr_loaded(xj, y, task_ldt(img, wide), rl),
            rl matches Err(e) ==> r == Err::<(), EmuException>(e) && b == y,
            rl is Ok ==> if mode == TSMode::CallInt {
                Access::write_done(y, b, new_base, tss_size(wide), r)
                    && Access::bytes_written(y, b, new_base, tss_size(wide), le_store(img, 0, a.core.dtregs.tr.selector as nat, 2))
            } else {
                r is Ok && b == y
            },
        ensures
            Access::tss_switch_attempt(a, b, mode, old_base, new_base, wide, r),
    {
        reveal(Access::tss_switch_attempt);
        let n: nat = tss_size(wide);
        assert(Access::read_done(a, a1, old_base, n, img0, Ok(())));
        assert(Access::write_done(a1, m, old_base, n, Ok(())));
        assert(Access::read_done(m, m1, new_base, n, img, Ok(())));
    }
}

/// The size of a task state segment: 32-bit (`wide`) or 16-bit.
pub open spec fn tss_size(wide: bool) -> nat {
    if wide { TSS32_SIZE as nat } else { TSS16_SIZE as nat }
}

/// How many segment registers a task switch loads: six from a 32-bit task state segment
/// (`wide`), four from a 16-bit one.
pub open spec fn task_seg_count(wide: bool) -> nat {
    if wide { 6 } else { 4 }
}

/// The `k`-th segment register a task switch loads: ES, CS, SS, DS, FS, GS.
pub open spec fn task_seg(wide: bool, k: int) -> SgReg {
    if k == 0 { SgReg::ES } else if k == 1 { SgReg::CS } else if k == 2 { SgReg::SS } else if k == 3 { SgReg::DS }
    else if k == 4 { SgReg::FS } else { SgReg::GS }
}

/// The selector that a task switch loads into the `k`-th segment register from image `img`.
pub open spec fn task_sel(img: Seq<u8>, wide: bool, k: int) -> u16 {
    if wide { le_value(img, 72 + 4 * k, 2) as u16 } else { le_value(img, 34 + 2 * k, 2) as u16 }
}

/// The LDT selector that a task switch loads from image `img`.
pub open spec fn task_ldt(img: Seq<u8>, wide: bool) -> u16 {
    if wide { le_value(img, 96, 2) as u16 } else { le_value(img, 42, 2) as u16 }
}

impl Access {
    /// A run of `j` successful segment loads followed by one more is a run of `j + 1`.
    pub proof fn lemma_segs_step(x0: Access, m: Access, b: Access, img: Seq<u8>, wide: bool, j: nat)
        requires
            Access::segs_done(x0, m, img, wide, j),
            Access::load_segment_done(m, b, task_seg(wide, j as int), task_sel(img, wide, j as int), Ok(())),
        ensures
            Access::segs_done(x0, b, img, wide, j + 1),
    {
        let k: nat = j + 1;
        assert((k - 1) as nat == j);
        assert(task_seg(wide, k - 1) == task_seg(wide, j as int));
        assert(task_sel(img, wide, k - 1) == task_sel(img, wide, j as int));
        assert(Access::segs_done(x0, m, img, wide, (k - 1) as nat));
        assert(Access::load_segment_done(m, b, task_seg(wide, k - 1), task_sel(img, wide, k - 1), Ok(())));
    }

    /// Loads the `j`-th segment register of a task switch from image `img`, extending the
    /// run of successful loads from `x0`.
    fn load_task_seg(&mut self, reg: SgReg, sel: u16, Ghost(x0): Ghost<Access>, Ghost(img): Ghost<Seq<u8>>,
        Ghost(wide): Ghost<bool>, Ghost(j): Ghost<nat>) -> (r: Result<(), EmuException>)
        requires
            reg == task_seg(wide, j as int),
            sel == task_sel(img, wide, j as int),
            Access::segs_done(x0, *old(self), img, wide, j),
        ensures
            Access::load_segment_done(*old(self), *final(self), reg, sel, r),
            r is Ok ==> Access::segs_done(x0, *final(self), img, wide, j + 1),
    {
        let r = self.load_segment(reg, sel);
        proof {
            if r is Ok {
                Access::lemma_segs_step(x0, *old(self), *self, img, wide, j);
            }
        }
        r
    }

    /// Saves the state of the current task into the 16-bit task state segment image `tss`
    /// (see `tss16_saved_image`).
    fn save_task16(&self, tss: &mut Vec<u8>) -> (r: Result<(), EmuException>)
        requires
            old(tss)@.len() == TSS16_SIZE,
        ensures
            r is Ok,
            final(tss)@ == tss16_saved_image(old(tss)@, self.core),
            final(tss)@.len() == TSS16_SIZE,
    {
        proof {
            self.core.gpregs.lemma_wf();
            self.core.sgregs.lemma_len();
        }
        let ip: u16 = self.get_ip()?;
        let flags = self.get_rflags()?;
        buf_put_le(tss, 0, self.core.dtregs.tr.selector as u64, 2);
        buf_put_le(tss, 14, ip as u64, 2);
        buf_put_le(tss, 16, flags % 0x1_0000, 2);
        let ghost s2 = tss@;
        let regs = [GpReg16::AX, GpReg16::CX, GpReg16::DX, GpReg16::BX, GpReg16::SP, GpReg16::BP, GpReg16::SI, GpReg16::DI];
        let mut i: usize = 0;
        while i < 8
            invariant
                i <= 8,
                tss@.len() == TSS16_SIZE,
                tss@ == gpregs_stored(s2, self.core.gpregs@, false, i as nat),
                forall|k: int| 0 <= k < 8 ==> (#[trigger] regs@[k]).num() == k,
            decreases 8 - i,
        {
            let v: u16 = self.get_gpreg(regs[i])?;
            buf_put_le(tss, 18 + 2 * i, v as u64, 2);
            i = i + 1;
        }
        let ghost s3 = tss@;
        let sregs = [SgReg::ES, SgReg::CS, SgReg::SS, SgReg::DS];
        let mut j: usize = 0;
        while j < 4
            invariant
                j <= 4,
                tss@.len() == TSS16_SIZE,
                tss@ == selectors_stored(s3, self.core, false, j as nat),
                forall|k: int| 0 <= k < 4 ==> sregs@[k] == task_seg(false, k),
            decreases 4 - j,
        {
            let v = self.get_sgreg(sregs[j])?.0;
            buf_put_le(tss, 34 + 2 * j, v as u64, 2);
            j = j + 1;
        }
        let ldtr = self.get_ldtr()?;
        buf_put_le(tss, 42, ldtr as u64, 2);
        Ok(())
    }

    /// Saves the state of the current task into the 32-bit task state segment image `tss`
    /// (see `tss32_saved_image`).
    fn save_task32(&self, tss: &mut Vec<u8>) -> (r: Result<(), EmuException>)
        requires
            old(tss)@.len() == TSS32_SIZE,
        ensures
            r is Ok,
            final(tss)@ == tss32_saved_image(old(tss)@, self.core),
            final(tss)@.len() == TSS32_SIZE,
    {
        proof {
            self.core.gpregs.lemma_wf();
            self.core.sgregs.lemma_len();
        }
        let cr3 = self.get_creg(3)?;
        let ip: u32 = self.get_ip()?;
        let flags = self.get_rflags()?;
        buf_put_le(tss, 0, self.core.dtregs.tr.selector as u64, 2);
        buf_put_le(tss, 28, cr3 as u64, 4);
        buf_put_le(tss, 32, ip as u64, 4);
        buf_put_le(tss, 36, flags % 0x1_0000_0000, 4);
        let ghost s3 = tss@;
        let regs = [GpReg32::EAX, GpReg32::ECX, GpReg32::EDX, GpReg32::EBX, GpReg32::ESP, GpReg32::EBP, GpReg32::ESI, GpReg32::EDI];
        let mut i: usize = 0;
        while i < 8
            invariant
                i <= 8,
                tss@.len() == TSS32_SIZE,
                tss@ == gpregs_stored(s3, self.core.gpregs@, true, i as nat),
                forall|k: int| 0 <= k < 8 ==> (#[trigger] regs@[k]).num() == k,
            decreases 8 - i,
        {
            let v: u32 = self.get_gpreg(regs[i])?;
            buf_put_le(tss, 40 + 4 * i, v as u64, 4);
            i = i + 1;
        }
        let ghost s4 = tss@;
        let sregs = [SgReg::ES, SgReg::CS, SgReg::SS, SgReg::DS, SgReg::FS, SgReg::GS];
        let mut j: usize = 0;
        while j < 6
            invariant
                j <= 6,
                tss@.len() == TSS32_SIZE,
                tss@ == selectors_stored(s4, self.core, true, j as nat),
                forall|k: int| 0 <= k < 6 ==> sregs@[k] == task_seg(true, k),
            decreases 6 - j,
        {
            let v = self.get_sgreg(sregs[j])?.0;
            buf_put_le(tss, 72 + 4 * j, v as u64, 2);
            j = j + 1;
        }
        let ldtr = self.get_ldtr()?;
        buf_put_le(tss, 96, ldtr as u64, 2);
        Ok(())
    }

    /// Saves the 16-bit task state into the TSS at `old_base` and loads the one at `new_base`.
    #[verifier::spinoff_prover]
    #[verifier::rlimit(100)]
    fn switch_tss16(&mut self, mode: TSMode, old_sel: u16, old_base: u64, new_base: u64) -> (r: Result<(), EmuException>)
        requires
            old_sel == old(self).core.dtregs.tr.selector,
        ensures
            Access::tss_switch_attempt(*old(self), *final(self), mode, old_base, new_base, false, r),
            final(self).mode == old(self).mode,
            final(self).oasz == old(self).oasz,
            final(self).stsz == old(self).stsz,
            final(self).pgmd == old(self).pgmd,
            final(self).a20gate == old(self).a20gate,
            r is Ok ==> exists|m: Access| #[trigger] Access::tss_saved(*old(self), m, TSS16_SIZE as nat)
                && (m.image_at(new_base, TSS16_SIZE as nat) matches Some(img) && tss16_loaded(img, old(self).core.gpregs@, *final(self), false)),
    {
        let ghost a = *self;
        let mut tss: Vec<u8> = vec![0; TSS16_SIZE];
        let rr0 = self.read_l(tss.as_mut_slice(), old_base, TSS16_SIZE);
        let ghost a1 = *self;
        let ghost img0 = tss@;
        let ghost r0: Result<(), EmuException> = match rr0 { Ok(_) => Ok(()), Err(e) => Err(e) };
        proof {
            assert(Access::read_done(a, a1, old_base, TSS16_SIZE as nat, img0, r0));
            if r0 is Err {
                Access::lemma_tss_read0_fails(a, a1, mode, old_base, new_base, false, img0, r0);
            }
        }
        rr0?;
        self.save_task16(&mut tss)?;
        let ghost saved = tss@;
        let regs = [GpReg16::AX, GpReg16::CX, GpReg16::DX, GpReg16::BX, GpReg16::SP, GpReg16::BP, GpReg16::SI, GpReg16::DI];
        let sregs = [SgReg::ES, SgReg::CS, SgReg::SS, SgReg::DS];
        let ghost a0 = *self;
        let rw = self.write_l(old_base, tss.as_slice(), TSS16_SIZE);
        let ghost m = *self;
        let ghost r1: Result<(), EmuException> = match rw { Ok(_) => Ok(()), Err(e) => Err(e) };
        proof {
            assert(a0 == a1);
            assert(Access::write_done(a1, m, old_base, TSS16_SIZE as nat, r1));
            Access::lemma_bytes_written(a1, m, old_base, TSS16_SIZE, saved, rw);
            assert(saved == tss_saved_image(img0, a.core, false));
            if r1 is Err {
                Access::lemma_tss_write_fails(a, a1, m, mode, old_base, new_base, false, img0, r0, r1);
            }
        }
        rw?;
        proof {
            let q = a0.l2p(MemAccessMode::Write, old_base).0->Ok_0;
            assert forall|i: int| 0 <= i < a.mem@.len() && !(q <= i < q + TSS16_SIZE) implies #[trigger] m.mem@[i] == a.mem@[i] by {
                if i < q {
                    assert(m.mem@[i] == a0.mem@.subrange(0, q as int)[i]);
                } else {
                    assert(m.mem@[i] == a0.mem@.subrange(q + TSS16_SIZE, a0.mem@.len() as int)[i - q - TSS16_SIZE]);
                }
            }
            assert(same_outside(a.mem@, m.mem@, q as int, TSS16_SIZE as nat));
            assert(Access::tss_saved(a, m, TSS16_SIZE as nat));
        }

        let rr2 = self.read_l(tss.as_mut_slice(), new_base, TSS16_SIZE);
        let ghost m1 = *self;
        let ghost img = tss@;
        let ghost r2: Result<(), EmuException> = match rr2 { Ok(_) => Ok(()), Err(e) => Err(e) };
        proof {
            assert(Access::read_done(m, m1, new_base, TSS16_SIZE as nat, img, r2));
            if r2 is Err {
                Access::lemma_tss_read_fails(a, a1, m, m1, mode, old_base, new_base, false, img0, img, r0, r1, r2);
            }
        }
        rr2?;
        proof {
            assert(Access::tss_images(a, a1, m, m1, old_base, new_base, false, img0, img));
        }
        proof {
            assert(m.image_at(new_base, TSS16_SIZE as nat) == Some(img)) by {
                let p = m.l2p(MemAccessMode::Read, new_base).0->Ok_0;
                assert(img =~= m.mem@.subrange(p as int, p + TSS16_SIZE));
            }
        }
        self.set_ip(buf_get_le(tss.as_slice(), 14, 2) as u16)?;
        self.set_rflags(buf_get_le(tss.as_slice(), 16, 2))?;
        proof {
            self.core.gpregs.lemma_wf();
            a.core.gpregs.lemma_wf();
            lemma_le_value_bound(img, 14, 2);
            lemma_byte_pow_values();
            assert(self.core.gpregs == a.core.gpregs);
        }
        let mut i: usize = 0;
        while i < 8
            invariant
                i <= 8,
                tss@ == img,
                img.len() == TSS16_SIZE,
                forall|k: int| 0 <= k < 8 ==> (#[trigger] regs@[k]).num() == k,
                self.core.gpregs@.len() == 16,
                a.core.gpregs@.len() == 16,
                m1.core.gpregs == a.core.gpregs,
                same_but_core_tlb(m1, *self),
                self.tlb@ == m1.tlb@,
                self.core.sgregs == m1.core.sgregs && self.core.dtregs == m1.core.dtregs && self.core.msr == m1.core.msr,
                self.core.cregs == m1.core.cregs,
                self.core.ip.0 == le_value(img, 14, 2),
                self.core.rflags == RFlags::decode(le_value(img, 16, 2) as u64),
                forall|k: int| 0 <= k < i ==> #[trigger] self.core.gpregs@[k]
                    == crate::hardware::processor::general::with_low16(a.core.gpregs@[k], le_value(img, 18 + 2 * k, 2) as u16),
                forall|k: int| i <= k < 16 ==> #[trigger] self.core.gpregs@[k] == a.core.gpregs@[k],
                self.mode == old(self).mode,
                self.oasz == old(self).oasz,
                self.stsz == old(self).stsz,
                self.pgmd == old(self).pgmd,
                self.a20gate == old(self).a20gate,
            decreases 8 - i,
        {
            proof {
                lemma_le_value_bound(img, 18 + 2 * i, 2);
                lemma_byte_pow_values();
            }
            self.set_gpreg(regs[i], buf_get_le(tss.as_slice(), 18 + 2 * i, 2) as u16)?;
            i = i + 1;
        }
        let ghost loaded = *self;
        proof {
            self.core.sgregs.lemma_len();
            assert(Access::task_regs_set(m1, loaded, img, false));
            assert(Access::segs_done(loaded, loaded, img, false, 0));
        }
        let mut j: usize = 0;
        while j < 4
            invariant
                j <= 4,
                a == *old(self),
                Access::tss_images(a, a1, m, m1, old_base, new_base, false, img0, img),
                Access::task_regs_set(m1, loaded, img, false),
                Access::segs_done(loaded, *self, img, false, j as nat),
                forall|k: int| 0 <= k < 4 ==> sregs@[k] == task_seg(false, k),
                tss@ == img,
                img.len() == TSS16_SIZE,
                self.core.gpregs == loaded.core.gpregs,
                self.core.ip == loaded.core.ip,
                self.core.rflags == loaded.core.rflags,
                self.core.sgregs@.len() >= 4,
                forall|k: int| 0 <= k < 4 ==> (#[trigger] sregs@[k]).num() == k,
                forall|k: int| 0 <= k < j ==> #[trigger] self.core.sgregs@[k].selector
                    == SgDescSelector::decode(le_value(img, 34 + 2 * k, 2) as u16),
                self.mode == old(self).mode,
                self.oasz == old(self).oasz,
                self.stsz == old(self).stsz,
                self.pgmd == old(self).pgmd,
                self.a20gate == old(self).a20gate,
            decreases 4 - j,
        {
            let ghost prev = *self;
            let sel = buf_get_le(tss.as_slice(), 34 + 2 * j, 2) as u16;
            proof {
                assert(sel == task_sel(img, false, j as int));
            }
            let rl0 = self.load_task_seg(sregs[j], sel, Ghost(loaded), Ghost(img), Ghost(false), Ghost(j as nat));
            proof {
                assert(Access::load_segment_done(prev, *self, task_seg(false, j as int), task_sel(img, false, j as int), rl0));
                if rl0 is Err {
                    Access::lemma_tss_seg_fails(a, a1, m, m1, loaded, prev, *self, mode, old_base, new_base, false, img0, img, j as nat, rl0);
                }
            }
            rl0?;
            j = j + 1;
        }
        let ghost xj = *self;
        let ldt = buf_get_le(tss.as_slice(), 42, 2) as u16;
        let rl = self.set_ldtr(ldt);
        let ghost y = *self;
        proof {
            assert(ldt == task_ldt(img, false));
            assert(Access::ldtr_loaded(xj, y, task_ldt(img, false), rl));
            assert(Access::segs_done(loaded, xj, img, false, 4));
            if rl is Err {
                Access::lemma_tss_tail(a, a1, m, m1, loaded, xj, y, y, mode, old_base, new_base, false, img0, img, rl, rl);
            }
        }
        rl?;
        if mode == TSMode::CallInt {
            buf_put_le(&mut tss, 0, old_sel as u64, 2);
            let rw2 = self.write_l(new_base, tss.as_slice(), TSS16_SIZE);
            proof {
                Access::lemma_bytes_written(y, *self, new_base, TSS16_SIZE, tss@, rw2);
                assert(Access::write_done(y, *self, new_base, TSS16_SIZE as nat, match rw2 { Ok(_) => Ok(()), Err(e) => Err(e) }));
                Access::lemma_tss_tail(a, a1, m, m1, loaded, xj, y, *self, mode, old_base, new_base, false, img0, img, rl,
                    match rw2 { Ok(_) => Ok(()), Err(e) => Err(e) });
            }
            rw2?;
        }
        proof {
            assert(tss16_loaded(img, a.core.gpregs@, *self, false));
            if mode != TSMode::CallInt {
                Access::lemma_tss_tail(a, a1, m, m1, loaded, xj, y, *self, mode, old_base, new_base, false, img0, img, rl, Ok(()));
            }
        }
        Ok(())
    }

    /// Saves the 32-bit task state into the TSS at `old_base` and loads the one at `new_base`.
    #[verifier::spinoff_prover]
    #[verifier::rlimit(100)]
    fn switch_tss32(&mut self, mode: TSMode, old_sel: u16, old_base: u64, new_base: u64) -> (r: Result<(), EmuException>)
        requires
            old_sel == old(self).core.dtregs.tr.selector,
        ensures
            Access::tss_switch_attempt(*old(self), *final(self), mode, old_base, new_base, true, r),
            final(self).mode == old(self).mode,
            final(self).oasz == old(self).oasz,
            final(self).stsz == old(self).stsz,
            final(self).pgmd == old(self).pgmd,
            final(self).a20gate == old(self).a20gate,
            r is Ok ==> exists|m: Access| #[trigger] Access::tss_saved(*old(self), m, TSS32_SIZE as nat)
                && (m.image_at(new_base, TSS32_SIZE as nat) matches Some(img) && tss32_loaded(img, *final(self), false)),
    {
        let ghost a = *self;
        let mut tss: Vec<u8> = vec![0; TSS32_SIZE];
        let rr0 = self.read_l(tss.as_mut_slice(), old_base, TSS32_SIZE);
        let ghost a1 = *self;
        let ghost img0 = tss@;
        let ghost r0: Result<(), EmuException> = match rr0 { Ok(_) => Ok(()), Err(e) => Err(e) };
        proof {
            assert(Access::read_done(a, a1, old_base, TSS32_SIZE as nat, img0, r0));
            if r0 is Err {
                Access::lemma_tss_read0_fails(a, a1, mode, old_base, new_base, true, img0, r0);
            }
        }
        rr0?;
        self.save_task32(&mut tss)?;
        let ghost saved = tss@;
        let regs = [GpReg32::EAX, GpReg32::ECX, GpReg32::EDX, GpReg32::EBX, GpReg32::ESP, GpReg32::EBP, GpReg32::ESI, GpReg32::EDI];
        let sregs = [SgReg::ES, SgReg::CS, SgReg::SS, SgReg::DS, SgReg::FS, SgReg::GS];
        let ghost a0 = *self;
        let rw = self.write_l(old_base, tss.as_slice(), TSS32_SIZE);
        let ghost m = *self;
        let ghost r1: Result<(), EmuException> = match rw { Ok(_) => Ok(()), Err(e) => Err(e) };
        proof {
            assert(a0 == a1);
            assert(Access::write_done(a1, m, old_base, TSS32_SIZE as nat, r1));
            Access::lemma_bytes_written(a1, m, old_base, TSS32_SIZE, saved, rw);
            assert(saved == tss_saved_image(img0, a.core, true));
            if r1 is Err {
                Access::lemma_tss_write_fails(a, a1, m, mode, old_base, new_base, true, img0, r0, r1);
            }
        }
        rw?;
        proof {
            let q = a0.l2p(MemAccessMode::Write, old_base).0->Ok_0;
            assert forall|i: int| 0 <= i < a.mem@.len() && !(q <= i < q + TSS32_SIZE) implies #[trigger] m.mem@[i] == a.mem@[i] by {
                if i < q {
                    assert(m.mem@[i] == a0.mem@.subrange(0, q as int)[i]);
                } else {
                    assert(m.mem@[i] == a0.mem@.subrange(q + TSS32_SIZE, a0.mem@.len() as int)[i - q - TSS32_SIZE]);
                }
            }
            assert(same_outside(a.mem@, m.mem@, q as int, TSS32_SIZE as nat));
            assert(Access::tss_saved(a, m, TSS32_SIZE as nat));
        }

        let rr2 = self.read_l(tss.as_mut_slice(), new_base, TSS32_SIZE);
        let ghost m1 = *self;
        let ghost img = tss@;
        let ghost r2: Result<(), EmuException> = match rr2 { Ok(_) => Ok(()), Err(e) => Err(e) };
        proof {
            assert(Access::read_done(m, m1, new_base, TSS32_SIZE as nat, img, r2));
            if r2 is Err {
                Access::lemma_tss_read_fails(a, a1, m, m1, mode, old_base, new_base, true, img0, img, r0, r1, r2);
            }
        }
        rr2?;
        proof {
            assert(Access::tss_images(a, a1, m, m1, old_base, new_base, true, img0, img));
        }
        proof {
            assert(m.image_at(new_base, TSS32_SIZE as nat) == Some(img)) by {
                let p = m.l2p(MemAccessMode::Read, new_base).0->Ok_0;
                assert(img =~= m.mem@.subrange(p as int, p + TSS32_SIZE));
            }
        }
        proof {
            m1.core.gpregs.lemma_wf();
        }
        self.set_creg(3, buf_get_le(tss.as_slice(), 28, 4) as u32)?;
        self.set_ip(buf_get_le(tss.as_slice(), 32, 4) as u32)?;
        self.set_rflags(buf_get_le(tss.as_slice(), 36, 4))?;
        proof {
            self.core.gpregs.lemma_wf();
            lemma_le_value_bound(img, 32, 4);
            lemma_byte_pow_values();
        }
        let mut i: usize = 0;
        while i < 8
            invariant
                i <= 8,
                tss@ == img,
                img.len() == TSS32_SIZE,
                self.core.gpregs@.len() == 16,
                m1.core.gpregs@.len() == 16,
                same_but_core_tlb(m1, *self),
                self.tlb@ == m1.tlb@,
                self.core.sgregs == m1.core.sgregs && self.core.dtregs == m1.core.dtregs && self.core.msr == m1.core.msr,
                self.core.cregs == CRegisters(m1.core.cregs.0, m1.core.cregs.1, m1.core.cregs.2,
                    CR3::decode(le_value(img, 28, 4) as u32), m1.core.cregs.4),
                forall|k: int| 8 <= k < 16 ==> #[trigger] self.core.gpregs@[k] == m1.core.gpregs@[k],
                self.core.ip.0 == le_value(img, 32, 4),
                self.core.cregs.3 == CR3::decode(le_value(img, 28, 4) as u32),
                self.core.rflags == RFlags::decode(le_value(img, 36, 4) as u64),
                forall|k: int| 0 <= k < i ==> #[trigger] self.core.gpregs@[k] == le_value(img, 40 + 4 * k, 4),
                forall|k: int| 0 <= k < 8 ==> (#[trigger] regs@[k]).num() == k,
                self.mode == old(self).mode,
                self.oasz == old(self).oasz,
                self.stsz == old(self).stsz,
                self.pgmd == old(self).pgmd,
                self.a20gate == old(self).a20gate,
            decreases 8 - i,
        {
            proof {
                lemma_le_value_bound(img, 40 + 4 * i, 4);
                lemma_byte_pow_values();
            }
            self.set_gpreg(regs[i], buf_get_le(tss.as_slice(), 40 + 4 * i, 4) as u32)?;
            i = i + 1;
        }
        let ghost loaded = *self;
        proof {
            self.core.sgregs.lemma_len();
            assert(Access::task_regs_set(m1, loaded, img, true));
            assert(Access::segs_done(loaded, loaded, img, true, 0));
        }
        let mut j: usize = 0;
        while j < 6
            invariant
                j <= 6,
                a == *old(self),
                Access::tss_images(a, a1, m, m1, old_base, new_base, true, img0, img),
                Access::task_regs_set(m1, loaded, img, true),
                Access::segs_done(loaded, *self, img, true, j as nat),
                forall|k: int| 0 <= k < 6 ==> sregs@[k] == task_seg(true, k),
                tss@ == img,
                img.len() == TSS32_SIZE,
                self.core.gpregs == loaded.core.gpregs,
                self.core.ip == loaded.core.ip,
                self.core.cregs == loaded.core.cregs,
                self.core.rflags == loaded.core.rflags,
                self.core.sgregs@.len() >= 6,
                forall|k: int| 0 <= k < 6 ==> (#[trigger] sregs@[k]).num() == k,
                forall|k: int| 0 <= k < j ==> #[trigger] self.core.sgregs@[k].selector
                    == SgDescSelector::decode(le_value(img, 72 + 4 * k, 2) as u16),
                self.mode == old(self).mode,
                self.oasz == old(self).oasz,
                self.stsz == old(self).stsz,
                self.pgmd == old(self).pgmd,
                self.a20gate == old(self).a20gate,
            decreases 6 - j,
        {
            let ghost prev = *self;
            let sel = buf_get_le(tss.as_slice(), 72 + 4 * j, 2) as u16;
            proof {
                assert(sel == task_sel(img, true, j as int));
            }
            let rl0 = self.load_task_seg(sregs[j], sel, Ghost(loaded), Ghost(img), Ghost(true), Ghost(j as nat));
            proof {
                assert(Access::load_segment_done(prev, *self, task_seg(true, j as int), task_sel(img, true, j as int), rl0));
                if rl0 is Err {
                    Access::lemma_tss_seg_fails(a, a1, m, m1, loaded, prev, *self, mode, old_base, new_base, true, img0, img, j as nat, rl0);
                }
            }
            rl0?;
            j = j + 1;
        }
        let ghost xj = *self;
        let ldt = buf_get_le(tss.as_slice(), 96, 2) as u16;
        let rl = self.set_ldtr(ldt);
        let ghost y = *self;
        proof {
            assert(ldt == task_ldt(img, true));
            assert(Access::ldtr_loaded(xj, y, task_ldt(img, true), rl));
            assert(Access::segs_done(loaded, xj, img, true, 6));
            if rl is Err {
                Access::lemma_tss_tail(a, a1, m, m1, loaded, xj, y, y, mode, old_base, new_base, true, img0, img, rl, rl);
            }
        }
        rl?;
        if mode == TSMode::CallInt {
            buf_put_le(&mut tss, 0, old_sel as u64, 2);
            let rw2 = self.write_l(new_base, tss.as_slice(), TSS32_SIZE);
            proof {
                Access::lemma_bytes_written(y, *self, new_base, TSS32_SIZE, tss@, rw2);
                assert(Access::write_done(y, *self, new_base, TSS32_SIZE as nat, match rw2 { Ok(_) => Ok(()), Err(e) => Err(e) }));
                Access::lemma_tss_tail(a, a1, m, m1, loaded, xj, y, *self, mode, old_base, new_base, true, img0, img, rl,
                    match rw2 { Ok(_) => Ok(()), Err(e) => Err(e) });
            }
            rw2?;
        }
        proof {
            assert(tss32_loaded(img, *self, false));
            if mode != TSMode::CallInt {
                Access::lemma_tss_tail(a, a1, m, m1, loaded, xj, y, *self, mode, old_base, new_base, true, img0, img, rl, Ok(()));
            }
        }
        Ok(())
    }

    /// Whether TSS descriptor `desc` passes the first checks of a task switch in `mode`: it is
    /// present, busy for a return from a nested task and free otherwise.
    pub open spec fn task_switch_checked(desc: TSSDesc, mode: TSMode) -> bool {
        desc.P != 0 && !(mode != TSMode::Iret && desc.B == 1) && !(mode == TSMode::Iret && desc.B == 0)
    }

    /// `b` is `a` but that a return from a nested task (`mode` `Iret`) cleared the
    /// nested-task flag.
    pub open spec fn nt_only_cleared(a: Access, b: Access, mode: TSMode) -> bool {
        &&& same_but_core(a, b)
        &&& a.core.same_but_rflags(b.core)
        &&& b.core.rflags == (if mode == TSMode::Iret { RFlags { NT: 0, ..a.core.rflags } } else { a.core.rflags })
    }

    /// `b` is `m` after a task switch in `mode` updated the busy bits of the new task's TSS
    /// descriptor `new_sel` (set, unless returning from a nested task) and the old task's
    /// `old_sel` (cleared, unless calling), which gave `r`: the first fault ends it; a call
    /// or interrupt sets the nested-task flag first.
    pub open spec fn busy_attempt(m: Access, b: Access, mode: TSMode, new_sel: u16, old_sel: u16, r: Result<(), EmuException>) -> bool {
        match mode {
            TSMode::Jmp => exists|m2: Access, r1: Result<(), EmuException>|
                #[trigger] Access::set_busy_tssdesc_done(m, m2, new_sel, true, r1)
                && (r1 matches Err(e) ==> r == Err::<(), EmuException>(e) && b == m2)
                && (r1 is Ok ==> exists|m3: Access, r2: Result<(), EmuException>|
                    #[trigger] Access::set_busy_tssdesc_done(m2, m3, old_sel, false, r2)
                    && (r2 matches Err(e) ==> r == Err::<(), EmuException>(e) && b == m3)
                    && (r2 is Ok ==> r is Ok)),
            TSMode::CallInt => exists|mn: Access, m2: Access, r1: Result<(), EmuException>|
                #[trigger] Access::set_busy_tssdesc_done(mn, m2, new_sel, true, r1)
                && same_but_core(m, mn) && m.core.same_but_rflags(mn.core) && mn.core.rflags == (RFlags { NT: 1, ..m.core.rflags })
                && (r1 matches Err(e) ==> r == Err::<(), EmuException>(e) && b == m2)
                && (r1 is Ok ==> r is Ok),
            TSMode::Iret => exists|m2: Access, r2: Result<(), EmuException>|
                #[trigger] Access::set_busy_tssdesc_done(m, m2, old_sel, false, r2)
                && (r2 matches Err(e) ==> r == Err::<(), EmuException>(e) && b == m2)
                && (r2 is Ok ==> r is Ok),
        }
    }

    /// Whether the TSS descriptor `desc` designates a 32-bit task state segment.
    pub open spec fn tss_wide(desc: TSSDesc) -> bool {
        desc.D == 1
    }

    /// `b` is `a` after a task switch in `mode` to the task of TSS descriptor `desc`
    /// (selector `new_sel`) that passed its first checks tried to switch, which gave `r`:
    /// after a return from a nested task clears the nested-task flag, the task state is
    /// saved and loaded (`tss_switch_attempt`; its fault is the result), then the busy bits
    /// are updated (`busy_attempt`; its fault is the result), which leaves memory as it ends.
    #[verifier::opaque]
    pub open spec fn task_switch_attempt(a: Access, b: Access, mode: TSMode, new_sel: u16, desc: TSSDesc, r: Result<(), EmuException>) -> bool {
        exists|a0: Access, m: Access, rs: Result<(), EmuException>|
            #[trigger] Access::tss_switch_attempt(a0, m, mode, a.core.dtregs.tr.cache.base,
                table_of(desc.base_h, desc.base_l, desc.limit_h, desc.limit_l).base, Access::tss_wide(desc), rs)
            && Access::nt_only_cleared(a, a0, mode)
            && (rs matches Err(e) ==> r == Err::<(), EmuException>(e) && b == m)
            && (rs is Ok ==> exists|mb: Access| #[trigger] Access::busy_attempt(m, mb, mode, new_sel, a.core.dtregs.tr.selector, r)
                && (r is Err ==> b == mb) && (r is Ok ==> b.mem@ == mb.mem@ && b.tlb@ == mb.tlb@))
    }

    /// A task switch whose save or load of the task state faults ends there.
    pub proof fn lemma_switch_tss_fails(a: Access, a0: Access, m: Access, mode: TSMode, new_sel: u16, desc: TSSDesc,
        rs: Result<(), EmuException>)
        requires
            Access::nt_only_cleared(a, a0, mode),
            Access::tss_switch_attempt(a0, m, mode, a.core.dtregs.tr.cache.base,
                table_of(desc.base_h, desc.base_l, desc.limit_h, desc.limit_l).base, Access::tss_wide(desc), rs),
            rs is Err,
        ensures
            Access::task_switch_attempt(a, m, mode, new_sel, desc, rs),
    {
        reveal(Access::task_switch_attempt);
    }

    /// A task switch whose save and load of the task state went through ends with the
    /// update of the busy bits.
    pub proof fn lemma_switch_busy(a: Access, a0: Access, m: Access, mb: Access, b: Access, mode: TSMode, new_sel: u16,
        desc: TSSDesc, rs: Result<(), EmuException>, r: Result<(), EmuException>)
        requires
            Access::nt_only_cleared(a, a0, mode),
            Access::tss_switch_attempt(a0, m, mode, a.core.dtregs.tr.cache.base,
                table_of(desc.base_h, desc.base_l, desc.limit_h, desc.limit_l).base, Access::tss_wide(desc), rs),
            rs is Ok,
            Access::busy_attempt(m, mb, mode, new_sel, a.core.dtregs.tr.selector, r),
            r is Err ==> b == mb,
            r is Ok ==> b.mem@ == mb.mem@ && b.tlb@ == mb.tlb@,
        ensures
            Access::task_switch_attempt(a, b, mode, new_sel, desc, r),
    {
        reveal(Access::task_switch_attempt);
    }

    /// `b` is `a` after a task switch in `mode` to the task of TSS descriptor `desc` (selector
    /// `new_sel`) gave `r` (see `switch_task`).
    pub open spec fn task_switch_done(a: Access, b: Access, mode: TSMode, new_sel: u16, desc: TSSDesc, r: Result<(), EmuException>) -> bool {
        &&& desc.P == 0 ==> r == Err::<(), EmuException>(EmuException::CPUException(CPUException::NP))
                && unchanged_but_tlb(a, b) && b.tlb@ == a.tlb@
        &&& desc.P != 0 && mode != TSMode::Iret && desc.B == 1
                ==> r == Err::<(), EmuException>(EmuException::CPUException(CPUException::GP(Some(new_sel))))
                && unchanged_but_tlb(a, b) && b.tlb@ == a.tlb@
        &&& desc.P != 0 && mode == TSMode::Iret && desc.B == 0
                ==> r == Err::<(), EmuException>(EmuException::CPUException(CPUException::TS))
                && unchanged_but_tlb(a, b) && b.tlb@ == a.tlb@
        &&& a.mode == CpuMode::Long ==> r is Err
        &&& Access::task_switch_checked(desc, mode) && a.mode == CpuMode::Long && desc.D == 1
                ==> r == Err::<(), EmuException>(EmuException::NotImplementedFunction) && b == a
        &&& Access::task_switch_checked(desc, mode) && a.mode == CpuMode::Long && desc.D == 0
                ==> r == Err::<(), EmuException>(EmuException::CPUException(CPUException::TS)) && b == a
        &&& Access::task_switch_checked(desc, mode) && a.mode == CpuMode::Real
                ==> r == Err::<(), EmuException>(EmuException::UnexpectedError) && Access::nt_only_cleared(a, b, mode)
        &&& Access::task_switch_checked(desc, mode) && a.mode == CpuMode::Protected && desc.D == 0
                && table_of(desc.base_h, desc.base_l, desc.limit_h, desc.limit_l).limit < TSS16_SIZE - 1
                ==> r == Err::<(), EmuException>(EmuException::CPUException(CPUException::TS)) && Access::nt_only_cleared(a, b, mode)
        &&& Access::task_switch_checked(desc, mode) && a.mode == CpuMode::Protected && desc.D == 1
                && table_of(desc.base_h, desc.base_l, desc.limit_h, desc.limit_l).limit < TSS32_SIZE - 1
                ==> r == Err::<(), EmuException>(EmuException::CPUException(CPUException::TS)) && Access::nt_only_cleared(a, b, mode)
        &&& Access::task_switch_checked(desc, mode) && a.mode == CpuMode::Protected
                && ((desc.D == 0 && table_of(desc.base_h, desc.base_l, desc.limit_h, desc.limit_l).limit >= TSS16_SIZE - 1)
                || (desc.D == 1 && table_of(desc.base_h, desc.base_l, desc.limit_h, desc.limit_l).limit >= TSS32_SIZE - 1))
                ==> Access::task_switch_attempt(a, b, mode, new_sel, desc, r)
        &&& r is Ok ==> {
                &&& a.mode == CpuMode::Protected
                &&& b.core.dtregs.tr == (DescTblSel {
                    selector: new_sel,
                    cache: table_of(desc.base_h, desc.base_l, desc.limit_h, desc.limit_l),
                })
                &&& b.core.cregs.0.TS == 1
                &&& desc.D == 1 ==> Access::tss32_entered(a, b,
                    table_of(desc.base_h, desc.base_l, desc.limit_h, desc.limit_l).base, mode == TSMode::CallInt)
                &&& desc.D == 0 ==> Access::tss16_entered(a, b,
                    table_of(desc.base_h, desc.base_l, desc.limit_h, desc.limit_l).base, mode == TSMode::CallInt)
            }
        &&& b.mode == a.mode
        &&& b.oasz == a.oasz
        &&& b.stsz == a.stsz
        &&& b.pgmd == a.pgmd
        &&& b.a20gate == a.a20gate
    }

    /// Updates the busy bits of a task switch in `mode` from the task of selector `old_sel`
    /// to that of `new_sel` (see `busy_attempt`); a call or interrupt sets the nested-task
    /// flag first.
    fn update_busy(&mut self, mode: TSMode, new_sel: u16, old_sel: u16) -> (r: Result<(), EmuException>)
        ensures
            Access::busy_attempt(*old(self), *final(self), mode, new_sel, old_sel, r),
            final(self).core.same_but_rflags(old(self).core),
            final(self).core.rflags == (if mode == TSMode::CallInt { RFlags { NT: 1, ..old(self).core.rflags } }
                else { old(self).core.rflags }),
            final(self).mode == old(self).mode,
            final(self).oasz == old(self).oasz,
            final(self).stsz == old(self).stsz,
            final(self).pgmd == old(self).pgmd,
            final(self).a20gate == old(self).a20gate,
    {
        match mode {
            TSMode::Jmp => {
                let r1 = self.set_busy_tssdesc(new_sel, true);
                let ghost m2 = *self;
                proof {
                    assert(Access::set_busy_tssdesc_done(*old(self), m2, new_sel, true, r1));
                }
                if r1.is_err() {
                    return r1;
                }
                let r2 = self.set_busy_tssdesc(old_sel, false);
                proof {
                    assert(Access::set_busy_tssdesc_done(m2, *self, old_sel, false, r2));
                }
                r2
            },
            TSMode::CallInt => {
                self.core.rflags.set_nesttask(true);
                let ghost mn = *self;
                let r1 = self.set_busy_tssdesc(new_sel, true);
                proof {
                    assert(Access::set_busy_tssdesc_done(mn, *self, new_sel, true, r1));
                }
                r1
            },
            TSMode::Iret => {
                let r2 = self.set_busy_tssdesc(old_sel, false);
                proof {
                    assert(Access::set_busy_tssdesc_done(*old(self), *self, old_sel, false, r2));
                }
                r2
            },
        }
    }

    /// Switches to the task of TSS descriptor `desc` (selector `new_sel`): checks the
    /// descriptor, saves the current task's state into its TSS, loads the new task's state
    /// (`tss32_entered` / `tss16_entered` state what the registers become), updates the busy
    /// bits and the nested-task flag as `mode`
    /// requires, and loads the task register.
    #[verifier::spinoff_prover]
    #[verifier::rlimit(60)]
    pub fn switch_task(&mut self, mode: TSMode, new_sel: u16, desc: TSSDesc) -> (r: Result<(), EmuException>)
        ensures
            Access::task_switch_done(*old(self), *final(self), mode, new_sel, desc, r),
    {

        if desc.P == 0 {
            return Err(EmuException::CPUException(CPUException::NP));
        }
        if (mode == TSMode::Jmp || mode == TSMode::CallInt) && desc.B == 1 {
            return Err(EmuException::CPUException(CPUException::GP(Some(new_sel))));
        }
        if mode == TSMode::Iret && desc.B == 0 {
            return Err(EmuException::CPUException(CPUException::TS));
        }
        if self.mode == CpuMode::Long {
            if desc.D == 1 {
                return Err(EmuException::NotImplementedFunction);
            } else if desc.D == 0 {
                return Err(EmuException::CPUException(CPUException::TS));
            }
        }
        if mode == TSMode::Iret {
            self.core.rflags.set_nesttask(false);
        }
        proof {
            assert(Access::nt_only_cleared(*old(self), *self, mode));
        }
        let new_tssd = DescTbl::from(desc);
        if self.mode == CpuMode::Protected && desc.D == 0 {
            if (new_tssd.limit as usize) < TSS16_SIZE - 1 {
                return Err(EmuException::CPUException(CPUException::TS));
            }
        } else if self.mode == CpuMode::Protected && desc.D == 1 {
            if (new_tssd.limit as usize) < TSS32_SIZE - 1 {
                return Err(EmuException::CPUException(CPUException::TS));
            }
        } else {
            return Err(EmuException::UnexpectedError);
        }
        self.enter_task(mode, new_sel, desc, Ghost(*old(self)))
    }

    /// Enters the task of TSS descriptor `desc` (selector `new_sel`) in protected mode, once
    /// `switch_task` has checked it and, from the state `a`, done what `mode` asks of the
    /// nested-task flag: saves and loads the task state, updates the busy bits and loads the
    /// task register.
    #[verifier::spinoff_prover]
    #[verifier::rlimit(60)]
    fn enter_task(&mut self, mode: TSMode, new_sel: u16, desc: TSSDesc, Ghost(a): Ghost<Access>) -> (r: Result<(), EmuException>)
        requires
            Access::nt_only_cleared(a, *old(self), mode),
            old(self).mode == CpuMode::Protected,
            (desc.D == 0 && table_of(desc.base_h, desc.base_l, desc.limit_h, desc.limit_l).limit >= TSS16_SIZE - 1)
                || (desc.D == 1 && table_of(desc.base_h, desc.base_l, desc.limit_h, desc.limit_l).limit >= TSS32_SIZE - 1),
        ensures
            Access::task_switch_attempt(a, *final(self), mode, new_sel, desc, r),
            r is Ok ==> {
                &&& final(self).core.dtregs.tr == (DescTblSel {
                    selector: new_sel,
                    cache: table_of(desc.base_h, desc.base_l, desc.limit_h, desc.limit_l),
                })
                &&& final(self).core.cregs.0.TS == 1
                &&& desc.D == 1 ==> Access::tss32_entered(a, *final(self),
                    table_of(desc.base_h, desc.base_l, desc.limit_h, desc.limit_l).base, mode == TSMode::CallInt)
                &&& desc.D == 0 ==> Access::tss16_entered(a, *final(self),
                    table_of(desc.base_h, desc.base_l, desc.limit_h, desc.limit_l).base, mode == TSMode::CallInt)
            },
            final(self).mode == a.mode,
            final(self).oasz == a.oasz,
            final(self).stsz == a.stsz,
            final(self).pgmd == a.pgmd,
            final(self).a20gate == a.a20gate,
    {
        let old_sel = self.core.dtregs.tr.selector;
        let old_tssd = self.core.dtregs.tr.cache;
        let ghost mut witness = *self;
        let ghost mut loaded = *self;
        let ghost mut a0g = *self;
        let ghost mut mg = *self;
        let new_tssd = DescTbl::from(desc);
        if desc.D == 0 {
            let ghost a1 = *self;
            let rs = self.switch_tss16(mode, old_sel, old_tssd.base, new_tssd.base);
            proof {
                a0g = a1;
                mg = *self;
                assert(Access::tss_wide(desc) == (desc.D == 1));
                if rs is Err {
                    Access::lemma_switch_tss_fails(a, a1, *self, mode, new_sel, desc, rs);
                }
            }
            rs?;
            proof {
                let m = choose|m: Access| #[trigger] Access::tss_saved(a1, m, TSS16_SIZE as nat)
                    && (m.image_at(new_tssd.base, TSS16_SIZE as nat) matches Some(img) && tss16_loaded(img, a1.core.gpregs@, *self, false));
                assert(a1.mem@ == a.mem@);
                assert(a1.core.gpregs == a.core.gpregs);
                assert(Access::tss_window_written(a, m, TSS16_SIZE as nat));
                witness = m;
                loaded = *self;
            }
        } else {
            let ghost a1 = *self;
            let rs = self.switch_tss32(mode, old_sel, old_tssd.base, new_tssd.base);
            proof {
                a0g = a1;
                mg = *self;
                assert(Access::tss_wide(desc) == (desc.D == 1));
                if rs is Err {
                    Access::lemma_switch_tss_fails(a, a1, *self, mode, new_sel, desc, rs);
                }
            }
            rs?;
            proof {
                let m = choose|m: Access| #[trigger] Access::tss_saved(a1, m, TSS32_SIZE as nat)
                    && (m.image_at(new_tssd.base, TSS32_SIZE as nat) matches Some(img) && tss32_loaded(img, *self, false));
                assert(a1.mem@ == a.mem@);
                assert(Access::tss_window_written(a, m, TSS32_SIZE as nat));
                witness = m;
                loaded = *self;
            }
        }

        proof {
            assert(Access::tss_switch_attempt(a0g, mg, mode, a.core.dtregs.tr.cache.base,
                table_of(desc.base_h, desc.base_l, desc.limit_h, desc.limit_l).base, Access::tss_wide(desc), Ok(())));
        }
        let rb = self.update_busy(mode, new_sel, old_sel);
        let ghost mb = *self;
        proof {
            Access::lemma_switch_busy(a, a0g, mg, mb, mb, mode, new_sel, desc, Ok(()), rb);
        }
        rb?;

        self.core.dtregs.tr = DescTblSel { selector: new_sel, cache: new_tssd };
        self.core.cregs.0.TS = 1;
        proof {
            assert(self.core.gpregs == loaded.core.gpregs && self.core.ip == loaded.core.ip);
            assert(self.core.sgregs == loaded.core.sgregs && self.core.cregs.3 == loaded.core.cregs.3);
            assert(self.core.dtregs.ldtr == loaded.core.dtregs.ldtr);
            assert(self.core.rflags == (if mode == TSMode::CallInt { RFlags { NT: 1, ..loaded.core.rflags } } else { loaded.core.rflags }));
            if desc.D == 1 {
                let img = witness.image_at(new_tssd.base, TSS32_SIZE as nat)->Some_0;
                assert(tss32_loaded(img, *self, mode == TSMode::CallInt));
                assert(Access::tss_window_written(a, witness, TSS32_SIZE as nat));
            } else {
                let img = witness.image_at(new_tssd.base, TSS16_SIZE as nat)->Some_0;
                assert(tss16_loaded(img, a.core.gpregs@, *self, mode == TSMode::CallInt));
                assert(Access::tss_window_written(a, witness, TSS16_SIZE as nat));
            }
            Access::lemma_switch_busy(a, a0g, mg, mb, *self, mode, new_sel, desc, Ok(()), rb);
        }
        Ok(())
    }

    /// `b` is `a` after a return from a nested task gave `r`: the previous task link is read
    /// from the current task state segment (a translation fault is the result); the global
    /// descriptor it selects is looked up (its fault is the result; a descriptor that is no TSS
    /// descriptor is an invalid-TSS fault); the task is switched to as an interrupt return
    /// (`task_switch_done`).
    pub open spec fn task_restored(a: Access, b: Access, r: Result<(), EmuException>) -> bool {
        let base = a.core.dtregs.tr.cache.base;
        &&& b.mode == a.mode
        &&& b.oasz == a.oasz
        &&& b.stsz == a.stsz
        &&& b.pgmd == a.pgmd
        &&& b.a20gate == a.a20gate
        &&& r is Ok ==> a.mode == CpuMode::Protected && b.core.cregs.0.TS == 1
        &&& r is Ok ==> (a.image_at(base, 2) matches Some(img) && b.core.dtregs.tr.selector == le_value(img, 0, 2) as u16)
        &&& a.l2p(MemAccessMode::Read, base).0 matches Err(e) ==> r == Err::<(), EmuException>(e) && unchanged_but_tlb(a, b)
        &&& a.image_at(base, 2) matches Some(img) ==> exists|m: Access|
            #[trigger] unchanged_but_tlb(a, m)
            && m.tlb@ == a.l2p(MemAccessMode::Read, base).1
            && match m.g_desc(le_value(img, 0, 2) as u16).0 {
                Err(e) => r == Err::<(), EmuException>(e) && unchanged_but_tlb(a, b),
                Ok(Some(DescType::System(SysDescType::TSS(d)))) => exists|m1: Access|
                    #[trigger] Access::task_switch_done(m1, b, TSMode::Iret, le_value(img, 0, 2) as u16, d, r)
                    && unchanged_but_tlb(m, m1) && m1.tlb@ == m.g_desc(le_value(img, 0, 2) as u16).1,
                Ok(_) => r == Err::<(), EmuException>(EmuException::CPUException(CPUException::TS))
                    && unchanged_but_tlb(a, b),
            }
    }

    /// Returns from a nested task: switches back to the task whose selector the current TSS
    /// holds as its previous task link.
    pub fn restore_task(&mut self) -> (r: Result<(), EmuException>)
        ensures
            Access::task_restored(*old(self), *final(self), r),
    {
        let old_tssd = self.core.dtregs.tr.cache;
        let mut raw: Vec<u8> = vec![0; 2];
        let rr = self.read_l(raw.as_mut_slice(), old_tssd.base, 2);
        let ghost m = *self;
        proof {
            assert(unchanged_but_tlb(*old(self), m));
        }
        rr?;
        proof {
            assert(old(self).image_at(old_tssd.base, 2) == Some(raw@)) by {
                let p = old(self).l2p(MemAccessMode::Read, old_tssd.base).0->Ok_0;
                assert(raw@ =~= old(self).mem@.subrange(p as int, p + 2));
            }
        }
        let prev_task = buf_get_le(raw.as_slice(), 0, 2) as u16;
        let ghost m1 = *self;
        let rd = self.obtain_g_desc(prev_task);
        let ghost m2 = *self;
        match rd? {
            Some(DescType::System(SysDescType::TSS(tssdesc))) => {
                let r = self.switch_task(TSMode::Iret, prev_task, tssdesc);
                proof {
                    assert(Access::task_switch_done(m2, *self, TSMode::Iret, prev_task, tssdesc, r));
                    assert(unchanged_but_tlb(m1, m2));
                }
                r
            },
            _ => Err(EmuException::CPUException(CPUException::TS)),
        }
    }
}

/// The low `n` bytes (2, 4 or 8) of `v`.
pub open spec fn low_bytes(v: u64, n: i8) -> u64 {
    if n == 2 {
        (v % 0x1_0000) as u64
    } else if n == 4 {
        (v % 0x1_0000_0000) as u64
    } else {
        v
    }
}

/// The size of each entry of the frame that an interrupt saves with gate size `size`.
pub open spec fn frame_bytes(size: AcsSize) -> i8 {
    match size {
        AcsSize::BIT16 => 2,
        AcsSize::BIT32 => 4,
        AcsSize::BIT64 => 8,
    }
}

impl Access {
    /// `b` is `a` after pushing the low `n` bytes of `v` gave `r`: the stack pointer moves
    /// down by `n` and the value is stored at the new top of the stack segment.
    pub open spec fn pushed(a: Access, b: Access, n: i8, v: u64, r: Result<(), EmuException>) -> bool {
        &&& same_config(a, b)
        &&& b.core.gpregs@ == a.stack_step((-n) as i8).0
        &&& a.core.same_but_gpregs(b.core)
        &&& Access::stores(a, b, SgReg::SS, a.stack_step((-n) as i8).1, v, n as nat, r)
    }

    /// `b` is `a` after pushing, `n` bytes each, the flags, the code selector and the
    /// instruction pointer of `a`, through `m1` and `m2`.
    pub open spec fn frame_saved(a: Access, m1: Access, m2: Access, b: Access, n: i8) -> bool {
        &&& Access::pushed(a, m1, n, low_bytes(a.core.rflags.value(), n), Ok(()))
        &&& Access::pushed(m1, m2, n, a.sgreg(SgReg::CS).selector.value() as u64, Ok(()))
        &&& Access::pushed(m2, b, n, low_bytes(a.core.ip.0, n), Ok(()))
    }
}

} // verus!
