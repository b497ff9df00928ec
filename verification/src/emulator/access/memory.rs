#![allow(non_snake_case)]
use vstd::prelude::*;
use std::collections::BTreeMap;
use crate::emulator::{EmuException, CPUException};
use crate::hardware::memory::{le_value, in_bounds, le_store, byte_pow, lemma_byte_pow_values, lemma_le_value_bound, lemma_le_store_len, le_from_bytes, le_to_bytes};
use crate::hardware::processor::segment::SgReg;
use crate::hardware::processor::general::{low16, low32, add16, add32, add64};
use crate::device::{memio_hit, offset_at, MemoryIO, DMA_MEM_START, DMA_MEM_END};
use super::{Access, AcsSize, CpuMode, PagingMode, unchanged_but_tlb, same_but_core_tlb, same_but_core, dev_same, same_config};
use super::descriptor::same_outside;
use super::register::{GpRegAccess, GpReg16, GpReg32, GpReg64};

verus! {

broadcast use vstd::laws_cmp::group_laws_cmp, vstd::std_specs::btree::group_btree_axioms;

/// What a memory access is for; writes check write permission.
#[derive(Clone, Copy, PartialEq, Eq, Structural, Debug)]
pub enum MemAccessMode {
    Read,
    Write,
    Exec,
    Monitor,
}

/// The width of a memory access.
#[derive(Clone, Copy, PartialEq, Eq, Structural, Debug)]
pub enum MemAccessSize {
    Byte,
    Word,
    DWord,
    QWord,
}

impl MemAccessSize {
    pub open spec fn nbytes(self) -> nat {
        match self {
            MemAccessSize::Byte => 1,
            MemAccessSize::Word => 2,
            MemAccessSize::DWord => 4,
            MemAccessSize::QWord => 8,
        }
    }

    pub fn bytes(self) -> (n: usize)
        ensures
            n == self.nbytes(),
    {
        match self {
            MemAccessSize::Byte => 1,
            MemAccessSize::Word => 2,
            MemAccessSize::DWord => 4,
            MemAccessSize::QWord => 8,
        }
    }
}

/// The attributes and frame of a translation, as the TLB keeps it.
#[derive(Clone, Copy, PartialEq, Eq, Structural, Debug)]
pub struct PageCache {
    pub RW: bool,
    pub US: bool,
    pub PWT: bool,
    pub PCD: bool,
    pub G: bool,
    /// The frame number: bits 12 to 39 of the entry.
    pub base: u32,
    pub XD: bool,
}

/// A translation and the size of the page it maps.
#[derive(Clone, Copy, PartialEq, Eq, Structural, Debug)]
pub enum PageType {
    Page1GB(PageCache),
    Page4MB(PageCache),
    Page2MB(PageCache),
    Page4KB(PageCache),
}

impl PageType {
    pub open spec fn cache(self) -> PageCache {
        match self {
            PageType::Page1GB(c) => c,
            PageType::Page4MB(c) => c,
            PageType::Page2MB(c) => c,
            PageType::Page4KB(c) => c,
        }
    }
}

/// The table indices that a linear address selects at each paging level.
#[derive(Clone, Copy, PartialEq, Eq, Structural, Debug)]
pub struct PagingStructIndex {
    pub legacy: bool,
    pub pml5: Option<u64>,
    pub pml4: Option<u64>,
    pub pdpt: Option<u64>,
    pub pd: u64,
    pub pt: u64,
}

impl PagingStructIndex {
    /// Every index fits a table of 1024 entries.
    pub open spec fn bounded(self) -> bool {
        &&& (self.pml5 matches Some(i) ==> i < 1024)
        &&& (self.pml4 matches Some(i) ==> i < 1024)
        &&& (self.pdpt matches Some(i) ==> i < 1024)
        &&& self.pd < 1024
        &&& self.pt < 1024
    }
}

/// Whether bit `k` of the paging entry `e` is set.
pub open spec fn ebit(e: u64, k: u64) -> bool {
    (e >> k) & 1u64 == 1u64
}

/// The frame number of a paging entry: bits 12 to 39.
pub open spec fn frame_of(e: u64) -> u32 {
    ((e >> 12u64) & 0xfff_ffffu64) as u32
}

/// The physical address of the table or page that a paging entry designates.
pub open spec fn base_of(e: u64) -> u64 {
    (frame_of(e) as u64 * 0x1000) as u64
}

/// What the TLB keeps of a paging entry.
pub open spec fn cache_of(e: u64) -> PageCache {
    PageCache {
        RW: ebit(e, 1),
        US: ebit(e, 2),
        PWT: ebit(e, 3),
        PCD: ebit(e, 4),
        G: ebit(e, 8),
        base: frame_of(e),
        XD: ebit(e, 63),
    }
}

/// Whether a paging entry refuses the access: not present, read-only for a write, or
/// supervisor-only for privilege level 3.
pub open spec fn denied(e: u64, acs: MemAccessMode, cpl: u8) -> bool {
    !ebit(e, 0) || (acs == MemAccessMode::Write && !ebit(e, 1)) || (cpl > 2 && !ebit(e, 2))
}

/// The paging entry at index `idx` of the table at `base`, with entries of `size` bytes;
/// `None` when it does not lie in memory.
pub open spec fn table_entry(mem: Seq<u8>, base: u64, idx: u64, size: nat) -> Option<u64> {
    let addr = base + idx * size;
    if in_bounds(mem, addr, size) {
        Some(le_value(mem, addr, size) as u64)
    } else {
        None
    }
}

/// One level of a walk above the page directory: the entry selected by `idx` in the table that
/// `prev` (or, at the top, CR3) designates. `None` when the walk faults; `Some(None)` when the
/// paging mode has no such level.
pub open spec fn next_level(
    mem: Seq<u8>,
    prev: Option<u64>,
    idx: Option<u64>,
    cr3base: u64,
    size: nat,
    acs: MemAccessMode,
    cpl: u8,
) -> Option<Option<u64>> {
    match idx {
        Some(i) => {
            let base = match prev {
                Some(e) => if denied(e, acs, cpl) { None } else { Some(base_of(e)) },
                None => Some(cr3base),
            };
            match base {
                Some(b) => match table_entry(mem, b, i, size) {
                    Some(e) => Some(Some(e)),
                    None => None,
                },
                None => None,
            }
        },
        None => Some(None),
    }
}

/// The translation that the page walk finds for the indices `p`; `None` for a page fault.
///
/// Presence and access rights (`denied`) are checked on the directory and table entries that
/// lead to a 4 KB page and on the entry above the page directory. A large page (1 GB, 2 MB or
/// 4 MB) is returned from its entry as it stands, without checking that entry's present,
/// writable or user bits: this emulator deliberately keeps that behaviour.
pub open spec fn spec_page_walk(
    mem: Seq<u8>,
    cr3base: u64,
    pse: u8,
    legacy_mode: bool,
    acs: MemAccessMode,
    cpl: u8,
    p: PagingStructIndex,
) -> Option<PageType> {
    let ts: nat = if legacy_mode { 4 } else { 8 };
    match next_level(mem, None, p.pml5, cr3base, 8, acs, cpl) {
        None => None,
        Some(pml5e) => match next_level(mem, pml5e, p.pml4, cr3base, 8, acs, cpl) {
            None => None,
            Some(pml4e) => match next_level(mem, pml4e, p.pdpt, cr3base, ts, acs, cpl) {
                None => None,
                Some(pdpte) => {
                    let pd_base = match pdpte {
                        Some(e) => if denied(e, acs, cpl) { None } else { Some(base_of(e)) },
                        None => Some(cr3base),
                    };
                    if pdpte is Some && ebit(pdpte->0, 7) {
                        Some(PageType::Page1GB(cache_of(pdpte->0)))
                    } else {
                        match pd_base {
                            None => None,
                            Some(pdb) => match table_entry(mem, pdb, p.pd, ts) {
                                None => None,
                                Some(pde) => if p.legacy && pse == 1 && ebit(pde, 7) {
                                    Some(PageType::Page4MB(cache_of(pde)))
                                } else if !p.legacy && ebit(pde, 7) {
                                    Some(PageType::Page2MB(cache_of(pde)))
                                } else if denied(pde, acs, cpl) {
                                    None
                                } else {
                                    match table_entry(mem, base_of(pde), p.pt, ts) {
                                        None => None,
                                        Some(pte) => if denied(pte, acs, cpl) {
                                            None
                                        } else {
                                            Some(PageType::Page4KB(cache_of(pte)))
                                        },
                                    }
                                },
                            },
                        }
                    }
                },
            },
        },
    }
}

/// The table indices of `laddr` in paging mode `md`.
pub open spec fn psidx_of(md: PagingMode, laddr: u64) -> PagingStructIndex {
    let l = laddr % 0x1_0000_0000;
    match md {
        PagingMode::Legacy => PagingStructIndex {
            legacy: true,
            pml5: None,
            pml4: None,
            pdpt: None,
            pd: ((l / 0x40_0000) % 0x400) as u64,
            pt: ((l / 0x1000) % 0x400) as u64,
        },
        PagingMode::LegacyPAE => PagingStructIndex {
            legacy: false,
            pml5: None,
            pml4: None,
            pdpt: Some(((l / 0x4000_0000) % 4) as u64),
            pd: ((l / 0x20_0000) % 0x200) as u64,
            pt: ((l / 0x1000) % 0x200) as u64,
        },
        PagingMode::Ia32e4Lv => PagingStructIndex {
            legacy: false,
            pml5: None,
            pml4: Some(((laddr / 0x80_0000_0000) % 0x200) as u64),
            pdpt: Some(((laddr / 0x4000_0000) % 0x200) as u64),
            pd: ((laddr / 0x20_0000) % 0x200) as u64,
            pt: ((laddr / 0x1000) % 0x200) as u64,
        },
        PagingMode::Ia32e5Lv => PagingStructIndex {
            legacy: false,
            pml5: Some(((laddr / 0x1_0000_0000_0000) % 0x200) as u64),
            pml4: Some(((laddr / 0x80_0000_0000) % 0x200) as u64),
            pdpt: Some(((laddr / 0x4000_0000) % 0x200) as u64),
            pd: ((laddr / 0x20_0000) % 0x200) as u64,
            pt: ((laddr / 0x1000) % 0x200) as u64,
        },
    }
}

/// The physical address that a translation gives `laddr`: the frame plus the offset within a
/// page of the translation's size.
pub open spec fn page_paddr(t: PageType, laddr: u64) -> u64 {
    match t {
        PageType::Page1GB(c) => (c.base * 0x4000_0000 + laddr % 0x4000_0000) as u64,
        PageType::Page4MB(c) => (c.base * 0x40_0000 + laddr % 0x40_0000) as u64,
        PageType::Page2MB(c) => (c.base * 0x20_0000 + laddr % 0x20_0000) as u64,
        PageType::Page4KB(c) => (c.base * 0x1000 + laddr % 0x1000) as u64,
    }
}

/// The translations the TLB holds, keyed by virtual page number shifted by the page size.
pub struct TLBView {
    pub p1gb: Map<u64, PageCache>,
    pub p4mb: Map<u64, PageCache>,
    pub p2mb: Map<u64, PageCache>,
    pub p4kb: Map<u64, PageCache>,
}

impl TLBView {
    pub open spec fn empty() -> Self {
        TLBView { p1gb: Map::empty(), p4mb: Map::empty(), p2mb: Map::empty(), p4kb: Map::empty() }
    }

    /// The cached translation of virtual page `vpn`, larger pages first.
    pub open spec fn find(self, vpn: u64) -> Option<PageType> {
        if self.p1gb.contains_key(vpn / 0x4_0000) {
            Some(PageType::Page1GB(self.p1gb[vpn / 0x4_0000]))
        } else if self.p4mb.contains_key(vpn / 0x400) {
            Some(PageType::Page4MB(self.p4mb[vpn / 0x400]))
        } else if self.p2mb.contains_key(vpn / 0x200) {
            Some(PageType::Page2MB(self.p2mb[vpn / 0x200]))
        } else if self.p4kb.contains_key(vpn) {
            Some(PageType::Page4KB(self.p4kb[vpn]))
        } else {
            None
        }
    }

    /// The TLB after caching translation `t` of page `vpn`; uncacheable (PCD) pages are not kept.
    pub open spec fn add(self, vpn: u64, t: PageType) -> Self {
        if t.cache().PCD {
            self
        } else {
            match t {
                PageType::Page1GB(c) => TLBView { p1gb: self.p1gb.insert(vpn / 0x4_0000, c), ..self },
                PageType::Page4MB(c) => TLBView { p4mb: self.p4mb.insert(vpn / 0x400, c), ..self },
                PageType::Page2MB(c) => TLBView { p2mb: self.p2mb.insert(vpn / 0x200, c), ..self },
                PageType::Page4KB(c) => TLBView { p4kb: self.p4kb.insert(vpn, c), ..self },
            }
        }
    }
}

/// The translation lookaside buffer: translations cached by page size.
pub struct TLB {
    p1gb: BTreeMap<u64, PageCache>,
    p4mb: BTreeMap<u64, PageCache>,
    p2mb: BTreeMap<u64, PageCache>,
    p4kb: BTreeMap<u64, PageCache>,
}

impl View for TLB {
    type V = TLBView;

    closed spec fn view(&self) -> TLBView {
        TLBView { p1gb: self.p1gb@, p4mb: self.p4mb@, p2mb: self.p2mb@, p4kb: self.p4kb@ }
    }
}

impl Default for TLB {
    fn default() -> (t: Self)
        ensures
            t@ == TLBView::empty(),
    {
        TLB { p1gb: BTreeMap::new(), p4mb: BTreeMap::new(), p2mb: BTreeMap::new(), p4kb: BTreeMap::new() }
    }
}

impl TLB {
    /// Drops every cached translation.
    pub fn flush(&mut self)
        ensures
            final(self)@ == TLBView::empty(),
    {
        self.p1gb.clear();
        self.p4mb.clear();
        self.p2mb.clear();
        self.p4kb.clear();
    }

    fn add_cache(&mut self, vpn: u64, cache: PageType)
        ensures
            final(self)@ == old(self)@.add(vpn, cache),
    {
        match cache {
            PageType::Page1GB(tbl) => {
                if !tbl.PCD {
                    self.p1gb.insert(vpn >> 18, tbl);
                }
            },
            PageType::Page4MB(tbl) => {
                if !tbl.PCD {
                    self.p4mb.insert(vpn >> 10, tbl);
                }
            },
            PageType::Page2MB(tbl) => {
                if !tbl.PCD {
                    self.p2mb.insert(vpn >> 9, tbl);
                }
            },
            PageType::Page4KB(tbl) => {
                if !tbl.PCD {
                    self.p4kb.insert(vpn, tbl);
                }
            },
        }
        proof {
            assert(vpn >> 18 == vpn / 0x4_0000) by (bit_vector);
            assert(vpn >> 10 == vpn / 0x400) by (bit_vector);
            assert(vpn >> 9 == vpn / 0x200) by (bit_vector);
        }
    }

    fn find_cache(&self, vpn: u64) -> (r: Option<PageType>)
        ensures
            r == self@.find(vpn),
    {
        proof {
            assert(vpn >> 18 == vpn / 0x4_0000) by (bit_vector);
            assert(vpn >> 10 == vpn / 0x400) by (bit_vector);
            assert(vpn >> 9 == vpn / 0x200) by (bit_vector);
        }
        if let Some(tbl) = self.p1gb.get(&(vpn >> 18)) {
            Some(PageType::Page1GB(*tbl))
        } else if let Some(tbl) = self.p4mb.get(&(vpn >> 10)) {
            Some(PageType::Page4MB(*tbl))
        } else if let Some(tbl) = self.p2mb.get(&(vpn >> 9)) {
            Some(PageType::Page2MB(*tbl))
        } else if let Some(tbl) = self.p4kb.get(&vpn) {
            Some(PageType::Page4KB(*tbl))
        } else {
            None
        }
    }
}


fn entry_bit(e: u64, k: u64) -> (b: bool)
    requires
        k < 64,
    ensures
        b == ebit(e, k),
{
    (e >> k) & 1u64 == 1u64
}

fn entry_base(e: u64) -> (b: u64)
    ensures
        b == base_of(e),
        b < 0x100_0000_0000,
{
    proof {
        assert((e >> 12u64) & 0xfff_ffffu64 <= 0xfff_ffffu64) by (bit_vector);
    }
    ((e >> 12u64) & 0xfff_ffffu64) * 0x1000
}

fn entry_cache(e: u64) -> (c: PageCache)
    ensures
        c == cache_of(e),
{
    proof {
        assert((e >> 12u64) & 0xfff_ffffu64 <= 0xfff_ffffu64) by (bit_vector);
    }
    PageCache {
        RW: entry_bit(e, 1),
        US: entry_bit(e, 2),
        PWT: entry_bit(e, 3),
        PCD: entry_bit(e, 4),
        G: entry_bit(e, 8),
        base: ((e >> 12u64) & 0xfff_ffffu64) as u32,
        XD: entry_bit(e, 63),
    }
}

fn entry_denied(e: u64, acs: MemAccessMode, cpl: u8) -> (b: bool)
    ensures
        b == denied(e, acs, cpl),
{
    !entry_bit(e, 0) || (acs == MemAccessMode::Write && !entry_bit(e, 1)) || (cpl > 2 && !entry_bit(e, 2))
}

/// The table indices of `laddr` in paging mode `md`.
fn paging_index(md: PagingMode, laddr: u64) -> (p: PagingStructIndex)
    ensures
        p == psidx_of(md, laddr),
        p.bounded(),
{
    match md {
        PagingMode::Legacy => {
            let l = laddr % 0x1_0000_0000;
            PagingStructIndex {
                legacy: true,
                pml5: None,
                pml4: None,
                pdpt: None,
                pd: (l / 0x40_0000) % 0x400,
                pt: (l / 0x1000) % 0x400,
            }
        },
        PagingMode::LegacyPAE => {
            let l = laddr % 0x1_0000_0000;
            PagingStructIndex {
                legacy: false,
                pml5: None,
                pml4: None,
                pdpt: Some((l / 0x4000_0000) % 4),
                pd: (l / 0x20_0000) % 0x200,
                pt: (l / 0x1000) % 0x200,
            }
        },
        PagingMode::Ia32e4Lv => PagingStructIndex {
            legacy: false,
            pml5: None,
            pml4: Some((laddr / 0x80_0000_0000) % 0x200),
            pdpt: Some((laddr / 0x4000_0000) % 0x200),
            pd: (laddr / 0x20_0000) % 0x200,
            pt: (laddr / 0x1000) % 0x200,
        },
        PagingMode::Ia32e5Lv => PagingStructIndex {
            legacy: false,
            pml5: Some((laddr / 0x1_0000_0000_0000) % 0x200),
            pml4: Some((laddr / 0x80_0000_0000) % 0x200),
            pdpt: Some((laddr / 0x4000_0000) % 0x200),
            pd: (laddr / 0x20_0000) % 0x200,
            pt: (laddr / 0x1000) % 0x200,
        },
    }
}

/// The physical address that translation `t` gives `laddr`.
fn page_addr(t: PageType, laddr: u64) -> (a: u64)
    ensures
        a == page_paddr(t, laddr),
{
    match t {
        PageType::Page1GB(c) => c.base as u64 * 0x4000_0000 + laddr % 0x4000_0000,
        PageType::Page4MB(c) => c.base as u64 * 0x40_0000 + laddr % 0x40_0000,
        PageType::Page2MB(c) => c.base as u64 * 0x20_0000 + laddr % 0x20_0000,
        PageType::Page4KB(c) => c.base as u64 * 0x1000 + laddr % 0x1000,
    }
}

/// Whether a cached translation refuses the access: read-only for a write, or
/// supervisor-only for privilege level 3.
pub open spec fn cache_denied(c: PageCache, acs: MemAccessMode, cpl: u8) -> bool {
    (acs == MemAccessMode::Write && !c.RW) || (cpl > 2 && !c.US)
}

/// The bytes that a memory-mapped device returns for `n` bytes at `paddr`; zero where no
/// device answers.
pub open spec fn memio_bytes(dev: crate::device::Device, paddr: u64, n: nat) -> Seq<u8> {
    Seq::new(n, |i: int| if DMA_MEM_START <= paddr < DMA_MEM_END {
        dev.dma.mem_read(offset_at((paddr - DMA_MEM_START) as u64, i))
    } else {
        0u8
    })
}

impl Access {
    /// The physical address of the top paging table.
    pub open spec fn cr3_base(self) -> u64 {
        (self.core.cregs.3.PageDirBase as u64 * 0x1000) as u64
    }

    /// The translation the page walk finds for the indices `p`.
    pub open spec fn walk(self, acs: MemAccessMode, md: PagingMode, p: PagingStructIndex) -> Option<PageType> {
        spec_page_walk(self.mem@, self.cr3_base(), self.core.cregs.4.PSE, md == PagingMode::Legacy, acs, self.cpl(), p)
    }

    /// The result of translating linear address `laddr`, and the TLB afterwards.
    pub open spec fn l2p(self, acs: MemAccessMode, laddr: u64) -> (Result<u64, EmuException>, TLBView) {
        match self.pgmd {
            None => (Ok(laddr), self.tlb@),
            Some(md) => {
                let vpn = (laddr / 0x1000) as u64;
                match self.tlb@.find(vpn) {
                    Some(t) => if cache_denied(t.cache(), acs, self.cpl()) {
                        (Err(EmuException::CPUException(CPUException::PF(laddr))), self.tlb@)
                    } else {
                        (Ok(page_paddr(t, laddr)), self.tlb@)
                    },
                    None => match self.walk(acs, md, psidx_of(md, laddr)) {
                        None => (Err(EmuException::CPUException(CPUException::PF(laddr))), self.tlb@),
                        Some(t) => (Ok(page_paddr(t, laddr)), self.tlb@.add(vpn, t)),
                    },
                }
            },
        }
    }

    /// The linear address of offset `vaddr` in segment `sg`, or the fault that the segment
    /// limit raises in protected mode.
    pub open spec fn v2l(self, sg: SgReg, vaddr: u64) -> Result<u64, EmuException> {
        let long64 = self.mode == CpuMode::Long && self.oasz.ad == AcsSize::BIT64;
        let cache = self.sgreg(sg).cache;
        let base = if long64 && !(sg == SgReg::FS || sg == SgReg::GS) { 0 } else { cache.base };
        let scaled = if cache.G != 0 { (vaddr / 0x1000) as u64 } else { vaddr };
        if self.mode == CpuMode::Protected && scaled > cache.limit {
            Err(EmuException::CPUException(CPUException::GP(None)))
        } else {
            Ok(vstd::wrapping::u64_specs::wrapping_add(base, vaddr))
        }
    }

    /// The physical address of offset `vaddr` in segment `sg` (wrapped at 1 MiB while the A20
    /// gate is closed), and the TLB afterwards.
    pub open spec fn v2p(self, acs: MemAccessMode, sg: SgReg, vaddr: u64) -> (Result<u64, EmuException>, TLBView) {
        match self.v2l(sg, vaddr) {
            Err(e) => (Err(e), self.tlb@),
            Ok(laddr) => {
                let (r, t) = self.l2p(acs, laddr);
                match r {
                    Err(e) => (Err(e), t),
                    Ok(p) => (Ok(if self.a20gate { p } else { (p % 0x10_0000) as u64 }), t),
                }
            },
        }
    }

    /// The value of `n` bytes at physical `paddr`: from the device that the address is routed
    /// to, else from memory (0 outside it).
    pub open spec fn data_at(self, paddr: u64, n: nat) -> u64 {
        if memio_hit(self.dev.memio_range@, paddr, (n - 1) as u64) {
            le_value(memio_bytes(self.dev, paddr, n), 0, n) as u64
        } else if in_bounds(self.mem@, paddr as int, n) {
            le_value(self.mem@, paddr as int, n) as u64
        } else {
            0
        }
    }

    /// Memory after storing the low `n` bytes of `v` at physical `paddr`.
    pub open spec fn mem_stored(self, paddr: u64, v: u64, n: nat) -> Seq<u8> {
        if !memio_hit(self.dev.memio_range@, paddr, (n - 1) as u64) && in_bounds(self.mem@, paddr as int, n) {
            le_store(self.mem@, paddr as int, v as nat % byte_pow(n), n)
        } else {
            self.mem@
        }
    }

    /// The DMA controller after storing the low `n` bytes of `v` at physical `paddr`.
    pub open spec fn dma_stored(self, paddr: u64, v: u64, n: nat) -> crate::device::testdma::TestDMA {
        if memio_hit(self.dev.memio_range@, paddr, (n - 1) as u64) && DMA_MEM_START <= paddr < DMA_MEM_END {
            self.dev.dma.mems_written((paddr - DMA_MEM_START) as u64, le_store(Seq::new(n, |i: int| 0u8), 0, v as nat, n), n)
        } else {
            self.dev.dma
        }
    }

    /// Reads the `size`-byte little-endian entry at physical `addr`; `None` outside memory.
    fn read_entry(&self, addr: u64, size: usize) -> (r: Option<u64>)
        requires
            size == 4 || size == 8,
        ensures
            r == (if in_bounds(self.mem@, addr as int, size as nat) {
                Some(le_value(self.mem@, addr as int, size as nat) as u64)
            } else {
                None::<u64>
            }),
    {
        let len = self.mem.len() as u64;
        if addr <= len && size as u64 <= len - addr {
            proof {
                lemma_le_value_bound(self.mem@, addr as int, size as nat);
                lemma_byte_pow_values();
            }
            let a = addr as usize;
            if size == 4 {
                Some(self.mem.read32(a) as u64)
            } else {
                Some(self.mem.read64(a))
            }
        } else {
            None
        }
    }

    /// One level of the walk: the entry selected by `idx` in the table that `prev` (or CR3)
    /// designates.
    fn walk_level(
        &self,
        prev: Option<u64>,
        idx: Option<u64>,
        cr3base: u64,
        size: usize,
        acs: MemAccessMode,
        cpl: u8,
    ) -> (r: Option<Option<u64>>)
        requires
            size == 4 || size == 8,
            cr3base < 0x1000_0000_0000,
            idx matches Some(i) ==> i < 1024,
        ensures
            r == next_level(self.mem@, prev, idx, cr3base, size as nat, acs, cpl),
    {
        match idx {
            Some(i) => {
                let base = match prev {
                    Some(e) => {
                        if entry_denied(e, acs, cpl) {
                            return None;
                        }
                        entry_base(e)
                    },
                    None => cr3base,
                };
                match self.read_entry(base + if size == 4 { i * 4 } else { i * 8 }, size) {
                    Some(e) => Some(Some(e)),
                    None => None,
                }
            },
            None => Some(None),
        }
    }

    /// Walks the paging structures for the indices `psidx`; `None` for a page fault.
    fn page_walk(&self, acs: MemAccessMode, pmd: PagingMode, psidx: PagingStructIndex) -> (r: Option<PageType>)
        requires
            psidx.bounded(),
        ensures
            r == self.walk(acs, pmd, psidx),
    {
        let cpl = match self.get_cpl() {
            Ok(c) => c,
            Err(_) => return None,
        };
        let cr3base = self.core.cregs.3.get_pagedir_base();
        let ts: usize = match pmd {
            PagingMode::Legacy => 4,
            _ => 8,
        };
        let pml5e = match self.walk_level(None, psidx.pml5, cr3base, 8, acs, cpl) {
            Some(e) => e,
            None => return None,
        };
        let pml4e = match self.walk_level(pml5e, psidx.pml4, cr3base, 8, acs, cpl) {
            Some(e) => e,
            None => return None,
        };
        let pdpte = match self.walk_level(pml4e, psidx.pdpt, cr3base, ts, acs, cpl) {
            Some(e) => e,
            None => return None,
        };
        let pd_base = match pdpte {
            Some(e) => {
                if entry_bit(e, 7) {
                    return Some(PageType::Page1GB(entry_cache(e)));
                }
                if entry_denied(e, acs, cpl) {
                    return None;
                }
                entry_base(e)
            },
            None => cr3base,
        };
        let pde = match self.read_entry(pd_base + if ts == 4 { psidx.pd * 4 } else { psidx.pd * 8 }, ts) {
            Some(e) => e,
            None => return None,
        };
        if psidx.legacy && self.core.cregs.4.PSE == 1 && entry_bit(pde, 7) {
            return Some(PageType::Page4MB(entry_cache(pde)));
        }
        if !psidx.legacy && entry_bit(pde, 7) {
            return Some(PageType::Page2MB(entry_cache(pde)));
        }
        if entry_denied(pde, acs, cpl) {
            return None;
        }
        let pte = match self.read_entry(entry_base(pde) + if ts == 4 { psidx.pt * 4 } else { psidx.pt * 8 }, ts) {
            Some(e) => e,
            None => return None,
        };
        if entry_denied(pte, acs, cpl) {
            return None;
        }
        Some(PageType::Page4KB(entry_cache(pte)))
    }

    /// Translates linear address `laddr`, through the TLB or a page walk whose result the TLB
    /// then keeps.
    fn trans_l2p(&mut self, acs: MemAccessMode, laddr: u64) -> (r: Result<u64, EmuException>)
        ensures
            (r, final(self).tlb@) == old(self).l2p(acs, laddr),
            unchanged_but_tlb(*old(self), *final(self)),
    {
        let md = match self.pgmd {
            Some(md) => md,
            None => return Ok(laddr),
        };
        let vpn = laddr >> 12;
        proof {
            assert(laddr >> 12 == laddr / 0x1000) by (bit_vector);
        }
        let cpl = match self.get_cpl() {
            Ok(c) => c,
            Err(e) => return Err(e),
        };
        let ptype = match self.tlb.find_cache(vpn) {
            Some(ty) => {
                let c = match ty {
                    PageType::Page1GB(e) => e,
                    PageType::Page4MB(e) => e,
                    PageType::Page2MB(e) => e,
                    PageType::Page4KB(e) => e,
                };
                if (acs == MemAccessMode::Write && !c.RW) || (cpl > 2 && !c.US) {
                    return Err(EmuException::CPUException(CPUException::PF(laddr)));
                }
                ty
            },
            None => {
                let psidx = paging_index(md, laddr);
                match self.page_walk(acs, md, psidx) {
                    Some(p) => {
                        self.tlb.add_cache(vpn, p);
                        p
                    },
                    None => return Err(EmuException::CPUException(CPUException::PF(laddr))),
                }
            },
        };
        Ok(page_addr(ptype, laddr))
    }

    /// The linear address of offset `vaddr` in segment `sg`.
    fn trans_v2l(&self, _acsmode: MemAccessMode, sg: SgReg, vaddr: u64) -> (r: Result<u64, EmuException>)
        ensures
            r == self.v2l(sg, vaddr),
    {
        proof {
            self.core.sgregs.lemma_len();
        }
        let long64 = self.mode == CpuMode::Long && self.oasz.ad == AcsSize::BIT64;
        let cache = self.core.sgregs.get(sg).cache;
        let base = if long64 && !(sg == SgReg::FS || sg == SgReg::GS) { 0 } else { cache.base };
        let scaled = if cache.G != 0 { vaddr / 0x1000 } else { vaddr };
        if self.mode == CpuMode::Protected && scaled > cache.limit as u64 {
            return Err(EmuException::CPUException(CPUException::GP(None)));
        }
        Ok(base.wrapping_add(vaddr))
    }

    /// The physical address of offset `vaddr` in segment `sg`.
    fn trans_v2p(&mut self, acsmode: MemAccessMode, sg: SgReg, vaddr: u64) -> (r: Result<u64, EmuException>)
        ensures
            (r, final(self).tlb@) == old(self).v2p(acsmode, sg, vaddr),
            unchanged_but_tlb(*old(self), *final(self)),
    {
        let laddr = match self.trans_v2l(acsmode, sg, vaddr) {
            Ok(l) => l,
            Err(e) => return Err(e),
        };
        let paddr = match self.trans_l2p(acsmode, laddr) {
            Ok(p) => p,
            Err(e) => return Err(e),
        };
        Ok(if self.a20gate { paddr } else { paddr % 0x10_0000 })
    }

    /// Reads `size` bytes at offset `vaddr` of segment `sg`, from the device the address is
    /// routed to or from memory.
    fn get_data_size(&mut self, sg: SgReg, vaddr: u64, size: MemAccessSize) -> (r: Result<u64, EmuException>)
        ensures
            Access::loads(*old(self), *final(self), sg, vaddr, size.nbytes(), r),
            final(self).core == old(self).core,
            r matches Ok(v) ==> v < byte_pow(size.nbytes()),
    {
        proof {
            reveal(Access::loads);
        }
        let paddr = match self.trans_v2p(MemAccessMode::Read, sg, vaddr) {
            Ok(p) => p,
            Err(e) => return Err(e),
        };
        let n = size.bytes();
        proof {
            lemma_byte_pow_values();
        }
        if self.dev.check_memio(paddr, n as u64 - 1) {
            let mut data: Vec<u8> = vec![0; n];
            self.dev.read_memio(paddr, data.as_mut_slice());
            proof {
                assert(data@ =~= memio_bytes(self.dev, paddr, n as nat));
                lemma_le_value_bound(data@, 0, n as nat);
            }
            Ok(le_from_bytes(data.as_slice()))
        } else {
            let len = self.mem.len() as u64;
            if paddr > len {
                return Ok(0);
            }
            let a = paddr as usize;
            let v = match size {
                MemAccessSize::Byte => self.mem.read8(a) as u64,
                MemAccessSize::Word => self.mem.read16(a) as u64,
                MemAccessSize::DWord => self.mem.read32(a) as u64,
                MemAccessSize::QWord => self.mem.read64(a),
            };
            proof {
                reveal_with_fuel(le_value, 2);
            }
            Ok(v)
        }
    }

    /// Writes the low `size` bytes of `v` at physical `paddr`, to the device the address is
    /// routed to or to memory.
    fn store_phys(&mut self, paddr: u64, v: u64, size: MemAccessSize)
        ensures
            final(self).mem@ == old(self).mem_stored(paddr, v, size.nbytes()),
            final(self).dev.dma == old(self).dma_stored(paddr, v, size.nbytes()),
            final(self).core == old(self).core,
            final(self).tlb@ == old(self).tlb@,
            final(self).mode == old(self).mode,
            final(self).oasz == old(self).oasz,
            final(self).stsz == old(self).stsz,
            final(self).pgmd == old(self).pgmd,
            final(self).a20gate == old(self).a20gate,
            final(self).dev.irq_queue@ == old(self).dev.irq_queue@,
            final(self).dev.timer == old(self).dev.timer,
            final(self).dev.memio_range@ == old(self).dev.memio_range@,
    {
        let n = size.bytes();
        if self.dev.check_memio(paddr, n as u64 - 1) {
            let bytes = le_to_bytes(v, n);
            proof {
                lemma_le_store_len(Seq::new(n as nat, |i: int| 0u8), 0, v as nat, n as nat);
            }
            self.dev.write_memio(paddr, bytes.as_slice());
        } else {
            let len = self.mem.len() as u64;
            if paddr > len {
                return ;
            }
            let a = paddr as usize;
            proof {
                lemma_byte_pow_values();
                reveal_with_fuel(le_store, 2);
            }
            match size {
                MemAccessSize::Byte => self.mem.write8(a, (v % 0x100) as u8),
                MemAccessSize::Word => self.mem.write16(a, (v % 0x1_0000) as u16),
                MemAccessSize::DWord => self.mem.write32(a, (v % 0x1_0000_0000) as u32),
                MemAccessSize::QWord => self.mem.write64(a, v),
            }
        }
    }

    /// Writes the low `size` bytes of `v` at offset `vaddr` of segment `sg`, to the device the
    /// address is routed to or to memory.
    fn set_data_size(&mut self, sg: SgReg, vaddr: u64, v: u64, size: MemAccessSize) -> (r: Result<(), EmuException>)
        ensures
            Access::stores(*old(self), *final(self), sg, vaddr, v, size.nbytes(), r),
            final(self).core == old(self).core,
    {
        proof {
            reveal(Access::stores);
        }
        let paddr = match self.trans_v2p(MemAccessMode::Write, sg, vaddr) {
            Ok(p) => p,
            Err(e) => return Err(e),
        };
        self.store_phys(paddr, v, size);
        Ok(())
    }
}


impl Access {
    /// `b` is `a` after reading `n` bytes at offset `vaddr` of segment `sg` gave `r`; the
    /// processor state is not constrained here.
    #[verifier::opaque]
    pub open spec fn loads(a: Access, b: Access, sg: SgReg, vaddr: u64, n: nat, r: Result<u64, EmuException>) -> bool {
        &&& b.tlb@ == a.v2p(MemAccessMode::Read, sg, vaddr).1
        &&& r == (match a.v2p(MemAccessMode::Read, sg, vaddr).0 {
            Ok(p) => Ok(a.data_at(p, n)),
            Err(e) => Err(e),
        })
        &&& same_but_core_tlb(a, b)
    }

    /// `b` is `a` after writing the low `n` bytes of `v` at offset `vaddr` of segment `sg`
    /// gave `r`; the processor state is not constrained here.
    #[verifier::opaque]
    pub open spec fn stores(a: Access, b: Access, sg: SgReg, vaddr: u64, v: u64, n: nat, r: Result<(), EmuException>) -> bool {
        &&& b.tlb@ == a.v2p(MemAccessMode::Write, sg, vaddr).1
        &&& b.mode == a.mode
        &&& b.oasz == a.oasz
        &&& b.stsz == a.stsz
        &&& b.pgmd == a.pgmd
        &&& b.a20gate == a.a20gate
        &&& b.dev.irq_queue@ == a.dev.irq_queue@
        &&& b.dev.timer == a.dev.timer
        &&& b.dev.memio_range@ == a.dev.memio_range@
        &&& match a.v2p(MemAccessMode::Write, sg, vaddr).0 {
            Ok(p) => {
                &&& r is Ok
                &&& b.mem@ == a.mem_stored(p, v, n)
                &&& b.dev.dma == a.dma_stored(p, v, n)
            },
            Err(e) => {
                &&& r == Err::<(), EmuException>(e)
                &&& b.mem@ == a.mem@
                &&& b.dev.dma == a.dev.dma
            },
        }
    }

    /// The value of `n` bytes of code at physical `paddr`; 0 outside memory.
    pub open spec fn code_at(self, paddr: u64, n: nat) -> u64 {
        if in_bounds(self.mem@, paddr as int, n) {
            le_value(self.mem@, paddr as int, n) as u64
        } else {
            0
        }
    }

    /// `b` is `a` after fetching `n` bytes of code `index` bytes past the instruction pointer
    /// gave `r`.
    #[verifier::opaque]
    pub open spec fn fetches(a: Access, b: Access, index: u64, n: nat, r: Result<u64, EmuException>) -> bool {
        let vaddr = vstd::wrapping::u64_specs::wrapping_add(a.core.ip.0, index);
        &&& b.tlb@ == a.v2p(MemAccessMode::Exec, SgReg::CS, vaddr).1
        &&& r == (match a.v2p(MemAccessMode::Exec, SgReg::CS, vaddr).0 {
            Ok(p) => Ok(a.code_at(p, n)),
            Err(e) => Err(e),
        })
        &&& unchanged_but_tlb(a, b)
    }

    /// The result of translating linear address `laddr` while the TLB holds `t`, and the TLB
    /// afterwards: `l2p` with the TLB given apart from the rest of the machine.
    pub open spec fn l2p_in(self, t: TLBView, acs: MemAccessMode, laddr: u64) -> (Result<u64, EmuException>, TLBView) {
        match self.pgmd {
            None => (Ok(laddr), t),
            Some(md) => {
                let vpn = (laddr / 0x1000) as u64;
                match t.find(vpn) {
                    Some(c) => if cache_denied(c.cache(), acs, self.cpl()) {
                        (Err(EmuException::CPUException(CPUException::PF(laddr))), t)
                    } else {
                        (Ok(page_paddr(c, laddr)), t)
                    },
                    None => match self.walk(acs, md, psidx_of(md, laddr)) {
                        None => (Err(EmuException::CPUException(CPUException::PF(laddr))), t),
                        Some(c) => (Ok(page_paddr(c, laddr)), t.add(vpn, c)),
                    },
                }
            },
        }
    }

    /// `v2p` while the TLB holds `t`.
    pub open spec fn v2p_in(self, t: TLBView, acs: MemAccessMode, sg: SgReg, vaddr: u64) -> (Result<u64, EmuException>, TLBView) {
        match self.v2l(sg, vaddr) {
            Err(e) => (Err(e), t),
            Ok(laddr) => {
                let (r, t2) = self.l2p_in(t, acs, laddr);
                match r {
                    Err(e) => (Err(e), t2),
                    Ok(p) => (Ok(if self.a20gate { p } else { (p % 0x10_0000) as u64 }), t2),
                }
            },
        }
    }

    /// The `n` bytes of code `index` bytes past the instruction pointer, fetched while the TLB
    /// holds `t`, and the TLB afterwards.
    pub open spec fn code_fetch(self, t: TLBView, index: u64, n: nat) -> (Result<u64, EmuException>, TLBView) {
        let vaddr = vstd::wrapping::u64_specs::wrapping_add(self.core.ip.0, index);
        let (r, t2) = self.v2p_in(t, MemAccessMode::Exec, SgReg::CS, vaddr);
        (match r {
            Ok(p) => Ok(self.code_at(p, n)),
            Err(e) => Err(e),
        }, t2)
    }

    /// A fetch from `b`, which differs from `a` at most in its TLB, gives what `a` would
    /// give with `b`'s TLB, and leaves a machine that still differs from `a` only there.
    pub proof fn lemma_fetch(a: Access, b: Access, c: Access, index: u64, n: nat, r: Result<u64, EmuException>)
        requires
            unchanged_but_tlb(a, b),
            Access::fetches(b, c, index, n, r),
        ensures
            (r, c.tlb@) == a.code_fetch(b.tlb@, index, n),
            unchanged_but_tlb(a, c),
    {
        reveal(Access::fetches);
    }

    /// Machines that differ at most in their TLB fetch the same code with the same TLB.
    pub proof fn lemma_code_fetch_same(a: Access, b: Access, t: TLBView, index: u64, n: nat)
        requires
            unchanged_but_tlb(a, b),
        ensures
            a.code_fetch(t, index, n) == b.code_fetch(t, index, n),
    {
    }

    /// Machines that differ at most in their TLB fetch the same code with any TLB.
    pub proof fn lemma_code_fetch_same_all(a: Access, b: Access)
        requires
            unchanged_but_tlb(a, b),
        ensures
            forall|t: TLBView, index: u64, n: nat| #[trigger] a.code_fetch(t, index, n) == b.code_fetch(t, index, n),
    {
    }

    /// The general purpose registers after moving the stack pointer by `d`, and the new
    /// stack pointer in the width of the stack segment.
    pub open spec fn stack_step(self, d: i8) -> (Seq<u64>, u64) {
        let regs = self.core.gpregs@;
        let rsp = regs[4];
        match self.stsz {
            AcsSize::BIT16 => {
                let x = add16(rsp, d as i16);
                (regs.update(4, x), low16(x) as u64)
            },
            AcsSize::BIT32 => {
                let x = add32(rsp, d as i32);
                (regs.update(4, x), low32(x) as u64)
            },
            AcsSize::BIT64 => {
                let x = add64(rsp, d as i64);
                (regs.update(4, x), x)
            },
        }
    }

    pub fn get_data8(&mut self, target: (SgReg, u64)) -> (r: Result<u8, EmuException>)
        ensures
            same_config(*old(self), *final(self)),
            Access::loads(*old(self), *final(self), target.0, target.1, 1, match r { Ok(x) => Ok(x as u64), Err(e) => Err(e) }),
            final(self).core == old(self).core,
    {
        proof {
            reveal(Access::loads);
        }
        proof {
            lemma_byte_pow_values();
        }
        match self.get_data_size(target.0, target.1, MemAccessSize::Byte) {
            Ok(v) => Ok(v as u8),
            Err(e) => Err(e),
        }
    }

    pub fn get_data16(&mut self, target: (SgReg, u64)) -> (r: Result<u16, EmuException>)
        ensures
            same_config(*old(self), *final(self)),
            Access::loads(*old(self), *final(self), target.0, target.1, 2, match r { Ok(x) => Ok(x as u64), Err(e) => Err(e) }),
            final(self).core == old(self).core,
    {
        proof {
            reveal(Access::loads);
        }
        proof {
            lemma_byte_pow_values();
        }
        match self.get_data_size(target.0, target.1, MemAccessSize::Word) {
            Ok(v) => Ok(v as u16),
            Err(e) => Err(e),
        }
    }

    pub fn get_data32(&mut self, target: (SgReg, u64)) -> (r: Result<u32, EmuException>)
        ensures
            same_config(*old(self), *final(self)),
            Access::loads(*old(self), *final(self), target.0, target.1, 4, match r { Ok(x) => Ok(x as u64), Err(e) => Err(e) }),
            final(self).core == old(self).core,
    {
        proof {
            reveal(Access::loads);
        }
        proof {
            lemma_byte_pow_values();
        }
        match self.get_data_size(target.0, target.1, MemAccessSize::DWord) {
            Ok(v) => Ok(v as u32),
            Err(e) => Err(e),
        }
    }

    pub fn get_data64(&mut self, target: (SgReg, u64)) -> (r: Result<u64, EmuException>)
        ensures
            same_config(*old(self), *final(self)),
            Access::loads(*old(self), *final(self), target.0, target.1, 8, match r { Ok(x) => Ok(x), Err(e) => Err(e) }),
            final(self).core == old(self).core,
    {
        proof {
            reveal(Access::loads);
        }
        proof {
            lemma_byte_pow_values();
        }
        match self.get_data_size(target.0, target.1, MemAccessSize::QWord) {
            Ok(v) => Ok(v),
            Err(e) => Err(e),
        }
    }

    pub fn set_data8(&mut self, target: (SgReg, u64), v: u8) -> (r: Result<(), EmuException>)
        ensures
            same_config(*old(self), *final(self)),
            Access::stores(*old(self), *final(self), target.0, target.1, v as u64, 1, r),
            final(self).core == old(self).core,
    {
        proof {
            reveal(Access::stores);
        }
        self.set_data_size(target.0, target.1, v as u64, MemAccessSize::Byte)
    }

    pub fn set_data16(&mut self, target: (SgReg, u64), v: u16) -> (r: Result<(), EmuException>)
        ensures
            same_config(*old(self), *final(self)),
            Access::stores(*old(self), *final(self), target.0, target.1, v as u64, 2, r),
            final(self).core == old(self).core,
    {
        proof {
            reveal(Access::stores);
        }
        self.set_data_size(target.0, target.1, v as u64, MemAccessSize::Word)
    }

    pub fn set_data32(&mut self, target: (SgReg, u64), v: u32) -> (r: Result<(), EmuException>)
        ensures
            same_config(*old(self), *final(self)),
            Access::stores(*old(self), *final(self), target.0, target.1, v as u64, 4, r),
            final(self).core == old(self).core,
    {
        proof {
            reveal(Access::stores);
        }
        self.set_data_size(target.0, target.1, v as u64, MemAccessSize::DWord)
    }

    pub fn set_data64(&mut self, target: (SgReg, u64), v: u64) -> (r: Result<(), EmuException>)
        ensures
            same_config(*old(self), *final(self)),
            Access::stores(*old(self), *final(self), target.0, target.1, v, 8, r),
            final(self).core == old(self).core,
    {
        proof {
            reveal(Access::stores);
        }
        self.set_data_size(target.0, target.1, v, MemAccessSize::QWord)
    }
}

impl Access {
    /// Reads `size` bytes of code `index` bytes past the instruction pointer.
    fn get_code_size(&mut self, index: u64, size: MemAccessSize) -> (r: Result<u64, EmuException>)
        ensures
            Access::fetches(*old(self), *final(self), index, size.nbytes(), r),
            r matches Ok(v) ==> v < byte_pow(size.nbytes()),
    {
        proof {
            reveal(Access::fetches);
        }
        let ip = self.core.ip.get_rip();
        let paddr = match self.trans_v2p(MemAccessMode::Exec, SgReg::CS, ip.wrapping_add(index)) {
            Ok(p) => p,
            Err(e) => return Err(e),
        };
        proof {
            lemma_byte_pow_values();
            reveal_with_fuel(le_value, 2);
        }
        let len = self.mem.len() as u64;
        if paddr > len {
            return Ok(0);
        }
        let a = paddr as usize;
        let v = match size {
            MemAccessSize::Byte => self.mem.read8(a) as u64,
            MemAccessSize::Word => self.mem.read16(a) as u64,
            MemAccessSize::DWord => self.mem.read32(a) as u64,
            MemAccessSize::QWord => self.mem.read64(a),
        };
        Ok(v)
    }

    pub fn get_code8(&mut self, index: u64) -> (r: Result<u8, EmuException>)
        ensures
            Access::fetches(*old(self), *final(self), index, 1, match r { Ok(x) => Ok(x as u64), Err(e) => Err(e) }),
            unchanged_but_tlb(*old(self), *final(self)),
    {
        proof {
            reveal(Access::fetches);
        }
        proof {
            lemma_byte_pow_values();
        }
        match self.get_code_size(index, MemAccessSize::Byte) {
            Ok(v) => Ok(v as u8),
            Err(e) => Err(e),
        }
    }

    pub fn get_code16(&mut self, index: u64) -> (r: Result<u16, EmuException>)
        ensures
            Access::fetches(*old(self), *final(self), index, 2, match r { Ok(x) => Ok(x as u64), Err(e) => Err(e) }),
            unchanged_but_tlb(*old(self), *final(self)),
    {
        proof {
            reveal(Access::fetches);
        }
        proof {
            lemma_byte_pow_values();
        }
        match self.get_code_size(index, MemAccessSize::Word) {
            Ok(v) => Ok(v as u16),
            Err(e) => Err(e),
        }
    }

    pub fn get_code32(&mut self, index: u64) -> (r: Result<u32, EmuException>)
        ensures
            Access::fetches(*old(self), *final(self), index, 4, match r { Ok(x) => Ok(x as u64), Err(e) => Err(e) }),
            unchanged_but_tlb(*old(self), *final(self)),
    {
        proof {
            reveal(Access::fetches);
        }
        proof {
            lemma_byte_pow_values();
        }
        match self.get_code_size(index, MemAccessSize::DWord) {
            Ok(v) => Ok(v as u32),
            Err(e) => Err(e),
        }
    }

    pub fn get_code64(&mut self, index: u64) -> (r: Result<u64, EmuException>)
        ensures
            Access::fetches(*old(self), *final(self), index, 8, match r { Ok(x) => Ok(x), Err(e) => Err(e) }),
            unchanged_but_tlb(*old(self), *final(self)),
    {
        proof {
            reveal(Access::fetches);
        }
        proof {
            lemma_byte_pow_values();
        }
        match self.get_code_size(index, MemAccessSize::QWord) {
            Ok(v) => Ok(v),
            Err(e) => Err(e),
        }
    }

    /// Moves the stack pointer by `size` in the width of the stack segment and returns it.
    fn stack_update(&mut self, size: i8) -> (r: Result<u64, EmuException>)
        ensures
            r == Ok::<u64, EmuException>(old(self).stack_step(size).1),
            Access::gpregs_become(*old(self), *final(self), old(self).stack_step(size).0),
    {
        proof {
            self.core.gpregs.lemma_wf();
        }
        match self.stsz {
            AcsSize::BIT16 => {
                if let Err(e) = self.update_gpreg(GpReg16::SP, size as i16) {
                    return Err(e);
                }
                let sp: u16 = match self.get_gpreg(GpReg16::SP) {
                    Ok(v) => v,
                    Err(e) => return Err(e),
                };
                Ok(sp as u64)
            },
            AcsSize::BIT32 => {
                if let Err(e) = self.update_gpreg(GpReg32::ESP, size as i32) {
                    return Err(e);
                }
                let sp: u32 = match self.get_gpreg(GpReg32::ESP) {
                    Ok(v) => v,
                    Err(e) => return Err(e),
                };
                Ok(sp as u64)
            },
            AcsSize::BIT64 => {
                if let Err(e) = self.update_gpreg(GpReg64::RSP, size as i64) {
                    return Err(e);
                }
                let sp: u64 = match self.get_gpreg(GpReg64::RSP) {
                    Ok(v) => v,
                    Err(e) => return Err(e),
                };
                Ok(sp)
            },
        }
    }

    /// Pushes `v` onto the stack.
    pub fn push_u16(&mut self, v: u16) -> (r: Result<(), EmuException>)
        ensures
            same_config(*old(self), *final(self)),
            final(self).core.gpregs@ == old(self).stack_step(-2i8).0,
            old(self).core.same_but_gpregs(final(self).core),
            Access::stores(*old(self), *final(self), SgReg::SS, old(self).stack_step(-2i8).1, v as u64, 2, r),
    {
        proof {
            reveal(Access::stores);
        }
        let sp = match self.stack_update(-2) {
            Ok(sp) => sp,
            Err(e) => return Err(e),
        };
        let ghost mid = *self;
        let r = self.set_data16((SgReg::SS, sp), v);
        proof {
            assert(mid.v2p(MemAccessMode::Write, SgReg::SS, sp) == old(self).v2p(MemAccessMode::Write, SgReg::SS, sp));
        }
        r
    }

    /// Pops a value off the stack.
    pub fn pop_u16(&mut self) -> (r: Result<u16, EmuException>)
        ensures
            same_config(*old(self), *final(self)),
            final(self).core.gpregs@ == old(self).stack_step(2i8).0,
            old(self).core.same_but_gpregs(final(self).core),
            Access::loads(*old(self), *final(self), SgReg::SS, vstd::wrapping::u64_specs::wrapping_sub(old(self).stack_step(2i8).1, 2), 2, match r { Ok(x) => Ok(x as u64), Err(e) => Err(e) }),
    {
        proof {
            reveal(Access::loads);
        }
        let sp = match self.stack_update(2) {
            Ok(sp) => sp,
            Err(e) => return Err(e),
        };
        let ghost mid = *self;
        let addr = sp.wrapping_sub(2);
        let r = self.get_data16((SgReg::SS, addr));
        proof {
            assert(mid.v2p(MemAccessMode::Read, SgReg::SS, addr) == old(self).v2p(MemAccessMode::Read, SgReg::SS, addr));
        }
        r
    }

    /// Pushes `v` onto the stack.
    pub fn push_u32(&mut self, v: u32) -> (r: Result<(), EmuException>)
        ensures
            same_config(*old(self), *final(self)),
            final(self).core.gpregs@ == old(self).stack_step(-4i8).0,
            old(self).core.same_but_gpregs(final(self).core),
            Access::stores(*old(self), *final(self), SgReg::SS, old(self).stack_step(-4i8).1, v as u64, 4, r),
    {
        proof {
            reveal(Access::stores);
        }
        let sp = match self.stack_update(-4) {
            Ok(sp) => sp,
            Err(e) => return Err(e),
        };
        let ghost mid = *self;
        let r = self.set_data32((SgReg::SS, sp), v);
        proof {
            assert(mid.v2p(MemAccessMode::Write, SgReg::SS, sp) == old(self).v2p(MemAccessMode::Write, SgReg::SS, sp));
        }
        r
    }

    /// Pops a value off the stack.
    pub fn pop_u32(&mut self) -> (r: Result<u32, EmuException>)
        ensures
            same_config(*old(self), *final(self)),
            final(self).core.gpregs@ == old(self).stack_step(4i8).0,
            old(self).core.same_but_gpregs(final(self).core),
            Access::loads(*old(self), *final(self), SgReg::SS, vstd::wrapping::u64_specs::wrapping_sub(old(self).stack_step(4i8).1, 4), 4, match r { Ok(x) => Ok(x as u64), Err(e) => Err(e) }),
    {
        proof {
            reveal(Access::loads);
        }
        let sp = match self.stack_update(4) {
            Ok(sp) => sp,
            Err(e) => return Err(e),
        };
        let ghost mid = *self;
        let addr = sp.wrapping_sub(4);
        let r = self.get_data32((SgReg::SS, addr));
        proof {
            assert(mid.v2p(MemAccessMode::Read, SgReg::SS, addr) == old(self).v2p(MemAccessMode::Read, SgReg::SS, addr));
        }
        r
    }

    /// Pushes `v` onto the stack.
    pub fn push_u64(&mut self, v: u64) -> (r: Result<(), EmuException>)
        ensures
            same_config(*old(self), *final(self)),
            final(self).core.gpregs@ == old(self).stack_step(-8i8).0,
            old(self).core.same_but_gpregs(final(self).core),
            Access::stores(*old(self), *final(self), SgReg::SS, old(self).stack_step(-8i8).1, v, 8, r),
    {
        proof {
            reveal(Access::stores);
        }
        let sp = match self.stack_update(-8) {
            Ok(sp) => sp,
            Err(e) => return Err(e),
        };
        let ghost mid = *self;
        let r = self.set_data64((SgReg::SS, sp), v);
        proof {
            assert(mid.v2p(MemAccessMode::Write, SgReg::SS, sp) == old(self).v2p(MemAccessMode::Write, SgReg::SS, sp));
        }
        r
    }

    /// Pops a value off the stack.
    pub fn pop_u64(&mut self) -> (r: Result<u64, EmuException>)
        ensures
            same_config(*old(self), *final(self)),
            final(self).core.gpregs@ == old(self).stack_step(8i8).0,
            old(self).core.same_but_gpregs(final(self).core),
            Access::loads(*old(self), *final(self), SgReg::SS, vstd::wrapping::u64_specs::wrapping_sub(old(self).stack_step(8i8).1, 8), 8, match r { Ok(x) => Ok(x), Err(e) => Err(e) }),
    {
        proof {
            reveal(Access::loads);
        }
        let sp = match self.stack_update(8) {
            Ok(sp) => sp,
            Err(e) => return Err(e),
        };
        let ghost mid = *self;
        let addr = sp.wrapping_sub(8);
        let r = self.get_data64((SgReg::SS, addr));
        proof {
            assert(mid.v2p(MemAccessMode::Read, SgReg::SS, addr) == old(self).v2p(MemAccessMode::Read, SgReg::SS, addr));
        }
        r
    }
}

/// `dst` became `new_dst` and `r` was returned when `len` bytes of memory `mem` at physical
/// `p` were copied into its front: an error when they do not lie in memory.
pub open spec fn reads_phys(mem: Seq<u8>, p: u64, len: usize, dst: Seq<u8>, new_dst: Seq<u8>, r: Result<usize, EmuException>) -> bool {
    &&& new_dst.len() == dst.len()
    &&& (r is Ok <==> in_bounds(mem, p as int, len as nat))
    &&& r is Ok ==> r == Ok::<usize, EmuException>(len) && forall|i: int| 0 <= i < len ==> new_dst[i] == mem[p + i]
    &&& r is Err ==> r == Err::<usize, EmuException>(EmuException::UnexpectedError)
    &&& forall|i: int| len <= i < dst.len() ==> new_dst[i] == dst[i]
}

/// Memory `mem` became `new_mem` and `r` was returned when the first `len` bytes of `src` were
/// copied to physical `p`: an error, and memory untouched, when they do not fit there.
pub open spec fn writes_phys(mem: Seq<u8>, new_mem: Seq<u8>, p: u64, src: Seq<u8>, len: usize, r: Result<usize, EmuException>) -> bool {
    &&& (r is Ok <==> in_bounds(mem, p as int, len as nat))
    &&& r is Ok ==> r == Ok::<usize, EmuException>(len)
        && new_mem == mem.subrange(0, p as int) + src.subrange(0, len as int) + mem.subrange(p + len, mem.len() as int)
    &&& r is Err ==> r == Err::<usize, EmuException>(EmuException::UnexpectedError) && new_mem == mem
}

impl Access {
    /// Copies `len` bytes of physical memory at `src_addr` into the front of `dst`.
    pub fn read_p(&self, dst: &mut [u8], src_addr: u64, len: usize) -> (r: Result<usize, EmuException>)
        requires
            len <= old(dst)@.len(),
        ensures
            reads_phys(self.mem@, src_addr, len, old(dst)@, final(dst)@, r),
    {
        let mlen = self.mem.len() as u64;
        if src_addr > mlen {
            return Err(EmuException::UnexpectedError);
        }
        match self.mem.read_data(dst, src_addr as usize, len) {
            Ok(n) => Ok(n),
            Err(_) => Err(EmuException::UnexpectedError),
        }
    }

    /// Copies the first `len` bytes of `src` to physical memory at `dst_addr`.
    pub fn write_p(&mut self, dst_addr: u64, src: &[u8], len: usize) -> (r: Result<usize, EmuException>)
        requires
            len <= src@.len(),
        ensures
            writes_phys(old(self).mem@, final(self).mem@, dst_addr, src@, len, r),
            old(self).core == final(self).core,
            dev_same(old(self).dev, final(self).dev),
            final(self).mode == old(self).mode,
            final(self).oasz == old(self).oasz,
            final(self).stsz == old(self).stsz,
            final(self).pgmd == old(self).pgmd,
            final(self).a20gate == old(self).a20gate,
            final(self).tlb@ == old(self).tlb@,
    {
        let mlen = self.mem.len() as u64;
        if dst_addr > mlen {
            return Err(EmuException::UnexpectedError);
        }
        match self.mem.write_data(dst_addr as usize, src, len) {
            Ok(n) => Ok(n),
            Err(_) => Err(EmuException::UnexpectedError),
        }
    }
}

impl Access {
    /// Copies `len` bytes at linear address `src_addr` into the front of `dst`.
    pub fn read_l(&mut self, dst: &mut [u8], src_addr: u64, len: usize) -> (r: Result<usize, EmuException>)
        requires
            len <= old(dst)@.len(),
        ensures
            final(self).tlb@ == old(self).l2p(MemAccessMode::Read, src_addr).1,
            unchanged_but_tlb(*old(self), *final(self)),
            match old(self).l2p(MemAccessMode::Read, src_addr).0 {
                Ok(p) => reads_phys(old(self).mem@, p, len, old(dst)@, final(dst)@, r),
                Err(e) => r == Err::<usize, EmuException>(e) && final(dst)@ == old(dst)@,
            },
            len == old(dst)@.len() ==> Access::read_done(*old(self), *final(self), src_addr, len as nat, final(dst)@,
                match r { Ok(_) => Ok(()), Err(e) => Err(e) }),
    {
        let paddr = match self.trans_l2p(MemAccessMode::Read, src_addr) {
            Ok(p) => p,
            Err(e) => return Err(e),
        };
        let r = self.read_p(dst, paddr, len);
        proof {
            if r is Ok && len == old(dst)@.len() {
                assert(dst@ =~= old(self).mem@.subrange(paddr as int, paddr + len));
            }
        }
        r
    }

    /// `b` is `a` after reading `n` bytes at linear address `base` into `img` gave `r`: a
    /// translation fault, or bytes outside memory, is the result; only the TLB changes.
    pub open spec fn read_done(a: Access, b: Access, base: u64, n: nat, img: Seq<u8>, r: Result<(), EmuException>) -> bool {
        &&& unchanged_but_tlb(a, b)
        &&& b.tlb@ == a.l2p(MemAccessMode::Read, base).1
        &&& match a.l2p(MemAccessMode::Read, base).0 {
            Err(e) => r == Err::<(), EmuException>(e),
            Ok(p) => if in_bounds(a.mem@, p as int, n) {
                r is Ok && img == a.mem@.subrange(p as int, p + n)
            } else {
                r == Err::<(), EmuException>(EmuException::UnexpectedError)
            },
        }
    }

    /// `b` is `a` after writing `n` bytes at linear address `base` gave `r`: a translation
    /// fault, or bytes outside memory, is the result and leaves memory as it was; otherwise
    /// memory changes only within those bytes. No register changes.
    pub open spec fn write_done(a: Access, b: Access, base: u64, n: nat, r: Result<(), EmuException>) -> bool {
        &&& a.core == b.core
        &&& dev_same(a.dev, b.dev)
        &&& b.mode == a.mode && b.oasz == a.oasz && b.stsz == a.stsz && b.pgmd == a.pgmd && b.a20gate == a.a20gate
        &&& b.tlb@ == a.l2p(MemAccessMode::Write, base).1
        &&& match a.l2p(MemAccessMode::Write, base).0 {
            Err(e) => r == Err::<(), EmuException>(e) && b.mem@ == a.mem@,
            Ok(q) => if in_bounds(a.mem@, q as int, n) {
                r is Ok && b.mem@.len() == a.mem@.len() && same_outside(a.mem@, b.mem@, q as int, n)
            } else {
                r == Err::<(), EmuException>(EmuException::UnexpectedError) && b.mem@ == a.mem@
            },
        }
    }

    /// `b`'s memory holds the first `n` bytes of `data` where linear address `base` of `a`
    /// translates to for a write, when it translates and those bytes lie in memory.
    pub open spec fn bytes_written(a: Access, b: Access, base: u64, n: nat, data: Seq<u8>) -> bool {
        match a.l2p(MemAccessMode::Write, base).0 {
            Ok(q) => in_bounds(a.mem@, q as int, n) ==> b.mem@.subrange(q as int, q + n) == data.subrange(0, n as int),
            Err(_) => true,
        }
    }

    /// A write at linear address `base` whose physical effect is `writes_phys` (or nothing,
    /// when the address does not translate) leaves the written bytes there.
    pub proof fn lemma_bytes_written(a: Access, b: Access, base: u64, n: usize, data: Seq<u8>, r: Result<usize, EmuException>)
        requires
            n <= data.len(),
            match a.l2p(MemAccessMode::Write, base).0 {
                Ok(p) => writes_phys(a.mem@, b.mem@, p, data, n, r),
                Err(e) => b.mem@ == a.mem@,
            },
        ensures
            Access::bytes_written(a, b, base, n as nat, data),
    {
        if let Ok(q) = a.l2p(MemAccessMode::Write, base).0 {
            if in_bounds(a.mem@, q as int, n as nat) {
                assert(b.mem@.subrange(q as int, q + n) =~= data.subrange(0, n as int));
            }
        }
    }

    /// Copies the first `len` bytes of `src` to linear address `dst_addr`.
    pub fn write_l(&mut self, dst_addr: u64, src: &[u8], len: usize) -> (r: Result<usize, EmuException>)
        requires
            len <= src@.len(),
        ensures
            final(self).tlb@ == old(self).l2p(MemAccessMode::Write, dst_addr).1,
            old(self).core == final(self).core,
            dev_same(old(self).dev, final(self).dev),
            final(self).mode == old(self).mode,
            final(self).oasz == old(self).oasz,
            final(self).stsz == old(self).stsz,
            final(self).pgmd == old(self).pgmd,
            final(self).a20gate == old(self).a20gate,
            match old(self).l2p(MemAccessMode::Write, dst_addr).0 {
                Ok(p) => writes_phys(old(self).mem@, final(self).mem@, p, src@, len, r),
                Err(e) => r == Err::<usize, EmuException>(e) && final(self).mem@ == old(self).mem@,
            },
            Access::write_done(*old(self), *final(self), dst_addr, len as nat, match r { Ok(_) => Ok(()), Err(e) => Err(e) }),
    {
        let paddr = match self.trans_l2p(MemAccessMode::Write, dst_addr) {
            Ok(p) => p,
            Err(e) => return Err(e),
        };
        let ghost a = *self;
        let r = self.write_p(paddr, src, len);
        proof {
            if r is Ok {
                assert forall|i: int| 0 <= i < a.mem@.len() && !(paddr <= i < paddr + len) implies #[trigger] self.mem@[i] == a.mem@[i] by {
                    if i < paddr {
                        assert(self.mem@[i] == a.mem@.subrange(0, paddr as int)[i]);
                    } else {
                        assert(self.mem@[i] == a.mem@.subrange(paddr + len, a.mem@.len() as int)[i - paddr - len]);
                    }
                }
            }
        }
        r
    }

    /// Copies `len` bytes at offset `src_addr` of segment `seg` into the front of `dst`.
    pub fn read_v(&mut self, seg: SgReg, dst: &mut [u8], src_addr: u64, len: usize) -> (r: Result<usize, EmuException>)
        requires
            len <= old(dst)@.len(),
        ensures
            final(self).tlb@ == old(self).v2p(MemAccessMode::Read, seg, src_addr).1,
            unchanged_but_tlb(*old(self), *final(self)),
            match old(self).v2p(MemAccessMode::Read, seg, src_addr).0 {
                Ok(p) => reads_phys(old(self).mem@, p, len, old(dst)@, final(dst)@, r),
                Err(e) => r == Err::<usize, EmuException>(e) && final(dst)@ == old(dst)@,
            },
    {
        let paddr = match self.trans_v2p(MemAccessMode::Read, seg, src_addr) {
            Ok(p) => p,
            Err(e) => return Err(e),
        };
        self.read_p(dst, paddr, len)
    }

    /// Copies the first `len` bytes of `src` to offset `dst_addr` of segment `seg`.
    pub fn write_v(&mut self, seg: SgReg, dst_addr: u64, src: &[u8], len: usize) -> (r: Result<usize, EmuException>)
        requires
            len <= src@.len(),
        ensures
            final(self).tlb@ == old(self).v2p(MemAccessMode::Write, seg, dst_addr).1,
            old(self).core == final(self).core,
            dev_same(old(self).dev, final(self).dev),
            final(self).mode == old(self).mode,
            final(self).oasz == old(self).oasz,
            final(self).stsz == old(self).stsz,
            final(self).pgmd == old(self).pgmd,
            final(self).a20gate == old(self).a20gate,
            match old(self).v2p(MemAccessMode::Write, seg, dst_addr).0 {
                Ok(p) => writes_phys(old(self).mem@, final(self).mem@, p, src@, len, r),
                Err(e) => r == Err::<usize, EmuException>(e) && final(self).mem@ == old(self).mem@,
            },
    {
        let paddr = match self.trans_v2p(MemAccessMode::Write, seg, dst_addr) {
            Ok(p) => p,
            Err(e) => return Err(e),
        };
        self.write_p(paddr, src, len)
    }

    /// The physical address of offset `vaddr` in segment `seg`, as a debugger sees it.
    pub fn addr_v2p(&mut self, seg: SgReg, vaddr: u64) -> (r: Result<u64, EmuException>)
        ensures
            (r, final(self).tlb@) == old(self).v2p(MemAccessMode::Monitor, seg, vaddr),
            unchanged_but_tlb(*old(self), *final(self)),
    {
        self.trans_v2p(MemAccessMode::Monitor, seg, vaddr)
    }
}

/// A read of what a write stored gives back the stored bytes: without paging, after storing
/// the low `n` bytes of `v` at offset `vaddr` of segment `sg` (an address of memory that no
/// device answers for), reading `n` bytes there, with the segment registers unchanged, gives
/// the low `n` bytes of `v`.
pub proof fn law_store_load(a: Access, b: Access, c: Access, sg: SgReg, vaddr: u64, v: u64, n: nat, r: Result<u64, EmuException>)
    requires
        Access::stores(a, b, sg, vaddr, v, n, Ok(())),
        Access::loads(b, c, sg, vaddr, n, r),
        b.core.sgregs == a.core.sgregs,
        a.pgmd is None,
        1 <= n <= 8,
        a.v2p(MemAccessMode::Write, sg, vaddr).0 matches Ok(p) ==>
            !memio_hit(a.dev.memio_range@, p, (n - 1) as u64) && in_bounds(a.mem@, p as int, n),
    ensures
        a.v2p(MemAccessMode::Write, sg, vaddr).0 is Ok,
        r == Ok::<u64, EmuException>((v as nat % byte_pow(n)) as u64),
{
    reveal(Access::loads);
    reveal(Access::stores);
    let p = a.v2p(MemAccessMode::Write, sg, vaddr).0->Ok_0;
    assert(b.v2p(MemAccessMode::Read, sg, vaddr).0 == Ok::<u64, EmuException>(p));
    crate::hardware::memory::lemma_byte_pow_positive(n);
    crate::hardware::memory::lemma_le_store_value(a.mem@, p as int, v as nat % byte_pow(n), n);
    crate::hardware::memory::lemma_le_store_len(a.mem@, p as int, v as nat % byte_pow(n), n);
    crate::hardware::memory::lemma_byte_pow_le8(n);
}

/// A translation cached for a page is found for it, unless the page is uncacheable or a
/// larger page that the TLB already holds covers it.
pub proof fn law_tlb_add_find(t: TLBView, vpn: u64, p: PageType)
    requires
        !p.cache().PCD,
        t.find(vpn) is None,
    ensures
        t.add(vpn, p).find(vpn) == Some(p),
{
}

/// A read does not look at the processor state it leaves: it relates `a` to any state that
/// differs from its result only there.
pub proof fn lemma_loads_core_free(a: Access, b: Access, c: Access, sg: SgReg, vaddr: u64, n: nat, r: Result<u64, EmuException>)
    requires
        Access::loads(a, b, sg, vaddr, n, r),
        same_but_core(b, c),
    ensures
        Access::loads(a, c, sg, vaddr, n, r),
{
    reveal(Access::loads);
}

/// The table indices of a linear address are its bit fields: in legacy paging the
/// page-directory index is bits 22..=31 and the page-table index bits 12..=21; with PAE the
/// pointer-table index is bits 30..=31, the directory index bits 21..=29 and the table index
/// bits 12..=20; four- and five-level paging add bits 39..=47 for the PML4 index and bits
/// 48..=56 for the PML5 index, and take the pointer-table index from bits 30..=38.
pub proof fn law_paging_index_fields(l: u64)
    ensures
        psidx_of(PagingMode::Legacy, l) == (PagingStructIndex {
            legacy: true,
            pml5: None,
            pml4: None,
            pdpt: None,
            pd: (l >> 22u64) & 0x3ffu64,
            pt: (l >> 12u64) & 0x3ffu64,
        }),
        psidx_of(PagingMode::LegacyPAE, l) == (PagingStructIndex {
            legacy: false,
            pml5: None,
            pml4: None,
            pdpt: Some((l >> 30u64) & 0x3u64),
            pd: (l >> 21u64) & 0x1ffu64,
            pt: (l >> 12u64) & 0x1ffu64,
        }),
        psidx_of(PagingMode::Ia32e4Lv, l) == (PagingStructIndex {
            legacy: false,
            pml5: None,
            pml4: Some((l >> 39u64) & 0x1ffu64),
            pdpt: Some((l >> 30u64) & 0x1ffu64),
            pd: (l >> 21u64) & 0x1ffu64,
            pt: (l >> 12u64) & 0x1ffu64,
        }),
        psidx_of(PagingMode::Ia32e5Lv, l) == (PagingStructIndex {
            legacy: false,
            pml5: Some((l >> 48u64) & 0x1ffu64),
            pml4: Some((l >> 39u64) & 0x1ffu64),
            pdpt: Some((l >> 30u64) & 0x1ffu64),
            pd: (l >> 21u64) & 0x1ffu64,
            pt: (l >> 12u64) & 0x1ffu64,
        }),
{
    assert(
        ((((l % 0x1_0000_0000) / 0x40_0000) % 0x400) == (l >> 22u64) & 0x3ffu64)
        && ((((l % 0x1_0000_0000) / 0x1000) % 0x400) == (l >> 12u64) & 0x3ffu64)
        && ((((l % 0x1_0000_0000) / 0x4000_0000) % 4) == (l >> 30u64) & 0x3u64)
        && ((((l % 0x1_0000_0000) / 0x20_0000) % 0x200) == (l >> 21u64) & 0x1ffu64)
        && ((((l % 0x1_0000_0000) / 0x1000) % 0x200) == (l >> 12u64) & 0x1ffu64)
        && (((l / 0x1_0000_0000_0000) % 0x200) == (l >> 48u64) & 0x1ffu64)
        && (((l / 0x80_0000_0000) % 0x200) == (l >> 39u64) & 0x1ffu64)
        && (((l / 0x4000_0000) % 0x200) == (l >> 30u64) & 0x1ffu64)
        && (((l / 0x20_0000) % 0x200) == (l >> 21u64) & 0x1ffu64)
        && (((l / 0x1000) % 0x200) == (l >> 12u64) & 0x1ffu64)
    ) by (bit_vector);
}

/// A legacy (32-bit, non-PAE) translation that the TLB does not hold walks the tables by the
/// address's bit fields: it reads the 4-byte directory entry at CR3's base plus four times
/// bits 22..=31 of the address; with page-size extensions on, a directory entry with bit 7 set
/// maps a 4 MB page at its frame, offset by the address's low 22 bits; otherwise a present,
/// permitted directory entry leads to the 4-byte table entry at its frame plus four times
/// bits 12..=21, and a present, permitted table entry maps a 4 KB page at its frame, offset by
/// the low 12 bits. An entry outside memory, or one that refuses the access, is a page fault.
pub proof fn law_legacy_translation(a: Access, acs: MemAccessMode, l: u64)
    requires
        a.pgmd == Some(PagingMode::Legacy),
        a.tlb@.find(l / 0x1000) is None,
    ensures
        ({
            let pde_addr = a.cr3_base() + 4 * ((l >> 22u64) & 0x3ffu64);
            let pde = le_value(a.mem@, pde_addr, 4) as u64;
            let large = a.core.cregs.4.PSE == 1 && (pde >> 7u64) & 1u64 == 1u64;
            let pte_addr = base_of(pde) + 4 * ((l >> 12u64) & 0x3ffu64);
            let pte = le_value(a.mem@, pte_addr, 4) as u64;
            let pf = Err::<u64, EmuException>(EmuException::CPUException(CPUException::PF(l)));
            &&& !in_bounds(a.mem@, pde_addr, 4) ==> a.l2p(acs, l).0 == pf
            &&& in_bounds(a.mem@, pde_addr, 4) && large ==>
                a.l2p(acs, l).0 == Ok::<u64, EmuException>((frame_of(pde) * 0x40_0000 + l % 0x40_0000) as u64)
            &&& in_bounds(a.mem@, pde_addr, 4) && !large && denied(pde, acs, a.cpl()) ==> a.l2p(acs, l).0 == pf
            &&& in_bounds(a.mem@, pde_addr, 4) && !large && !denied(pde, acs, a.cpl()) ==> {
                &&& !in_bounds(a.mem@, pte_addr, 4) ==> a.l2p(acs, l).0 == pf
                &&& in_bounds(a.mem@, pte_addr, 4) && denied(pte, acs, a.cpl()) ==> a.l2p(acs, l).0 == pf
                &&& in_bounds(a.mem@, pte_addr, 4) && !denied(pte, acs, a.cpl()) ==>
                    a.l2p(acs, l).0 == Ok::<u64, EmuException>((frame_of(pte) * 0x1000 + l % 0x1000) as u64)
            }
        }),
{
    law_paging_index_fields(l);
}

/// A translation maps an address to its page's frame plus the address's offset within the
/// page: the low 30 bits for a 1 GB page, 22 for a 4 MB page, 21 for a 2 MB page and 12 for
/// a 4 KB page.
pub proof fn law_page_offset(c: PageCache, l: u64)
    ensures
        page_paddr(PageType::Page1GB(c), l) == (c.base * 0x4000_0000 + (l & 0x3fff_ffffu64)) as u64,
        page_paddr(PageType::Page4MB(c), l) == (c.base * 0x40_0000 + (l & 0x3f_ffffu64)) as u64,
        page_paddr(PageType::Page2MB(c), l) == (c.base * 0x20_0000 + (l & 0x1f_ffffu64)) as u64,
        page_paddr(PageType::Page4KB(c), l) == (c.base * 0x1000 + (l & 0xfffu64)) as u64,
{
    assert(
        (l % 0x4000_0000 == l & 0x3fff_ffffu64)
        && (l % 0x40_0000 == l & 0x3f_ffffu64)
        && (l % 0x20_0000 == l & 0x1f_ffffu64)
        && (l % 0x1000 == l & 0xfffu64)
    ) by (bit_vector);
}

/// A four-level (IA-32e) translation that the TLB does not hold walks four tables of 8-byte
/// entries by the address's bit fields: the PML4 entry at CR3's base plus eight times bits
/// 39..=47; a present, permitted PML4 entry leads to the pointer-table entry at its frame plus
/// eight times bits 30..=38, which with bit 7 set maps a 1 GB page (offset by the low 30
/// bits); otherwise a present, permitted pointer-table entry leads to the directory entry at
/// its frame plus eight times bits 21..=29, which with bit 7 set maps a 2 MB page (offset by
/// the low 21 bits); otherwise a present, permitted directory entry leads to the table entry
/// at its frame plus eight times bits 12..=20, and a present, permitted table entry maps a
/// 4 KB page (offset by the low 12 bits). An entry outside memory, or one on the way that
/// refuses the access, is a page fault.
pub proof fn law_ia32e_translation(a: Access, acs: MemAccessMode, l: u64)
    requires
        a.pgmd == Some(PagingMode::Ia32e4Lv),
        a.tlb@.find(l / 0x1000) is None,
    ensures
        ({
            let cpl = a.cpl();
            let pf = Err::<u64, EmuException>(EmuException::CPUException(CPUException::PF(l)));
            let e4_addr = a.cr3_base() + 8 * ((l >> 39u64) & 0x1ffu64);
            let e4 = le_value(a.mem@, e4_addr, 8) as u64;
            let e3_addr = base_of(e4) + 8 * ((l >> 30u64) & 0x1ffu64);
            let e3 = le_value(a.mem@, e3_addr, 8) as u64;
            let e2_addr = base_of(e3) + 8 * ((l >> 21u64) & 0x1ffu64);
            let e2 = le_value(a.mem@, e2_addr, 8) as u64;
            let e1_addr = base_of(e2) + 8 * ((l >> 12u64) & 0x1ffu64);
            let e1 = le_value(a.mem@, e1_addr, 8) as u64;
            let ok4 = in_bounds(a.mem@, e4_addr, 8) && !denied(e4, acs, cpl);
            let ok3 = ok4 && in_bounds(a.mem@, e3_addr, 8);
            let large3 = (e3 >> 7u64) & 1u64 == 1u64;
            let ok2 = ok3 && !large3 && !denied(e3, acs, cpl) && in_bounds(a.mem@, e2_addr, 8);
            let large2 = (e2 >> 7u64) & 1u64 == 1u64;
            let ok1 = ok2 && !large2 && !denied(e2, acs, cpl) && in_bounds(a.mem@, e1_addr, 8);
            &&& !in_bounds(a.mem@, e4_addr, 8) ==> a.l2p(acs, l).0 == pf
            &&& in_bounds(a.mem@, e4_addr, 8) && denied(e4, acs, cpl) ==> a.l2p(acs, l).0 == pf
            &&& ok4 && !in_bounds(a.mem@, e3_addr, 8) ==> a.l2p(acs, l).0 == pf
            &&& ok3 && large3 ==>
                a.l2p(acs, l).0 == Ok::<u64, EmuException>((frame_of(e3) * 0x4000_0000 + l % 0x4000_0000) as u64)
            &&& ok3 && !large3 && denied(e3, acs, cpl) ==> a.l2p(acs, l).0 == pf
            &&& ok3 && !large3 && !denied(e3, acs, cpl) && !in_bounds(a.mem@, e2_addr, 8) ==> a.l2p(acs, l).0 == pf
            &&& ok2 && large2 ==>
                a.l2p(acs, l).0 == Ok::<u64, EmuException>((frame_of(e2) * 0x20_0000 + l % 0x20_0000) as u64)
            &&& ok2 && !large2 && denied(e2, acs, cpl) ==> a.l2p(acs, l).0 == pf
            &&& ok2 && !large2 && !denied(e2, acs, cpl) && !in_bounds(a.mem@, e1_addr, 8) ==> a.l2p(acs, l).0 == pf
            &&& ok1 && denied(e1, acs, cpl) ==> a.l2p(acs, l).0 == pf
            &&& ok1 && !denied(e1, acs, cpl) ==>
                a.l2p(acs, l).0 == Ok::<u64, EmuException>((frame_of(e1) * 0x1000 + l % 0x1000) as u64)
        }),
{
    law_paging_index_fields(l);
}

} // verus!
