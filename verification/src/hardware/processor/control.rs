#![allow(non_snake_case)]
#![allow(non_camel_case_types)]
use vstd::prelude::*;

verus! {

/// Control register 0.
#[derive(Clone, Copy, PartialEq, Eq, Structural, Debug)]
pub struct CR0 {
    /// Protection enable (bit 0).
    pub PE: u8,
    /// Monitor coprocessor (bit 1).
    pub MP: u8,
    /// Emulation (bit 2).
    pub EM: u8,
    /// Task switched (bit 3).
    pub TS: u8,
    /// Extension type (bit 4).
    pub ET: u8,
    /// Numeric error (bit 5).
    pub NE: u8,
    /// Write protect (bit 16).
    pub WP: u8,
    /// Alignment mask (bit 18).
    pub AM: u8,
    /// Not write-through (bit 29).
    pub NW: u8,
    /// Cache disable (bit 30).
    pub CD: u8,
    /// Paging (bit 31).
    pub PG: u8,
}

impl CR0 {
    /// The register's value: each field masked to its width at its bit position.
    pub open spec fn value(self) -> u32 {
        ((self.PE as u32) & 0x1) | (((self.MP as u32) & 0x1) << 1u32) | (((self.EM as u32) & 0x1) << 2u32) | (((self.TS as u32) & 0x1) << 3u32) | (((self.ET as u32) & 0x1) << 4u32) | (((self.NE as u32) & 0x1) << 5u32) | (((self.WP as u32) & 0x1) << 16u32) | (((self.AM as u32) & 0x1) << 18u32) | (((self.NW as u32) & 0x1) << 29u32) | (((self.CD as u32) & 0x1) << 30u32) | (((self.PG as u32) & 0x1) << 31u32)
    }

    /// The fields of the register value `v`; bits that no field covers are ignored.
    pub open spec fn decode(v: u32) -> Self {
        CR0 {
            PE: ((v & 0x1) as u8),
            MP: (((v >> 1u32) & 0x1) as u8),
            EM: (((v >> 2u32) & 0x1) as u8),
            TS: (((v >> 3u32) & 0x1) as u8),
            ET: (((v >> 4u32) & 0x1) as u8),
            NE: (((v >> 5u32) & 0x1) as u8),
            WP: (((v >> 16u32) & 0x1) as u8),
            AM: (((v >> 18u32) & 0x1) as u8),
            NW: (((v >> 29u32) & 0x1) as u8),
            CD: (((v >> 30u32) & 0x1) as u8),
            PG: (((v >> 31u32) & 0x1) as u8),
        }
    }

    /// Whether every field fits its width.
    pub open spec fn fits(self) -> bool {
        self.PE <= 0x1 && self.MP <= 0x1 && self.EM <= 0x1 && self.TS <= 0x1 && self.ET <= 0x1 && self.NE <= 0x1 && self.WP <= 0x1 && self.AM <= 0x1 && self.NW <= 0x1 && self.CD <= 0x1 && self.PG <= 0x1
    }

    /// All fields zero.
    pub open spec fn zero() -> Self {
        CR0 { PE: 0, MP: 0, EM: 0, TS: 0, ET: 0, NE: 0, WP: 0, AM: 0, NW: 0, CD: 0, PG: 0 }
    }

    pub fn pack_value(&self) -> (v: u32)
        ensures
            v == self.value(),
    {
        ((self.PE as u32) & 0x1) | (((self.MP as u32) & 0x1) << 1u32) | (((self.EM as u32) & 0x1) << 2u32) | (((self.TS as u32) & 0x1) << 3u32) | (((self.ET as u32) & 0x1) << 4u32) | (((self.NE as u32) & 0x1) << 5u32) | (((self.WP as u32) & 0x1) << 16u32) | (((self.AM as u32) & 0x1) << 18u32) | (((self.NW as u32) & 0x1) << 29u32) | (((self.CD as u32) & 0x1) << 30u32) | (((self.PG as u32) & 0x1) << 31u32)
    }

    /// Loads every field from the register value `v`.
    pub fn load_value(&mut self, v: u32)
        ensures
            *final(self) == Self::decode(v),
    {
        *self = CR0 {
            PE: ((v & 0x1) as u8),
            MP: (((v >> 1u32) & 0x1) as u8),
            EM: (((v >> 2u32) & 0x1) as u8),
            TS: (((v >> 3u32) & 0x1) as u8),
            ET: (((v >> 4u32) & 0x1) as u8),
            NE: (((v >> 5u32) & 0x1) as u8),
            WP: (((v >> 16u32) & 0x1) as u8),
            AM: (((v >> 18u32) & 0x1) as u8),
            NW: (((v >> 29u32) & 0x1) as u8),
            CD: (((v >> 30u32) & 0x1) as u8),
            PG: (((v >> 31u32) & 0x1) as u8),
        };
    }

    proof fn lemma_bits(PE: u8, MP: u8, EM: u8, TS: u8, ET: u8, NE: u8, WP: u8, AM: u8, NW: u8, CD: u8, PG: u8, v: u32)
        by (bit_vector)
        ensures
            (((((PE as u32) & 0x1) | (((MP as u32) & 0x1) << 1u32) | (((EM as u32) & 0x1) << 2u32) | (((TS as u32) & 0x1) << 3u32) | (((ET as u32) & 0x1) << 4u32) | (((NE as u32) & 0x1) << 5u32) | (((WP as u32) & 0x1) << 16u32) | (((AM as u32) & 0x1) << 18u32) | (((NW as u32) & 0x1) << 29u32) | (((CD as u32) & 0x1) << 30u32) | (((PG as u32) & 0x1) << 31u32)) & 0x1) as u8) == PE & 0x1,
            ((((((PE as u32) & 0x1) | (((MP as u32) & 0x1) << 1u32) | (((EM as u32) & 0x1) << 2u32) | (((TS as u32) & 0x1) << 3u32) | (((ET as u32) & 0x1) << 4u32) | (((NE as u32) & 0x1) << 5u32) | (((WP as u32) & 0x1) << 16u32) | (((AM as u32) & 0x1) << 18u32) | (((NW as u32) & 0x1) << 29u32) | (((CD as u32) & 0x1) << 30u32) | (((PG as u32) & 0x1) << 31u32)) >> 1u32) & 0x1) as u8) == MP & 0x1,
            ((((((PE as u32) & 0x1) | (((MP as u32) & 0x1) << 1u32) | (((EM as u32) & 0x1) << 2u32) | (((TS as u32) & 0x1) << 3u32) | (((ET as u32) & 0x1) << 4u32) | (((NE as u32) & 0x1) << 5u32) | (((WP as u32) & 0x1) << 16u32) | (((AM as u32) & 0x1) << 18u32) | (((NW as u32) & 0x1) << 29u32) | (((CD as u32) & 0x1) << 30u32) | (((PG as u32) & 0x1) << 31u32)) >> 2u32) & 0x1) as u8) == EM & 0x1,
            ((((((PE as u32) & 0x1) | (((MP as u32) & 0x1) << 1u32) | (((EM as u32) & 0x1) << 2u32) | (((TS as u32) & 0x1) << 3u32) | (((ET as u32) & 0x1) << 4u32) | (((NE as u32) & 0x1) << 5u32) | (((WP as u32) & 0x1) << 16u32) | (((AM as u32) & 0x1) << 18u32) | (((NW as u32) & 0x1) << 29u32) | (((CD as u32) & 0x1) << 30u32) | (((PG as u32) & 0x1) << 31u32)) >> 3u32) & 0x1) as u8) == TS & 0x1,
            ((((((PE as u32) & 0x1) | (((MP as u32) & 0x1) << 1u32) | (((EM as u32) & 0x1) << 2u32) | (((TS as u32) & 0x1) << 3u32) | (((ET as u32) & 0x1) << 4u32) | (((NE as u32) & 0x1) << 5u32) | (((WP as u32) & 0x1) << 16u32) | (((AM as u32) & 0x1) << 18u32) | (((NW as u32) & 0x1) << 29u32) | (((CD as u32) & 0x1) << 30u32) | (((PG as u32) & 0x1) << 31u32)) >> 4u32) & 0x1) as u8) == ET & 0x1,
            ((((((PE as u32) & 0x1) | (((MP as u32) & 0x1) << 1u32) | (((EM as u32) & 0x1) << 2u32) | (((TS as u32) & 0x1) << 3u32) | (((ET as u32) & 0x1) << 4u32) | (((NE as u32) & 0x1) << 5u32) | (((WP as u32) & 0x1) << 16u32) | (((AM as u32) & 0x1) << 18u32) | (((NW as u32) & 0x1) << 29u32) | (((CD as u32) & 0x1) << 30u32) | (((PG as u32) & 0x1) << 31u32)) >> 5u32) & 0x1) as u8) == NE & 0x1,
            ((((((PE as u32) & 0x1) | (((MP as u32) & 0x1) << 1u32) | (((EM as u32) & 0x1) << 2u32) | (((TS as u32) & 0x1) << 3u32) | (((ET as u32) & 0x1) << 4u32) | (((NE as u32) & 0x1) << 5u32) | (((WP as u32) & 0x1) << 16u32) | (((AM as u32) & 0x1) << 18u32) | (((NW as u32) & 0x1) << 29u32) | (((CD as u32) & 0x1) << 30u32) | (((PG as u32) & 0x1) << 31u32)) >> 16u32) & 0x1) as u8) == WP & 0x1,
            ((((((PE as u32) & 0x1) | (((MP as u32) & 0x1) << 1u32) | (((EM as u32) & 0x1) << 2u32) | (((TS as u32) & 0x1) << 3u32) | (((ET as u32) & 0x1) << 4u32) | (((NE as u32) & 0x1) << 5u32) | (((WP as u32) & 0x1) << 16u32) | (((AM as u32) & 0x1) << 18u32) | (((NW as u32) & 0x1) << 29u32) | (((CD as u32) & 0x1) << 30u32) | (((PG as u32) & 0x1) << 31u32)) >> 18u32) & 0x1) as u8) == AM & 0x1,
            ((((((PE as u32) & 0x1) | (((MP as u32) & 0x1) << 1u32) | (((EM as u32) & 0x1) << 2u32) | (((TS as u32) & 0x1) << 3u32) | (((ET as u32) & 0x1) << 4u32) | (((NE as u32) & 0x1) << 5u32) | (((WP as u32) & 0x1) << 16u32) | (((AM as u32) & 0x1) << 18u32) | (((NW as u32) & 0x1) << 29u32) | (((CD as u32) & 0x1) << 30u32) | (((PG as u32) & 0x1) << 31u32)) >> 29u32) & 0x1) as u8) == NW & 0x1,
            ((((((PE as u32) & 0x1) | (((MP as u32) & 0x1) << 1u32) | (((EM as u32) & 0x1) << 2u32) | (((TS as u32) & 0x1) << 3u32) | (((ET as u32) & 0x1) << 4u32) | (((NE as u32) & 0x1) << 5u32) | (((WP as u32) & 0x1) << 16u32) | (((AM as u32) & 0x1) << 18u32) | (((NW as u32) & 0x1) << 29u32) | (((CD as u32) & 0x1) << 30u32) | (((PG as u32) & 0x1) << 31u32)) >> 30u32) & 0x1) as u8) == CD & 0x1,
            ((((((PE as u32) & 0x1) | (((MP as u32) & 0x1) << 1u32) | (((EM as u32) & 0x1) << 2u32) | (((TS as u32) & 0x1) << 3u32) | (((ET as u32) & 0x1) << 4u32) | (((NE as u32) & 0x1) << 5u32) | (((WP as u32) & 0x1) << 16u32) | (((AM as u32) & 0x1) << 18u32) | (((NW as u32) & 0x1) << 29u32) | (((CD as u32) & 0x1) << 30u32) | (((PG as u32) & 0x1) << 31u32)) >> 31u32) & 0x1) as u8) == PG & 0x1,
            PE <= 0x1 ==> (PE & 0x1) == PE,
            ((v & 0x1) as u8) <= 0x1,
            MP <= 0x1 ==> (MP & 0x1) == MP,
            (((v >> 1u32) & 0x1) as u8) <= 0x1,
            EM <= 0x1 ==> (EM & 0x1) == EM,
            (((v >> 2u32) & 0x1) as u8) <= 0x1,
            TS <= 0x1 ==> (TS & 0x1) == TS,
            (((v >> 3u32) & 0x1) as u8) <= 0x1,
            ET <= 0x1 ==> (ET & 0x1) == ET,
            (((v >> 4u32) & 0x1) as u8) <= 0x1,
            NE <= 0x1 ==> (NE & 0x1) == NE,
            (((v >> 5u32) & 0x1) as u8) <= 0x1,
            WP <= 0x1 ==> (WP & 0x1) == WP,
            (((v >> 16u32) & 0x1) as u8) <= 0x1,
            AM <= 0x1 ==> (AM & 0x1) == AM,
            (((v >> 18u32) & 0x1) as u8) <= 0x1,
            NW <= 0x1 ==> (NW & 0x1) == NW,
            (((v >> 29u32) & 0x1) as u8) <= 0x1,
            CD <= 0x1 ==> (CD & 0x1) == CD,
            (((v >> 30u32) & 0x1) as u8) <= 0x1,
            PG <= 0x1 ==> (PG & 0x1) == PG,
            (((v >> 31u32) & 0x1) as u8) <= 0x1,
            ((((((v & 0x1) as u8) as u32) & 0x1)) | ((((((v >> 1u32) & 0x1) as u8) as u32) & 0x1) << 1u32) | ((((((v >> 2u32) & 0x1) as u8) as u32) & 0x1) << 2u32) | ((((((v >> 3u32) & 0x1) as u8) as u32) & 0x1) << 3u32) | ((((((v >> 4u32) & 0x1) as u8) as u32) & 0x1) << 4u32) | ((((((v >> 5u32) & 0x1) as u8) as u32) & 0x1) << 5u32) | ((((((v >> 16u32) & 0x1) as u8) as u32) & 0x1) << 16u32) | ((((((v >> 18u32) & 0x1) as u8) as u32) & 0x1) << 18u32) | ((((((v >> 29u32) & 0x1) as u8) as u32) & 0x1) << 29u32) | ((((((v >> 30u32) & 0x1) as u8) as u32) & 0x1) << 30u32) | ((((((v >> 31u32) & 0x1) as u8) as u32) & 0x1) << 31u32)) == v & 0xe005003f,
    {
    }

    /// Decoding the value of a register whose fields fit gives back that register, and
    /// encoding a decoded value keeps exactly the bits that the fields cover.
    pub proof fn law_value_roundtrip(self, v: u32)
        ensures
            self.fits() ==> Self::decode(self.value()) == self,
            Self::decode(v).value() == v & 0xe005003f,
            Self::decode(v).fits(),
    {
        Self::lemma_bits(self.PE, self.MP, self.EM, self.TS, self.ET, self.NE, self.WP, self.AM, self.NW, self.CD, self.PG, v);
        let d = Self::decode(v);
        Self::lemma_bits(d.PE, d.MP, d.EM, d.TS, d.ET, d.NE, d.WP, d.AM, d.NW, d.CD, d.PG, v);
    }
}

impl Default for CR0 {
    fn default() -> (r: Self)
        ensures
            r == Self::zero(),
    {
        CR0 { PE: 0, MP: 0, EM: 0, TS: 0, ET: 0, NE: 0, WP: 0, AM: 0, NW: 0, CD: 0, PG: 0 }
    }
}

/// Control register 3: the page directory base.
#[derive(Clone, Copy, PartialEq, Eq, Structural, Debug)]
pub struct CR3 {
    /// Page-level write-through (bit 3).
    pub PWT: u8,
    /// Page-level cache disable (bit 4).
    pub PCD: u8,
    /// Page directory base, in 4 KiB frames (bits 12..=31).
    pub PageDirBase: u32,
}

impl CR3 {
    /// The register's value: each field masked to its width at its bit position.
    pub open spec fn value(self) -> u32 {
        (((self.PWT as u32) & 0x1) << 3u32) | (((self.PCD as u32) & 0x1) << 4u32) | (((self.PageDirBase as u32) & 0xfffff) << 12u32)
    }

    /// The fields of the register value `v`; bits that no field covers are ignored.
    pub open spec fn decode(v: u32) -> Self {
        CR3 {
            PWT: (((v >> 3u32) & 0x1) as u8),
            PCD: (((v >> 4u32) & 0x1) as u8),
            PageDirBase: (((v >> 12u32) & 0xfffff) as u32),
        }
    }

    /// Whether every field fits its width.
    pub open spec fn fits(self) -> bool {
        self.PWT <= 0x1 && self.PCD <= 0x1 && self.PageDirBase <= 0xfffff
    }

    /// All fields zero.
    pub open spec fn zero() -> Self {
        CR3 { PWT: 0, PCD: 0, PageDirBase: 0 }
    }

    pub fn pack_value(&self) -> (v: u32)
        ensures
            v == self.value(),
    {
        (((self.PWT as u32) & 0x1) << 3u32) | (((self.PCD as u32) & 0x1) << 4u32) | (((self.PageDirBase as u32) & 0xfffff) << 12u32)
    }

    /// Loads every field from the register value `v`.
    pub fn load_value(&mut self, v: u32)
        ensures
            *final(self) == Self::decode(v),
    {
        *self = CR3 {
            PWT: (((v >> 3u32) & 0x1) as u8),
            PCD: (((v >> 4u32) & 0x1) as u8),
            PageDirBase: (((v >> 12u32) & 0xfffff) as u32),
        };
    }

    proof fn lemma_bits(PWT: u8, PCD: u8, PageDirBase: u32, v: u32)
        by (bit_vector)
        ensures
            (((((((PWT as u32) & 0x1) << 3u32) | (((PCD as u32) & 0x1) << 4u32) | (((PageDirBase as u32) & 0xfffff) << 12u32)) >> 3u32) & 0x1) as u8) == PWT & 0x1,
            (((((((PWT as u32) & 0x1) << 3u32) | (((PCD as u32) & 0x1) << 4u32) | (((PageDirBase as u32) & 0xfffff) << 12u32)) >> 4u32) & 0x1) as u8) == PCD & 0x1,
            (((((((PWT as u32) & 0x1) << 3u32) | (((PCD as u32) & 0x1) << 4u32) | (((PageDirBase as u32) & 0xfffff) << 12u32)) >> 12u32) & 0xfffff) as u32) == PageDirBase & 0xfffff,
            PWT <= 0x1 ==> (PWT & 0x1) == PWT,
            (((v >> 3u32) & 0x1) as u8) <= 0x1,
            PCD <= 0x1 ==> (PCD & 0x1) == PCD,
            (((v >> 4u32) & 0x1) as u8) <= 0x1,
            PageDirBase <= 0xfffff ==> (PageDirBase & 0xfffff) == PageDirBase,
            (((v >> 12u32) & 0xfffff) as u32) <= 0xfffff,
            (((((((v >> 3u32) & 0x1) as u8) as u32) & 0x1) << 3u32) | ((((((v >> 4u32) & 0x1) as u8) as u32) & 0x1) << 4u32) | ((((((v >> 12u32) & 0xfffff) as u32) as u32) & 0xfffff) << 12u32)) == v & 0xfffff018,
    {
    }

    /// Decoding the value of a register whose fields fit gives back that register, and
    /// encoding a decoded value keeps exactly the bits that the fields cover.
    pub proof fn law_value_roundtrip(self, v: u32)
        ensures
            self.fits() ==> Self::decode(self.value()) == self,
            Self::decode(v).value() == v & 0xfffff018,
            Self::decode(v).fits(),
    {
        Self::lemma_bits(self.PWT, self.PCD, self.PageDirBase, v);
        let d = Self::decode(v);
        Self::lemma_bits(d.PWT, d.PCD, d.PageDirBase, v);
    }
}

impl CR3 {
    /// The physical address of the top paging table.
    pub fn get_pagedir_base(&self) -> (b: u64)
        ensures
            b == self.PageDirBase as u64 * 0x1000,
            b < 0x1000_0000_0000,
    {
        self.PageDirBase as u64 * 0x1000
    }
}

impl Default for CR3 {
    fn default() -> (r: Self)
        ensures
            r == Self::zero(),
    {
        CR3 { PWT: 0, PCD: 0, PageDirBase: 0 }
    }
}

/// Control register 4.
#[derive(Clone, Copy, PartialEq, Eq, Structural, Debug)]
pub struct CR4 {
    /// Virtual-8086 mode extensions (bit 0).
    pub VME: u8,
    /// Protected-mode virtual interrupts (bit 1).
    pub PVI: u8,
    /// Time stamp disable (bit 2).
    pub TSD: u8,
    /// Debugging extensions (bit 3).
    pub DE: u8,
    /// Page size extensions (bit 4).
    pub PSE: u8,
    /// Physical address extension (bit 5).
    pub PAE: u8,
    /// Machine-check enable (bit 6).
    pub MCE: u8,
    /// Page global enable (bit 7).
    pub PGE: u8,
    /// Performance-monitoring counter enable (bit 8).
    pub PCE: u8,
    /// OS support for FXSAVE and FXRSTOR (bit 9).
    pub OSFXSR: u8,
    /// OS support for unmasked SIMD exceptions (bit 10).
    pub OSXMMEXCPT: u8,
    /// 57-bit linear addresses (bit 12).
    pub LA57: u8,
}

impl CR4 {
    /// The register's value: each field masked to its width at its bit position.
    pub open spec fn value(self) -> u32 {
        ((self.VME as u32) & 0x1) | (((self.PVI as u32) & 0x1) << 1u32) | (((self.TSD as u32) & 0x1) << 2u32) | (((self.DE as u32) & 0x1) << 3u32) | (((self.PSE as u32) & 0x1) << 4u32) | (((self.PAE as u32) & 0x1) << 5u32) | (((self.MCE as u32) & 0x1) << 6u32) | (((self.PGE as u32) & 0x1) << 7u32) | (((self.PCE as u32) & 0x1) << 8u32) | (((self.OSFXSR as u32) & 0x1) << 9u32) | (((self.OSXMMEXCPT as u32) & 0x1) << 10u32) | (((self.LA57 as u32) & 0x1) << 12u32)
    }

    /// The fields of the register value `v`; bits that no field covers are ignored.
    pub open spec fn decode(v: u32) -> Self {
        CR4 {
            VME: ((v & 0x1) as u8),
            PVI: (((v >> 1u32) & 0x1) as u8),
            TSD: (((v >> 2u32) & 0x1) as u8),
            DE: (((v >> 3u32) & 0x1) as u8),
            PSE: (((v >> 4u32) & 0x1) as u8),
            PAE: (((v >> 5u32) & 0x1) as u8),
            MCE: (((v >> 6u32) & 0x1) as u8),
            PGE: (((v >> 7u32) & 0x1) as u8),
            PCE: (((v >> 8u32) & 0x1) as u8),
            OSFXSR: (((v >> 9u32) & 0x1) as u8),
            OSXMMEXCPT: (((v >> 10u32) & 0x1) as u8),
            LA57: (((v >> 12u32) & 0x1) as u8),
        }
    }

    /// Whether every field fits its width.
    pub open spec fn fits(self) -> bool {
        self.VME <= 0x1 && self.PVI <= 0x1 && self.TSD <= 0x1 && self.DE <= 0x1 && self.PSE <= 0x1 && self.PAE <= 0x1 && self.MCE <= 0x1 && self.PGE <= 0x1 && self.PCE <= 0x1 && self.OSFXSR <= 0x1 && self.OSXMMEXCPT <= 0x1 && self.LA57 <= 0x1
    }

    /// All fields zero.
    pub open spec fn zero() -> Self {
        CR4 { VME: 0, PVI: 0, TSD: 0, DE: 0, PSE: 0, PAE: 0, MCE: 0, PGE: 0, PCE: 0, OSFXSR: 0, OSXMMEXCPT: 0, LA57: 0 }
    }

    pub fn pack_value(&self) -> (v: u32)
        ensures
            v == self.value(),
    {
        ((self.VME as u32) & 0x1) | (((self.PVI as u32) & 0x1) << 1u32) | (((self.TSD as u32) & 0x1) << 2u32) | (((self.DE as u32) & 0x1) << 3u32) | (((self.PSE as u32) & 0x1) << 4u32) | (((self.PAE as u32) & 0x1) << 5u32) | (((self.MCE as u32) & 0x1) << 6u32) | (((self.PGE as u32) & 0x1) << 7u32) | (((self.PCE as u32) & 0x1) << 8u32) | (((self.OSFXSR as u32) & 0x1) << 9u32) | (((self.OSXMMEXCPT as u32) & 0x1) << 10u32) | (((self.LA57 as u32) & 0x1) << 12u32)
    }

    /// Loads every field from the register value `v`.
    pub fn load_value(&mut self, v: u32)
        ensures
            *final(self) == Self::decode(v),
    {
        *self = CR4 {
            VME: ((v & 0x1) as u8),
            PVI: (((v >> 1u32) & 0x1) as u8),
            TSD: (((v >> 2u32) & 0x1) as u8),
            DE: (((v >> 3u32) & 0x1) as u8),
            PSE: (((v >> 4u32) & 0x1) as u8),
            PAE: (((v >> 5u32) & 0x1) as u8),
            MCE: (((v >> 6u32) & 0x1) as u8),
            PGE: (((v >> 7u32) & 0x1) as u8),
            PCE: (((v >> 8u32) & 0x1) as u8),
            OSFXSR: (((v >> 9u32) & 0x1) as u8),
            OSXMMEXCPT: (((v >> 10u32) & 0x1) as u8),
            LA57: (((v >> 12u32) & 0x1) as u8),
        };
    }

    proof fn lemma_bits(VME: u8, PVI: u8, TSD: u8, DE: u8, PSE: u8, PAE: u8, MCE: u8, PGE: u8, PCE: u8, OSFXSR: u8, OSXMMEXCPT: u8, LA57: u8, v: u32)
        by (bit_vector)
        ensures
            (((((VME as u32) & 0x1) | (((PVI as u32) & 0x1) << 1u32) | (((TSD as u32) & 0x1) << 2u32) | (((DE as u32) & 0x1) << 3u32) | (((PSE as u32) & 0x1) << 4u32) | (((PAE as u32) & 0x1) << 5u32) | (((MCE as u32) & 0x1) << 6u32) | (((PGE as u32) & 0x1) << 7u32) | (((PCE as u32) & 0x1) << 8u32) | (((OSFXSR as u32) & 0x1) << 9u32) | (((OSXMMEXCPT as u32) & 0x1) << 10u32) | (((LA57 as u32) & 0x1) << 12u32)) & 0x1) as u8) == VME & 0x1,
            ((((((VME as u32) & 0x1) | (((PVI as u32) & 0x1) << 1u32) | (((TSD as u32) & 0x1) << 2u32) | (((DE as u32) & 0x1) << 3u32) | (((PSE as u32) & 0x1) << 4u32) | (((PAE as u32) & 0x1) << 5u32) | (((MCE as u32) & 0x1) << 6u32) | (((PGE as u32) & 0x1) << 7u32) | (((PCE as u32) & 0x1) << 8u32) | (((OSFXSR as u32) & 0x1) << 9u32) | (((OSXMMEXCPT as u32) & 0x1) << 10u32) | (((LA57 as u32) & 0x1) << 12u32)) >> 1u32) & 0x1) as u8) == PVI & 0x1,
            ((((((VME as u32) & 0x1) | (((PVI as u32) & 0x1) << 1u32) | (((TSD as u32) & 0x1) << 2u32) | (((DE as u32) & 0x1) << 3u32) | (((PSE as u32) & 0x1) << 4u32) | (((PAE as u32) & 0x1) << 5u32) | (((MCE as u32) & 0x1) << 6u32) | (((PGE as u32) & 0x1) << 7u32) | (((PCE as u32) & 0x1) << 8u32) | (((OSFXSR as u32) & 0x1) << 9u32) | (((OSXMMEXCPT as u32) & 0x1) << 10u32) | (((LA57 as u32) & 0x1) << 12u32)) >> 2u32) & 0x1) as u8) == TSD & 0x1,
            ((((((VME as u32) & 0x1) | (((PVI as u32) & 0x1) << 1u32) | (((TSD as u32) & 0x1) << 2u32) | (((DE as u32) & 0x1) << 3u32) | (((PSE as u32) & 0x1) << 4u32) | (((PAE as u32) & 0x1) << 5u32) | (((MCE as u32) & 0x1) << 6u32) | (((PGE as u32) & 0x1) << 7u32) | (((PCE as u32) & 0x1) << 8u32) | (((OSFXSR as u32) & 0x1) << 9u32) | (((OSXMMEXCPT as u32) & 0x1) << 10u32) | (((LA57 as u32) & 0x1) << 12u32)) >> 3u32) & 0x1) as u8) == DE & 0x1,
            ((((((VME as u32) & 0x1) | (((PVI as u32) & 0x1) << 1u32) | (((TSD as u32) & 0x1) << 2u32) | (((DE as u32) & 0x1) << 3u32) | (((PSE as u32) & 0x1) << 4u32) | (((PAE as u32) & 0x1) << 5u32) | (((MCE as u32) & 0x1) << 6u32) | (((PGE as u32) & 0x1) << 7u32) | (((PCE as u32) & 0x1) << 8u32) | (((OSFXSR as u32) & 0x1) << 9u32) | (((OSXMMEXCPT as u32) & 0x1) << 10u32) | (((LA57 as u32) & 0x1) << 12u32)) >> 4u32) & 0x1) as u8) == PSE & 0x1,
            ((((((VME as u32) & 0x1) | (((PVI as u32) & 0x1) << 1u32) | (((TSD as u32) & 0x1) << 2u32) | (((DE as u32) & 0x1) << 3u32) | (((PSE as u32) & 0x1) << 4u32) | (((PAE as u32) & 0x1) << 5u32) | (((MCE as u32) & 0x1) << 6u32) | (((PGE as u32) & 0x1) << 7u32) | (((PCE as u32) & 0x1) << 8u32) | (((OSFXSR as u32) & 0x1) << 9u32) | (((OSXMMEXCPT as u32) & 0x1) << 10u32) | (((LA57 as u32) & 0x1) << 12u32)) >> 5u32) & 0x1) as u8) == PAE & 0x1,
            ((((((VME as u32) & 0x1) | (((PVI as u32) & 0x1) << 1u32) | (((TSD as u32) & 0x1) << 2u32) | (((DE as u32) & 0x1) << 3u32) | (((PSE as u32) & 0x1) << 4u32) | (((PAE as u32) & 0x1) << 5u32) | (((MCE as u32) & 0x1) << 6u32) | (((PGE as u32) & 0x1) << 7u32) | (((PCE as u32) & 0x1) << 8u32) | (((OSFXSR as u32) & 0x1) << 9u32) | (((OSXMMEXCPT as u32) & 0x1) << 10u32) | (((LA57 as u32) & 0x1) << 12u32)) >> 6u32) & 0x1) as u8) == MCE & 0x1,
            ((((((VME as u32) & 0x1) | (((PVI as u32) & 0x1) << 1u32) | (((TSD as u32) & 0x1) << 2u32) | (((DE as u32) & 0x1) << 3u32) | (((PSE as u32) & 0x1) << 4u32) | (((PAE as u32) & 0x1) << 5u32) | (((MCE as u32) & 0x1) << 6u32) | (((PGE as u32) & 0x1) << 7u32) | (((PCE as u32) & 0x1) << 8u32) | (((OSFXSR as u32) & 0x1) << 9u32) | (((OSXMMEXCPT as u32) & 0x1) << 10u32) | (((LA57 as u32) & 0x1) << 12u32)) >> 7u32) & 0x1) as u8) == PGE & 0x1,
            ((((((VME as u32) & 0x1) | (((PVI as u32) & 0x1) << 1u32) | (((TSD as u32) & 0x1) << 2u32) | (((DE as u32) & 0x1) << 3u32) | (((PSE as u32) & 0x1) << 4u32) | (((PAE as u32) & 0x1) << 5u32) | (((MCE as u32) & 0x1) << 6u32) | (((PGE as u32) & 0x1) << 7u32) | (((PCE as u32) & 0x1) << 8u32) | (((OSFXSR as u32) & 0x1) << 9u32) | (((OSXMMEXCPT as u32) & 0x1) << 10u32) | (((LA57 as u32) & 0x1) << 12u32)) >> 8u32) & 0x1) as u8) == PCE & 0x1,
            ((((((VME as u32) & 0x1) | (((PVI as u32) & 0x1) << 1u32) | (((TSD as u32) & 0x1) << 2u32) | (((DE as u32) & 0x1) << 3u32) | (((PSE as u32) & 0x1) << 4u32) | (((PAE as u32) & 0x1) << 5u32) | (((MCE as u32) & 0x1) << 6u32) | (((PGE as u32) & 0x1) << 7u32) | (((PCE as u32) & 0x1) << 8u32) | (((OSFXSR as u32) & 0x1) << 9u32) | (((OSXMMEXCPT as u32) & 0x1) << 10u32) | (((LA57 as u32) & 0x1) << 12u32)) >> 9u32) & 0x1) as u8) == OSFXSR & 0x1,
            ((((((VME as u32) & 0x1) | (((PVI as u32) & 0x1) << 1u32) | (((TSD as u32) & 0x1) << 2u32) | (((DE as u32) & 0x1) << 3u32) | (((PSE as u32) & 0x1) << 4u32) | (((PAE as u32) & 0x1) << 5u32) | (((MCE as u32) & 0x1) << 6u32) | (((PGE as u32) & 0x1) << 7u32) | (((PCE as u32) & 0x1) << 8u32) | (((OSFXSR as u32) & 0x1) << 9u32) | (((OSXMMEXCPT as u32) & 0x1) << 10u32) | (((LA57 as u32) & 0x1) << 12u32)) >> 10u32) & 0x1) as u8) == OSXMMEXCPT & 0x1,
            ((((((VME as u32) & 0x1) | (((PVI as u32) & 0x1) << 1u32) | (((TSD as u32) & 0x1) << 2u32) | (((DE as u32) & 0x1) << 3u32) | (((PSE as u32) & 0x1) << 4u32) | (((PAE as u32) & 0x1) << 5u32) | (((MCE as u32) & 0x1) << 6u32) | (((PGE as u32) & 0x1) << 7u32) | (((PCE as u32) & 0x1) << 8u32) | (((OSFXSR as u32) & 0x1) << 9u32) | (((OSXMMEXCPT as u32) & 0x1) << 10u32) | (((LA57 as u32) & 0x1) << 12u32)) >> 12u32) & 0x1) as u8) == LA57 & 0x1,
            VME <= 0x1 ==> (VME & 0x1) == VME,
            ((v & 0x1) as u8) <= 0x1,
            PVI <= 0x1 ==> (PVI & 0x1) == PVI,
            (((v >> 1u32) & 0x1) as u8) <= 0x1,
            TSD <= 0x1 ==> (TSD & 0x1) == TSD,
            (((v >> 2u32) & 0x1) as u8) <= 0x1,
            DE <= 0x1 ==> (DE & 0x1) == DE,
            (((v >> 3u32) & 0x1) as u8) <= 0x1,
            PSE <= 0x1 ==> (PSE & 0x1) == PSE,
            (((v >> 4u32) & 0x1) as u8) <= 0x1,
            PAE <= 0x1 ==> (PAE & 0x1) == PAE,
            (((v >> 5u32) & 0x1) as u8) <= 0x1,
            MCE <= 0x1 ==> (MCE & 0x1) == MCE,
            (((v >> 6u32) & 0x1) as u8) <= 0x1,
            PGE <= 0x1 ==> (PGE & 0x1) == PGE,
            (((v >> 7u32) & 0x1) as u8) <= 0x1,
            PCE <= 0x1 ==> (PCE & 0x1) == PCE,
            (((v >> 8u32) & 0x1) as u8) <= 0x1,
            OSFXSR <= 0x1 ==> (OSFXSR & 0x1) == OSFXSR,
            (((v >> 9u32) & 0x1) as u8) <= 0x1,
            OSXMMEXCPT <= 0x1 ==> (OSXMMEXCPT & 0x1) == OSXMMEXCPT,
            (((v >> 10u32) & 0x1) as u8) <= 0x1,
            LA57 <= 0x1 ==> (LA57 & 0x1) == LA57,
            (((v >> 12u32) & 0x1) as u8) <= 0x1,
            ((((((v & 0x1) as u8) as u32) & 0x1)) | ((((((v >> 1u32) & 0x1) as u8) as u32) & 0x1) << 1u32) | ((((((v >> 2u32) & 0x1) as u8) as u32) & 0x1) << 2u32) | ((((((v >> 3u32) & 0x1) as u8) as u32) & 0x1) << 3u32) | ((((((v >> 4u32) & 0x1) as u8) as u32) & 0x1) << 4u32) | ((((((v >> 5u32) & 0x1) as u8) as u32) & 0x1) << 5u32) | ((((((v >> 6u32) & 0x1) as u8) as u32) & 0x1) << 6u32) | ((((((v >> 7u32) & 0x1) as u8) as u32) & 0x1) << 7u32) | ((((((v >> 8u32) & 0x1) as u8) as u32) & 0x1) << 8u32) | ((((((v >> 9u32) & 0x1) as u8) as u32) & 0x1) << 9u32) | ((((((v >> 10u32) & 0x1) as u8) as u32) & 0x1) << 10u32) | ((((((v >> 12u32) & 0x1) as u8) as u32) & 0x1) << 12u32)) == v & 0x17ff,
    {
    }

    /// Decoding the value of a register whose fields fit gives back that register, and
    /// encoding a decoded value keeps exactly the bits that the fields cover.
    pub proof fn law_value_roundtrip(self, v: u32)
        ensures
            self.fits() ==> Self::decode(self.value()) == self,
            Self::decode(v).value() == v & 0x17ff,
            Self::decode(v).fits(),
    {
        Self::lemma_bits(self.VME, self.PVI, self.TSD, self.DE, self.PSE, self.PAE, self.MCE, self.PGE, self.PCE, self.OSFXSR, self.OSXMMEXCPT, self.LA57, v);
        let d = Self::decode(v);
        Self::lemma_bits(d.VME, d.PVI, d.TSD, d.DE, d.PSE, d.PAE, d.MCE, d.PGE, d.PCE, d.OSFXSR, d.OSXMMEXCPT, d.LA57, v);
    }
}

impl Default for CR4 {
    fn default() -> (r: Self)
        ensures
            r == Self::zero(),
    {
        CR4 { VME: 0, PVI: 0, TSD: 0, DE: 0, PSE: 0, PAE: 0, MCE: 0, PGE: 0, PCE: 0, OSFXSR: 0, OSXMMEXCPT: 0, LA57: 0 }
    }
}

/// A control register read and written as a 32-bit value.
pub trait CRAccess {
    fn to_u32(&self) -> u32;

    fn from_u32(&mut self, v: u32);
}

impl CRAccess for CR0 {
    fn to_u32(&self) -> (v: u32)
        ensures
            v == self.value(),
    {
        self.pack_value()
    }

    fn from_u32(&mut self, v: u32)
        ensures
            *final(self) == Self::decode(v),
    {
        self.load_value(v)
    }
}

impl CRAccess for CR3 {
    fn to_u32(&self) -> (v: u32)
        ensures
            v == self.value(),
    {
        self.pack_value()
    }

    fn from_u32(&mut self, v: u32)
        ensures
            *final(self) == Self::decode(v),
    {
        self.load_value(v)
    }
}

impl CRAccess for CR4 {
    fn to_u32(&self) -> (v: u32)
        ensures
            v == self.value(),
    {
        self.pack_value()
    }

    fn from_u32(&mut self, v: u32)
        ensures
            *final(self) == Self::decode(v),
    {
        self.load_value(v)
    }
}

/// Control register 2: the linear address of the last page fault.
#[derive(Clone, Copy, PartialEq, Eq, Structural, Debug)]
pub struct CR2(pub u64);

impl CR2 {
    /// Records a faulting linear address.
    pub fn from_u64(&mut self, v: u64)
        ensures
            final(self).0 == v,
    {
        self.0 = v;
    }
}

impl CRAccess for CR2 {
    fn to_u32(&self) -> (v: u32)
        ensures
            v == self.0 % 0x1_0000_0000,
    {
        (self.0 % 0x1_0000_0000) as u32
    }

    fn from_u32(&mut self, v: u32)
        ensures
            final(self).0 == v,
    {
        self.0 = v as u64;
    }
}

impl Default for CR2 {
    fn default() -> (r: Self)
        ensures
            r.0 == 0,
    {
        CR2(0)
    }
}

/// The control registers CR0, CR2, CR3 and CR4 (the second field stands in for the unused CR1).
pub struct CRegisters(pub CR0, pub u64, pub CR2, pub CR3, pub CR4);

/// The value that `mov reg, crN` reads; `None` for a register that does not exist.
pub open spec fn creg_value(c: CRegisters, n: int) -> Option<u32> {
    if n == 0 {
        Some(c.0.value())
    } else if n == 2 {
        Some((c.2.0 % 0x1_0000_0000) as u32)
    } else if n == 3 {
        Some(c.3.value())
    } else if n == 4 {
        Some(c.4.value())
    } else {
        None
    }
}

impl CRegisters {
    pub open spec fn reset() -> Self {
        CRegisters(CR0::zero(), 0, CR2(0), CR3::zero(), CR4::zero())
    }

    /// The value of control register `v`; `None` when there is no such register.
    pub fn get(&self, v: usize) -> (r: Option<u32>)
        ensures
            r == creg_value(*self, v as int),
    {
        match v {
            0 => Some(self.0.to_u32()),
            2 => Some(self.2.to_u32()),
            3 => Some(self.3.to_u32()),
            4 => Some(self.4.to_u32()),
            _ => None,
        }
    }

    /// Writes control register `v`; returns false, changing nothing, when there is no such register.
    pub fn set(&mut self, v: usize, val: u32) -> (ok: bool)
        ensures
            ok == (v == 0 || v == 2 || v == 3 || v == 4),
            final(self).0 == (if v == 0 { CR0::decode(val) } else { old(self).0 }),
            final(self).1 == old(self).1,
            final(self).2 == (if v == 2 { CR2(val as u64) } else { old(self).2 }),
            final(self).3 == (if v == 3 { CR3::decode(val) } else { old(self).3 }),
            final(self).4 == (if v == 4 { CR4::decode(val) } else { old(self).4 }),
    {
        match v {
            0 => {
                self.0.from_u32(val);
                true
            },
            2 => {
                self.2.from_u32(val);
                true
            },
            3 => {
                self.3.from_u32(val);
                true
            },
            4 => {
                self.4.from_u32(val);
                true
            },
            _ => false,
        }
    }
}

impl Default for CRegisters {
    fn default() -> (r: Self)
        ensures
            r == Self::reset(),
    {
        CRegisters(CR0::default(), 0, CR2::default(), CR3::default(), CR4::default())
    }
}

/// Writing a control register and reading it back gives the written value with the bits that
/// the register does not hold cleared.
pub proof fn law_creg_write_read(c: CRegisters, n: int, val: u32)
    requires
        n == 0 || n == 3 || n == 4,
    ensures
        n == 0 ==> creg_value(CRegisters(CR0::decode(val), c.1, c.2, c.3, c.4), n) == Some(val & 0xe005003f),
        n == 3 ==> creg_value(CRegisters(c.0, c.1, c.2, CR3::decode(val), c.4), n) == Some(val & 0xfffff018),
        n == 4 ==> creg_value(CRegisters(c.0, c.1, c.2, c.3, CR4::decode(val)), n) == Some(val & 0x17ff),
{
    c.0.law_value_roundtrip(val);
    c.3.law_value_roundtrip(val);
    c.4.law_value_roundtrip(val);
}

} // verus!
