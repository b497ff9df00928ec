#![allow(non_snake_case)]
use vstd::prelude::*;

verus! {

/// The segment registers, with the kernel GS base that SWAPGS exchanges.
#[derive(Clone, Copy, PartialEq, Eq, Structural, Debug)]
pub enum SgReg { ES, CS, SS, DS, FS, GS, KernelGS }

impl SgReg {
    /// The register's number in its encoding.
    pub open spec fn num(self) -> nat {
        match self {
            SgReg::ES => 0,
            SgReg::CS => 1,
            SgReg::SS => 2,
            SgReg::DS => 3,
            SgReg::FS => 4,
            SgReg::GS => 5,
            SgReg::KernelGS => 6,
        }
    }

    pub fn index(self) -> (i: usize)
        ensures
            i == self.num(),
            i < 7,
    {
        match self {
            SgReg::ES => 0,
            SgReg::CS => 1,
            SgReg::SS => 2,
            SgReg::DS => 3,
            SgReg::FS => 4,
            SgReg::GS => 5,
            SgReg::KernelGS => 6,
        }
    }

    /// The register with number `i`; `None` when there is none.
    pub fn try_from_index(i: usize) -> (r: Option<Self>)
        ensures
            r is Some <==> i < 7,
            r is Some ==> r->0.num() == i,
    {
        match i {
            0 => Some(SgReg::ES),
            1 => Some(SgReg::CS),
            2 => Some(SgReg::SS),
            3 => Some(SgReg::DS),
            4 => Some(SgReg::FS),
            5 => Some(SgReg::GS),
            6 => Some(SgReg::KernelGS),
            _ => None,
        }
    }
}

/// The number of segment registers.
pub const SGREGS_COUNT: usize = 7;

/// A segment selector.
#[derive(Clone, Copy, PartialEq, Eq, Structural, Debug)]
pub struct SgDescSelector {
    /// Requested privilege level (bits 0..=1).
    pub RPL: u8,
    /// Table indicator: 1 selects the LDT (bit 2).
    pub TI: u8,
    /// Descriptor index (bits 3..=15).
    pub IDX: u16,
}

impl SgDescSelector {
    /// The register's value: each field masked to its width at its bit position.
    pub open spec fn value(self) -> u16 {
        ((self.RPL as u16) & 0x3) | (((self.TI as u16) & 0x1) << 2u16) | (((self.IDX as u16) & 0x1fff) << 3u16)
    }

    /// The fields of the register value `v`; bits that no field covers are ignored.
    pub open spec fn decode(v: u16) -> Self {
        SgDescSelector {
            RPL: ((v & 0x3) as u8),
            TI: (((v >> 2u16) & 0x1) as u8),
            IDX: (((v >> 3u16) & 0x1fff) as u16),
        }
    }

    /// Whether every field fits its width.
    pub open spec fn fits(self) -> bool {
        self.RPL <= 0x3 && self.TI <= 0x1 && self.IDX <= 0x1fff
    }

    /// All fields zero.
    pub open spec fn zero() -> Self {
        SgDescSelector { RPL: 0, TI: 0, IDX: 0 }
    }

    pub fn to_u16(&self) -> (v: u16)
        ensures
            v == self.value(),
    {
        ((self.RPL as u16) & 0x3) | (((self.TI as u16) & 0x1) << 2u16) | (((self.IDX as u16) & 0x1fff) << 3u16)
    }

    /// Loads every field from the register value `v`.
    pub fn from_u16(&mut self, v: u16)
        ensures
            *final(self) == Self::decode(v),
    {
        *self = SgDescSelector {
            RPL: ((v & 0x3) as u8),
            TI: (((v >> 2u16) & 0x1) as u8),
            IDX: (((v >> 3u16) & 0x1fff) as u16),
        };
    }

    proof fn lemma_bits(RPL: u8, TI: u8, IDX: u16, v: u16)
        by (bit_vector)
        ensures
            (((((RPL as u16) & 0x3) | (((TI as u16) & 0x1) << 2u16) | (((IDX as u16) & 0x1fff) << 3u16)) & 0x3) as u8) == RPL & 0x3,
            ((((((RPL as u16) & 0x3) | (((TI as u16) & 0x1) << 2u16) | (((IDX as u16) & 0x1fff) << 3u16)) >> 2u16) & 0x1) as u8) == TI & 0x1,
            ((((((RPL as u16) & 0x3) | (((TI as u16) & 0x1) << 2u16) | (((IDX as u16) & 0x1fff) << 3u16)) >> 3u16) & 0x1fff) as u16) == IDX & 0x1fff,
            RPL <= 0x3 ==> (RPL & 0x3) == RPL,
            ((v & 0x3) as u8) <= 0x3,
            TI <= 0x1 ==> (TI & 0x1) == TI,
            (((v >> 2u16) & 0x1) as u8) <= 0x1,
            IDX <= 0x1fff ==> (IDX & 0x1fff) == IDX,
            (((v >> 3u16) & 0x1fff) as u16) <= 0x1fff,
            ((((((v & 0x3) as u8) as u16) & 0x3)) | ((((((v >> 2u16) & 0x1) as u8) as u16) & 0x1) << 2u16) | ((((((v >> 3u16) & 0x1fff) as u16) as u16) & 0x1fff) << 3u16)) == v & 0xffff,
    {
    }

    /// Decoding the value of a register whose fields fit gives back that register, and
    /// encoding a decoded value keeps exactly the bits that the fields cover.
    pub proof fn law_value_roundtrip(self, v: u16)
        ensures
            self.fits() ==> Self::decode(self.value()) == self,
            Self::decode(v).value() == v & 0xffff,
            Self::decode(v).fits(),
    {
        Self::lemma_bits(self.RPL, self.TI, self.IDX, v);
        let d = Self::decode(v);
        Self::lemma_bits(d.RPL, d.TI, d.IDX, v);
    }
}

impl Default for SgDescSelector {
    fn default() -> (r: Self)
        ensures
            r == Self::zero(),
    {
        SgDescSelector { RPL: 0, TI: 0, IDX: 0 }
    }
}

impl SgDescSelector {
    /// The selector whose value is `v`.
    pub fn new(v: u16) -> (s: Self)
        ensures
            s == Self::decode(v),
    {
        let mut s = Self::default();
        s.from_u16(v);
        s
    }
}

/// The hidden part of a segment register: what was loaded from its descriptor.
#[derive(Clone, Copy, PartialEq, Eq, Structural, Debug)]
pub struct SgDescCache {
    pub base: u64,
    pub limit: u32,
    pub Type: u8,
    pub DPL: u8,
    pub P: u8,
    pub AVL: u8,
    pub L: u8,
    pub DB: u8,
    pub G: u8,
}

impl SgDescCache {
    /// The cache of a segment register after reset: base 0, limit 0xffff, everything else 0.
    pub open spec fn reset() -> Self {
        SgDescCache { base: 0, limit: 0xffff, Type: 0, DPL: 0, P: 0, AVL: 0, L: 0, DB: 0, G: 0 }
    }
}

impl Default for SgDescCache {
    fn default() -> (r: Self)
        ensures
            r == Self::reset(),
    {
        SgDescCache { base: 0, limit: 0xffff, Type: 0, DPL: 0, P: 0, AVL: 0, L: 0, DB: 0, G: 0 }
    }
}

impl super::model_specific::MSRAccess for SgDescCache {
    /// The segment base, as the FS/GS base MSRs read it.
    fn get(&self) -> (v: u64)
        ensures
            v == self.base,
    {
        self.base
    }

    fn set(&mut self, v: u64)
        ensures
            *final(self) == (SgDescCache { base: v, ..*old(self) }),
    {
        self.base = v;
    }
}

/// A segment register: its visible selector and its descriptor cache.
#[derive(Clone, Copy, PartialEq, Eq, Structural, Debug)]
pub struct SgRegUnit {
    pub selector: SgDescSelector,
    pub cache: SgDescCache,
}

impl SgRegUnit {
    pub open spec fn reset() -> Self {
        SgRegUnit { selector: SgDescSelector::zero(), cache: SgDescCache::reset() }
    }
}

impl Default for SgRegUnit {
    fn default() -> (r: Self)
        ensures
            r == Self::reset(),
    {
        SgRegUnit { selector: SgDescSelector::default(), cache: SgDescCache::default() }
    }
}

/// All segment registers.
pub struct SgRegisters([SgRegUnit; SGREGS_COUNT]);

impl View for SgRegisters {
    type V = Seq<SgRegUnit>;

    closed spec fn view(&self) -> Seq<SgRegUnit> {
        self.0@
    }
}

impl SgRegisters {
    pub proof fn lemma_len(&self)
        ensures
            self@.len() == SGREGS_COUNT,
    {
    }

    pub fn new() -> (s: Self)
        ensures
            s@ == Seq::new(SGREGS_COUNT as nat, |i: int| SgRegUnit::reset()),
    {
        let u = SgRegUnit::default();
        let s = SgRegisters([u, u, u, u, u, u, u]);
        assert(s@ =~= Seq::new(SGREGS_COUNT as nat, |i: int| SgRegUnit::reset()));
        s
    }

    pub fn get(&self, r: SgReg) -> (u: &SgRegUnit)
        ensures
            *u == self@[r.num() as int],
    {
        &self.0[r.index()]
    }

    pub fn get_mut(&mut self, r: SgReg) -> (u: &mut SgRegUnit)
        ensures
            *u == old(self)@[r.num() as int],
            final(self)@ == old(self)@.update(r.num() as int, *final(u)),
    {
        &mut self.0[r.index()]
    }

    /// Replaces register `r`.
    pub fn set(&mut self, r: SgReg, u: SgRegUnit)
        ensures
            final(self)@ == old(self)@.update(r.num() as int, u),
    {
        self.0[r.index()] = u;
    }
}

} // verus!
