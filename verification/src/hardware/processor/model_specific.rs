#![allow(non_snake_case)]
#![allow(non_camel_case_types)]
use vstd::prelude::*;

verus! {

/// Access to a model-specific register as a 64-bit value.
pub trait MSRAccess {
    fn get(&self) -> u64;

    fn set(&mut self, v: u64);
}

/// The extended feature enable register.
#[derive(Clone, Copy, PartialEq, Eq, Structural, Debug)]
pub struct IA32_EFER {
    /// System call extensions (bit 0).
    pub SCE: u8,
    /// Long mode enable (bit 8).
    pub LME: u8,
    /// Long mode active (bit 10).
    pub LMA: u8,
    /// No-execute enable (bit 11).
    pub NXE: u8,
}

impl IA32_EFER {
    /// The register's value: each field masked to its width at its bit position.
    pub open spec fn value(self) -> u64 {
        ((self.SCE as u64) & 0x1) | (((self.LME as u64) & 0x1) << 8u64) | (((self.LMA as u64) & 0x1) << 10u64) | (((self.NXE as u64) & 0x1) << 11u64)
    }

    /// The fields of the register value `v`; bits that no field covers are ignored.
    pub open spec fn decode(v: u64) -> Self {
        IA32_EFER {
            SCE: ((v & 0x1) as u8),
            LME: (((v >> 8u64) & 0x1) as u8),
            LMA: (((v >> 10u64) & 0x1) as u8),
            NXE: (((v >> 11u64) & 0x1) as u8),
        }
    }

    /// Whether every field fits its width.
    pub open spec fn fits(self) -> bool {
        self.SCE <= 0x1 && self.LME <= 0x1 && self.LMA <= 0x1 && self.NXE <= 0x1
    }

    /// All fields zero.
    pub open spec fn zero() -> Self {
        IA32_EFER { SCE: 0, LME: 0, LMA: 0, NXE: 0 }
    }

    pub fn pack_value(&self) -> (v: u64)
        ensures
            v == self.value(),
    {
        ((self.SCE as u64) & 0x1) | (((self.LME as u64) & 0x1) << 8u64) | (((self.LMA as u64) & 0x1) << 10u64) | (((self.NXE as u64) & 0x1) << 11u64)
    }

    /// Loads every field from the register value `v`.
    pub fn load_value(&mut self, v: u64)
        ensures
            *final(self) == Self::decode(v),
    {
        *self = IA32_EFER {
            SCE: ((v & 0x1) as u8),
            LME: (((v >> 8u64) & 0x1) as u8),
            LMA: (((v >> 10u64) & 0x1) as u8),
            NXE: (((v >> 11u64) & 0x1) as u8),
        };
    }

    proof fn lemma_bits(SCE: u8, LME: u8, LMA: u8, NXE: u8, v: u64)
        by (bit_vector)
        ensures
            (((((SCE as u64) & 0x1) | (((LME as u64) & 0x1) << 8u64) | (((LMA as u64) & 0x1) << 10u64) | (((NXE as u64) & 0x1) << 11u64)) & 0x1) as u8) == SCE & 0x1,
            ((((((SCE as u64) & 0x1) | (((LME as u64) & 0x1) << 8u64) | (((LMA as u64) & 0x1) << 10u64) | (((NXE as u64) & 0x1) << 11u64)) >> 8u64) & 0x1) as u8) == LME & 0x1,
            ((((((SCE as u64) & 0x1) | (((LME as u64) & 0x1) << 8u64) | (((LMA as u64) & 0x1) << 10u64) | (((NXE as u64) & 0x1) << 11u64)) >> 10u64) & 0x1) as u8) == LMA & 0x1,
            ((((((SCE as u64) & 0x1) | (((LME as u64) & 0x1) << 8u64) | (((LMA as u64) & 0x1) << 10u64) | (((NXE as u64) & 0x1) << 11u64)) >> 11u64) & 0x1) as u8) == NXE & 0x1,
            SCE <= 0x1 ==> (SCE & 0x1) == SCE,
            ((v & 0x1) as u8) <= 0x1,
            LME <= 0x1 ==> (LME & 0x1) == LME,
            (((v >> 8u64) & 0x1) as u8) <= 0x1,
            LMA <= 0x1 ==> (LMA & 0x1) == LMA,
            (((v >> 10u64) & 0x1) as u8) <= 0x1,
            NXE <= 0x1 ==> (NXE & 0x1) == NXE,
            (((v >> 11u64) & 0x1) as u8) <= 0x1,
            ((((((v & 0x1) as u8) as u64) & 0x1)) | ((((((v >> 8u64) & 0x1) as u8) as u64) & 0x1) << 8u64) | ((((((v >> 10u64) & 0x1) as u8) as u64) & 0x1) << 10u64) | ((((((v >> 11u64) & 0x1) as u8) as u64) & 0x1) << 11u64)) == v & 0xd01,
    {
    }

    /// Decoding the value of a register whose fields fit gives back that register, and
    /// encoding a decoded value keeps exactly the bits that the fields cover.
    pub proof fn law_value_roundtrip(self, v: u64)
        ensures
            self.fits() ==> Self::decode(self.value()) == self,
            Self::decode(v).value() == v & 0xd01,
            Self::decode(v).fits(),
    {
        Self::lemma_bits(self.SCE, self.LME, self.LMA, self.NXE, v);
        let d = Self::decode(v);
        Self::lemma_bits(d.SCE, d.LME, d.LMA, d.NXE, v);
    }
}

impl Default for IA32_EFER {
    fn default() -> (r: Self)
        ensures
            r == Self::zero(),
    {
        IA32_EFER { SCE: 0, LME: 0, LMA: 0, NXE: 0 }
    }
}

/// The local APIC base register.
#[derive(Clone, Copy, PartialEq, Eq, Structural, Debug)]
pub struct IA32_APIC_BASE {
    /// Bootstrap processor (bit 8).
    pub BSP: u8,
    /// APIC global enable (bit 11).
    pub G: u8,
    /// APIC base, in 4 KiB frames (bits 12..=35).
    pub Base: u32,
}

impl IA32_APIC_BASE {
    /// The register's value: each field masked to its width at its bit position.
    pub open spec fn value(self) -> u64 {
        (((self.BSP as u64) & 0x1) << 8u64) | (((self.G as u64) & 0x1) << 11u64) | (((self.Base as u64) & 0xffffff) << 12u64)
    }

    /// The fields of the register value `v`; bits that no field covers are ignored.
    pub open spec fn decode(v: u64) -> Self {
        IA32_APIC_BASE {
            BSP: (((v >> 8u64) & 0x1) as u8),
            G: (((v >> 11u64) & 0x1) as u8),
            Base: (((v >> 12u64) & 0xffffff) as u32),
        }
    }

    /// Whether every field fits its width.
    pub open spec fn fits(self) -> bool {
        self.BSP <= 0x1 && self.G <= 0x1 && self.Base <= 0xffffff
    }

    /// All fields zero.
    pub open spec fn zero() -> Self {
        IA32_APIC_BASE { BSP: 0, G: 0, Base: 0 }
    }

    pub fn pack_value(&self) -> (v: u64)
        ensures
            v == self.value(),
    {
        (((self.BSP as u64) & 0x1) << 8u64) | (((self.G as u64) & 0x1) << 11u64) | (((self.Base as u64) & 0xffffff) << 12u64)
    }

    /// Loads every field from the register value `v`.
    pub fn load_value(&mut self, v: u64)
        ensures
            *final(self) == Self::decode(v),
    {
        *self = IA32_APIC_BASE {
            BSP: (((v >> 8u64) & 0x1) as u8),
            G: (((v >> 11u64) & 0x1) as u8),
            Base: (((v >> 12u64) & 0xffffff) as u32),
        };
    }

    proof fn lemma_bits(BSP: u8, G: u8, Base: u32, v: u64)
        by (bit_vector)
        ensures
            (((((((BSP as u64) & 0x1) << 8u64) | (((G as u64) & 0x1) << 11u64) | (((Base as u64) & 0xffffff) << 12u64)) >> 8u64) & 0x1) as u8) == BSP & 0x1,
            (((((((BSP as u64) & 0x1) << 8u64) | (((G as u64) & 0x1) << 11u64) | (((Base as u64) & 0xffffff) << 12u64)) >> 11u64) & 0x1) as u8) == G & 0x1,
            (((((((BSP as u64) & 0x1) << 8u64) | (((G as u64) & 0x1) << 11u64) | (((Base as u64) & 0xffffff) << 12u64)) >> 12u64) & 0xffffff) as u32) == Base & 0xffffff,
            BSP <= 0x1 ==> (BSP & 0x1) == BSP,
            (((v >> 8u64) & 0x1) as u8) <= 0x1,
            G <= 0x1 ==> (G & 0x1) == G,
            (((v >> 11u64) & 0x1) as u8) <= 0x1,
            Base <= 0xffffff ==> (Base & 0xffffff) == Base,
            (((v >> 12u64) & 0xffffff) as u32) <= 0xffffff,
            (((((((v >> 8u64) & 0x1) as u8) as u64) & 0x1) << 8u64) | ((((((v >> 11u64) & 0x1) as u8) as u64) & 0x1) << 11u64) | ((((((v >> 12u64) & 0xffffff) as u32) as u64) & 0xffffff) << 12u64)) == v & 0xffffff900,
    {
    }

    /// Decoding the value of a register whose fields fit gives back that register, and
    /// encoding a decoded value keeps exactly the bits that the fields cover.
    pub proof fn law_value_roundtrip(self, v: u64)
        ensures
            self.fits() ==> Self::decode(self.value()) == self,
            Self::decode(v).value() == v & 0xffffff900,
            Self::decode(v).fits(),
    {
        Self::lemma_bits(self.BSP, self.G, self.Base, v);
        let d = Self::decode(v);
        Self::lemma_bits(d.BSP, d.G, d.Base, v);
    }
}

impl Default for IA32_APIC_BASE {
    fn default() -> (r: Self)
        ensures
            r == Self::zero(),
    {
        IA32_APIC_BASE { BSP: 0, G: 0, Base: 0 }
    }
}

/// The SYSCALL flag mask register.
#[derive(Clone, Copy, PartialEq, Eq, Structural, Debug)]
pub struct FMASK {
    /// The RFLAGS bits that SYSCALL clears (bits 0..=31).
    pub mask: u32,
}

impl FMASK {
    /// The register's value: each field masked to its width at its bit position.
    pub open spec fn value(self) -> u64 {
        ((self.mask as u64) & 0xffffffff)
    }

    /// The fields of the register value `v`; bits that no field covers are ignored.
    pub open spec fn decode(v: u64) -> Self {
        FMASK {
            mask: ((v & 0xffffffff) as u32),
        }
    }

    /// Whether every field fits its width.
    pub open spec fn fits(self) -> bool {
        self.mask <= 0xffffffff
    }

    /// All fields zero.
    pub open spec fn zero() -> Self {
        FMASK { mask: 0 }
    }

    pub fn pack_value(&self) -> (v: u64)
        ensures
            v == self.value(),
    {
        ((self.mask as u64) & 0xffffffff)
    }

    /// Loads every field from the register value `v`.
    pub fn load_value(&mut self, v: u64)
        ensures
            *final(self) == Self::decode(v),
    {
        *self = FMASK {
            mask: ((v & 0xffffffff) as u32),
        };
    }

    proof fn lemma_bits(mask: u32, v: u64)
        by (bit_vector)
        ensures
            (((((mask as u64) & 0xffffffff)) & 0xffffffff) as u32) == mask & 0xffffffff,
            mask <= 0xffffffff ==> (mask & 0xffffffff) == mask,
            ((v & 0xffffffff) as u32) <= 0xffffffff,
            ((((((v & 0xffffffff) as u32) as u64) & 0xffffffff))) == v & 0xffffffff,
    {
    }

    /// Decoding the value of a register whose fields fit gives back that register, and
    /// encoding a decoded value keeps exactly the bits that the fields cover.
    pub proof fn law_value_roundtrip(self, v: u64)
        ensures
            self.fits() ==> Self::decode(self.value()) == self,
            Self::decode(v).value() == v & 0xffffffff,
            Self::decode(v).fits(),
    {
        Self::lemma_bits(self.mask, v);
        let d = Self::decode(v);
        Self::lemma_bits(d.mask, v);
    }
}

impl Default for FMASK {
    fn default() -> (r: Self)
        ensures
            r == Self::zero(),
    {
        FMASK { mask: 0 }
    }
}

impl MSRAccess for IA32_EFER {
    fn get(&self) -> (v: u64)
        ensures
            v == self.value(),
    {
        self.pack_value()
    }

    fn set(&mut self, v: u64)
        ensures
            *final(self) == Self::decode(v),
    {
        self.load_value(v)
    }
}

impl MSRAccess for IA32_APIC_BASE {
    fn get(&self) -> (v: u64)
        ensures
            v == self.value(),
    {
        self.pack_value()
    }

    fn set(&mut self, v: u64)
        ensures
            *final(self) == Self::decode(v),
    {
        self.load_value(v)
    }
}

impl MSRAccess for FMASK {
    fn get(&self) -> (v: u64)
        ensures
            v == self.value(),
    {
        self.pack_value()
    }

    fn set(&mut self, v: u64)
        ensures
            *final(self) == Self::decode(v),
    {
        self.load_value(v)
    }
}

/// The SYSCALL target register: the 32-bit entry point and the two selector bases.
#[derive(Clone, Copy, PartialEq, Eq, Structural, Debug)]
pub struct STAR {
    pub ip: u32,
    pub cs: u16,
    pub l_csss: u16,
}

impl STAR {
    pub open spec fn value(self) -> u64 {
        (self.l_csss * 0x1_0000_0000_0000 + self.cs * 0x1_0000_0000 + self.ip) as u64
    }
}

proof fn lemma_star_split(v: u64)
    by (bit_vector)
    ensures
        ((v / 0x1_0000_0000_0000) as u16 as u64) * 0x1_0000_0000_0000 + (((v / 0x1_0000_0000) % 0x1_0000) as u16 as u64) * 0x1_0000_0000
            + ((v % 0x1_0000_0000) as u32 as u64) == v,
{
}

impl MSRAccess for STAR {
    fn get(&self) -> (v: u64)
        ensures
            v == self.value(),
    {
        (self.l_csss as u64) * 0x1_0000_0000_0000 + (self.cs as u64) * 0x1_0000_0000 + self.ip as u64
    }

    fn set(&mut self, v: u64)
        ensures
            final(self).ip == v % 0x1_0000_0000,
            final(self).cs == (v / 0x1_0000_0000) % 0x1_0000,
            final(self).l_csss == v / 0x1_0000_0000_0000,
            final(self).value() == v,
    {
        proof {
            lemma_star_split(v);
        }
        self.ip = (v % 0x1_0000_0000) as u32;
        self.cs = ((v / 0x1_0000_0000) % 0x1_0000) as u16;
        self.l_csss = (v / 0x1_0000_0000_0000) as u16;
    }
}

impl Default for STAR {
    fn default() -> (r: Self)
        ensures
            r == (STAR { ip: 0, cs: 0, l_csss: 0 }),
    {
        STAR { ip: 0, cs: 0, l_csss: 0 }
    }
}

/// The 64-bit SYSCALL target.
#[derive(Clone, Copy, PartialEq, Eq, Structural, Debug)]
pub struct LSTAR(pub u64);

impl MSRAccess for LSTAR {
    fn get(&self) -> (v: u64)
        ensures
            v == self.0,
    {
        self.0
    }

    fn set(&mut self, v: u64)
        ensures
            final(self).0 == v,
    {
        self.0 = v;
    }
}

impl Default for LSTAR {
    fn default() -> (r: Self)
        ensures
            r.0 == 0,
    {
        LSTAR(0)
    }
}

/// The compatibility-mode SYSCALL target.
#[derive(Clone, Copy, PartialEq, Eq, Structural, Debug)]
pub struct CSTAR(pub u64);

impl MSRAccess for CSTAR {
    fn get(&self) -> (v: u64)
        ensures
            v == self.0,
    {
        self.0
    }

    fn set(&mut self, v: u64)
        ensures
            final(self).0 == v,
    {
        self.0 = v;
    }
}

impl Default for CSTAR {
    fn default() -> (r: Self)
        ensures
            r.0 == 0,
    {
        CSTAR(0)
    }
}

/// The model-specific registers that the processor holds.
pub struct ModelSpecific {
    pub efer: IA32_EFER,
    pub apic: IA32_APIC_BASE,
    pub star: STAR,
    pub lstar: LSTAR,
    pub cstar: CSTAR,
    pub fmask: FMASK,
}

impl ModelSpecific {
    pub open spec fn is_reset(self) -> bool {
        &&& self.efer == IA32_EFER::zero()
        &&& self.apic == IA32_APIC_BASE::zero()
        &&& self.star == (STAR { ip: 0, cs: 0, l_csss: 0 })
        &&& self.lstar.0 == 0
        &&& self.cstar.0 == 0
        &&& self.fmask == FMASK::zero()
    }
}

impl Default for ModelSpecific {
    fn default() -> (r: Self)
        ensures
            r.is_reset(),
    {
        ModelSpecific {
            efer: IA32_EFER::default(),
            apic: IA32_APIC_BASE::default(),
            star: STAR::default(),
            lstar: LSTAR::default(),
            cstar: CSTAR::default(),
            fmask: FMASK::default(),
        }
    }
}

} // verus!
