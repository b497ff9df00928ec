use vstd::prelude::*;

verus! {

/// The 64-bit general purpose registers.
#[derive(Clone, Copy, PartialEq, Eq, Structural, Debug)]
pub enum GpReg64 { RAX, RCX, RDX, RBX, RSP, RBP, RSI, RDI, R8, R9, R10, R11, R12, R13, R14, R15 }

impl GpReg64 {
    /// The register's number in its encoding.
    pub open spec fn num(self) -> nat {
        match self {
            GpReg64::RAX => 0,
            GpReg64::RCX => 1,
            GpReg64::RDX => 2,
            GpReg64::RBX => 3,
            GpReg64::RSP => 4,
            GpReg64::RBP => 5,
            GpReg64::RSI => 6,
            GpReg64::RDI => 7,
            GpReg64::R8 => 8,
            GpReg64::R9 => 9,
            GpReg64::R10 => 10,
            GpReg64::R11 => 11,
            GpReg64::R12 => 12,
            GpReg64::R13 => 13,
            GpReg64::R14 => 14,
            GpReg64::R15 => 15,
        }
    }

    pub fn index(self) -> (i: usize)
        ensures
            i == self.num(),
            i < 16,
    {
        match self {
            GpReg64::RAX => 0,
            GpReg64::RCX => 1,
            GpReg64::RDX => 2,
            GpReg64::RBX => 3,
            GpReg64::RSP => 4,
            GpReg64::RBP => 5,
            GpReg64::RSI => 6,
            GpReg64::RDI => 7,
            GpReg64::R8 => 8,
            GpReg64::R9 => 9,
            GpReg64::R10 => 10,
            GpReg64::R11 => 11,
            GpReg64::R12 => 12,
            GpReg64::R13 => 13,
            GpReg64::R14 => 14,
            GpReg64::R15 => 15,
        }
    }

    /// The register with number `i`; `None` when there is none.
    pub fn try_from_index(i: usize) -> (r: Option<Self>)
        ensures
            r is Some <==> i < 16,
            r is Some ==> r->0.num() == i,
    {
        match i {
            0 => Some(GpReg64::RAX),
            1 => Some(GpReg64::RCX),
            2 => Some(GpReg64::RDX),
            3 => Some(GpReg64::RBX),
            4 => Some(GpReg64::RSP),
            5 => Some(GpReg64::RBP),
            6 => Some(GpReg64::RSI),
            7 => Some(GpReg64::RDI),
            8 => Some(GpReg64::R8),
            9 => Some(GpReg64::R9),
            10 => Some(GpReg64::R10),
            11 => Some(GpReg64::R11),
            12 => Some(GpReg64::R12),
            13 => Some(GpReg64::R13),
            14 => Some(GpReg64::R14),
            15 => Some(GpReg64::R15),
            _ => None,
        }
    }
}

/// The low doublewords of the general purpose registers.
#[derive(Clone, Copy, PartialEq, Eq, Structural, Debug)]
pub enum GpReg32 { EAX, ECX, EDX, EBX, ESP, EBP, ESI, EDI, R8D, R9D, R10D, R11D, R12D, R13D, R14D, R15D }

impl GpReg32 {
    /// The register's number in its encoding.
    pub open spec fn num(self) -> nat {
        match self {
            GpReg32::EAX => 0,
            GpReg32::ECX => 1,
            GpReg32::EDX => 2,
            GpReg32::EBX => 3,
            GpReg32::ESP => 4,
            GpReg32::EBP => 5,
            GpReg32::ESI => 6,
            GpReg32::EDI => 7,
            GpReg32::R8D => 8,
            GpReg32::R9D => 9,
            GpReg32::R10D => 10,
            GpReg32::R11D => 11,
            GpReg32::R12D => 12,
            GpReg32::R13D => 13,
            GpReg32::R14D => 14,
            GpReg32::R15D => 15,
        }
    }

    pub fn index(self) -> (i: usize)
        ensures
            i == self.num(),
            i < 16,
    {
        match self {
            GpReg32::EAX => 0,
            GpReg32::ECX => 1,
            GpReg32::EDX => 2,
            GpReg32::EBX => 3,
            GpReg32::ESP => 4,
            GpReg32::EBP => 5,
            GpReg32::ESI => 6,
            GpReg32::EDI => 7,
            GpReg32::R8D => 8,
            GpReg32::R9D => 9,
            GpReg32::R10D => 10,
            GpReg32::R11D => 11,
            GpReg32::R12D => 12,
            GpReg32::R13D => 13,
            GpReg32::R14D => 14,
            GpReg32::R15D => 15,
        }
    }

    /// The register with number `i`; `None` when there is none.
    pub fn try_from_index(i: usize) -> (r: Option<Self>)
        ensures
            r is Some <==> i < 16,
            r is Some ==> r->0.num() == i,
    {
        match i {
            0 => Some(GpReg32::EAX),
            1 => Some(GpReg32::ECX),
            2 => Some(GpReg32::EDX),
            3 => Some(GpReg32::EBX),
            4 => Some(GpReg32::ESP),
            5 => Some(GpReg32::EBP),
            6 => Some(GpReg32::ESI),
            7 => Some(GpReg32::EDI),
            8 => Some(GpReg32::R8D),
            9 => Some(GpReg32::R9D),
            10 => Some(GpReg32::R10D),
            11 => Some(GpReg32::R11D),
            12 => Some(GpReg32::R12D),
            13 => Some(GpReg32::R13D),
            14 => Some(GpReg32::R14D),
            15 => Some(GpReg32::R15D),
            _ => None,
        }
    }
}

/// The low words of the general purpose registers.
#[derive(Clone, Copy, PartialEq, Eq, Structural, Debug)]
pub enum GpReg16 { AX, CX, DX, BX, SP, BP, SI, DI, R8W, R9W, R10W, R11W, R12W, R13W, R14W, R15W }

impl GpReg16 {
    /// The register's number in its encoding.
    pub open spec fn num(self) -> nat {
        match self {
            GpReg16::AX => 0,
            GpReg16::CX => 1,
            GpReg16::DX => 2,
            GpReg16::BX => 3,
            GpReg16::SP => 4,
            GpReg16::BP => 5,
            GpReg16::SI => 6,
            GpReg16::DI => 7,
            GpReg16::R8W => 8,
            GpReg16::R9W => 9,
            GpReg16::R10W => 10,
            GpReg16::R11W => 11,
            GpReg16::R12W => 12,
            GpReg16::R13W => 13,
            GpReg16::R14W => 14,
            GpReg16::R15W => 15,
        }
    }

    pub fn index(self) -> (i: usize)
        ensures
            i == self.num(),
            i < 16,
    {
        match self {
            GpReg16::AX => 0,
            GpReg16::CX => 1,
            GpReg16::DX => 2,
            GpReg16::BX => 3,
            GpReg16::SP => 4,
            GpReg16::BP => 5,
            GpReg16::SI => 6,
            GpReg16::DI => 7,
            GpReg16::R8W => 8,
            GpReg16::R9W => 9,
            GpReg16::R10W => 10,
            GpReg16::R11W => 11,
            GpReg16::R12W => 12,
            GpReg16::R13W => 13,
            GpReg16::R14W => 14,
            GpReg16::R15W => 15,
        }
    }

    /// The register with number `i`; `None` when there is none.
    pub fn try_from_index(i: usize) -> (r: Option<Self>)
        ensures
            r is Some <==> i < 16,
            r is Some ==> r->0.num() == i,
    {
        match i {
            0 => Some(GpReg16::AX),
            1 => Some(GpReg16::CX),
            2 => Some(GpReg16::DX),
            3 => Some(GpReg16::BX),
            4 => Some(GpReg16::SP),
            5 => Some(GpReg16::BP),
            6 => Some(GpReg16::SI),
            7 => Some(GpReg16::DI),
            8 => Some(GpReg16::R8W),
            9 => Some(GpReg16::R9W),
            10 => Some(GpReg16::R10W),
            11 => Some(GpReg16::R11W),
            12 => Some(GpReg16::R12W),
            13 => Some(GpReg16::R13W),
            14 => Some(GpReg16::R14W),
            15 => Some(GpReg16::R15W),
            _ => None,
        }
    }
}

/// The second bytes of the first four general purpose registers.
#[derive(Clone, Copy, PartialEq, Eq, Structural, Debug)]
pub enum GpReg8h { AH, CH, DH, BH }

impl GpReg8h {
    /// The register's number in its encoding.
    pub open spec fn num(self) -> nat {
        match self {
            GpReg8h::AH => 0,
            GpReg8h::CH => 1,
            GpReg8h::DH => 2,
            GpReg8h::BH => 3,
        }
    }

    pub fn index(self) -> (i: usize)
        ensures
            i == self.num(),
            i < 4,
    {
        match self {
            GpReg8h::AH => 0,
            GpReg8h::CH => 1,
            GpReg8h::DH => 2,
            GpReg8h::BH => 3,
        }
    }

    /// The register with number `i`; `None` when there is none.
    pub fn try_from_index(i: usize) -> (r: Option<Self>)
        ensures
            r is Some <==> i < 4,
            r is Some ==> r->0.num() == i,
    {
        match i {
            0 => Some(GpReg8h::AH),
            1 => Some(GpReg8h::CH),
            2 => Some(GpReg8h::DH),
            3 => Some(GpReg8h::BH),
            _ => None,
        }
    }
}

/// The low bytes of the general purpose registers.
#[derive(Clone, Copy, PartialEq, Eq, Structural, Debug)]
pub enum GpReg8l { AL, CL, DL, BL, SPL, BPL, SIL, DIL, R8B, R9B, R10B, R11B, R12B, R13B, R14B, R15B }

impl GpReg8l {
    /// The register's number in its encoding.
    pub open spec fn num(self) -> nat {
        match self {
            GpReg8l::AL => 0,
            GpReg8l::CL => 1,
            GpReg8l::DL => 2,
            GpReg8l::BL => 3,
            GpReg8l::SPL => 4,
            GpReg8l::BPL => 5,
            GpReg8l::SIL => 6,
            GpReg8l::DIL => 7,
            GpReg8l::R8B => 8,
            GpReg8l::R9B => 9,
            GpReg8l::R10B => 10,
            GpReg8l::R11B => 11,
            GpReg8l::R12B => 12,
            GpReg8l::R13B => 13,
            GpReg8l::R14B => 14,
            GpReg8l::R15B => 15,
        }
    }

    pub fn index(self) -> (i: usize)
        ensures
            i == self.num(),
            i < 16,
    {
        match self {
            GpReg8l::AL => 0,
            GpReg8l::CL => 1,
            GpReg8l::DL => 2,
            GpReg8l::BL => 3,
            GpReg8l::SPL => 4,
            GpReg8l::BPL => 5,
            GpReg8l::SIL => 6,
            GpReg8l::DIL => 7,
            GpReg8l::R8B => 8,
            GpReg8l::R9B => 9,
            GpReg8l::R10B => 10,
            GpReg8l::R11B => 11,
            GpReg8l::R12B => 12,
            GpReg8l::R13B => 13,
            GpReg8l::R14B => 14,
            GpReg8l::R15B => 15,
        }
    }

    /// The register with number `i`; `None` when there is none.
    pub fn try_from_index(i: usize) -> (r: Option<Self>)
        ensures
            r is Some <==> i < 16,
            r is Some ==> r->0.num() == i,
    {
        match i {
            0 => Some(GpReg8l::AL),
            1 => Some(GpReg8l::CL),
            2 => Some(GpReg8l::DL),
            3 => Some(GpReg8l::BL),
            4 => Some(GpReg8l::SPL),
            5 => Some(GpReg8l::BPL),
            6 => Some(GpReg8l::SIL),
            7 => Some(GpReg8l::DIL),
            8 => Some(GpReg8l::R8B),
            9 => Some(GpReg8l::R9B),
            10 => Some(GpReg8l::R10B),
            11 => Some(GpReg8l::R11B),
            12 => Some(GpReg8l::R12B),
            13 => Some(GpReg8l::R13B),
            14 => Some(GpReg8l::R14B),
            15 => Some(GpReg8l::R15B),
            _ => None,
        }
    }
}

/// The number of general purpose registers.
pub const GPREGS_COUNT: usize = 16;

/// The low byte of `x`.
pub open spec fn low8(x: u64) -> u8 {
    (x % 0x100) as u8
}

/// The second byte of `x`.
pub open spec fn high8(x: u64) -> u8 {
    ((x / 0x100) % 0x100) as u8
}

/// The low word of `x`.
pub open spec fn low16(x: u64) -> u16 {
    (x % 0x1_0000) as u16
}

/// The low doubleword of `x`.
pub open spec fn low32(x: u64) -> u32 {
    (x % 0x1_0000_0000) as u32
}

/// `x` with its low byte replaced by `v`.
pub open spec fn with_low8(x: u64, v: u8) -> u64 {
    (x - x % 0x100 + v) as u64
}

/// `x` with its second byte replaced by `v`.
pub open spec fn with_high8(x: u64, v: u8) -> u64 {
    (x - ((x / 0x100) % 0x100) * 0x100 + v * 0x100) as u64
}

/// `x` with its low word replaced by `v`.
pub open spec fn with_low16(x: u64, v: u16) -> u64 {
    (x - x % 0x1_0000 + v) as u64
}

/// `x + d` modulo 2^64.
pub open spec fn add64(x: u64, d: i64) -> u64 {
    vstd::wrapping::u64_specs::wrapping_add_signed(x, d)
}

/// The low doubleword of `x`, plus `d`, modulo 2^32, zero-extended.
pub open spec fn add32(x: u64, d: i32) -> u64 {
    vstd::wrapping::u32_specs::wrapping_add_signed(low32(x), d) as u64
}

/// `x` with its low word advanced by `d` modulo 2^16.
pub open spec fn add16(x: u64, d: i16) -> u64 {
    with_low16(x, vstd::wrapping::u16_specs::wrapping_add_signed(low16(x), d))
}

/// `x` with its low byte advanced by `d` modulo 2^8.
pub open spec fn add8l(x: u64, d: i8) -> u64 {
    with_low8(x, vstd::wrapping::u8_specs::wrapping_add_signed(low8(x), d))
}

/// `x` with its second byte advanced by `d` modulo 2^8.
pub open spec fn add8h(x: u64, d: i8) -> u64 {
    with_high8(x, vstd::wrapping::u8_specs::wrapping_add_signed(high8(x), d))
}

pub proof fn lemma_byte_ops(x: u64, v: u8)
    ensures
        x - x % 0x100 + v <= u64::MAX,
        x - ((x / 0x100) % 0x100) * 0x100 + v * 0x100 <= u64::MAX,
        low8(with_low8(x, v)) == v,
        high8(with_high8(x, v)) == v,
        with_low8(x, v) / 0x100 == x / 0x100,
        low8(with_high8(x, v)) == low8(x),
        with_high8(x, v) / 0x1_0000 == x / 0x1_0000,
        high8(with_low8(x, v)) == high8(x),
{
    assert(x - x % 0x100 + v <= u64::MAX) by (bit_vector);
    assert(x - ((x / 0x100) % 0x100) * 0x100 + v * 0x100 <= u64::MAX) by (bit_vector);
    assert(((x - x % 0x100 + v) as u64 % 0x100) as u8 == v) by (bit_vector);
    assert(((((x - ((x / 0x100) % 0x100) * 0x100 + v * 0x100) as u64) / 0x100) % 0x100) as u8 == v) by (bit_vector);
    assert(((x - x % 0x100 + v) as u64) / 0x100 == x / 0x100) by (bit_vector);
    assert((((x - ((x / 0x100) % 0x100) * 0x100 + v * 0x100) as u64) % 0x100) as u8 == (x % 0x100) as u8) by (bit_vector);
    assert(((x - ((x / 0x100) % 0x100) * 0x100 + v * 0x100) as u64) / 0x1_0000 == x / 0x1_0000) by (bit_vector);
    assert(((((x - x % 0x100 + v) as u64) / 0x100) % 0x100) as u8 == ((x / 0x100) % 0x100) as u8) by (bit_vector);
}

pub proof fn lemma_word_ops(x: u64, v: u16)
    ensures
        x - x % 0x1_0000 + v <= u64::MAX,
        low16(with_low16(x, v)) == v,
        with_low16(x, v) / 0x1_0000 == x / 0x1_0000,
{
    assert(x - x % 0x1_0000 + v <= u64::MAX) by (bit_vector);
    assert(((x - x % 0x1_0000 + v) as u64 % 0x1_0000) as u16 == v) by (bit_vector);
    assert(((x - x % 0x1_0000 + v) as u64) / 0x1_0000 == x / 0x1_0000) by (bit_vector);
}

/// The general purpose registers, each 64 bits wide, with their narrower views.
#[derive(Clone, Copy)]
pub struct GpRegisters([u64; GPREGS_COUNT]);

impl View for GpRegisters {
    type V = Seq<u64>;

    closed spec fn view(&self) -> Seq<u64> {
        self.0@
    }
}

impl GpRegisters {
    pub closed spec fn wf(self) -> bool {
        self.0@.len() == GPREGS_COUNT
    }

    pub proof fn lemma_wf(self)
        ensures
            self.wf(),
            self@.len() == GPREGS_COUNT,
    {
    }

    pub fn new() -> (g: Self)
        ensures
            g@ == Seq::new(GPREGS_COUNT as nat, |i: int| 0u64),
    {
        let g = Self([0u64; GPREGS_COUNT]);
        assert(g@ =~= Seq::new(GPREGS_COUNT as nat, |i: int| 0u64));
        g
    }

    /// The register with number `i`.
    pub fn get_index(&self, i: usize) -> (v: u64)
        requires
            i < GPREGS_COUNT,
        ensures
            v == self@[i as int],
    {
        self.0[i]
    }

    /// Replaces the register with number `i`.
    pub fn set_index(&mut self, i: usize, v: u64)
        requires
            i < GPREGS_COUNT,
        ensures
            final(self)@ == old(self)@.update(i as int, v),
    {
        self.0[i] = v;
    }

    pub fn get64(&self, r: GpReg64) -> (v: u64)
        ensures
            v == self@[r.num() as int],
    {
        self.0[r.index()]
    }

    pub fn get32(&self, r: GpReg32) -> (v: u32)
        ensures
            v == low32(self@[r.num() as int]),
    {
        (self.0[r.index()] % 0x1_0000_0000) as u32
    }

    pub fn get16(&self, r: GpReg16) -> (v: u16)
        ensures
            v == low16(self@[r.num() as int]),
    {
        (self.0[r.index()] % 0x1_0000) as u16
    }

    pub fn get8h(&self, r: GpReg8h) -> (v: u8)
        ensures
            v == high8(self@[r.num() as int]),
    {
        ((self.0[r.index()] / 0x100) % 0x100) as u8
    }

    pub fn get8l(&self, r: GpReg8l) -> (v: u8)
        ensures
            v == low8(self@[r.num() as int]),
    {
        (self.0[r.index()] % 0x100) as u8
    }

    pub fn set64(&mut self, r: GpReg64, v: u64)
        ensures
            final(self)@ == old(self)@.update(r.num() as int, v),
    {
        let i = r.index();
        self.0[i] = v;
    }

    /// Writes the low doubleword; like the processor, clears the upper half.
    pub fn set32(&mut self, r: GpReg32, v: u32)
        ensures
            final(self)@ == old(self)@.update(r.num() as int, v as u64),
    {
        let i = r.index();
        self.0[i] = v as u64;
    }

    pub fn set16(&mut self, r: GpReg16, v: u16)
        ensures
            final(self)@ == old(self)@.update(r.num() as int, with_low16(old(self)@[r.num() as int], v)),
    {
        let i = r.index();
        let x = self.0[i];
        proof {
            lemma_word_ops(x, v);
        }
        self.0[i] = x - x % 0x1_0000 + v as u64;
    }

    pub fn set8h(&mut self, r: GpReg8h, v: u8)
        ensures
            final(self)@ == old(self)@.update(r.num() as int, with_high8(old(self)@[r.num() as int], v)),
    {
        let i = r.index();
        let x = self.0[i];
        proof {
            lemma_byte_ops(x, v);
        }
        self.0[i] = x - ((x / 0x100) % 0x100) * 0x100 + (v as u64) * 0x100;
    }

    pub fn set8l(&mut self, r: GpReg8l, v: u8)
        ensures
            final(self)@ == old(self)@.update(r.num() as int, with_low8(old(self)@[r.num() as int], v)),
    {
        let i = r.index();
        let x = self.0[i];
        proof {
            lemma_byte_ops(x, v);
        }
        self.0[i] = x - x % 0x100 + v as u64;
    }

    pub fn update64(&mut self, r: GpReg64, v: i64)
        ensures
            final(self)@ == old(self)@.update(r.num() as int, add64(old(self)@[r.num() as int], v)),
    {
        let i = r.index();
        let x = self.0[i];
        self.0[i] = x.wrapping_add_signed(v);
    }

    /// Adds `v` to the low doubleword; the result is zero-extended like a 32-bit write.
    pub fn update32(&mut self, r: GpReg32, v: i32)
        ensures
            final(self)@ == old(self)@.update(r.num() as int, add32(old(self)@[r.num() as int], v)),
    {
        let i = r.index();
        let x = (self.0[i] % 0x1_0000_0000) as u32;
        self.0[i] = x.wrapping_add_signed(v) as u64;
    }

    pub fn update16(&mut self, r: GpReg16, v: i16)
        ensures
            final(self)@ == old(self)@.update(r.num() as int, add16(old(self)@[r.num() as int], v)),
    {
        let i = r.index();
        let x = self.0[i];
        let w = ((x % 0x1_0000) as u16).wrapping_add_signed(v);
        proof {
            lemma_word_ops(x, w);
        }
        self.0[i] = x - x % 0x1_0000 + w as u64;
    }

    pub fn update8h(&mut self, r: GpReg8h, v: i8)
        ensures
            final(self)@ == old(self)@.update(r.num() as int, add8h(old(self)@[r.num() as int], v)),
    {
        let i = r.index();
        let x = self.0[i];
        let b = (((x / 0x100) % 0x100) as u8).wrapping_add_signed(v);
        proof {
            lemma_byte_ops(x, b);
        }
        self.0[i] = x - ((x / 0x100) % 0x100) * 0x100 + (b as u64) * 0x100;
    }

    pub fn update8l(&mut self, r: GpReg8l, v: i8)
        ensures
            final(self)@ == old(self)@.update(r.num() as int, add8l(old(self)@[r.num() as int], v)),
    {
        let i = r.index();
        let x = self.0[i];
        let b = ((x % 0x100) as u8).wrapping_add_signed(v);
        proof {
            lemma_byte_ops(x, b);
        }
        self.0[i] = x - x % 0x100 + b as u64;
    }
}

/// Writing a byte, word or doubleword of a register and reading it back gives the value
/// written; the bits outside it keep their value (a doubleword write clears the upper half).
pub proof fn law_gpreg_write_read(x: u64, b: u8, w: u16, d: u32)
    ensures
        low8(with_low8(x, b)) == b,
        high8(with_low8(x, b)) == high8(x),
        with_low8(x, b) / 0x100 == x / 0x100,
        high8(with_high8(x, b)) == b,
        low8(with_high8(x, b)) == low8(x),
        with_high8(x, b) / 0x1_0000 == x / 0x1_0000,
        low16(with_low16(x, w)) == w,
        with_low16(x, w) / 0x1_0000 == x / 0x1_0000,
        low32(d as u64) == d,
{
    lemma_byte_ops(x, b);
    lemma_word_ops(x, w);
}

} // verus!
