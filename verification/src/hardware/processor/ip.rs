use vstd::prelude::*;
use super::general::{low16, low32};

verus! {

/// `x` sign-extended from 16 to 64 bits.
pub open spec fn sext16(x: u16) -> u64 {
    if x < 0x8000 {
        x as u64
    } else {
        (x + 0xffff_ffff_ffff_0000) as u64
    }
}

/// `x` sign-extended from 32 to 64 bits.
pub open spec fn sext32(x: u32) -> u64 {
    if x < 0x8000_0000 {
        x as u64
    } else {
        (x + 0xffff_ffff_0000_0000) as u64
    }
}

/// The instruction pointer.
#[derive(Clone, Copy, PartialEq, Eq, Structural, Debug)]
pub struct InstructionPointer(pub u64);

impl InstructionPointer {
    pub fn new(rst_vct: u64) -> (p: Self)
        ensures
            p.0 == rst_vct,
    {
        Self(rst_vct)
    }

    pub fn get_ip(&self) -> (v: u16)
        ensures
            v == low16(self.0),
    {
        (self.0 % 0x1_0000) as u16
    }

    pub fn get_eip(&self) -> (v: u32)
        ensures
            v == low32(self.0),
    {
        (self.0 % 0x1_0000_0000) as u32
    }

    pub fn get_rip(&self) -> (v: u64)
        ensures
            v == self.0,
    {
        self.0
    }

    /// Sets the pointer to the zero-extended `v`.
    pub fn set_ip(&mut self, v: u16)
        ensures
            final(self).0 == v,
    {
        self.0 = v as u64;
    }

    /// Sets the pointer to the zero-extended `v`.
    pub fn set_eip(&mut self, v: u32)
        ensures
            final(self).0 == v,
    {
        self.0 = v as u64;
    }

    pub fn set_rip(&mut self, v: u64)
        ensures
            final(self).0 == v,
    {
        self.0 = v;
    }

    /// Adds `v` to the low word modulo 2^16; the result is sign-extended to 64 bits.
    pub fn update_ip(&mut self, v: i16)
        ensures
            final(self).0 == sext16(vstd::wrapping::u16_specs::wrapping_add_signed(low16(old(self).0), v)),
    {
        let s = ((self.0 % 0x1_0000) as u16).wrapping_add_signed(v);
        self.0 = if s < 0x8000 { s as u64 } else { s as u64 + 0xffff_ffff_ffff_0000 };
    }

    /// Adds `v` to the low doubleword modulo 2^32; the result is sign-extended to 64 bits.
    pub fn update_eip(&mut self, v: i32)
        ensures
            final(self).0 == sext32(vstd::wrapping::u32_specs::wrapping_add_signed(low32(old(self).0), v)),
    {
        let s = ((self.0 % 0x1_0000_0000) as u32).wrapping_add_signed(v);
        self.0 = if s < 0x8000_0000 { s as u64 } else { s as u64 + 0xffff_ffff_0000_0000 };
    }

    /// Adds `v` modulo 2^64.
    pub fn update_rip(&mut self, v: i64)
        ensures
            final(self).0 == vstd::wrapping::u64_specs::wrapping_add_signed(old(self).0, v),
    {
        self.0 = self.0.wrapping_add_signed(v);
    }
}

} // verus!
