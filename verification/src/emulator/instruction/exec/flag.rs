use vstd::prelude::*;
use crate::emulator::EmuException;
use crate::emulator::access::Access;
use crate::emulator::access::same_but_core;
use crate::hardware::processor::rflags::RFlags;
use super::Exec;
use super::super::opcode::Width;

verus! {

/// A flag bit.
pub open spec fn b2u(b: bool) -> u8 {
    if b { 1 } else { 0 }
}

/// Whether the sign bit of the `w`-wide value `v` is set.
pub open spec fn msb(w: Width, v: u64) -> bool {
    v >= w.half()
}

/// The number of set bits of `v`.
pub open spec fn ones(v: nat) -> nat
    decreases v,
{
    if v == 0 { 0 } else { v % 2 + ones(v / 2) }
}

/// Whether the low byte of `v` has an even number of set bits.
pub open spec fn even_parity(v: u64) -> bool {
    ones((v % 0x100) as nat) % 2 == 0
}

/// `a + b` cut to width `w`.
pub open spec fn wadd(w: Width, a: u64, b: u64) -> u64 {
    ((a + b) as nat % w.modulus()) as u64
}

/// `a - b` cut to width `w`.
pub open spec fn wsub(w: Width, a: u64, b: u64) -> u64 {
    if a >= b { (a - b) as u64 } else { (a - b + w.modulus()) as u64 }
}

/// The flags after a result `r` of width `w`: parity, zero and sign follow it.
pub open spec fn result_flags(f: RFlags, w: Width, r: u64) -> RFlags {
    RFlags { PF: b2u(even_parity(r)), ZF: b2u(r == 0), SF: b2u(msb(w, r)), ..f }
}

/// The flags after a logical operation with result `r`: carry and overflow cleared.
pub open spec fn logic_flags(f: RFlags, w: Width, r: u64) -> RFlags {
    RFlags { CF: 0, OF: 0, ..result_flags(f, w, r) }
}

/// The flags after `a + b`.
pub open spec fn add_flags(f: RFlags, w: Width, a: u64, b: u64) -> RFlags {
    let r = wadd(w, a, b);
    RFlags {
        CF: b2u(a + b >= w.modulus()),
        OF: b2u(msb(w, a) == msb(w, b) && msb(w, a) != msb(w, r)),
        ..result_flags(f, w, r)
    }
}

/// The flags after `a + b + c`, where the overflow looks at `a` and `b`.
pub open spec fn adc_flags(f: RFlags, w: Width, a: u64, b: u64, c: u64) -> RFlags {
    let r1 = wadd(w, a, b);
    let r = wadd(w, r1, c);
    RFlags {
        CF: b2u(a + b >= w.modulus() || r1 + c >= w.modulus()),
        OF: b2u(msb(w, a) == msb(w, b) && msb(w, a) != msb(w, r)),
        ..result_flags(f, w, r)
    }
}

/// The flags after `a - b`.
pub open spec fn sub_flags(f: RFlags, w: Width, a: u64, b: u64) -> RFlags {
    let r = wsub(w, a, b);
    RFlags {
        CF: b2u(a < b),
        OF: b2u(msb(w, a) != msb(w, b) && msb(w, a) != msb(w, r)),
        ..result_flags(f, w, r)
    }
}

/// The flags after `a - b - c`, where the overflow looks at `a` and `b`.
pub open spec fn sbb_flags(f: RFlags, w: Width, a: u64, b: u64, c: u64) -> RFlags {
    let r1 = wsub(w, a, b);
    let r = wsub(w, r1, c);
    RFlags {
        CF: b2u(a < b || r1 < c),
        OF: b2u(msb(w, a) != msb(w, b) && msb(w, a) != msb(w, r)),
        ..result_flags(f, w, r)
    }
}

/// The flags after the unsigned product `a * b`: carry and overflow both tell whether the
/// sign bit of the cut product is set. The x86 architecture sets them when the upper half of
/// the full product is nonzero; this emulator deliberately keeps its own convention.
pub open spec fn mul_flags(f: RFlags, w: Width, a: u64, b: u64) -> RFlags {
    let of = b2u(msb(w, ((a * b) as nat % w.modulus()) as u64));
    RFlags { CF: of, OF: of, ..f }
}

/// The signed value of the `w`-wide bits `v`.
pub open spec fn signed(w: Width, v: u64) -> int {
    if v >= w.half() { v - w.modulus() } else { v as int }
}

/// The flags after the signed product `a * b`: carry and overflow are both set when the
/// product fits the width and cleared when it does not. The x86 architecture sets them the
/// other way round; this emulator deliberately keeps its own convention.
pub open spec fn imul_flags(f: RFlags, w: Width, a: u64, b: u64) -> RFlags {
    let p = signed(w, a) * signed(w, b);
    let of = b2u(-(w.half() as int) <= p < w.half());
    RFlags { CF: of, OF: of, ..f }
}

/// `v` shifted left by `c` modulo the width, as the processor's wrapping shift does.
pub open spec fn wshl(w: Width, v: u64, c: u32) -> u64 {
    match w {
        Width::W8 => vstd::wrapping::u8_specs::wrapping_shl(v as u8, c) as u64,
        Width::W16 => vstd::wrapping::u16_specs::wrapping_shl(v as u16, c) as u64,
        Width::W32 => vstd::wrapping::u32_specs::wrapping_shl(v as u32, c) as u64,
        Width::W64 => vstd::wrapping::u64_specs::wrapping_shl(v, c),
    }
}

/// `v` shifted right (logically) by `c` modulo the width.
pub open spec fn wshr(w: Width, v: u64, c: u32) -> u64 {
    match w {
        Width::W8 => vstd::wrapping::u8_specs::wrapping_shr(v as u8, c) as u64,
        Width::W16 => vstd::wrapping::u16_specs::wrapping_shr(v as u16, c) as u64,
        Width::W32 => vstd::wrapping::u32_specs::wrapping_shr(v as u32, c) as u64,
        Width::W64 => vstd::wrapping::u64_specs::wrapping_shr(v, c),
    }
}

/// `v` shifted right arithmetically by `c` modulo the width, sign-extended to 64 bits.
pub open spec fn wsar(w: Width, v: u64, c: u32) -> i64 {
    match w {
        Width::W8 => vstd::wrapping::i8_specs::wrapping_shr(v as u8 as i8, c) as i64,
        Width::W16 => vstd::wrapping::i16_specs::wrapping_shr(v as u16 as i16, c) as i64,
        Width::W32 => vstd::wrapping::i32_specs::wrapping_shr(v as u32 as i32, c) as i64,
        Width::W64 => vstd::wrapping::i64_specs::wrapping_shr(v as i64, c),
    }
}

/// The flags after shifting `v` left by `c`; unchanged for a count of 0, the overflow only
/// for a count of 1.
pub open spec fn shl_flags(f: RFlags, w: Width, v: u64, c: u32) -> RFlags {
    if c == 0 {
        f
    } else {
        let r = wshl(w, v, c);
        let sf = msb(w, r);
        let cf = msb(w, wshl(w, v, (c - 1) as u32));
        let g = RFlags { CF: b2u(cf), ..result_flags(f, w, r) };
        if c == 1 { RFlags { OF: b2u(sf != cf), ..g } } else { g }
    }
}

/// The flags after shifting `v` right logically by `c`.
pub open spec fn shr_flags(f: RFlags, w: Width, v: u64, c: u32) -> RFlags {
    if c == 0 {
        f
    } else {
        let r = wshr(w, v, c);
        let cf = wshr(w, v, (c - 1) as u32) % 2 == 1;
        let g = RFlags { CF: b2u(cf), ..result_flags(f, w, r) };
        if c == 1 { RFlags { OF: b2u(msb(w, v)), ..g } } else { g }
    }
}

/// The flags after shifting `v` right arithmetically by `c`.
pub open spec fn sar_flags(f: RFlags, w: Width, v: u64, c: u32) -> RFlags {
    if c == 0 {
        f
    } else {
        let r = wsar(w, v, c);
        let cf = wsar(w, v, (c - 1) as u32) & 1 != 0;
        let g = RFlags { CF: b2u(cf), PF: b2u(even_parity(r as u8 as u64)), ZF: b2u(r == 0), SF: b2u(r < 0), ..f };
        if c == 1 { RFlags { OF: 0, ..g } } else { g }
    }
}

impl Access {
    /// Whether `b` differs from `a` only in the flags, which it holds as `f`.
    pub open spec fn rflags_become(a: Access, b: Access, f: RFlags) -> bool {
        &&& same_but_core(a, b)
        &&& a.core.same_but_rflags(b.core)
        &&& b.core.rflags == f
    }
}

impl Exec {
    /// Whether `b` runs the same instruction as `a` and differs only in holding the flags `f`.
    pub open spec fn flags_become(a: Exec, b: Exec, f: RFlags) -> bool {
        Exec::same_instr(a, b) && Access::rflags_become(a.ac, b.ac, f)
    }

    fn set_result_flags(&mut self, w: Width, r: u64)
        requires
            r < w.modulus(),
        ensures
            Exec::flags_become(*old(self), *final(self), result_flags(old(self).ac.core.rflags, w, r)),
    {
        let p = Self::check_parity((r % 0x100) as u8);
        let s = Self::check_msb(w, r);
        self.ac.core.rflags.set_parity(p);
        self.ac.core.rflags.set_zero(r == 0);
        self.ac.core.rflags.set_sign(s);
    }

    /// Sets the flags for `v1 | v2`.
    pub fn update_rflags_or(&mut self, w: Width, v1: u64, v2: u64) -> (r: Result<(), EmuException>)
        requires
            v1 < w.modulus(),
            v2 < w.modulus(),
        ensures
            r is Ok,
            Exec::flags_become(*old(self), *final(self), logic_flags(old(self).ac.core.rflags, w, v1 | v2)),
    {
        proof {
            lemma_or_bound(w, v1, v2);
        }
        self.set_result_flags(w, v1 | v2);
        self.ac.core.rflags.set_carry(false);
        self.ac.core.rflags.set_overflow(false);
        Ok(())
    }

    /// Sets the flags for `v1 & v2`.
    pub fn update_rflags_and(&mut self, w: Width, v1: u64, v2: u64) -> (r: Result<(), EmuException>)
        requires
            v1 < w.modulus(),
            v2 < w.modulus(),
        ensures
            r is Ok,
            Exec::flags_become(*old(self), *final(self), logic_flags(old(self).ac.core.rflags, w, v1 & v2)),
    {
        proof {
            lemma_and_bound(w, v1, v2);
        }
        self.set_result_flags(w, v1 & v2);
        self.ac.core.rflags.set_carry(false);
        self.ac.core.rflags.set_overflow(false);
        Ok(())
    }

    /// Sets the flags for `v1 ^ v2`.
    pub fn update_rflags_xor(&mut self, w: Width, v1: u64, v2: u64) -> (r: Result<(), EmuException>)
        requires
            v1 < w.modulus(),
            v2 < w.modulus(),
        ensures
            r is Ok,
            Exec::flags_become(*old(self), *final(self), logic_flags(old(self).ac.core.rflags, w, v1 ^ v2)),
    {
        proof {
            lemma_xor_bound(w, v1, v2);
        }
        self.set_result_flags(w, v1 ^ v2);
        self.ac.core.rflags.set_carry(false);
        self.ac.core.rflags.set_overflow(false);
        Ok(())
    }

    /// Sets the flags for `v1 + v2`.
    pub fn update_rflags_add(&mut self, w: Width, v1: u64, v2: u64) -> (r: Result<(), EmuException>)
        requires
            v1 < w.modulus(),
            v2 < w.modulus(),
        ensures
            r is Ok,
            Exec::flags_become(*old(self), *final(self), add_flags(old(self).ac.core.rflags, w, v1, v2)),
    {
        let (res, cf) = wide_add(w, v1, v2);
        let (s1, s2, sr) = (Self::check_msb(w, v1), Self::check_msb(w, v2), Self::check_msb(w, res));
        self.set_result_flags(w, res);
        self.ac.core.rflags.set_carry(cf);
        self.ac.core.rflags.set_overflow(!(s1 ^ s2) && (s1 ^ sr));
        Ok(())
    }

    /// Sets the flags for `v1 + v2 + v3`.
    pub fn update_rflags_adc(&mut self, w: Width, v1: u64, v2: u64, v3: u64) -> (r: Result<(), EmuException>)
        requires
            v1 < w.modulus(),
            v2 < w.modulus(),
            v3 < w.modulus(),
        ensures
            r is Ok,
            Exec::flags_become(*old(self), *final(self), adc_flags(old(self).ac.core.rflags, w, v1, v2, v3)),
    {
        let (r1, cf1) = wide_add(w, v1, v2);
        let (res, cf2) = wide_add(w, r1, v3);
        let (s1, s2, sr) = (Self::check_msb(w, v1), Self::check_msb(w, v2), Self::check_msb(w, res));
        self.set_result_flags(w, res);
        self.ac.core.rflags.set_carry(cf1 || cf2);
        self.ac.core.rflags.set_overflow(!(s1 ^ s2) && (s1 ^ sr));
        Ok(())
    }

    /// Sets the flags for `v1 - v2`.
    pub fn update_rflags_sub(&mut self, w: Width, v1: u64, v2: u64) -> (r: Result<(), EmuException>)
        requires
            v1 < w.modulus(),
            v2 < w.modulus(),
        ensures
            r is Ok,
            Exec::flags_become(*old(self), *final(self), sub_flags(old(self).ac.core.rflags, w, v1, v2)),
    {
        let res = wide_sub(w, v1, v2);
        let cf = v1 < v2;
        let (s1, s2, sr) = (Self::check_msb(w, v1), Self::check_msb(w, v2), Self::check_msb(w, res));
        self.set_result_flags(w, res);
        self.ac.core.rflags.set_carry(cf);
        self.ac.core.rflags.set_overflow((s1 ^ s2) && (s1 ^ sr));
        Ok(())
    }

    /// Sets the flags for `v1 - v2 - v3`.
    pub fn update_rflags_sbb(&mut self, w: Width, v1: u64, v2: u64, v3: u64) -> (r: Result<(), EmuException>)
        requires
            v1 < w.modulus(),
            v2 < w.modulus(),
            v3 < w.modulus(),
        ensures
            r is Ok,
            Exec::flags_become(*old(self), *final(self), sbb_flags(old(self).ac.core.rflags, w, v1, v2, v3)),
    {
        let r1 = wide_sub(w, v1, v2);
        let res = wide_sub(w, r1, v3);
        let cf = v1 < v2 || r1 < v3;
        let (s1, s2, sr) = (Self::check_msb(w, v1), Self::check_msb(w, v2), Self::check_msb(w, res));
        self.set_result_flags(w, res);
        self.ac.core.rflags.set_carry(cf);
        self.ac.core.rflags.set_overflow((s1 ^ s2) && (s1 ^ sr));
        Ok(())
    }

    /// Sets carry and overflow for the unsigned product `v1 * v2`.
    pub fn update_rflags_mul(&mut self, w: Width, v1: u64, v2: u64) -> (r: Result<(), EmuException>)
        requires
            v1 < w.modulus(),
            v2 < w.modulus(),
        ensures
            r is Ok,
            Exec::flags_become(*old(self), *final(self), mul_flags(old(self).ac.core.rflags, w, v1, v2)),
    {
        let res = wide_mul(w, v1, v2);
        let of = Self::check_msb(w, res);
        self.ac.core.rflags.set_carry(of);
        self.ac.core.rflags.set_overflow(of);
        Ok(())
    }

    /// Sets carry and overflow for the signed product of the `w`-wide `v1` and `v2`.
    pub fn update_rflags_imul(&mut self, w: Width, v1: u64, v2: u64) -> (r: Result<(), EmuException>)
        requires
            v1 < w.modulus(),
            v2 < w.modulus(),
        ensures
            r is Ok,
            Exec::flags_become(*old(self), *final(self), imul_flags(old(self).ac.core.rflags, w, v1, v2)),
    {
        let of = signed_product_fits(w, v1, v2);
        self.ac.core.rflags.set_carry(of);
        self.ac.core.rflags.set_overflow(of);
        Ok(())
    }

    /// Sets the flags for `v` shifted left by `c`.
    pub fn update_rflags_shl(&mut self, w: Width, v: u64, c: u32) -> (r: Result<(), EmuException>)
        requires
            v < w.modulus(),
        ensures
            r is Ok,
            Exec::flags_become(*old(self), *final(self), shl_flags(old(self).ac.core.rflags, w, v, c)),
    {
        if c == 0 {
            return Ok(());
        }
        let res = shift_left(w, v, c);
        let sf = Self::check_msb(w, res);
        let cf = Self::check_msb(w, shift_left(w, v, c - 1));
        self.set_result_flags(w, res);
        self.ac.core.rflags.set_carry(cf);
        if c == 1 {
            self.ac.core.rflags.set_overflow(sf ^ cf);
        }
        Ok(())
    }

    /// Sets the flags for `v` shifted right logically by `c`.
    pub fn update_rflags_shr(&mut self, w: Width, v: u64, c: u32) -> (r: Result<(), EmuException>)
        requires
            v < w.modulus(),
        ensures
            r is Ok,
            Exec::flags_become(*old(self), *final(self), shr_flags(old(self).ac.core.rflags, w, v, c)),
    {
        if c == 0 {
            return Ok(());
        }
        let res = shift_right(w, v, c);
        let cf = shift_right(w, v, c - 1) % 2 == 1;
        self.set_result_flags(w, res);
        self.ac.core.rflags.set_carry(cf);
        if c == 1 {
            self.ac.core.rflags.set_overflow(Self::check_msb(w, v));
        }
        Ok(())
    }

    /// Sets the flags for the `w`-wide `v` shifted right arithmetically by `c`.
    pub fn update_rflags_sar(&mut self, w: Width, v: u64, c: u32) -> (r: Result<(), EmuException>)
        requires
            v < w.modulus(),
        ensures
            r is Ok,
            Exec::flags_become(*old(self), *final(self), sar_flags(old(self).ac.core.rflags, w, v, c)),
    {
        if c == 0 {
            return Ok(());
        }
        let res = shift_arith(w, v, c);
        let sf = res < 0;
        let cf = shift_arith(w, v, c - 1) & 1 != 0;
        let p = Self::check_parity(res as u8);
        self.ac.core.rflags.set_carry(cf);
        self.ac.core.rflags.set_parity(p);
        self.ac.core.rflags.set_zero(res == 0);
        self.ac.core.rflags.set_sign(sf);
        if c == 1 {
            self.ac.core.rflags.set_overflow(false);
        }
        Ok(())
    }

    pub fn check_rflags_o(&self) -> (r: Result<bool, EmuException>)
        ensures
            r == Ok::<bool, EmuException>(self.ac.core.rflags.OF != 0),
    {
        Ok(self.ac.core.rflags.is_overflow())
    }

    pub fn check_rflags_b(&self) -> (r: Result<bool, EmuException>)
        ensures
            r == Ok::<bool, EmuException>(self.ac.core.rflags.CF != 0),
    {
        Ok(self.ac.core.rflags.is_carry())
    }

    pub fn check_rflags_z(&self) -> (r: Result<bool, EmuException>)
        ensures
            r == Ok::<bool, EmuException>(self.ac.core.rflags.ZF != 0),
    {
        Ok(self.ac.core.rflags.is_zero())
    }

    pub fn check_rflags_be(&self) -> (r: Result<bool, EmuException>)
        ensures
            r == Ok::<bool, EmuException>(self.ac.core.rflags.CF != 0 || self.ac.core.rflags.ZF != 0),
    {
        Ok(self.ac.core.rflags.is_carry() || self.ac.core.rflags.is_zero())
    }

    pub fn check_rflags_s(&self) -> (r: Result<bool, EmuException>)
        ensures
            r == Ok::<bool, EmuException>(self.ac.core.rflags.SF != 0),
    {
        Ok(self.ac.core.rflags.is_sign())
    }

    pub fn check_rflags_p(&self) -> (r: Result<bool, EmuException>)
        ensures
            r == Ok::<bool, EmuException>(self.ac.core.rflags.PF != 0),
    {
        Ok(self.ac.core.rflags.is_parity())
    }

    pub fn check_rflags_l(&self) -> (r: Result<bool, EmuException>)
        ensures
            r == Ok::<bool, EmuException>((self.ac.core.rflags.SF != 0) != (self.ac.core.rflags.OF != 0)),
    {
        Ok(self.ac.core.rflags.is_sign() ^ self.ac.core.rflags.is_overflow())
    }

    pub fn check_rflags_le(&self) -> (r: Result<bool, EmuException>)
        ensures
            r == Ok::<bool, EmuException>(self.ac.core.rflags.ZF != 0
                || ((self.ac.core.rflags.SF != 0) != (self.ac.core.rflags.OF != 0))),
    {
        Ok(self.ac.core.rflags.is_zero() || (self.ac.core.rflags.is_sign() ^ self.ac.core.rflags.is_overflow()))
    }

    /// Whether `v` has an even number of set bits.
    pub fn check_parity(v: u8) -> (b: bool)
        ensures
            b == even_parity(v as u64),
    {
        let mut x = v;
        let mut c: u8 = 0;
        proof {
            lemma_ones_bound(v as nat);
        }
        while x > 0
            invariant
                c + ones(x as nat) == ones(v as nat),
                c <= 8 - ones(x as nat),
                ones(x as nat) <= 8,
            decreases x,
        {
            proof {
                lemma_ones_bound(x as nat);
                lemma_ones_bound((x / 2) as nat);
            }
            c = c + x % 2;
            x = x / 2;
        }
        proof {
            assert(v as u64 % 0x100 == v as u64);
        }
        c % 2 == 0
    }

    /// Whether the sign bit of the `w`-wide `v` is set.
    pub fn check_msb(w: Width, v: u64) -> (b: bool)
        ensures
            b == msb(w, v),
    {
        match w {
            Width::W8 => v >= 0x80,
            Width::W16 => v >= 0x8000,
            Width::W32 => v >= 0x8000_0000,
            Width::W64 => v >= 0x8000_0000_0000_0000,
        }
    }

    /// Whether the lowest bit of `v` is set.
    pub fn check_lsb(v: u64) -> (b: bool)
        ensures
            b == (v % 2 == 1),
    {
        v % 2 == 1
    }
}

proof fn lemma_ones_bound(v: nat)
    requires
        v < 0x100,
    ensures
        ones(v) <= 8,
        v > 0 ==> ones(v) == v % 2 + ones(v / 2),
{
    reveal_with_fuel(ones, 9);
}

pub(crate) proof fn lemma_or_bound(w: Width, a: u64, b: u64)
    requires
        a < w.modulus(),
        b < w.modulus(),
    ensures
        a | b < w.modulus(),
{
    match w {
        Width::W8 => assert(a < 0x100 && b < 0x100 ==> a | b < 0x100) by (bit_vector),
        Width::W16 => assert(a < 0x1_0000 && b < 0x1_0000 ==> a | b < 0x1_0000) by (bit_vector),
        Width::W32 => assert(a < 0x1_0000_0000 && b < 0x1_0000_0000 ==> a | b < 0x1_0000_0000) by (bit_vector),
        Width::W64 => {},
    }
}

pub(crate) proof fn lemma_and_bound(w: Width, a: u64, b: u64)
    requires
        a < w.modulus(),
        b < w.modulus(),
    ensures
        a & b < w.modulus(),
{
    assert(a & b <= a) by (bit_vector);
}

pub(crate) proof fn lemma_xor_bound(w: Width, a: u64, b: u64)
    requires
        a < w.modulus(),
        b < w.modulus(),
    ensures
        a ^ b < w.modulus(),
{
    match w {
        Width::W8 => assert(a < 0x100 && b < 0x100 ==> a ^ b < 0x100) by (bit_vector),
        Width::W16 => assert(a < 0x1_0000 && b < 0x1_0000 ==> a ^ b < 0x1_0000) by (bit_vector),
        Width::W32 => assert(a < 0x1_0000_0000 && b < 0x1_0000_0000 ==> a ^ b < 0x1_0000_0000) by (bit_vector),
        Width::W64 => {},
    }
}

/// `a + b` cut to width `w`, and whether it carried out.
pub fn wide_add(w: Width, a: u64, b: u64) -> (r: (u64, bool))
    requires
        a < w.modulus(),
        b < w.modulus(),
    ensures
        r.0 == wadd(w, a, b),
        r.0 < w.modulus(),
        r.1 == (a + b >= w.modulus()),
{
    match w {
        Width::W8 => ((a + b) % 0x100, a + b >= 0x100),
        Width::W16 => ((a + b) % 0x1_0000, a + b >= 0x1_0000),
        Width::W32 => ((a + b) % 0x1_0000_0000, a + b >= 0x1_0000_0000),
        Width::W64 => (a.wrapping_add(b), a > u64::MAX - b),
    }
}

/// `a - b` cut to width `w`.
pub fn wide_sub(w: Width, a: u64, b: u64) -> (r: u64)
    requires
        a < w.modulus(),
        b < w.modulus(),
    ensures
        r == wsub(w, a, b),
        r < w.modulus(),
{
    if a >= b {
        a - b
    } else {
        match w {
            Width::W8 => a + 0x100 - b,
            Width::W16 => a + 0x1_0000 - b,
            Width::W32 => a + 0x1_0000_0000 - b,
            Width::W64 => a.wrapping_sub(b),
        }
    }
}

/// `a * b` cut to width `w`.
pub fn wide_mul(w: Width, a: u64, b: u64) -> (r: u64)
    requires
        a < w.modulus(),
        b < w.modulus(),
    ensures
        r == (a * b) as nat % w.modulus(),
        r < w.modulus(),
{
    match w {
        Width::W8 => {
            proof {
                assert(a * b < 0x1_0000) by (nonlinear_arith)
                    requires
                        a < 0x100,
                        b < 0x100,
                ;
            }
            (a * b) % 0x100
        },
        Width::W16 => {
            proof {
                assert(a * b < 0x1_0000_0000) by (nonlinear_arith)
                    requires
                        a < 0x1_0000,
                        b < 0x1_0000,
                ;
            }
            (a * b) % 0x1_0000
        },
        Width::W32 => {
            proof {
                assert(a * b < 0x1_0000_0000_0000_0000) by (nonlinear_arith)
                    requires
                        a < 0x1_0000_0000,
                        b < 0x1_0000_0000,
                ;
            }
            (a * b) % 0x1_0000_0000
        },
        Width::W64 => a.wrapping_mul(b),
    }
}

/// The signed value of the `w`-wide bits `v`.
pub fn to_signed(w: Width, v: u64) -> (s: i64)
    requires
        v < w.modulus(),
    ensures
        s == signed(w, v),
{
    match w {
        Width::W8 => if v >= 0x80 { v as i64 - 0x100 } else { v as i64 },
        Width::W16 => if v >= 0x8000 { v as i64 - 0x1_0000 } else { v as i64 },
        Width::W32 => if v >= 0x8000_0000 { v as i64 - 0x1_0000_0000 } else { v as i64 },
        Width::W64 => if v >= 0x8000_0000_0000_0000 {
            (v - 0x8000_0000_0000_0000) as i64 + i64::MIN
        } else {
            v as i64
        },
    }
}

/// Whether the signed product of the `w`-wide `a` and `b` fits the width.
pub fn signed_product_fits(w: Width, a: u64, b: u64) -> (f: bool)
    requires
        a < w.modulus(),
        b < w.modulus(),
    ensures
        f == (-(w.half() as int) <= signed(w, a) * signed(w, b) < w.half()),
{
    let x = to_signed(w, a);
    let y = to_signed(w, b);
    match w {
        Width::W64 => x.checked_mul(y).is_some(),
        _ => {
            proof {
                assert(-0x4000_0000_0000_0000 <= x * y <= 0x4000_0000_0000_0000) by (nonlinear_arith)
                    requires
                        -0x8000_0000 <= x < 0x8000_0000,
                        -0x8000_0000 <= y < 0x8000_0000,
                ;
            }
            let p = x * y;
            match w {
                Width::W8 => -0x80 <= p && p < 0x80,
                Width::W16 => -0x8000 <= p && p < 0x8000,
                _ => -0x8000_0000 <= p && p < 0x8000_0000,
            }
        },
    }
}

/// `v` shifted left by `c` modulo the width.
pub fn shift_left(w: Width, v: u64, c: u32) -> (r: u64)
    requires
        v < w.modulus(),
    ensures
        r == wshl(w, v, c),
        r < w.modulus(),
{
    match w {
        Width::W8 => (v as u8).wrapping_shl(c) as u64,
        Width::W16 => (v as u16).wrapping_shl(c) as u64,
        Width::W32 => (v as u32).wrapping_shl(c) as u64,
        Width::W64 => v.wrapping_shl(c),
    }
}

/// `v` shifted right logically by `c` modulo the width.
pub fn shift_right(w: Width, v: u64, c: u32) -> (r: u64)
    requires
        v < w.modulus(),
    ensures
        r == wshr(w, v, c),
        r < w.modulus(),
{
    match w {
        Width::W8 => (v as u8).wrapping_shr(c) as u64,
        Width::W16 => (v as u16).wrapping_shr(c) as u64,
        Width::W32 => (v as u32).wrapping_shr(c) as u64,
        Width::W64 => v.wrapping_shr(c),
    }
}

/// The `w`-wide `v` shifted right arithmetically by `c` modulo the width.
pub fn shift_arith(w: Width, v: u64, c: u32) -> (r: i64)
    requires
        v < w.modulus(),
    ensures
        r == wsar(w, v, c),
{
    match w {
        Width::W8 => (v as u8 as i8).wrapping_shr(c) as i64,
        Width::W16 => (v as u16 as i16).wrapping_shr(c) as i64,
        Width::W32 => (v as u32 as i32).wrapping_shr(c) as i64,
        Width::W64 => (v as i64).wrapping_shr(c),
    }
}

} // verus!
