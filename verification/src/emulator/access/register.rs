use vstd::prelude::*;
use crate::emulator::EmuException;
use crate::hardware::processor::general;
use crate::hardware::processor::general::{low8, high8, low16, low32, with_low8, with_high8, with_low16, add64, add32, add16, add8l, add8h};
use crate::hardware::processor::ip::{sext16, sext32};
use crate::hardware::processor::segment;
use crate::hardware::processor::control::creg_value;
use super::{Access, same_but_core};

verus! {

pub type GpReg64 = general::GpReg64;

pub type GpReg32 = general::GpReg32;

pub type GpReg16 = general::GpReg16;

pub type GpReg8w = general::GpReg8l;

pub type SgReg = segment::SgReg;

/// The byte registers that a legacy encoding names: the low bytes of the first four registers,
/// then their second bytes.
#[derive(Clone, Copy, PartialEq, Eq, Structural, Debug)]
pub enum GpReg8 {
    AL,
    CL,
    DL,
    BL,
    AH,
    CH,
    DH,
    BH,
}

impl GpReg8 {
    pub open spec fn num(self) -> nat {
        match self {
            GpReg8::AL => 0,
            GpReg8::CL => 1,
            GpReg8::DL => 2,
            GpReg8::BL => 3,
            GpReg8::AH => 4,
            GpReg8::CH => 5,
            GpReg8::DH => 6,
            GpReg8::BH => 7,
        }
    }

    /// The register with encoding `i`; `None` past the last one.
    pub fn try_from_index(i: usize) -> (r: Option<Self>)
        ensures
            r matches Some(g) ==> g.num() == i,
            r is None <==> i >= 8,
    {
        match i {
            0 => Some(GpReg8::AL),
            1 => Some(GpReg8::CL),
            2 => Some(GpReg8::DL),
            3 => Some(GpReg8::BL),
            4 => Some(GpReg8::AH),
            5 => Some(GpReg8::CH),
            6 => Some(GpReg8::DH),
            7 => Some(GpReg8::BH),
            _ => None,
        }
    }

    /// The 64-bit register that holds this byte.
    pub open spec fn host(self) -> int {
        (self.num() % 4) as int
    }

    /// Whether this is the second byte of its register.
    pub open spec fn is_high(self) -> bool {
        self.num() >= 4
    }

    fn split(self) -> (r: (bool, general::GpReg8l, general::GpReg8h))
        ensures
            r.0 == self.is_high(),
            r.1.num() == self.host(),
            r.2.num() == self.host(),
    {
        match self {
            GpReg8::AL => (false, general::GpReg8l::AL, general::GpReg8h::AH),
            GpReg8::CL => (false, general::GpReg8l::CL, general::GpReg8h::CH),
            GpReg8::DL => (false, general::GpReg8l::DL, general::GpReg8h::DH),
            GpReg8::BL => (false, general::GpReg8l::BL, general::GpReg8h::BH),
            GpReg8::AH => (true, general::GpReg8l::AL, general::GpReg8h::AH),
            GpReg8::CH => (true, general::GpReg8l::CL, general::GpReg8h::CH),
            GpReg8::DH => (true, general::GpReg8l::DL, general::GpReg8h::DH),
            GpReg8::BH => (true, general::GpReg8l::BL, general::GpReg8h::BH),
        }
    }
}

/// The value of byte register `r` among the registers `regs`.
pub open spec fn gpreg8_value(regs: Seq<u64>, r: GpReg8) -> u8 {
    if r.is_high() {
        high8(regs[r.host()])
    } else {
        low8(regs[r.host()])
    }
}

/// Reading, writing and adjusting a general purpose register through a view of width `U`,
/// adjusted by a signed `V`.
pub trait GpRegAccess<T, U, V> {
    fn get_gpreg(&self, r: T) -> Result<U, EmuException>;

    fn set_gpreg(&mut self, r: T, v: U) -> Result<(), EmuException>;

    fn update_gpreg(&mut self, r: T, v: V) -> Result<(), EmuException>;
}

impl Access {
    /// Whether `b` differs from `a` only in the general purpose registers, which it holds as
    /// `regs`.
    pub open spec fn gpregs_become(a: Access, b: Access, regs: Seq<u64>) -> bool {
        &&& same_but_core(a, b)
        &&& a.core.same_but_gpregs(b.core)
        &&& b.core.gpregs@ == regs
    }
}

impl GpRegAccess<GpReg64, u64, i64> for Access {
    fn get_gpreg(&self, r: GpReg64) -> (res: Result<u64, EmuException>)
        ensures
            res == Ok::<u64, EmuException>(self.core.gpregs@[r.num() as int]),
    {
        Ok(self.core.gpregs.get64(r))
    }

    fn set_gpreg(&mut self, r: GpReg64, v: u64) -> (res: Result<(), EmuException>)
        ensures
            res is Ok,
            Access::gpregs_become(*old(self), *final(self), old(self).core.gpregs@.update(r.num() as int, v)),
    {
        self.core.gpregs.set64(r, v);
        Ok(())
    }

    fn update_gpreg(&mut self, r: GpReg64, v: i64) -> (res: Result<(), EmuException>)
        ensures
            res is Ok,
            Access::gpregs_become(*old(self), *final(self), old(self).core.gpregs@.update(r.num() as int, add64(old(self).core.gpregs@[r.num() as int], v))),
    {
        self.core.gpregs.update64(r, v);
        Ok(())
    }
}

impl GpRegAccess<GpReg32, u32, i32> for Access {
    fn get_gpreg(&self, r: GpReg32) -> (res: Result<u32, EmuException>)
        ensures
            res == Ok::<u32, EmuException>(low32(self.core.gpregs@[r.num() as int])),
    {
        Ok(self.core.gpregs.get32(r))
    }

    fn set_gpreg(&mut self, r: GpReg32, v: u32) -> (res: Result<(), EmuException>)
        ensures
            res is Ok,
            Access::gpregs_become(*old(self), *final(self), old(self).core.gpregs@.update(r.num() as int, v as u64)),
    {
        self.core.gpregs.set32(r, v);
        Ok(())
    }

    fn update_gpreg(&mut self, r: GpReg32, v: i32) -> (res: Result<(), EmuException>)
        ensures
            res is Ok,
            Access::gpregs_become(*old(self), *final(self), old(self).core.gpregs@.update(r.num() as int, add32(old(self).core.gpregs@[r.num() as int], v))),
    {
        self.core.gpregs.update32(r, v);
        Ok(())
    }
}

impl GpRegAccess<GpReg16, u16, i16> for Access {
    fn get_gpreg(&self, r: GpReg16) -> (res: Result<u16, EmuException>)
        ensures
            res == Ok::<u16, EmuException>(low16(self.core.gpregs@[r.num() as int])),
    {
        Ok(self.core.gpregs.get16(r))
    }

    fn set_gpreg(&mut self, r: GpReg16, v: u16) -> (res: Result<(), EmuException>)
        ensures
            res is Ok,
            Access::gpregs_become(*old(self), *final(self), old(self).core.gpregs@.update(r.num() as int, with_low16(old(self).core.gpregs@[r.num() as int], v))),
    {
        self.core.gpregs.set16(r, v);
        Ok(())
    }

    fn update_gpreg(&mut self, r: GpReg16, v: i16) -> (res: Result<(), EmuException>)
        ensures
            res is Ok,
            Access::gpregs_become(*old(self), *final(self), old(self).core.gpregs@.update(r.num() as int, add16(old(self).core.gpregs@[r.num() as int], v))),
    {
        self.core.gpregs.update16(r, v);
        Ok(())
    }
}

impl GpRegAccess<GpReg8, u8, i8> for Access {
    fn get_gpreg(&self, r: GpReg8) -> (res: Result<u8, EmuException>)
        ensures
            res == Ok::<u8, EmuException>(gpreg8_value(self.core.gpregs@, r)),
    {
        let (high, lo, hi) = r.split();
        Ok(if high { self.core.gpregs.get8h(hi) } else { self.core.gpregs.get8l(lo) })
    }

    fn set_gpreg(&mut self, r: GpReg8, v: u8) -> (res: Result<(), EmuException>)
        ensures
            res is Ok,
            Access::gpregs_become(*old(self), *final(self), old(self).core.gpregs@.update(r.host(), if r.is_high() {
                with_high8(old(self).core.gpregs@[r.host()], v)
            } else {
                with_low8(old(self).core.gpregs@[r.host()], v)
            })),
    {
        let (high, lo, hi) = r.split();
        if high {
            self.core.gpregs.set8h(hi, v);
        } else {
            self.core.gpregs.set8l(lo, v);
        }
        Ok(())
    }

    fn update_gpreg(&mut self, r: GpReg8, v: i8) -> (res: Result<(), EmuException>)
        ensures
            res is Ok,
            Access::gpregs_become(*old(self), *final(self), old(self).core.gpregs@.update(r.host(), if r.is_high() {
                add8h(old(self).core.gpregs@[r.host()], v)
            } else {
                add8l(old(self).core.gpregs@[r.host()], v)
            })),
    {
        let (high, lo, hi) = r.split();
        if high {
            self.core.gpregs.update8h(hi, v);
        } else {
            self.core.gpregs.update8l(lo, v);
        }
        Ok(())
    }
}

impl GpRegAccess<GpReg8w, u8, i8> for Access {
    fn get_gpreg(&self, r: GpReg8w) -> (res: Result<u8, EmuException>)
        ensures
            res == Ok::<u8, EmuException>(low8(self.core.gpregs@[r.num() as int])),
    {
        Ok(self.core.gpregs.get8l(r))
    }

    fn set_gpreg(&mut self, r: GpReg8w, v: u8) -> (res: Result<(), EmuException>)
        ensures
            res is Ok,
            Access::gpregs_become(*old(self), *final(self), old(self).core.gpregs@.update(r.num() as int, with_low8(old(self).core.gpregs@[r.num() as int], v))),
    {
        self.core.gpregs.set8l(r, v);
        Ok(())
    }

    fn update_gpreg(&mut self, r: GpReg8w, v: i8) -> (res: Result<(), EmuException>)
        ensures
            res is Ok,
            Access::gpregs_become(*old(self), *final(self), old(self).core.gpregs@.update(r.num() as int, add8l(old(self).core.gpregs@[r.num() as int], v))),
    {
        self.core.gpregs.update8l(r, v);
        Ok(())
    }
}

/// Reading, writing and advancing the instruction pointer through a view of width `T`,
/// advanced by a signed `U`.
pub trait IpAccess<T, U> {
    /// The instruction pointer through this view.
    spec fn ip_value(&self) -> T;

    fn get_ip(&self) -> (res: Result<T, EmuException>)
        ensures
            res == Ok::<T, EmuException>(self.ip_value()),
    ;

    fn set_ip(&mut self, v: T) -> Result<(), EmuException>;

    fn update_ip(&mut self, v: U) -> Result<(), EmuException>;
}

impl Access {
    /// Whether `b` differs from `a` only in the instruction pointer, which it holds as `ip`.
    pub open spec fn ip_becomes(a: Access, b: Access, ip: u64) -> bool {
        &&& same_but_core(a, b)
        &&& a.core.same_but_ip(b.core)
        &&& b.core.ip.0 == ip
    }
}

impl IpAccess<u16, i16> for Access {
    open spec fn ip_value(&self) -> u16 {
        low16(self.core.ip.0)
    }

    fn get_ip(&self) -> (res: Result<u16, EmuException>) {
        Ok(self.core.ip.get_ip())
    }

    fn set_ip(&mut self, v: u16) -> (res: Result<(), EmuException>)
        ensures
            res is Ok,
            Access::ip_becomes(*old(self), *final(self), v as u64),
    {
        self.core.ip.set_ip(v);
        Ok(())
    }

    fn update_ip(&mut self, v: i16) -> (res: Result<(), EmuException>)
        ensures
            res is Ok,
            Access::ip_becomes(*old(self), *final(self), sext16(vstd::wrapping::u16_specs::wrapping_add_signed(low16(old(self).core.ip.0), v))),
    {
        self.core.ip.update_ip(v);
        Ok(())
    }
}

impl IpAccess<u32, i32> for Access {
    open spec fn ip_value(&self) -> u32 {
        low32(self.core.ip.0)
    }

    fn get_ip(&self) -> (res: Result<u32, EmuException>) {
        Ok(self.core.ip.get_eip())
    }

    fn set_ip(&mut self, v: u32) -> (res: Result<(), EmuException>)
        ensures
            res is Ok,
            Access::ip_becomes(*old(self), *final(self), v as u64),
    {
        self.core.ip.set_eip(v);
        Ok(())
    }

    fn update_ip(&mut self, v: i32) -> (res: Result<(), EmuException>)
        ensures
            res is Ok,
            Access::ip_becomes(*old(self), *final(self), sext32(vstd::wrapping::u32_specs::wrapping_add_signed(low32(old(self).core.ip.0), v))),
    {
        self.core.ip.update_eip(v);
        Ok(())
    }
}

impl IpAccess<u64, i64> for Access {
    open spec fn ip_value(&self) -> u64 {
        self.core.ip.0
    }

    fn get_ip(&self) -> (res: Result<u64, EmuException>) {
        Ok(self.core.ip.get_rip())
    }

    fn set_ip(&mut self, v: u64) -> (res: Result<(), EmuException>)
        ensures
            res is Ok,
            Access::ip_becomes(*old(self), *final(self), v),
    {
        self.core.ip.set_rip(v);
        Ok(())
    }

    fn update_ip(&mut self, v: i64) -> (res: Result<(), EmuException>)
        ensures
            res is Ok,
            Access::ip_becomes(*old(self), *final(self), vstd::wrapping::u64_specs::wrapping_add_signed(old(self).core.ip.0, v)),
    {
        self.core.ip.update_rip(v);
        Ok(())
    }
}

impl Access {
    pub fn get_rflags(&self) -> (res: Result<u64, EmuException>)
        ensures
            res == Ok::<u64, EmuException>(self.core.rflags.value()),
    {
        Ok(self.core.rflags.to_u64())
    }

    pub fn set_rflags(&mut self, v: u64) -> (res: Result<(), EmuException>)
        ensures
            res is Ok,
            same_but_core(*old(self), *final(self)),
            old(self).core.same_but_rflags(final(self).core),
            final(self).core.rflags == crate::hardware::processor::rflags::RFlags::decode(v),
    {
        self.core.rflags.from_u64(v);
        Ok(())
    }

    /// The value of control register `r`; an error when there is no such register.
    pub fn get_creg(&self, r: usize) -> (res: Result<u32, EmuException>)
        ensures
            res == (match creg_value(self.core.cregs, r as int) {
                Some(v) => Ok(v),
                None => Err(EmuException::NotImplementedFunction),
            }),
    {
        match self.core.cregs.get(r) {
            Some(v) => Ok(v),
            None => Err(EmuException::NotImplementedFunction),
        }
    }

    /// Writes control register `r`; an error, changing nothing, when there is no such register.
    pub fn set_creg(&mut self, r: usize, v: u32) -> (res: Result<(), EmuException>)
        ensures
            res is Ok <==> (r == 0 || r == 2 || r == 3 || r == 4),
            res is Err ==> res == Err::<(), EmuException>(EmuException::UnexpectedError),
            same_but_core(*old(self), *final(self)),
            old(self).core.same_but_cregs(final(self).core),
            final(self).core.cregs.0 == (if r == 0 { crate::hardware::processor::control::CR0::decode(v) } else { old(self).core.cregs.0 }),
            final(self).core.cregs.1 == old(self).core.cregs.1,
            final(self).core.cregs.2.0 == (if r == 2 { v as u64 } else { old(self).core.cregs.2.0 }),
            final(self).core.cregs.3 == (if r == 3 { crate::hardware::processor::control::CR3::decode(v) } else { old(self).core.cregs.3 }),
            final(self).core.cregs.4 == (if r == 4 { crate::hardware::processor::control::CR4::decode(v) } else { old(self).core.cregs.4 }),
    {
        if self.core.cregs.set(r, v) {
            Ok(())
        } else {
            Err(EmuException::UnexpectedError)
        }
    }

    /// The selector and descriptor cache of segment register `r`.
    pub fn get_sgreg(&self, r: SgReg) -> (res: Result<(u16, segment::SgDescCache), EmuException>)
        ensures
            res == Ok::<(u16, segment::SgDescCache), EmuException>((self.sgreg(r).selector.value(), self.sgreg(r).cache)),
    {
        proof {
            self.core.sgregs.lemma_len();
        }
        let sg = self.core.sgregs.get(r);
        Ok((sg.selector.to_u16(), sg.cache))
    }

    /// Loads segment register `r` with selector `sel` and descriptor cache `desc`.
    pub fn set_sgreg(&mut self, r: SgReg, sel: u16, desc: segment::SgDescCache) -> (res: Result<(), EmuException>)
        ensures
            res is Ok,
            same_but_core(*old(self), *final(self)),
            old(self).core.same_but_sgregs(final(self).core),
            final(self).core.sgregs@ == old(self).core.sgregs@.update(r.num() as int, segment::SgRegUnit {
                selector: segment::SgDescSelector::decode(sel),
                cache: desc,
            }),
    {
        proof {
            self.core.sgregs.lemma_len();
        }
        let u = segment::SgRegUnit { selector: segment::SgDescSelector::new(sel), cache: desc };
        self.core.sgregs.set(r, u);
        Ok(())
    }

    pub fn get_gdtr(&self) -> (res: Result<(u64, u32), EmuException>)
        ensures
            res == Ok::<(u64, u32), EmuException>((self.core.dtregs.gdtr.base, self.core.dtregs.gdtr.limit)),
    {
        Ok((self.core.dtregs.gdtr.base, self.core.dtregs.gdtr.limit))
    }

    pub fn get_idtr(&self) -> (res: Result<(u64, u32), EmuException>)
        ensures
            res == Ok::<(u64, u32), EmuException>((self.core.dtregs.idtr.base, self.core.dtregs.idtr.limit)),
    {
        Ok((self.core.dtregs.idtr.base, self.core.dtregs.idtr.limit))
    }

    pub fn get_ldtr(&self) -> (res: Result<u16, EmuException>)
        ensures
            res == Ok::<u16, EmuException>(self.core.dtregs.ldtr.selector),
    {
        Ok(self.core.dtregs.ldtr.selector)
    }

    pub fn get_tr(&self) -> (res: Result<u16, EmuException>)
        ensures
            res == Ok::<u16, EmuException>(self.core.dtregs.tr.selector),
    {
        Ok(self.core.dtregs.tr.selector)
    }

    pub fn set_gdtr(&mut self, base: u64, limit: u16) -> (res: Result<(), EmuException>)
        ensures
            res is Ok,
            same_but_core(*old(self), *final(self)),
            old(self).core.same_but_dtregs(final(self).core),
            final(self).core.dtregs == (crate::hardware::processor::descriptor::DTRegisters {
                gdtr: crate::hardware::processor::descriptor::DescTbl { base, limit: limit as u32 },
                ..old(self).core.dtregs
            }),
    {
        self.core.dtregs.gdtr.base = base;
        self.core.dtregs.gdtr.limit = limit as u32;
        Ok(())
    }

    pub fn set_idtr(&mut self, base: u64, limit: u16) -> (res: Result<(), EmuException>)
        ensures
            res is Ok,
            same_but_core(*old(self), *final(self)),
            old(self).core.same_but_dtregs(final(self).core),
            final(self).core.dtregs == (crate::hardware::processor::descriptor::DTRegisters {
                idtr: crate::hardware::processor::descriptor::DescTbl { base, limit: limit as u32 },
                ..old(self).core.dtregs
            }),
    {
        self.core.dtregs.idtr.base = base;
        self.core.dtregs.idtr.limit = limit as u32;
        Ok(())
    }
}

} // verus!
