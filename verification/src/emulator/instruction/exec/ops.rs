use vstd::prelude::*;
use crate::emulator::{EmuException, CPUException};
use crate::emulator::access::{Access, CpuMode, same_config, same_but_core};
use crate::emulator::access::register::IpAccess;
use crate::hardware::processor::rflags::RFlags;
use super::{Exec, Loc, put, put_byte};
use super::desc::{stack_delta, stack_value, ip_cut};
use crate::hardware::processor::segment::SgReg;
use super::flag::{wadd, wsub, logic_flags, add_flags, adc_flags, sub_flags, sbb_flags, mul_flags, imul_flags,
    shl_flags, shr_flags, sar_flags, wshl, wshr, wsar, msb, b2u, wide_add, wide_sub, wide_mul, signed};
use super::super::opcode::{Width, trunc, truncate, Opnd, AluOp, Cond, StrOp, Instr};
use super::wide::{span, wide_product, high_half, low_half, wide_dividend, quot_toward_zero, rem_toward_zero, cut,
    lemma_signed_pair, lemma_shift_mod, lemma_mul_congruent, lemma_wrap_keeps, lemma_halves};

verus! {

/// The carry flag as a number.
pub open spec fn carry_in(f: RFlags) -> u64 {
    if f.CF != 0 { 1 } else { 0 }
}

/// The result of ALU operation `op` on the `w`-wide `d` and `s` with carry `c`.
pub open spec fn alu_value(op: AluOp, w: Width, d: u64, s: u64, c: u64) -> u64 {
    match op {
        AluOp::Add => wadd(w, d, s),
        AluOp::Or => d | s,
        AluOp::Adc => wadd(w, wadd(w, d, s), c),
        AluOp::Sbb => wsub(w, wsub(w, d, s), c),
        AluOp::And => d & s,
        AluOp::Sub | AluOp::Cmp => wsub(w, d, s),
        AluOp::Xor => d ^ s,
    }
}

/// The flags after ALU operation `op` on the `w`-wide `d` and `s` with carry `c`.
pub open spec fn alu_flags(op: AluOp, f: RFlags, w: Width, d: u64, s: u64, c: u64) -> RFlags {
    match op {
        AluOp::Add => add_flags(f, w, d, s),
        AluOp::Or => logic_flags(f, w, d | s),
        AluOp::Adc => adc_flags(f, w, d, s, c),
        AluOp::Sbb => sbb_flags(f, w, d, s, c),
        AluOp::And => logic_flags(f, w, d & s),
        AluOp::Sub | AluOp::Cmp => sub_flags(f, w, d, s),
        AluOp::Xor => logic_flags(f, w, d ^ s),
    }
}

/// The registers after writing `v` of width `w` at register location `l`.
pub open spec fn regs_after(regs: Seq<u64>, w: Width, l: Loc, v: u64) -> Seq<u64> {
    match l {
        Loc::Reg(i) => regs.update(i as int, put(w, regs[i as int], v)),
        Loc::Byte(n) => put_byte(regs, n, v as u8),
        _ => regs,
    }
}

/// The registers after ALU operation `op` with the register destination `l`, which held `d`,
/// and the source `s`: a comparison writes nothing.
pub open spec fn alu_regs(op: AluOp, regs: Seq<u64>, w: Width, l: Loc, d: u64, s: u64, c: u64) -> Seq<u64> {
    if op == AluOp::Cmp { regs } else { regs_after(regs, w, l, alu_value(op, w, d, s, c)) }
}

impl Exec {
    /// The location that operand `o` of width `w` names, if it names one.
    pub open spec fn opnd_loc(self, w: Width, o: Opnd) -> Option<Loc> {
        match o {
            Opnd::R => Some(self.r_loc(w)),
            Opnd::RM => Some(self.rm_loc(w)),
            Opnd::Opr => Some(self.opr_loc(w)),
            Opnd::Acc => Some(Exec::acc_loc(w)),
            Opnd::Moffs => Some(self.moffs_loc()),
            _ => None,
        }
    }

    /// The value of an operand that names no location, before it is cut to the operand width.
    pub open spec fn opnd_raw(self, o: Opnd) -> Result<u64, EmuException> {
        match o {
            Opnd::Imm(iw) => match self.idata.imm {
                Some(v) => Ok(trunc(iw, v)),
                None => Err(EmuException::UnexpectedError),
            },
            Opnd::Cl => self.reg_value(Width::W8, Loc::Byte(1)),
            Opnd::Dx => self.reg_value(Width::W16, Loc::Reg(2)),
            Opnd::Sreg => match self.sreg_of() {
                Some(s) => Ok(self.ac.sgreg(s).selector.value() as u64),
                None => Err(EmuException::UnexpectedError),
            },
            _ => Err(EmuException::UnexpectedError),
        }
    }

    /// The value of width `w` of an operand that names no location.
    pub open spec fn opnd_const(self, w: Width, o: Opnd) -> Result<u64, EmuException> {
        match self.opnd_raw(o) {
            Ok(v) => Ok(trunc(w, v)),
            Err(e) => Err(e),
        }
    }

    /// `b` is `a` after reading operand `o` of width `w` gave `r`.
    pub open spec fn opnd_reads(a: Exec, b: Exec, w: Width, o: Opnd, r: Result<u64, EmuException>) -> bool {
        match a.opnd_loc(w, o) {
            Some(l) => Exec::reads(a, b, w, l, r),
            None => r == a.opnd_const(w, o) && b == a,
        }
    }

    /// `b` is `a` after writing `v` to operand `o` of width `w` gave `r`.
    pub open spec fn opnd_writes(a: Exec, b: Exec, w: Width, o: Opnd, v: u64, r: Result<(), EmuException>) -> bool {
        match a.opnd_loc(w, o) {
            Some(l) => Exec::writes(a, b, w, l, v, r),
            None => r == Err::<(), EmuException>(EmuException::UnexpectedError) && b == a,
        }
    }

    /// The value of operand `o` of width `w`, when reading it touches no memory and succeeds.
    pub open spec fn pure_value(self, w: Width, o: Opnd) -> Option<u64> {
        match self.opnd_loc(w, o) {
            Some(l) => if l is Mem {
                None
            } else {
                match self.reg_value(w, l) {
                    Ok(v) => Some(v),
                    Err(_) => None,
                }
            },
            None => match self.opnd_const(w, o) {
                Ok(v) => Some(v),
                Err(_) => None,
            },
        }
    }

    /// The register that operand `o` of width `w` names, if it names one that exists.
    pub open spec fn reg_target(self, w: Width, o: Opnd) -> Option<Loc> {
        match self.opnd_loc(w, o) {
            Some(Loc::Reg(i)) => if i < 16 { Some(Loc::Reg(i)) } else { None },
            Some(Loc::Byte(n)) => if n < 8 { Some(Loc::Byte(n)) } else { None },
            _ => None,
        }
    }

    /// `b` runs the same instruction as `a` and differs from it only in holding the general
    /// registers `regs` and the flags `f`.
    pub open spec fn core_becomes(a: Exec, b: Exec, regs: Seq<u64>, f: RFlags) -> bool {
        &&& Exec::same_instr(a, b)
        &&& same_but_core(a.ac, b.ac)
        &&& b.ac.core.gpregs@ == regs
        &&& b.ac.core.rflags == f
        &&& b.ac.core.ip == a.ac.core.ip
        &&& b.ac.core.cregs == a.ac.core.cregs
        &&& b.ac.core.sgregs == a.ac.core.sgregs
        &&& b.ac.core.dtregs == a.ac.core.dtregs
        &&& b.ac.core.msr == a.ac.core.msr
    }

    fn opnd_raw_value(&self, o: Opnd) -> (r: Result<u64, EmuException>)
        ensures
            r == self.opnd_raw(o),
    {
        match o {
            Opnd::Imm(iw) => match self.idata.imm {
                Some(v) => Ok(truncate(iw, v)),
                None => Err(EmuException::UnexpectedError),
            },
            Opnd::Cl => self.reg_read(Width::W8, Loc::Byte(1)),
            Opnd::Dx => self.reg_read(Width::W16, Loc::Reg(2)),
            Opnd::Sreg => match self.get_sreg() {
                Ok(v) => Ok(v as u64),
                Err(e) => Err(e),
            },
            _ => Err(EmuException::UnexpectedError),
        }
    }

    /// Reads operand `o` of width `w`.
    pub fn get_opnd(&mut self, w: Width, o: Opnd) -> (r: Result<u64, EmuException>)
        ensures
            Exec::opnd_reads(*old(self), *final(self), w, o, r),
            same_config(old(self).ac, final(self).ac),
            r matches Ok(v) ==> v < w.modulus(),
    {
        match o {
            Opnd::R => {
                let l = self.r_location(w);
                self.read_loc(w, l)
            },
            Opnd::RM => {
                let l = self.rm_location(w);
                self.read_loc(w, l)
            },
            Opnd::Opr => {
                let l = self.opr_location(w);
                self.read_loc(w, l)
            },
            Opnd::Acc => {
                let l = Exec::acc_location(w);
                self.read_loc(w, l)
            },
            Opnd::Moffs => {
                let l = self.moffs_location();
                self.read_loc(w, l)
            },
            _ => match self.opnd_raw_value(o) {
                Ok(v) => Ok(truncate(w, v)),
                Err(e) => Err(e),
            },
        }
    }

    /// Writes `v` to operand `o` of width `w`; an operand that names no location cannot be
    /// written.
    pub fn set_opnd(&mut self, w: Width, o: Opnd, v: u64) -> (r: Result<(), EmuException>)
        requires
            v < w.modulus(),
        ensures
            Exec::opnd_writes(*old(self), *final(self), w, o, v, r),
            same_config(old(self).ac, final(self).ac),
    {
        match o {
            Opnd::R => {
                let l = self.r_location(w);
                self.write_loc(w, l, v)
            },
            Opnd::RM => {
                let l = self.rm_location(w);
                self.write_loc(w, l, v)
            },
            Opnd::Opr => {
                let l = self.opr_location(w);
                self.write_loc(w, l, v)
            },
            Opnd::Acc => {
                let l = Exec::acc_location(w);
                self.write_loc(w, l, v)
            },
            Opnd::Moffs => {
                let l = self.moffs_location();
                self.write_loc(w, l, v)
            },
            _ => Err(EmuException::UnexpectedError),
        }
    }

    /// What `alu` promises: with register and immediate operands, or a register destination
    /// and a memory source, the destination (but for a comparison) holds the result and the
    /// flags follow it; with a memory destination, as `alu_mem_done` says.
    pub open spec fn alu_spec(a: Exec, b: Exec, op: AluOp, w: Width, dst: Opnd, src: Opnd, r: Result<(), EmuException>) -> bool {
        &&& Exec::same_instr(a, b)
        &&& same_config(a.ac, b.ac)
        &&& a.reg_target(w, dst) matches Some(l) ==> a.pure_value(w, dst) matches Some(d) ==> a.pure_value(w, src) matches Some(s) ==> {
            let c = carry_in(a.ac.core.rflags);
            let regs = a.ac.core.gpregs@;
            &&& r is Ok
            &&& Exec::core_becomes(a, b,
                if op == AluOp::Cmp { regs } else { regs_after(regs, w, l, alu_value(op, w, d, s, c)) },
                alu_flags(op, a.ac.core.rflags, w, d, s, c))
        }
        &&& a.opnd_loc(w, dst) matches Some(Loc::Mem(sg, o)) ==> Exec::alu_mem_done(a, b, op, w, sg, o, src, r)
        &&& a.reg_target(w, dst) matches Some(l) ==> a.pure_value(w, dst) matches Some(d) ==> a.opnd_loc(w, src) matches Some(Loc::Mem(sg, o)) ==>
            r is Ok ==> exists|s: u64| #[trigger] Exec::mem_src_done(a, b, w, sg, o, s,
                alu_regs(op, a.ac.core.gpregs@, w, l, d, s, carry_in(a.ac.core.rflags)),
                alu_flags(op, a.ac.core.rflags, w, d, s, carry_in(a.ac.core.rflags)))
    }

    /// What an ALU operation on the memory operand at `sg:o` promises: with a register or
    /// immediate source, that it read, computed and (but for a comparison) stored as `alu_mem`
    /// says.
    pub open spec fn alu_mem_done(a: Exec, b: Exec, op: AluOp, w: Width, sg: SgReg, o: u64, src: Opnd, r: Result<(), EmuException>) -> bool {
        a.pure_value(w, src) matches Some(s) ==> r is Ok ==>
            exists|m: Access, d: u64| #[trigger] Exec::alu_mem(a.ac, m, b.ac, op, w, sg, o, d, s)
    }

    /// `b` is `a` after ALU operation `op` on the `w`-wide memory operand at `sg:o`, which
    /// held `d`, and `s`: `m` is the state after reading it and setting the flags, from which
    /// the result is stored (but for a comparison).
    pub open spec fn alu_mem(a: Access, m: Access, b: Access, op: AluOp, w: Width, sg: SgReg, o: u64, d: u64, s: u64) -> bool {
        let c = carry_in(a.core.rflags);
        &&& Access::loads(a, m, sg, o, w.nbytes(), Ok(d))
        &&& m.core.rflags == alu_flags(op, a.core.rflags, w, d, s, c)
        &&& a.core.same_but_rflags(m.core)
        &&& if op == AluOp::Cmp {
            b == m
        } else {
            Access::stores(m, b, sg, o, alu_value(op, w, d, s, c), w.nbytes(), Ok(())) && b.core == m.core
        }
    }

    /// An arithmetic or logic operation `dst = dst op src`; a comparison only sets the flags.
    pub fn alu(&mut self, op: AluOp, w: Width, dst: Opnd, src: Opnd) -> (r: Result<(), EmuException>)
        ensures
            Exec::alu_spec(*old(self), *final(self), op, w, dst, src, r),
    {
        match self.opnd_location(w, dst) {
            Some(Loc::Mem(sg, o)) => self.alu_on_mem(op, w, sg, o, src),
            _ => match self.opnd_location(w, src) {
                Some(Loc::Mem(sg, o)) => self.alu_src_mem(op, w, dst, src, sg, o),
                _ => self.alu_on(op, w, dst, src),
            },
        }
    }

    /// The location that operand `o` of width `w` names, if it names one.
    fn opnd_location(&self, w: Width, o: Opnd) -> (l: Option<Loc>)
        ensures
            l == self.opnd_loc(w, o),
    {
        match o {
            Opnd::R => Some(self.r_location(w)),
            Opnd::RM => Some(self.rm_location(w)),
            Opnd::Opr => Some(self.opr_location(w)),
            Opnd::Acc => Some(Exec::acc_location(w)),
            Opnd::Moffs => Some(self.moffs_location()),
            _ => None,
        }
    }

    /// The ALU operation on the memory operand at `sg:o`.
    #[verifier::spinoff_prover]
    fn alu_on_mem(&mut self, op: AluOp, w: Width, sg: SgReg, o: u64, src: Opnd) -> (r: Result<(), EmuException>)
        ensures
            Exec::same_instr(*old(self), *final(self)),
            same_config(old(self).ac, final(self).ac),
            Exec::alu_mem_done(*old(self), *final(self), op, w, sg, o, src, r),
    {
        let ghost a = *self;
        let d = self.read_loc(w, Loc::Mem(sg, o))?;
        let ghost m1 = *self;
        let s = self.get_opnd(w, src)?;
        let c: u64 = if self.ac.core.rflags.is_carry() { 1 } else { 0 };
        let v = self.alu_apply(op, w, d, s, c)?;
        let ghost m = *self;
        if op == AluOp::Cmp {
            proof {
                if a.pure_value(w, src) is Some {
                    crate::emulator::access::memory::lemma_loads_core_free(a.ac, m1.ac, m.ac, sg, o, w.nbytes(), Ok(d));
                    assert(Exec::alu_mem(a.ac, m.ac, self.ac, op, w, sg, o, d, s));
                    assert(a.pure_value(w, src)->Some_0 == s);
                    assert(exists|mm: Access, dd: u64| #[trigger] Exec::alu_mem(a.ac, mm, self.ac, op, w, sg, o, dd, a.pure_value(w, src)->Some_0));
                    assert(Exec::alu_mem_done(a, *self, op, w, sg, o, src, Ok(())));
                }
            }
            Ok(())
        } else {
            self.write_loc(w, Loc::Mem(sg, o), v)?;
            proof {
                if a.pure_value(w, src) is Some {
                    crate::emulator::access::memory::lemma_loads_core_free(a.ac, m1.ac, m.ac, sg, o, w.nbytes(), Ok(d));
                    assert(Exec::alu_mem(a.ac, m.ac, self.ac, op, w, sg, o, d, s));
                    assert(a.pure_value(w, src)->Some_0 == s);
                    assert(exists|mm: Access, dd: u64| #[trigger] Exec::alu_mem(a.ac, mm, self.ac, op, w, sg, o, dd, a.pure_value(w, src)->Some_0));
                    assert(Exec::alu_mem_done(a, *self, op, w, sg, o, src, Ok(())));
                }
            }
            Ok(())
        }
    }

    /// The ALU operation on an operand that is not in memory.
    #[verifier::spinoff_prover]
    fn alu_on(&mut self, op: AluOp, w: Width, dst: Opnd, src: Opnd) -> (r: Result<(), EmuException>)
        requires
            !(old(self).opnd_loc(w, dst) matches Some(Loc::Mem(_, _))),
            !(old(self).opnd_loc(w, src) matches Some(Loc::Mem(_, _))),
        ensures
            Exec::alu_spec(*old(self), *final(self), op, w, dst, src, r),
    {
        let d = self.get_opnd(w, dst)?;
        let s = self.get_opnd(w, src)?;
        let c: u64 = if self.ac.core.rflags.is_carry() { 1 } else { 0 };
        let v = self.alu_apply(op, w, d, s, c)?;
        if op == AluOp::Cmp {
            Ok(())
        } else {
            self.set_opnd(w, dst, v)
        }
    }

    /// The ALU operation with a register destination and the memory source at `sg:o`.
    #[verifier::spinoff_prover]
    fn alu_src_mem(&mut self, op: AluOp, w: Width, dst: Opnd, src: Opnd, sg: SgReg, o: u64) -> (r: Result<(), EmuException>)
        requires
            !(old(self).opnd_loc(w, dst) matches Some(Loc::Mem(_, _))),
            old(self).opnd_loc(w, src) == Some(Loc::Mem(sg, o)),
        ensures
            Exec::alu_spec(*old(self), *final(self), op, w, dst, src, r),
    {
        let ghost a = *self;
        let d = self.get_opnd(w, dst)?;
        let ghost m0 = *self;
        let s = self.read_loc(w, Loc::Mem(sg, o))?;
        let ghost m = *self;
        let c: u64 = if self.ac.core.rflags.is_carry() { 1 } else { 0 };
        let v = self.alu_apply(op, w, d, s, c)?;
        if op != AluOp::Cmp {
            self.set_opnd(w, dst, v)?;
        }
        proof {
            if a.reg_target(w, dst) is Some && a.pure_value(w, dst) is Some {
                assert(m0 == a);
                assert(a.pure_value(w, dst)->Some_0 == d);
                assert(Access::loads(a.ac, m.ac, sg, o, w.nbytes(), Ok(s)));
                crate::emulator::access::memory::lemma_loads_core_free(a.ac, m.ac, self.ac, sg, o, w.nbytes(), Ok(s));
                assert(Exec::mem_src_done(a, *self, w, sg, o, s,
                    alu_regs(op, a.ac.core.gpregs@, w, a.reg_target(w, dst)->Some_0, d, s, carry_in(a.ac.core.rflags)),
                    alu_flags(op, a.ac.core.rflags, w, d, s, carry_in(a.ac.core.rflags))));
            }
        }
        Ok(())
    }

    /// Sets the flags of ALU operation `op` and gives its result.
    fn alu_apply(&mut self, op: AluOp, w: Width, d: u64, s: u64, c: u64) -> (r: Result<u64, EmuException>)
        requires
            d < w.modulus(),
            s < w.modulus(),
            c <= 1,
        ensures
            r == Ok::<u64, EmuException>(alu_value(op, w, d, s, c)),
            alu_value(op, w, d, s, c) < w.modulus(),
            Exec::flags_become(*old(self), *final(self), alu_flags(op, old(self).ac.core.rflags, w, d, s, c)),
    {
        match op {
            AluOp::Add => {
                self.update_rflags_add(w, d, s)?;
                let (v, _) = wide_add(w, d, s);
                Ok(v)
            },
            AluOp::Or => {
                self.update_rflags_or(w, d, s)?;
                proof {
                    super::flag::lemma_or_bound(w, d, s);
                }
                Ok(d | s)
            },
            AluOp::Adc => {
                self.update_rflags_adc(w, d, s, c)?;
                let (v1, _) = wide_add(w, d, s);
                let (v, _) = wide_add(w, v1, c);
                Ok(v)
            },
            AluOp::Sbb => {
                self.update_rflags_sbb(w, d, s, c)?;
                let v1 = wide_sub(w, d, s);
                Ok(wide_sub(w, v1, c))
            },
            AluOp::And => {
                self.update_rflags_and(w, d, s)?;
                proof {
                    super::flag::lemma_and_bound(w, d, s);
                }
                Ok(d & s)
            },
            AluOp::Sub | AluOp::Cmp => {
                self.update_rflags_sub(w, d, s)?;
                Ok(wide_sub(w, d, s))
            },
            AluOp::Xor => {
                self.update_rflags_xor(w, d, s)?;
                proof {
                    super::flag::lemma_xor_bound(w, d, s);
                }
                Ok(d ^ s)
            },
        }
    }
}


/// `d` plus one (`inc`) or minus one, wrapping at width `w`.
pub open spec fn step_value(inc: bool, w: Width, d: u64) -> u64 {
    if inc { wadd(w, d, 1) } else { wsub(w, d, 1) }
}

/// Whether condition `c` holds of the flags `f`.
pub open spec fn cond_holds(f: RFlags, c: Cond) -> bool {
    match c {
        Cond::O => f.OF != 0,
        Cond::B => f.CF != 0,
        Cond::Z => f.ZF != 0,
        Cond::BE => f.CF != 0 || f.ZF != 0,
        Cond::S => f.SF != 0,
        Cond::P => f.PF != 0,
        Cond::L => (f.SF != 0) != (f.OF != 0),
        Cond::LE => f.ZF != 0 || ((f.SF != 0) != (f.OF != 0)),
    }
}

/// The `from`-wide `v` sign-extended to width `to`.
pub open spec fn sext(from: Width, to: Width, v: u64) -> u64 {
    if msb(from, v) && from.nbytes() < to.nbytes() { (v + (to.modulus() - from.modulus())) as u64 } else { v }
}

/// The `sw`-wide `s` extended to width `dw`, with its sign when `signed`, else with zeros.
pub open spec fn extended(signed: bool, dw: Width, sw: Width, s: u64) -> u64 {
    trunc(dw, if signed { sext(sw, dw, s) } else { s })
}

/// How many bytes of a descriptor table's base `lgdt` / `lidt` read with operand width `w`.
pub open spec fn table_base_bytes(w: Width) -> nat {
    if w == Width::W64 { 8 } else { 4 }
}

/// The base that `lgdt` / `lidt` load from the bytes `raw` read: 24 bits of it with a 16-bit
/// operand.
pub open spec fn table_base(w: Width, raw: u64) -> u64 {
    if w == Width::W64 || w == Width::W32 { raw } else { raw & 0xff_ffff }
}

/// The `w`-wide `d` complemented, or negated when `neg`.
pub open spec fn negated(neg: bool, w: Width, d: u64) -> u64 {
    if neg { wsub(w, 0, d) } else { (mask(w) - d) as u64 }
}

/// The flags after complementing (unchanged) or negating (those of `0 - d`) the `w`-wide `d`.
pub open spec fn negated_flags(neg: bool, f: RFlags, w: Width, d: u64) -> RFlags {
    if neg { sub_flags(f, w, 0, d) } else { f }
}

/// The largest value of width `w`.
pub open spec fn mask(w: Width) -> u64 {
    (w.modulus() - 1) as u64
}

impl Exec {
    /// Whether condition `c` holds.
    pub fn check_cond(&self, c: Cond) -> (b: bool)
        ensures
            b == cond_holds(self.ac.core.rflags, c),
    {
        let f = &self.ac.core.rflags;
        match c {
            Cond::O => f.is_overflow(),
            Cond::B => f.is_carry(),
            Cond::Z => f.is_zero(),
            Cond::BE => f.is_carry() || f.is_zero(),
            Cond::S => f.is_sign(),
            Cond::P => f.is_parity(),
            Cond::L => f.is_sign() != f.is_overflow(),
            Cond::LE => f.is_zero() || (f.is_sign() != f.is_overflow()),
        }
    }

    /// `b` runs the same instruction as `a` and is `a` after reading `s` from the `w`-wide
    /// memory operand at `sg:o`, the general registers becoming `regs` and the flags `f`.
    pub open spec fn mem_src_done(a: Exec, b: Exec, w: Width, sg: SgReg, o: u64, s: u64, regs: Seq<u64>, f: RFlags) -> bool {
        &&& Exec::same_instr(a, b)
        &&& Access::loads(a.ac, b.ac, sg, o, w.nbytes(), Ok(s))
        &&& b.ac.core.gpregs@ == regs
        &&& b.ac.core.rflags == f
        &&& b.ac.core.ip == a.ac.core.ip
        &&& b.ac.core.cregs == a.ac.core.cregs
        &&& b.ac.core.sgregs == a.ac.core.sgregs
        &&& b.ac.core.dtregs == a.ac.core.dtregs
        &&& b.ac.core.msr == a.ac.core.msr
    }

    /// `b` is `a` after reading `d` from the `w`-wide memory operand at `sg:o`, setting the
    /// flags to `f` and storing `v` there.
    pub open spec fn mem_rmw(a: Access, b: Access, w: Width, sg: SgReg, o: u64, d: u64, v: u64, f: RFlags) -> bool {
        exists|m: Access| #[trigger] Access::loads(a, m, sg, o, w.nbytes(), Ok(d))
            && m.core.rflags == f && a.core.same_but_rflags(m.core)
            && Access::stores(m, b, sg, o, v, w.nbytes(), Ok(())) && b.core == m.core
    }

    /// `b` is `a` after reading `d` from the `w`-wide memory operand at `sg:o` and setting
    /// the flags to `f`.
    pub open spec fn mem_read_flags(a: Access, b: Access, w: Width, sg: SgReg, o: u64, d: u64, f: RFlags) -> bool {
        Access::loads(a, b, sg, o, w.nbytes(), Ok(d)) && b.core.rflags == f && a.core.same_but_rflags(b.core)
    }

    /// What `test` promises: with register and immediate operands, or a memory operand and a
    /// register or immediate one, the flags of `dst & src`.
    pub open spec fn test_spec(a: Exec, b: Exec, w: Width, dst: Opnd, src: Opnd, r: Result<(), EmuException>) -> bool {
        &&& Exec::same_instr(a, b)
        &&& same_config(a.ac, b.ac)
        &&& a.pure_value(w, dst) matches Some(d) ==> a.pure_value(w, src) matches Some(s) ==> {
            &&& r is Ok
            &&& Exec::core_becomes(a, b, a.ac.core.gpregs@, logic_flags(a.ac.core.rflags, w, d & s))
        }
        &&& a.opnd_loc(w, dst) matches Some(Loc::Mem(sg, o)) ==> a.pure_value(w, src) matches Some(s) ==> r is Ok ==>
            exists|d: u64| #[trigger] Exec::mem_read_flags(a.ac, b.ac, w, sg, o, d, logic_flags(a.ac.core.rflags, w, d & s))
    }

    /// `test`: sets the flags of `dst & src`.
    pub fn test(&mut self, w: Width, dst: Opnd, src: Opnd) -> (r: Result<(), EmuException>)
        ensures
            Exec::test_spec(*old(self), *final(self), w, dst, src, r),
    {
        match self.opnd_location(w, dst) {
            Some(Loc::Mem(sg, o)) => self.test_mem(w, sg, o, src),
            _ => {
                let d = self.get_opnd(w, dst)?;
                let s = self.get_opnd(w, src)?;
                self.update_rflags_and(w, d, s)
            },
        }
    }

    /// `test` of the memory operand at `sg:o`.
    #[verifier::spinoff_prover]
    fn test_mem(&mut self, w: Width, sg: SgReg, o: u64, src: Opnd) -> (r: Result<(), EmuException>)
        ensures
            Exec::same_instr(*old(self), *final(self)),
            same_config(old(self).ac, final(self).ac),
            old(self).pure_value(w, src) matches Some(s) ==> r is Ok ==>
                exists|d: u64| #[trigger] Exec::mem_read_flags(old(self).ac, final(self).ac, w, sg, o, d,
                    logic_flags(old(self).ac.core.rflags, w, d & s)),
            exists|m: Access, v: Result<u64, EmuException>| #[trigger] Access::loads(old(self).ac, m, sg, o, w.nbytes(), v)
                && (v matches Err(e) ==> r == Err::<(), EmuException>(e) && final(self).ac == m)
                && (v is Ok && old(self).pure_value(w, src) is Some ==> r is Ok),
    {
        let ghost a = *self;
        let rv = self.read_loc(w, Loc::Mem(sg, o));
        proof {
            assert(Access::loads(a.ac, self.ac, sg, o, w.nbytes(), rv));
        }
        let d = rv?;
        let ghost m = *self;
        let s = self.get_opnd(w, src)?;
        let r = self.update_rflags_and(w, d, s);
        proof {
            if a.pure_value(w, src) is Some {
                assert(a.pure_value(w, src)->Some_0 == s);
                assert(Access::loads(a.ac, m.ac, sg, o, w.nbytes(), Ok(d)));
                crate::emulator::access::memory::lemma_loads_core_free(a.ac, m.ac, self.ac, sg, o, w.nbytes(), Ok(d));
                assert(Exec::mem_read_flags(a.ac, self.ac, w, sg, o, d, logic_flags(a.ac.core.rflags, w, d & s)));
            }
        }
        r
    }

    /// What `inc_dec` promises: a register or memory operand holds one more (less), wrapping,
    /// and the flags stay.
    pub open spec fn inc_dec_spec(a: Exec, b: Exec, inc: bool, w: Width, dst: Opnd, r: Result<(), EmuException>) -> bool {
        &&& Exec::same_instr(a, b)
        &&& same_config(a.ac, b.ac)
        &&& a.reg_target(w, dst) matches Some(l) ==> a.pure_value(w, dst) matches Some(d) ==> {
            &&& r is Ok
            &&& Exec::core_becomes(a, b,
                regs_after(a.ac.core.gpregs@, w, l, step_value(inc, w, d)),
                a.ac.core.rflags)
        }
        &&& a.opnd_loc(w, dst) matches Some(Loc::Mem(sg, o)) ==> r is Ok ==>
            exists|d: u64| #[trigger] Exec::mem_rmw(a.ac, b.ac, w, sg, o, d, step_value(inc, w, d), a.ac.core.rflags)
    }

    /// `inc` / `dec`: adds or subtracts one, wrapping; the flags are left alone.
    #[verifier::spinoff_prover]
    pub fn inc_dec(&mut self, inc: bool, w: Width, dst: Opnd) -> (r: Result<(), EmuException>)
        ensures
            Exec::inc_dec_spec(*old(self), *final(self), inc, w, dst, r),
    {
        let ghost a = *self;
        let d = self.get_opnd(w, dst)?;
        let ghost m = *self;
        let v = if inc {
            let (v, _) = wide_add(w, d, 1);
            v
        } else {
            wide_sub(w, d, 1)
        };
        self.set_opnd(w, dst, v)?;
        proof {
            if let Some(Loc::Mem(sg, o)) = a.opnd_loc(w, dst) {
                assert(m.ac.core == a.ac.core);
                assert(m.opnd_loc(w, dst) == a.opnd_loc(w, dst));
                assert(Access::loads(a.ac, m.ac, sg, o, w.nbytes(), Ok(d)));
                assert(Access::stores(m.ac, self.ac, sg, o, v, w.nbytes(), Ok(())));
                assert(v == step_value(inc, w, d));
                assert(Exec::mem_rmw(a.ac, self.ac, w, sg, o, d, step_value(inc, w, d), a.ac.core.rflags));
            }
        }
        Ok(())
    }

    /// What `mov` promises: with a register destination and a register or immediate source,
    /// the destination holds the source; a store to memory stores the source there; a load
    /// from memory puts what was read into the register; a segment register destination is
    /// loaded as `set_sreg` does.
    pub open spec fn mov_spec(a: Exec, b: Exec, w: Width, dst: Opnd, src: Opnd, r: Result<(), EmuException>) -> bool {
        &&& Exec::same_instr(a, b)
        &&& b.ac.mode == a.ac.mode
        &&& dst != Opnd::Sreg ==> same_config(a.ac, b.ac)
        &&& a.reg_target(w, dst) matches Some(l) ==> a.pure_value(w, src) matches Some(s) ==> {
            &&& r is Ok
            &&& Exec::core_becomes(a, b, regs_after(a.ac.core.gpregs@, w, l, s), a.ac.core.rflags)
        }
        &&& a.opnd_loc(w, dst) matches Some(Loc::Mem(sg, o)) ==> a.pure_value(w, src) matches Some(s) ==> {
            &&& Access::stores(a.ac, b.ac, sg, o, s, w.nbytes(), r)
            &&& b.ac.core == a.ac.core
        }
        &&& a.opnd_loc(w, src) matches Some(Loc::Mem(sg, o)) ==> a.reg_target(w, dst) matches Some(l) ==> r is Ok ==>
            exists|v: u64| #[trigger] Access::loads(a.ac, b.ac, sg, o, w.nbytes(), Ok(v))
                && b.ac.core.gpregs@ == regs_after(a.ac.core.gpregs@, w, l, v)
                && a.ac.core.same_but_gpregs(b.ac.core)
    }

    /// `mov`: copies the source into the destination.
    pub fn mov(&mut self, w: Width, dst: Opnd, src: Opnd) -> (r: Result<(), EmuException>)
        ensures
            Exec::mov_spec(*old(self), *final(self), w, dst, src, r),
    {
        let ghost a = *self;
        let s = self.get_opnd(w, src)?;
        if dst == Opnd::Sreg {
            self.set_sreg((s % 0x1_0000) as u16)
        } else {
            let r = self.set_opnd(w, dst, s);
            proof {
                reveal(Access::loads);
                if let Some(Loc::Mem(sg, o)) = a.opnd_loc(w, src) {
                    if r is Ok && a.reg_target(w, dst) is Some {
                        assert(Access::loads(a.ac, self.ac, sg, o, w.nbytes(), Ok(s)));
                    }
                }
            }
            r
        }
    }

    /// What `xchg` promises: with register operands, each holds what the other held; with a
    /// register `x` and a memory `y`, `x` takes what was read from `y`, then `x`'s old value is
    /// written to `y`, whose address is formed anew.
    pub open spec fn xchg_spec(a: Exec, b: Exec, w: Width, x: Opnd, y: Opnd, r: Result<(), EmuException>) -> bool {
        &&& Exec::same_instr(a, b)
        &&& same_config(a.ac, b.ac)
        &&& a.reg_target(w, x) matches Some(lx) ==> a.reg_target(w, y) matches Some(ly) ==> a.pure_value(w, x) matches Some(vx) ==> a.pure_value(w, y) matches Some(vy) ==> {
            &&& r is Ok
            &&& Exec::core_becomes(a, b, regs_after(regs_after(a.ac.core.gpregs@, w, lx, vy), w, ly, vx), a.ac.core.rflags)
        }
        &&& a.reg_target(w, x) matches Some(lx) ==> a.pure_value(w, x) matches Some(vx) ==> a.opnd_loc(w, y) matches Some(Loc::Mem(sg, o)) ==>
            r is Ok ==> exists|m: Exec, vy: u64| #[trigger] Access::loads(a.ac, m.ac, sg, o, w.nbytes(), Ok(vy))
                && Exec::same_instr(a, m)
                && m.ac.core.gpregs@ == regs_after(a.ac.core.gpregs@, w, lx, vy) && a.ac.core.same_but_gpregs(m.ac.core)
                && Exec::opnd_writes(m, b, w, y, vx, Ok(()))
    }

    /// `xchg`: swaps the two operands.
    #[verifier::spinoff_prover]
    pub fn xchg(&mut self, w: Width, x: Opnd, y: Opnd) -> (r: Result<(), EmuException>)
        ensures
            Exec::xchg_spec(*old(self), *final(self), w, x, y, r),
    {
        let ghost a = *self;
        let vx = self.get_opnd(w, x)?;
        let vy = self.get_opnd(w, y)?;
        let ghost m1 = *self;
        self.set_opnd(w, x, vy)?;
        let ghost m = *self;
        self.set_opnd(w, y, vx)?;
        proof {
            if let Some(Loc::Mem(sg, o)) = a.opnd_loc(w, y) {
                if a.reg_target(w, x) is Some && a.pure_value(w, x) is Some {
                    assert(Access::loads(a.ac, m1.ac, sg, o, w.nbytes(), Ok(vy)));
                    crate::emulator::access::memory::lemma_loads_core_free(a.ac, m1.ac, m.ac, sg, o, w.nbytes(), Ok(vy));
                    assert(Exec::opnd_writes(m, *self, w, y, vx, Ok(())));
                }
            }
        }
        Ok(())
    }

    /// What `lea` promises: the register holds the offset of the memory operand, cut to the
    /// operand width; a register operand is an error.
    pub open spec fn lea_spec(a: Exec, b: Exec, w: Width, r: Result<(), EmuException>) -> bool {
        &&& Exec::same_instr(a, b)
        &&& same_config(a.ac, b.ac)
        &&& match a.modrm_addr() {
            Err(e) => r == Err::<(), EmuException>(e) && b == a,
            Ok((_, o)) => a.reg_target(w, Opnd::R) matches Some(l) ==> r is Ok
                && Exec::core_becomes(a, b, regs_after(a.ac.core.gpregs@, w, l, trunc(w, o)), a.ac.core.rflags),
        }
    }

    /// `lea`: loads the offset of the memory operand.
    pub fn lea(&mut self, w: Width) -> (r: Result<(), EmuException>)
        ensures
            Exec::lea_spec(*old(self), *final(self), w, r),
    {
        let (_, o) = self.get_m()?;
        let v = truncate(w, o);
        self.set_opnd(w, Opnd::R, v)
    }

    /// What `sign_extend_acc` promises: the accumulator of width `w` holds the sign-extended
    /// half below it (AL to AX, AX to EAX, EAX to RAX).
    pub open spec fn sign_extend_acc_spec(a: Exec, b: Exec, w: Width, r: Result<(), EmuException>) -> bool {
        let from = half_width(w);
        let v = trunc(from, a.ac.core.gpregs@[0]);
        &&& r is Ok
        &&& Exec::core_becomes(a, b, regs_after(a.ac.core.gpregs@, w, Loc::Reg(0), sext(from, w, v)), a.ac.core.rflags)
    }

    /// `cbw` / `cwde` / `cdqe`.
    pub fn sign_extend_acc(&mut self, w: Width) -> (r: Result<(), EmuException>)
        ensures
            Exec::sign_extend_acc_spec(*old(self), *final(self), w, r),
    {
        proof {
            self.ac.core.gpregs.lemma_wf();
        }
        let from = half_of(w);
        let v = self.reg_read(from, Loc::Reg(0))?;
        let x = sign_extend(from, w, v);
        self.write_loc(w, Loc::Reg(0), x)
    }

    /// What `sign_to_dx` promises: the data register of width `w` holds all ones when the
    /// accumulator is negative, else zero.
    pub open spec fn sign_to_dx_spec(a: Exec, b: Exec, w: Width, r: Result<(), EmuException>) -> bool {
        let v = trunc(w, a.ac.core.gpregs@[0]);
        &&& r is Ok
        &&& Exec::core_becomes(a, b, regs_after(a.ac.core.gpregs@, w, Loc::Reg(2), if msb(w, v) { mask(w) } else { 0 }), a.ac.core.rflags)
    }

    /// `cwd` / `cdq` / `cqo`.
    pub fn sign_to_dx(&mut self, w: Width) -> (r: Result<(), EmuException>)
        ensures
            Exec::sign_to_dx_spec(*old(self), *final(self), w, r),
    {
        proof {
            self.ac.core.gpregs.lemma_wf();
        }
        let v = self.reg_read(w, Loc::Reg(0))?;
        let x = if Self::check_msb(w, v) { mask_of(w) } else { 0 };
        self.write_loc(w, Loc::Reg(2), x)
    }

    /// What `imul2` promises: with a register or memory source, the register holds the
    /// product cut to the width, with the flags of an unsigned multiplication.
    pub open spec fn imul2_spec(a: Exec, b: Exec, w: Width, r: Result<(), EmuException>) -> bool {
        &&& Exec::same_instr(a, b)
        &&& same_config(a.ac, b.ac)
        &&& a.reg_target(w, Opnd::R) matches Some(l) ==> a.pure_value(w, Opnd::R) matches Some(d) ==> a.pure_value(w, Opnd::RM) matches Some(s) ==> {
            &&& r is Ok
            &&& Exec::core_becomes(a, b, regs_after(a.ac.core.gpregs@, w, l, ((d * s) as nat % w.modulus()) as u64),
                mul_flags(a.ac.core.rflags, w, d, s))
        }
        &&& a.reg_target(w, Opnd::R) matches Some(l) ==> a.pure_value(w, Opnd::R) matches Some(d) ==> a.opnd_loc(w, Opnd::RM) matches Some(Loc::Mem(sg, o)) ==>
            r is Ok ==> exists|s: u64| #[trigger] Exec::mem_src_done(a, b, w, sg, o, s,
                regs_after(a.ac.core.gpregs@, w, l, ((d * s) as nat % w.modulus()) as u64), mul_flags(a.ac.core.rflags, w, d, s))
    }

    /// `imul r, r/m`.
    #[verifier::spinoff_prover]
    pub fn imul2(&mut self, w: Width) -> (r: Result<(), EmuException>)
        ensures
            Exec::imul2_spec(*old(self), *final(self), w, r),
    {
        let ghost a = *self;
        let d = self.get_opnd(w, Opnd::R)?;
        let ghost m0 = *self;
        let s = self.get_opnd(w, Opnd::RM)?;
        let ghost m = *self;
        self.update_rflags_mul(w, d, s)?;
        let v = wide_mul(w, d, s);
        self.set_opnd(w, Opnd::R, v)?;
        proof {
            if let Some(Loc::Mem(sg, o)) = a.opnd_loc(w, Opnd::RM) {
                if a.reg_target(w, Opnd::R) is Some && a.pure_value(w, Opnd::R) is Some {
                    assert(m0 == a);
                    assert(a.pure_value(w, Opnd::R)->Some_0 == d);
                    assert(Access::loads(a.ac, m.ac, sg, o, w.nbytes(), Ok(s)));
                    crate::emulator::access::memory::lemma_loads_core_free(a.ac, m.ac, self.ac, sg, o, w.nbytes(), Ok(s));
                    assert(Exec::mem_src_done(*old(self), *self, w, sg, o, s,
                        regs_after(a.ac.core.gpregs@, w, a.reg_target(w, Opnd::R)->Some_0, ((d * s) as nat % w.modulus()) as u64),
                        mul_flags(a.ac.core.rflags, w, d, s)));
                }
            }
        }
        Ok(())
    }

    /// What `imul3` promises: with a register or memory source, the register holds the product
    /// of the source and the immediate, with the flags of a signed multiplication.
    pub open spec fn imul3_spec(a: Exec, b: Exec, w: Width, src2: Opnd, r: Result<(), EmuException>) -> bool {
        &&& Exec::same_instr(a, b)
        &&& same_config(a.ac, b.ac)
        &&& a.reg_target(w, Opnd::R) matches Some(l) ==> a.pure_value(w, Opnd::RM) matches Some(s1) ==> a.pure_value(w, src2) matches Some(s2) ==> {
            &&& r is Ok
            &&& Exec::core_becomes(a, b, regs_after(a.ac.core.gpregs@, w, l, ((s1 * s2) as nat % w.modulus()) as u64),
                imul_flags(a.ac.core.rflags, w, s1, s2))
        }
        &&& a.reg_target(w, Opnd::R) matches Some(l) ==> a.opnd_loc(w, Opnd::RM) matches Some(Loc::Mem(sg, o)) ==> a.pure_value(w, src2) matches Some(s2) ==>
            r is Ok ==> exists|s1: u64| #[trigger] Exec::mem_src_done(a, b, w, sg, o, s1,
                regs_after(a.ac.core.gpregs@, w, l, ((s1 * s2) as nat % w.modulus()) as u64), imul_flags(a.ac.core.rflags, w, s1, s2))
    }

    /// `imul r, r/m, imm`.
    #[verifier::spinoff_prover]
    pub fn imul3(&mut self, w: Width, src2: Opnd) -> (r: Result<(), EmuException>)
        ensures
            Exec::imul3_spec(*old(self), *final(self), w, src2, r),
    {
        let ghost a = *self;
        let s1 = self.get_opnd(w, Opnd::RM)?;
        let ghost m = *self;
        let s2 = self.get_opnd(w, src2)?;
        self.update_rflags_imul(w, s1, s2)?;
        let v = wide_mul(w, s1, s2);
        self.set_opnd(w, Opnd::R, v)?;
        proof {
            if let Some(Loc::Mem(sg, o)) = a.opnd_loc(w, Opnd::RM) {
                if a.reg_target(w, Opnd::R) is Some && a.pure_value(w, src2) is Some {
                    assert(a.pure_value(w, src2)->Some_0 == s2);
                    assert(Access::loads(a.ac, m.ac, sg, o, w.nbytes(), Ok(s1)));
                    crate::emulator::access::memory::lemma_loads_core_free(a.ac, m.ac, self.ac, sg, o, w.nbytes(), Ok(s1));
                    assert(Exec::mem_src_done(*old(self), *self, w, sg, o, s1,
                        regs_after(a.ac.core.gpregs@, w, a.reg_target(w, Opnd::R)->Some_0, ((s1 * s2) as nat % w.modulus()) as u64),
                        imul_flags(a.ac.core.rflags, w, s1, s2)));
                }
            }
        }
        Ok(())
    }

    /// What `movx` promises: with a register or memory source, the register of width `dw`
    /// holds the source of width `sw`, zero- or sign-extended.
    pub open spec fn movx_spec(a: Exec, b: Exec, signed: bool, dw: Width, sw: Width, r: Result<(), EmuException>) -> bool {
        &&& Exec::same_instr(a, b)
        &&& same_config(a.ac, b.ac)
        &&& a.reg_target(dw, Opnd::R) matches Some(l) ==> a.pure_value(sw, Opnd::RM) matches Some(s) ==> {
            &&& r is Ok
            &&& Exec::core_becomes(a, b, regs_after(a.ac.core.gpregs@, dw, l, extended(signed, dw, sw, s)), a.ac.core.rflags)
        }
        &&& a.reg_target(dw, Opnd::R) matches Some(l) ==> a.opnd_loc(sw, Opnd::RM) matches Some(Loc::Mem(sg, o)) ==>
            r is Ok ==> exists|s: u64| #[trigger] Exec::mem_src_done(a, b, sw, sg, o, s,
                regs_after(a.ac.core.gpregs@, dw, l, extended(signed, dw, sw, s)), a.ac.core.rflags)
    }

    /// `movzx` / `movsx`.
    #[verifier::spinoff_prover]
    pub fn movx(&mut self, signed: bool, dw: Width, sw: Width) -> (r: Result<(), EmuException>)
        ensures
            Exec::movx_spec(*old(self), *final(self), signed, dw, sw, r),
    {
        let ghost a = *self;
        let s = self.get_opnd(sw, Opnd::RM)?;
        let ghost m = *self;
        let x = if signed { sign_extend(sw, dw, s) } else { s };
        let v = truncate(dw, x);
        self.set_opnd(dw, Opnd::R, v)?;
        proof {
            if let Some(Loc::Mem(sg, o)) = a.opnd_loc(sw, Opnd::RM) {
                if a.reg_target(dw, Opnd::R) is Some {
                    assert(Access::loads(a.ac, m.ac, sg, o, sw.nbytes(), Ok(s)));
                    crate::emulator::access::memory::lemma_loads_core_free(a.ac, m.ac, self.ac, sg, o, sw.nbytes(), Ok(s));
                    assert(Exec::mem_src_done(*old(self), *self, sw, sg, o, s,
                        regs_after(a.ac.core.gpregs@, dw, a.reg_target(dw, Opnd::R)->Some_0, extended(signed, dw, sw, s)),
                        a.ac.core.rflags));
                }
            }
        }
        Ok(())
    }

    /// What `setcc` promises: the register or memory byte holds whether the condition
    /// (negated when `neg`) holds.
    pub open spec fn setcc_spec(a: Exec, b: Exec, c: Cond, neg: bool, r: Result<(), EmuException>) -> bool {
        &&& Exec::same_instr(a, b)
        &&& same_config(a.ac, b.ac)
        &&& a.reg_target(Width::W8, Opnd::RM) matches Some(l) ==> {
            &&& r is Ok
            &&& Exec::core_becomes(a, b,
                regs_after(a.ac.core.gpregs@, Width::W8, l, b2u(cond_holds(a.ac.core.rflags, c) != neg) as u64),
                a.ac.core.rflags)
        }
        &&& a.opnd_loc(Width::W8, Opnd::RM) matches Some(Loc::Mem(sg, o)) ==>
            Access::stores(a.ac, b.ac, sg, o, b2u(cond_holds(a.ac.core.rflags, c) != neg) as u64, 1, r)
                && b.ac.core == a.ac.core
    }

    /// `setcc`.
    pub fn setcc(&mut self, c: Cond, neg: bool) -> (r: Result<(), EmuException>)
        ensures
            Exec::setcc_spec(*old(self), *final(self), c, neg, r),
    {
        let b = self.check_cond(c) != neg;
        self.set_opnd(Width::W8, Opnd::RM, if b { 1 } else { 0 })
    }

    /// The relative displacement of width `w` in the immediate, sign-extended.
    pub open spec fn rel_of(self, w: Width) -> Option<i64> {
        match self.idata.imm {
            Some(v) => Some(super::flag::signed(w, trunc(w, v)) as i64),
            None => None,
        }
    }

    /// What `jump_rel` promises: when taken, the instruction pointer moves by the displacement;
    /// otherwise nothing changes.
    pub open spec fn jump_rel_spec(a: Exec, b: Exec, taken: bool, w: Width, r: Result<(), EmuException>) -> bool {
        if !taken {
            r is Ok && b == a
        } else {
            match a.rel_of(w) {
                Some(d) => r is Ok && Exec::same_instr(a, b) && crate::emulator::access::Access::ip_becomes(a.ac, b.ac,
                    vstd::wrapping::u64_specs::wrapping_add_signed(a.ac.core.ip.0, d)),
                None => r == Err::<(), EmuException>(EmuException::UnexpectedError) && b == a,
            }
        }
    }

    /// A relative jump by the immediate of width `w`, when `taken`.
    pub fn jump_rel(&mut self, taken: bool, w: Width) -> (r: Result<(), EmuException>)
        ensures
            Exec::jump_rel_spec(*old(self), *final(self), taken, w, r),
    {
        if !taken {
            return Ok(());
        }
        let rel = match self.idata.imm {
            Some(v) => super::flag::to_signed(w, truncate(w, v)),
            None => return Err(EmuException::UnexpectedError),
        };
        self.ac.update_ip(rel)
    }
}

/// The width of half of `w`; a byte is its own half.
pub open spec fn half_width(w: Width) -> Width {
    match w {
        Width::W64 => Width::W32,
        Width::W32 => Width::W16,
        _ => Width::W8,
    }
}

fn half_of(w: Width) -> (h: Width)
    ensures
        h == half_width(w),
{
    match w {
        Width::W64 => Width::W32,
        Width::W32 => Width::W16,
        _ => Width::W8,
    }
}

fn mask_of(w: Width) -> (m: u64)
    ensures
        m == mask(w),
        m < w.modulus(),
{
    match w {
        Width::W8 => 0xff,
        Width::W16 => 0xffff,
        Width::W32 => 0xffff_ffff,
        Width::W64 => 0xffff_ffff_ffff_ffff,
    }
}

/// Sign-extends the `from`-wide `v` to width `to`.
pub fn sign_extend(from: Width, to: Width, v: u64) -> (x: u64)
    requires
        v < from.modulus(),
    ensures
        x == sext(from, to, v),
        x < to.modulus() || from.nbytes() >= to.nbytes(),
{
    if Exec::check_msb(from, v) && from.bytes() < to.bytes() {
        let m = mask_of(to) - mask_of(from);
        v + m
    } else {
        v
    }
}


/// The result of shift operation `k` (4: left, 5: logical right, 6: left, 7: arithmetic
/// right) of the `w`-wide `d` by `c`.
pub open spec fn shift_value(k: u8, w: Width, d: u64, c: u32) -> u64 {
    if k == 7 {
        trunc(w, wsar(w, d, c) as u64)
    } else if k == 5 {
        wshr(w, d, c)
    } else {
        wshl(w, d, c)
    }
}

/// The flags after shift operation `k`.
pub open spec fn shift_flags(k: u8, f: RFlags, w: Width, d: u64, c: u32) -> RFlags {
    if k == 7 {
        sar_flags(f, w, d, c)
    } else if k == 5 {
        shr_flags(f, w, d, c)
    } else {
        shl_flags(f, w, d, c)
    }
}

impl Exec {
    /// `b` runs the same instruction as `a` in the same processor mode.
    pub open spec fn keeps_mode(a: Exec, b: Exec) -> bool {
        Exec::same_instr(a, b) && b.ac.mode == a.ac.mode
    }

    /// `b` differs from `a` only in the general registers `regs`, the flags `f` and the
    /// instruction pointer `ip`.
    pub open spec fn core_becomes_ip(a: Exec, b: Exec, regs: Seq<u64>, f: RFlags, ip: u64) -> bool {
        &&& Exec::same_instr(a, b)
        &&& same_but_core(a.ac, b.ac)
        &&& b.ac.core.gpregs@ == regs
        &&& b.ac.core.rflags == f
        &&& b.ac.core.ip.0 == ip
        &&& b.ac.core.cregs == a.ac.core.cregs
        &&& b.ac.core.sgregs == a.ac.core.sgregs
        &&& b.ac.core.dtregs == a.ac.core.dtregs
        &&& b.ac.core.msr == a.ac.core.msr
    }

    /// What `alu_group` promises: the operation that the ModR/M reg field names, on the r/m
    /// operand and `src`.
    pub open spec fn alu_group_spec(a: Exec, b: Exec, w: Width, src: Opnd, r: Result<(), EmuException>) -> bool {
        match alu_op_of(a.idata.modrm.reg) {
            Some(op) => Exec::alu_spec(a, b, op, w, Opnd::RM, src, r),
            None => r == Err::<(), EmuException>(EmuException::UnexpectedError) && b == a,
        }
    }

    /// Opcodes 0x80..0x83: the ALU operation that the ModR/M reg field names.
    pub fn alu_group(&mut self, w: Width, src: Opnd) -> (r: Result<(), EmuException>)
        ensures
            Exec::alu_group_spec(*old(self), *final(self), w, src, r),
    {
        match alu_op(self.idata.modrm.reg) {
            Some(op) => self.alu(op, w, Opnd::RM, src),
            None => Err(EmuException::UnexpectedError),
        }
    }

    /// What `shift_group` promises: a shift of the r/m operand by the count `cnt` (shl, shr,
    /// sal, sar for reg 4..7); the rotations are not implemented.
    pub open spec fn shift_group_spec(a: Exec, b: Exec, w: Width, cnt: Opnd, r: Result<(), EmuException>) -> bool {
        let k = a.idata.modrm.reg;
        &&& Exec::same_instr(a, b)
        &&& same_config(a.ac, b.ac)
        &&& !(4 <= k <= 7) ==> r == Err::<(), EmuException>(EmuException::UnexpectedError) && b == a
        &&& 4 <= k <= 7 ==> (a.reg_target(w, Opnd::RM) matches Some(l) ==> a.pure_value(w, Opnd::RM) matches Some(d) ==> a.pure_value(Width::W8, cnt) matches Some(c) ==> {
            &&& r is Ok
            &&& Exec::core_becomes(a, b, regs_after(a.ac.core.gpregs@, w, l, shift_value(k, w, d, c as u32)),
                shift_flags(k, a.ac.core.rflags, w, d, c as u32))
        })
        &&& 4 <= k <= 7 ==> (a.opnd_loc(w, Opnd::RM) matches Some(Loc::Mem(sg, o)) ==> a.pure_value(Width::W8, cnt) matches Some(c) ==>
            r is Ok ==> exists|d: u64| #[trigger] Exec::mem_rmw(a.ac, b.ac, w, sg, o, d, shift_value(k, w, d, c as u32),
                shift_flags(k, a.ac.core.rflags, w, d, c as u32)))
    }

    /// Opcodes 0xc1 and 0xd3: the shift that the ModR/M reg field names.
    #[verifier::spinoff_prover]
    #[verifier::rlimit(30)]
    pub fn shift_group(&mut self, w: Width, cnt: Opnd) -> (r: Result<(), EmuException>)
        ensures
            Exec::shift_group_spec(*old(self), *final(self), w, cnt, r),
    {
        let k = self.idata.modrm.reg;
        if k < 4 || k > 7 {
            return Err(EmuException::UnexpectedError);
        }
        let ghost a = *self;
        let d = self.get_opnd(w, Opnd::RM)?;
        let ghost m = *self;
        let c8 = self.get_opnd(Width::W8, cnt)?;
        let c = c8 as u32;
        let v = if k == 7 {
            self.update_rflags_sar(w, d, c)?;
            let x = super::flag::shift_arith(w, d, c);
            truncate(w, x as u64)
        } else if k == 5 {
            self.update_rflags_shr(w, d, c)?;
            super::flag::shift_right(w, d, c)
        } else {
            self.update_rflags_shl(w, d, c)?;
            super::flag::shift_left(w, d, c)
        };
        let ghost m2 = *self;
        self.set_opnd(w, Opnd::RM, v)?;
        proof {
            if let Some(Loc::Mem(sg, o)) = a.opnd_loc(w, Opnd::RM) {
                if a.pure_value(Width::W8, cnt) is Some {
                    assert(a.pure_value(Width::W8, cnt)->Some_0 == c8);
                    assert(Access::loads(a.ac, m.ac, sg, o, w.nbytes(), Ok(d)));
                    crate::emulator::access::memory::lemma_loads_core_free(a.ac, m.ac, m2.ac, sg, o, w.nbytes(), Ok(d));
                    assert(m2.opnd_loc(w, Opnd::RM) == a.opnd_loc(w, Opnd::RM));
                    assert(Access::stores(m2.ac, self.ac, sg, o, v, w.nbytes(), Ok(())));
                    assert(v == shift_value(k, w, d, c));
                    assert(Exec::mem_rmw(a.ac, self.ac, w, sg, o, d, shift_value(k, w, d, c8 as u32),
                        shift_flags(k, a.ac.core.rflags, w, d, c8 as u32)));
                }
            }
        }
        Ok(())
    }

    /// What `group_f7` promises. reg 0 tests the r/m operand against the immediate; 2 (not)
    /// and 3 (neg) change it, with register operands as stated; 4..7 multiply and divide
    /// into the data and accumulator registers (`mul_state`, `div_regs`), a zero divisor
    /// being a divide error; 1 is an error. But for the test, the instruction pointer moves back over the immediate, which
    /// these instructions do not have.
    pub open spec fn group_f7_spec(a: Exec, b: Exec, w: Width, r: Result<(), EmuException>) -> bool {
        let k = a.idata.modrm.reg;
        let back = vstd::wrapping::u64_specs::wrapping_add_signed(a.ac.core.ip.0, -(w.nbytes() as int) as i64);
        &&& Exec::same_instr(a, b)
        &&& same_config(a.ac, b.ac)
        &&& (k == 1 || k > 7) ==> r == Err::<(), EmuException>(EmuException::UnexpectedError) && b == a
        &&& k == 0 ==> Exec::test_spec(a, b, w, Opnd::RM, Opnd::Imm(w), r)
        &&& k == 2 ==> (a.reg_target(w, Opnd::RM) matches Some(l) ==> a.pure_value(w, Opnd::RM) matches Some(d) ==> {
            &&& r is Ok
            &&& Exec::core_becomes_ip(a, b, regs_after(a.ac.core.gpregs@, w, l, (mask(w) - d) as u64), a.ac.core.rflags, back)
        })
        &&& k == 3 ==> (a.reg_target(w, Opnd::RM) matches Some(l) ==> a.pure_value(w, Opnd::RM) matches Some(d) ==> {
            &&& r is Ok
            &&& Exec::core_becomes_ip(a, b, regs_after(a.ac.core.gpregs@, w, l, wsub(w, 0, d)),
                sub_flags(a.ac.core.rflags, w, 0, d), back)
        })
        &&& (k == 4 || k == 5) ==> (a.pure_value(w, Opnd::RM) matches Some(s) ==> {
            &&& r is Ok
            &&& Exec::core_becomes_ip(a, b, Exec::mul_state(a, w, k == 5, s).0, Exec::mul_state(a, w, k == 5, s).1, back)
        })
        &&& (k == 6 || k == 7) ==> (a.pure_value(w, Opnd::RM) matches Some(s) ==> if s == 0 {
            r == Err::<(), EmuException>(EmuException::CPUException(CPUException::DE)) && b == a
        } else {
            r is Ok && Exec::core_becomes_ip(a, b, Exec::div_regs(a, w, k == 7, s), a.ac.core.rflags, back)
        })
        &&& a.opnd_loc(w, Opnd::RM) matches Some(Loc::Mem(sg, o)) ==> r is Ok ==>
            Exec::f7_mem_done(a, b, w, k, k == 3 || k == 5 || k == 7, sg, o, back)
    }

    /// What `group_f7` promises with the memory operand at `sg:o`, for operation `k` (`hi`:
    /// the signed or negating one of each pair): not / neg store the result; the
    /// multiplications and divisions read the operand; then the instruction pointer becomes
    /// `back`.
    pub open spec fn f7_mem_done(a: Exec, b: Exec, w: Width, k: u8, hi: bool, sg: SgReg, o: u64, back: u64) -> bool {
        &&& (k == 2 || k == 3) ==> exists|m: Exec, d: u64| #[trigger] Exec::mem_rmw(a.ac, m.ac, w, sg, o, d,
            negated(hi, w, d), negated_flags(hi, a.ac.core.rflags, w, d)) && Exec::ip_moved(m, b, back)
        &&& (k == 4 || k == 5) ==> exists|m: Exec, s: u64| #[trigger] Exec::mem_src_done(a, m, w, sg, o, s,
            Exec::mul_state(a, w, hi, s).0, Exec::mul_state(a, w, hi, s).1) && Exec::ip_moved(m, b, back)
        &&& (k == 6 || k == 7) ==> exists|m: Exec, s: u64| #[trigger] Exec::mem_src_done(a, m, w, sg, o, s,
            Exec::div_regs(a, w, hi, s), a.ac.core.rflags) && s != 0 && Exec::ip_moved(m, b, back)
    }

    /// `b` runs the same instruction as `m` and differs from it only in the instruction
    /// pointer, which it holds as `ip`.
    pub open spec fn ip_moved(m: Exec, b: Exec, ip: u64) -> bool {
        Exec::same_instr(m, b) && Access::ip_becomes(m.ac, b.ac, ip)
    }

    /// What `not_neg` promises: the register or memory operand holds its complement (`neg`: its
    /// negation, with the flags of `0 - d`).
    pub open spec fn not_neg_done(a: Exec, b: Exec, w: Width, neg: bool, r: Result<(), EmuException>) -> bool {
        &&& Exec::same_instr(a, b)
        &&& same_config(a.ac, b.ac)
        &&& a.reg_target(w, Opnd::RM) matches Some(l) ==> a.pure_value(w, Opnd::RM) matches Some(d) ==> {
            &&& r is Ok
            &&& Exec::core_becomes(a, b, regs_after(a.ac.core.gpregs@, w, l, negated(neg, w, d)),
                negated_flags(neg, a.ac.core.rflags, w, d))
        }
        &&& a.opnd_loc(w, Opnd::RM) matches Some(Loc::Mem(sg, o)) ==> r is Ok ==>
            exists|d: u64| #[trigger] Exec::mem_rmw(a.ac, b.ac, w, sg, o, d, negated(neg, w, d), negated_flags(neg, a.ac.core.rflags, w, d))
    }

    /// `not` (`neg` false) or `neg` of the r/m operand.
    #[verifier::spinoff_prover]
    fn not_neg(&mut self, w: Width, neg: bool) -> (r: Result<(), EmuException>)
        ensures
            Exec::not_neg_done(*old(self), *final(self), w, neg, r),
    {
        let ghost a = *self;
        let d = self.get_opnd(w, Opnd::RM)?;
        let ghost m = *self;
        let v = if neg {
            self.update_rflags_sub(w, 0, d)?;
            wide_sub(w, 0, d)
        } else {
            mask_of(w) - d
        };
        let ghost m2 = *self;
        self.set_opnd(w, Opnd::RM, v)?;
        proof {
            if let Some(Loc::Mem(sg, o)) = a.opnd_loc(w, Opnd::RM) {
                assert(Access::loads(a.ac, m.ac, sg, o, w.nbytes(), Ok(d)));
                crate::emulator::access::memory::lemma_loads_core_free(a.ac, m.ac, m2.ac, sg, o, w.nbytes(), Ok(d));
                assert(m2.opnd_loc(w, Opnd::RM) == a.opnd_loc(w, Opnd::RM));
                assert(Access::stores(m2.ac, self.ac, sg, o, v, w.nbytes(), Ok(())));
                assert(v == negated(neg, w, d));
                assert(Exec::mem_rmw(a.ac, self.ac, w, sg, o, d, negated(neg, w, d), negated_flags(neg, a.ac.core.rflags, w, d)));
            }
        }
        Ok(())
    }

    /// Opcode 0xf7: test, not, neg, mul, imul, div, idiv of the r/m operand.
    #[verifier::spinoff_prover]
    pub fn group_f7(&mut self, w: Width) -> (r: Result<(), EmuException>)
        ensures
            Exec::group_f7_spec(*old(self), *final(self), w, r),
    {
        let k = self.idata.modrm.reg;
        if k == 0 {
            return self.test(w, Opnd::RM, Opnd::Imm(w));
        }
        if k == 1 || k > 7 {
            return Err(EmuException::UnexpectedError);
        }
        let ghost a = *self;
        let hi = k == 3 || k == 5 || k == 7;
        if k == 2 || k == 3 {
            self.not_neg(w, hi)?;
        } else if k == 4 || k == 5 {
            self.mul_wide(w, hi)?;
        } else {
            self.div_wide(w, hi)?;
        }
        let ghost m = *self;
        let back = -(w.bytes() as i64);
        let r = self.ac.update_ip(back);
        proof {
            let ip = vstd::wrapping::u64_specs::wrapping_add_signed(a.ac.core.ip.0, -(w.nbytes() as int) as i64);
            assert(Exec::ip_moved(m, *self, vstd::wrapping::u64_specs::wrapping_add_signed(m.ac.core.ip.0, back)));
            if let Some(Loc::Mem(sg, o)) = a.opnd_loc(w, Opnd::RM) {
                let hi = k == 3 || k == 5 || k == 7;
                if k == 2 || k == 3 {
                    let d = choose|d: u64| #[trigger] Exec::mem_rmw(a.ac, m.ac, w, sg, o, d,
                        negated(hi, w, d), negated_flags(hi, a.ac.core.rflags, w, d));
                    assert(Exec::mem_rmw(a.ac, m.ac, w, sg, o, d, negated(hi, w, d), negated_flags(hi, a.ac.core.rflags, w, d)));
                } else if k == 4 || k == 5 {
                    let s = choose|s: u64| #[trigger] Exec::mem_src_done(a, m, w, sg, o, s,
                        Exec::mul_state(a, w, hi, s).0, Exec::mul_state(a, w, hi, s).1);
                    assert(Exec::mem_src_done(a, m, w, sg, o, s, Exec::mul_state(a, w, hi, s).0, Exec::mul_state(a, w, hi, s).1));
                } else {
                    let s = choose|s: u64| #[trigger] Exec::mem_src_done(a, m, w, sg, o, s,
                        Exec::div_regs(a, w, hi, s), a.ac.core.rflags) && s != 0;
                    assert(Exec::mem_src_done(a, m, w, sg, o, s, Exec::div_regs(a, w, hi, s), a.ac.core.rflags));
                }
                assert(m.ac.core.ip == a.ac.core.ip);
                assert(Exec::f7_mem_done(a, *self, w, k, hi, sg, o, ip));
            }
        }
        r
    }

    /// The general registers and flags after a one-operand multiplication by `s`: the data
    /// and accumulator registers hold the upper and lower halves of `wide_product`, and the
    /// flags are those of the data register times the operand.
    pub open spec fn mul_state(a: Exec, w: Width, sgn: bool, s: u64) -> (Seq<u64>, RFlags) {
        let regs = a.ac.core.gpregs@;
        let h = trunc(w, regs[2]);
        let p = wide_product(w, sgn, h, trunc(w, regs[0]), s);
        (regs_after(regs_after(regs, w, Loc::Reg(2), high_half(w, p)), w, Loc::Reg(0), low_half(w, p)),
            if sgn { imul_flags(a.ac.core.rflags, w, h, s) } else { mul_flags(a.ac.core.rflags, w, h, s) })
    }

    /// What a one-operand multiplication promises: the registers and flags of `mul_state`,
    /// with the operand in a register or immediate, or as read from memory.
    pub open spec fn mul_done(a: Exec, b: Exec, w: Width, sgn: bool, r: Result<(), EmuException>) -> bool {
        &&& a.pure_value(w, Opnd::RM) matches Some(s) ==>
            r is Ok && Exec::core_becomes(a, b, Exec::mul_state(a, w, sgn, s).0, Exec::mul_state(a, w, sgn, s).1)
        &&& a.opnd_loc(w, Opnd::RM) matches Some(Loc::Mem(sg, o)) ==> r is Ok ==>
            exists|s: u64| #[trigger] Exec::mem_src_done(a, b, w, sg, o, s, Exec::mul_state(a, w, sgn, s).0, Exec::mul_state(a, w, sgn, s).1)
    }

    /// The full product of the data:accumulator pair and the r/m operand (signed when
    /// `signed`), high half into the data register, low half into the accumulator; the
    /// flags are those of the high half times the operand.
    #[verifier::spinoff_prover]
    fn mul_wide(&mut self, w: Width, sgn: bool) -> (r: Result<(), EmuException>)
        ensures
            Exec::same_instr(*old(self), *final(self)),
            same_config(old(self).ac, final(self).ac),
            Exec::mul_done(*old(self), *final(self), w, sgn, r),
    {
        proof {
            self.ac.core.gpregs.lemma_wf();
        }
        let ghost a0 = *self;
        let h = self.read_loc(w, Loc::Reg(2))?;
        let l = self.read_loc(w, Loc::Reg(0))?;
        let s = self.get_opnd(w, Opnd::RM)?;
        let ghost ms = *self;
        if sgn {
            self.update_rflags_imul(w, h, s)?;
        } else {
            self.update_rflags_mul(w, h, s)?;
        }
        let m: u128 = modulus_of(w);
        let (x, y): (u128, u128) = if sgn {
            let hh: u128 = if Self::check_msb(w, l) { (h as u128 + m - 1) % m } else { h as u128 };
            let yy: u128 = if Self::check_msb(w, s) { s as u128 + sign_fill(w) } else { s as u128 };
            (hh, yy)
        } else {
            (h as u128, s as u128)
        };
        proof {
            assert(x * m + l < 0x1_0000_0000_0000_0000_0000_0000_0000_0000) by (nonlinear_arith)
                requires
                    x < m,
                    l < m,
                    m <= 0x1_0000_0000_0000_0000,
            ;
        }
        let src1: u128 = x * m + l as u128;
        let v: u128 = src1.wrapping_mul(y);
        let hi = ((v / m) % m) as u64;
        let lo = (v % m) as u64;
        proof {
            let mm = span(w);
            let p = wide_product(w, sgn, h, l, s);
            let sp: int = if sgn { signed(w, h) * mm + signed(w, l) } else { h * mm + l };
            let t: int = if sgn { signed(w, s) } else { s as int };
            assert(p == sp * t);
            assert(mm * mm > 0) by (nonlinear_arith)
                requires
                    mm > 0,
            ;
            if sgn {
                lemma_signed_pair(w, h, l, x as int);
                if msb(w, s) {
                    lemma_shift_mod(t, 1, mm * mm);
                }
            }
            assert((src1 as int) % (mm * mm) == sp % (mm * mm));
            assert((y as int) % (mm * mm) == t % (mm * mm));
            lemma_mul_congruent(src1 as int, y as int, sp, t, mm * mm);
            lemma_wrap_keeps(w, src1 as int * y as int);
            lemma_halves(v as int, p, mm);
        }
        self.write_loc(w, Loc::Reg(2), hi)?;
        self.write_loc(w, Loc::Reg(0), lo)?;
        proof {
            if let Some(Loc::Mem(sg, o)) = a0.opnd_loc(w, Opnd::RM) {
                assert(Access::loads(a0.ac, ms.ac, sg, o, w.nbytes(), Ok(s)));
                crate::emulator::access::memory::lemma_loads_core_free(a0.ac, ms.ac, self.ac, sg, o, w.nbytes(), Ok(s));
                assert(Exec::mem_src_done(a0, *self, w, sg, o, s, Exec::mul_state(a0, w, sgn, s).0, Exec::mul_state(a0, w, sgn, s).1));
            }
        }
        Ok(())
    }

    /// The general registers after a one-operand division by `s`: the accumulator holds the
    /// quotient of `wide_dividend` by `s` and the data register the remainder, both rounded
    /// toward zero and cut to the width.
    pub open spec fn div_regs(a: Exec, w: Width, sgn: bool, s: u64) -> Seq<u64> {
        let regs = a.ac.core.gpregs@;
        let d = wide_dividend(w, sgn, trunc(w, regs[2]), trunc(w, regs[0]));
        regs_after(regs_after(regs, w, Loc::Reg(0), cut(w, quot_toward_zero(d, s as int))),
            w, Loc::Reg(2), cut(w, rem_toward_zero(d, s as int)))
    }

    /// What a one-operand division promises: with a register or immediate operand, a zero
    /// divisor is a divide error and changes nothing; otherwise the registers of `div_regs`,
    /// the flags unchanged; the same, from a nonzero divisor read from memory.
    pub open spec fn div_done(a: Exec, b: Exec, w: Width, sgn: bool, r: Result<(), EmuException>) -> bool {
        &&& a.pure_value(w, Opnd::RM) matches Some(s) ==> if s == 0 {
            r == Err::<(), EmuException>(EmuException::CPUException(CPUException::DE)) && b == a
        } else {
            r is Ok && Exec::core_becomes(a, b, Exec::div_regs(a, w, sgn, s), a.ac.core.rflags)
        }
        &&& a.opnd_loc(w, Opnd::RM) matches Some(Loc::Mem(sg, o)) ==> r is Ok ==>
            exists|s: u64| #[trigger] Exec::mem_src_done(a, b, w, sg, o, s, Exec::div_regs(a, w, sgn, s), a.ac.core.rflags) && s != 0
    }

    /// Divides the data:accumulator pair by the r/m operand: quotient into the accumulator,
    /// remainder into the data register, both cut to the width. `sgn` reads the pair of
    /// 64-bit width as a signed number; a zero divisor is a divide error.
    #[verifier::spinoff_prover]
    fn div_wide(&mut self, w: Width, sgn: bool) -> (r: Result<(), EmuException>)
        ensures
            Exec::same_instr(*old(self), *final(self)),
            same_config(old(self).ac, final(self).ac),
            old(self).pure_value(w, Opnd::RM) == Some(0u64) ==>
                r == Err::<(), EmuException>(EmuException::CPUException(CPUException::DE)) && *final(self) == *old(self),
            Exec::div_done(*old(self), *final(self), w, sgn, r),
    {
        proof {
            self.ac.core.gpregs.lemma_wf();
        }
        let ghost a0 = *self;
        let h = self.read_loc(w, Loc::Reg(2))?;
        let l = self.read_loc(w, Loc::Reg(0))?;
        let s = self.get_opnd(w, Opnd::RM)?;
        let ghost m0 = *self;
        if s == 0 {
            return Err(EmuException::CPUException(CPUException::DE));
        }
        let m: u128 = modulus_of(w);
        let neg = sgn && w == Width::W64 && Self::check_msb(w, h);
        proof {
            assert(h * m + l < 0x1_0000_0000_0000_0000_0000_0000_0000_0000) by (nonlinear_arith)
                requires
                    h < m,
                    l < m,
                    m <= 0x1_0000_0000_0000_0000,
            ;
        }
        let mag: u128 = if neg {
            proof {
                assert((m - h) * m <= 0x8000_0000_0000_0000 * 0x1_0000_0000_0000_0000) by (nonlinear_arith)
                    requires
                        m - h <= 0x8000_0000_0000_0000,
                        m == 0x1_0000_0000_0000_0000,
                ;
                assert((m - h) * m >= m) by (nonlinear_arith)
                    requires
                        m - h >= 1,
                        m >= 0,
                ;
            }
            (m - h as u128) * m - l as u128
        } else {
            h as u128 * m + l as u128
        };
        let q = mag / (s as u128);
        let rem = mag % (s as u128);
        let (q2, rem2) = if neg { (0u128.wrapping_sub(q), 0u128.wrapping_sub(rem)) } else { (q, rem) };
        let qv = ((q2 % m) as u64);
        let rv = ((rem2 % m) as u64);
        proof {
            let mm = span(w);
            let d = wide_dividend(w, sgn, h, l);
            if neg {
                assert(mm * mm == 0x1_0000_0000_0000_0000_0000_0000_0000_0000int) by (nonlinear_arith)
                    requires
                        mm == 0x1_0000_0000_0000_0000,
                ;
                assert(mag == -d) by (nonlinear_arith)
                    requires
                        mag == (mm - h) * mm - l,
                        d == h * mm + l - mm * mm,
                ;
                assert(d < 0);
                if q > 0 {
                    lemma_shift_mod(-(q as int), mm, mm);
                }
                if rem > 0 {
                    lemma_shift_mod(-(rem as int), mm, mm);
                }
                assert(qv == cut(w, quot_toward_zero(d, s as int)));
                assert(rv == cut(w, rem_toward_zero(d, s as int)));
            } else {
                assert(mag == d) by (nonlinear_arith)
                    requires
                        mag == h * mm + l,
                        d == h * mm + l,
                ;
                assert(qv == cut(w, quot_toward_zero(d, s as int)));
                assert(rv == cut(w, rem_toward_zero(d, s as int)));
            }
        }
        self.write_loc(w, Loc::Reg(0), qv)?;
        self.write_loc(w, Loc::Reg(2), rv)?;
        proof {
            if let Some(Loc::Mem(sg, o)) = a0.opnd_loc(w, Opnd::RM) {
                assert(Access::loads(a0.ac, m0.ac, sg, o, w.nbytes(), Ok(s)));
                crate::emulator::access::memory::lemma_loads_core_free(a0.ac, m0.ac, self.ac, sg, o, w.nbytes(), Ok(s));
                assert(Exec::mem_src_done(a0, *self, w, sg, o, s, Exec::div_regs(a0, w, sgn, s), a0.ac.core.rflags));
            }
        }
        Ok(())
    }

    /// `b` is `a` after the push of an operand (`push_opnd`) gave `r`.
    pub open spec fn push_opnd_done(a: Exec, b: Exec, w: Width, src: Opnd, r: Result<(), EmuException>) -> bool {
        &&& Exec::keeps_mode(a, b)
        &&& a.pure_value(w, src) matches Some(v) ==> Access::pushes(a.ac, b.ac, w, v, r)
    }

    /// Pushes operand `src` of width `w`.
    pub fn push_opnd(&mut self, w: Width, src: Opnd) -> (r: Result<(), EmuException>)
        ensures
            Exec::push_opnd_done(*old(self), *final(self), w, src, r),
    {
        let v = self.get_opnd(w, src)?;
        self.push_w(w, v)
    }

    /// `b` is `a` after the pop into an operand (`pop_opnd`) gave `r`.
    pub open spec fn pop_opnd_done(a: Exec, b: Exec, w: Width, dst: Opnd, r: Result<(), EmuException>) -> bool {
        &&& Exec::keeps_mode(a, b)
        &&& a.reg_target(w, dst) matches Some(l) ==> r is Ok ==>
                exists|v: u64| #[trigger] Exec::popped_to(a.ac, b.ac, w, l, v)
        &&& exists|m: Access, v: Result<u64, EmuException>| #[trigger] Access::pops(a.ac, m, w, v)
                && (v matches Err(e) ==> r == Err::<(), EmuException>(e) && b.ac == m)
                && (v is Ok && a.reg_target(w, dst) is Some ==> r is Ok)
    }

    /// Pops a value of width `w` into operand `dst`.
    pub fn pop_opnd(&mut self, w: Width, dst: Opnd) -> (r: Result<(), EmuException>)
        ensures
            Exec::pop_opnd_done(*old(self), *final(self), w, dst, r),
    {
        let ghost a = *self;
        let rv = self.pop_w(w);
        let ghost m = self.ac;
        proof {
            assert(Access::pops(a.ac, m, w, rv));
        }
        let v = rv?;
        let x = truncate(w, v);
        let r = self.set_opnd(w, dst, x);
        proof {
            reveal(Access::loads);
            if let Some(l) = a.reg_target(w, dst) {
                if r is Ok {
                    assert(Exec::popped_to(a.ac, self.ac, w, l, v));
                }
            }
        }
        r
    }

    /// `b` is `a` after popping `v` with width `w` into register location `l`.
    pub open spec fn popped_to(a: Access, b: Access, w: Width, l: Loc, v: u64) -> bool {
        let d = stack_delta(w);
        &&& same_config(a, b)
        &&& Access::loads(a, b, SgReg::SS, vstd::wrapping::u64_specs::wrapping_sub(a.stack_step(d).1, d as u64), d as nat, Ok(v))
        &&& b.core.gpregs@ == regs_after(a.stack_step(d).0, w, l, trunc(w, v))
        &&& a.core.same_but_gpregs(b.core)
    }

    /// `b` is `a` after the `pusha` (`push_all`) gave `r`.
    pub open spec fn push_all_done(a: Exec, b: Exec, w: Width, r: Result<(), EmuException>) -> bool {
        &&& Exec::keeps_mode(a, b)
        &&& r is Ok ==> Access::pushes_all(a.ac, b.ac, w, Exec::pusha_values(a.ac, w))
        &&& r is Err ==> exists|k: int, m: Access| 0 <= k < 8
                && Access::pushes_all(a.ac, m, w, Exec::pusha_values(a.ac, w).take(k))
                && #[trigger] Access::pushes(m, b.ac, w, Exec::pusha_values(a.ac, w)[k], r)
    }

    /// `pusha`: pushes the eight general registers, the stack pointer as it was before.
    pub fn push_all(&mut self, w: Width) -> (r: Result<(), EmuException>)
        ensures
            Exec::push_all_done(*old(self), *final(self), w, r),
    {
        proof {
            self.ac.core.gpregs.lemma_wf();
        }
        let ghost a = self.ac;
        let ghost vals = Exec::pusha_values(a, w);
        let sp = self.read_loc(w, Loc::Reg(4))?;
        let mut i: u64 = 0;
        proof {
            assert(vals.take(0) =~= Seq::<u64>::empty());
        }
        while i < 8
            invariant
                Exec::keeps_mode(*old(self), *self),
                a == old(self).ac,
                vals == Exec::pusha_values(a, w),
                i <= 8,
                sp == trunc(w, a.core.gpregs@[4]),
                a.core.gpregs@.len() == 16,
                self.ac.core.gpregs@.len() == 16,
                forall|j: int| 0 <= j < 16 && j != 4 ==> #[trigger] self.ac.core.gpregs@[j] == a.core.gpregs@[j],
                Access::pushes_all(a, self.ac, w, vals.take(i as int)),
            decreases 8 - i,
        {
            let v = if i == 4 { sp } else { self.read_loc(w, Loc::Reg(i))? };
            let ghost m = self.ac;
            let rp = self.push_w(w, v);
            proof {
                assert(vals[i as int] == v);
                assert(Access::pushes(m, self.ac, w, vals[i as int], rp));
            }
            rp?;
            proof {
                let t = vals.take(i as int + 1);
                assert(t.drop_last() =~= vals.take(i as int));
                assert(t.last() == v);
                assert(Access::pushes(m, self.ac, w, t.last(), Ok(())));
                assert(Access::pushes_all(a, self.ac, w, t));
            }
            i += 1;
        }
        proof {
            assert(vals.take(8) =~= vals);
        }
        Ok(())
    }

    /// What `pusha` pushes: the eight general registers cut to width `w`, in order.
    pub open spec fn pusha_values(a: Access, w: Width) -> Seq<u64> {
        Seq::new(8, |i: int| trunc(w, a.core.gpregs@[i]))
    }

    /// `b` is `a` after the `popa` (`pop_all`) gave `r`.
    pub open spec fn pop_all_done(a: Exec, b: Exec, w: Width, r: Result<(), EmuException>) -> bool {
        &&& Exec::keeps_mode(a, b)
        &&& r is Ok ==> exists|m: Access, vals: Seq<u64>| #[trigger] Access::popa_steps(a.ac, m, w, vals)
                && vals.len() == 8
                && Access::gpregs_become(m, b.ac,
                    m.core.gpregs@.update(4, put(w, m.core.gpregs@[4], trunc(w, vals[3]))))
        &&& r is Err ==> exists|m: Access, vals: Seq<u64>| #[trigger] Access::popa_steps(a.ac, m, w, vals)
                && vals.len() < 8 && Access::pops(m, b.ac, w, Err(r->Err_0))
    }

    /// `popa`: pops the eight general registers in reverse; the stack pointer's slot is
    /// skipped until the end, when the stack pointer takes the value popped there.
    pub fn pop_all(&mut self, w: Width) -> (r: Result<(), EmuException>)
        ensures
            Exec::pop_all_done(*old(self), *final(self), w, r),
    {
        let ghost a = self.ac;
        let ghost mut vals: Seq<u64> = Seq::empty();
        let mut sp: u64 = 0;
        let mut i: u64 = 8;
        while i > 0
            invariant
                Exec::keeps_mode(*old(self), *self),
                a == old(self).ac,
                i <= 8,
                vals.len() == 8 - i,
                Access::popa_steps(a, self.ac, w, vals),
                i <= 4 ==> sp == trunc(w, vals[3]),
            decreases i,
        {
            proof {
                self.ac.core.gpregs.lemma_wf();
            }
            i -= 1;
            let ghost m = self.ac;
            let rv = self.pop_w(w);
            proof {
                assert(Access::popa_steps(a, m, w, vals));
                if rv is Err {
                    assert(Access::pops(m, self.ac, w, Err(rv->Err_0)));
                    assert(Exec::pop_all_done(*old(self), *self, w, Err(rv->Err_0)));
                }
            }
            let v = rv?;
            let ghost m1 = self.ac;
            let x = truncate(w, v);
            proof {
                m1.core.gpregs.lemma_wf();
            }
            if i == 4 {
                sp = x;
            } else {
                self.write_loc(w, Loc::Reg(i), x)?;
            }
            proof {
                let nv = vals.push(v);
                assert(nv.drop_last() =~= vals);
                assert(Access::pops(m, m1, w, Ok(nv.last())));
                assert(Access::popa_step(m1, self.ac, w, nv));
                assert(Access::popa_steps(a, self.ac, w, nv));
                vals = nv;
            }
        }
        proof {
            self.ac.core.gpregs.lemma_wf();
        }
        let ghost m = self.ac;
        let x = truncate(w, sp);
        let r = self.write_loc(w, Loc::Reg(4), x);
        proof {
            assert(r is Ok);
            assert(Access::popa_steps(a, m, w, vals));
            assert(Exec::pop_all_done(*old(self), *self, w, r));
        }
        r
    }

    /// `b` is `a` after the `pushf` (`push_flags`) gave `r`.
    pub open spec fn push_flags_done(a: Exec, b: Exec, w: Width, r: Result<(), EmuException>) -> bool {
        &&& Exec::keeps_mode(a, b)
        &&& Access::pushes(a.ac, b.ac, w, a.ac.core.rflags.value(), r)
    }

    /// `pushf`.
    pub fn push_flags(&mut self, w: Width) -> (r: Result<(), EmuException>)
        ensures
            Exec::push_flags_done(*old(self), *final(self), w, r),
    {
        let f = self.ac.get_rflags()?;
        self.push_w(w, f)
    }

    /// `b` is `a` after the `popf` (`pop_flags`) gave `r`.
    pub open spec fn pop_flags_done(a: Exec, b: Exec, w: Width, r: Result<(), EmuException>) -> bool {
        &&& Exec::keeps_mode(a, b)
        &&& r is Ok ==> exists|v: u64| #[trigger] Exec::popped(a.ac, b.ac, w, v)
                && b.ac.core.rflags == crate::hardware::processor::rflags::RFlags::decode(v)
                && b.ac.core.ip == a.ac.core.ip
        &&& exists|m: Access, v: Result<u64, EmuException>| #[trigger] Access::pops(a.ac, m, w, v)
                && (v matches Err(e) ==> r == Err::<(), EmuException>(e) && b.ac == m)
                && (v is Ok ==> r is Ok)
    }

    /// `popf`.
    pub fn pop_flags(&mut self, w: Width) -> (r: Result<(), EmuException>)
        ensures
            Exec::pop_flags_done(*old(self), *final(self), w, r),
    {
        let ghost a = self.ac;
        let rv = self.pop_w(w);
        proof {
            assert(Access::pops(a, self.ac, w, rv));
        }
        let f = rv?;
        self.ac.set_rflags(f)?;
        proof {
            reveal(Access::loads);
            assert(Exec::popped(a, self.ac, w, f));
        }
        Ok(())
    }

    /// `b` holds the stack pointer and the stack's memory that popping `v` with width `w`
    /// from `a` leaves; other registers are left to the caller.
    pub open spec fn popped(a: Access, b: Access, w: Width, v: u64) -> bool {
        let d = stack_delta(w);
        &&& same_config(a, b)
        &&& b.core.gpregs@ == a.stack_step(d).0
        &&& Access::loads(a, b, SgReg::SS, vstd::wrapping::u64_specs::wrapping_sub(a.stack_step(d).1, d as u64), d as nat, Ok(v))
    }

    /// `b` is `a` after the near return (`ret_near`) gave `r`.
    pub open spec fn ret_near_done(a: Exec, b: Exec, w: Width, r: Result<(), EmuException>) -> bool {
        &&& Exec::keeps_mode(a, b)
        &&& r is Ok ==> exists|v: u64| #[trigger] Exec::popped(a.ac, b.ac, w, v)
                && b.ac.core.ip.0 == v
        &&& exists|m: Access, v: Result<u64, EmuException>| #[trigger] Access::pops(a.ac, m, w, v)
                && (v matches Err(e) ==> r == Err::<(), EmuException>(e) && b.ac == m)
                && (v is Ok ==> r is Ok)
    }

    /// `ret`: pops the return address into the instruction pointer.
    pub fn ret_near(&mut self, w: Width) -> (r: Result<(), EmuException>)
        ensures
            Exec::ret_near_done(*old(self), *final(self), w, r),
    {
        let ghost a = self.ac;
        let rv = self.pop_w(w);
        proof {
            assert(Access::pops(a, self.ac, w, rv));
        }
        let v = rv?;
        self.set_ip_w(Width::W64, v)?;
        proof {
            reveal(Access::loads);
            assert(Exec::popped(a, self.ac, w, v));
        }
        Ok(())
    }

    /// `b` is `a` after the `leave` (`leave`) gave `r`.
    pub open spec fn leave_done(a: Exec, b: Exec, w: Width, r: Result<(), EmuException>) -> bool {
        &&& Exec::keeps_mode(a, b)
        &&& r is Ok ==> exists|m1: Access, m2: Access, v: u64| #[trigger] Access::pops(m1, m2, w, Ok(v))
                && Access::gpregs_become(a.ac, m1, a.ac.core.gpregs@.update(4,
                    put(w, a.ac.core.gpregs@[4], trunc(w, a.ac.core.gpregs@[5]))))
                && Access::gpregs_become(m2, b.ac, m2.core.gpregs@.update(5, put(w, m2.core.gpregs@[5], trunc(w, v))))
        &&& exists|m1: Access, m2: Access, v: Result<u64, EmuException>| #[trigger] Access::pops(m1, m2, w, v)
                && Access::gpregs_become(a.ac, m1, a.ac.core.gpregs@.update(4,
                    put(w, a.ac.core.gpregs@[4], trunc(w, a.ac.core.gpregs@[5]))))
                && (v matches Err(e) ==> r == Err::<(), EmuException>(e) && b.ac == m2)
                && (v is Ok ==> r is Ok)
    }

    /// `leave`: the stack pointer takes the frame pointer, which then pops its saved value.
    pub fn leave(&mut self, w: Width) -> (r: Result<(), EmuException>)
        ensures
            Exec::leave_done(*old(self), *final(self), w, r),
    {
        proof {
            self.ac.core.gpregs.lemma_wf();
        }
        let bp = self.read_loc(w, Loc::Reg(5))?;
        self.write_loc(w, Loc::Reg(4), bp)?;
        let ghost m1 = self.ac;
        let rv = self.pop_w(w);
        proof {
            assert(Access::pops(m1, self.ac, w, rv));
        }
        let v = rv?;
        let ghost m2 = self.ac;
        proof {
            m2.core.gpregs.lemma_wf();
        }
        let x = truncate(w, v);
        let r = self.write_loc(w, Loc::Reg(5), x);
        proof {
            if r is Ok {
                assert(Access::pops(m1, m2, w, Ok(v)));
            }
        }
        r
    }

    /// `b` is `a` after the `in` (`port_input`) gave `r`.
    pub open spec fn port_input_done(a: Exec, b: Exec, w: Width, port: Opnd, r: Result<(), EmuException>) -> bool {
        &&& Exec::keeps_mode(a, b)
        &&& a.pure_value(Width::W16, port) matches Some(p) ==> r is Ok && Exec::core_becomes(a, b,
                regs_after(a.ac.core.gpregs@, w, Exec::acc_loc(w), port_value(a.ac, w, p as u16)),
                a.ac.core.rflags)
    }

    /// `in`: reads the port that `port` names into the accumulator of width `w`.
    pub fn port_input(&mut self, w: Width, port: Opnd) -> (r: Result<(), EmuException>)
        ensures
            Exec::port_input_done(*old(self), *final(self), w, port, r),
    {
        let p = self.get_opnd(Width::W16, port)? as u16;
        let v: u64 = match w {
            Width::W8 => self.ac.in_8(p)? as u64,
            Width::W16 => self.ac.in_16(p)? as u64,
            _ => self.ac.in_32(p)? as u64,
        };
        proof {
            let n = port_bytes_of(w);
            crate::hardware::memory::lemma_le_value_bound(self.ac.dev.port_bytes(p, n), 0, n);
            crate::hardware::memory::lemma_byte_pow_values();
            reveal_with_fuel(crate::hardware::memory::le_value, 2);
        }
        let x = truncate(w, v);
        self.set_opnd(w, Opnd::Acc, x)
    }

    /// `b` is `a` after the `out` (`port_output`) gave `r`.
    pub open spec fn port_output_done(a: Exec, b: Exec, w: Width, port: Opnd, r: Result<(), EmuException>) -> bool {
        &&& Exec::keeps_mode(a, b)
        &&& a.pure_value(Width::W16, port) matches Some(p) ==> a.pure_value(w, Opnd::Acc) matches Some(v) ==>
                r is Ok && Access::outputs(a.ac, b.ac, p as u16, trunc(port_width(w), v), port_bytes_of(w))
    }

    /// `out`: writes the accumulator of width `w` to the port that `port` names.
    #[verifier::spinoff_prover]
    pub fn port_output(&mut self, w: Width, port: Opnd) -> (r: Result<(), EmuException>)
        ensures
            Exec::port_output_done(*old(self), *final(self), w, port, r),
    {
        let p = self.get_opnd(Width::W16, port)? as u16;
        let v = self.get_opnd(w, Opnd::Acc)?;
        match w {
            Width::W8 => self.ac.out_8(p, v as u8),
            Width::W16 => self.ac.out_16(p, v as u16),
            _ => {
                proof {
                    assert((v as u32) as u64 == v % 0x1_0000_0000) by (bit_vector);
                }
                self.ac.out_32(p, v as u32)
            },
        }
    }

    /// `b` is `a` after the relative call (`call_rel`) gave `r`.
    pub open spec fn call_rel_done(a: Exec, b: Exec, w: Width, r: Result<(), EmuException>) -> bool {
        &&& Exec::keeps_mode(a, b)
        &&& a.rel_of(w) is None ==> r == Err::<(), EmuException>(EmuException::UnexpectedError) && b == a
        &&& a.rel_of(w) matches Some(d) ==> r is Ok ==> {
                &&& b.ac.core.ip.0 == vstd::wrapping::u64_specs::wrapping_add_signed(a.ac.core.ip.0, d)
                &&& b.ac.core.gpregs@ == a.ac.stack_step((-stack_delta(w)) as i8).0
                &&& Access::stores(a.ac, b.ac, SgReg::SS, a.ac.stack_step((-stack_delta(w)) as i8).1,
                    stack_value(w, ip_cut(w, a.ac.core.ip.0)), stack_delta(w) as nat, Ok(()))
            }
    }

    /// `call rel`: pushes the instruction pointer of width `w` and jumps by the immediate.
    pub fn call_rel(&mut self, w: Width) -> (r: Result<(), EmuException>)
        ensures
            Exec::call_rel_done(*old(self), *final(self), w, r),
    {
        let rel = match self.idata.imm {
            Some(v) => super::flag::to_signed(w, truncate(w, v)),
            None => return Err(EmuException::UnexpectedError),
        };
        let ip = self.get_ip_w(w);
        self.push_w(w, ip)?;
        let r = self.ac.update_ip(rel);
        proof {
            reveal(Access::stores);
        }
        r
    }

    /// `b` is `a` after the far call or jump through an immediate pointer (`far_ptr`) gave `r`.
    pub open spec fn far_ptr_done(a: Exec, b: Exec, w: Width, call: bool, r: Result<(), EmuException>) -> bool {
        &&& Exec::keeps_mode(a, b)
        &&& match a.idata.ptr16 {
            None => r == Err::<(), EmuException>(EmuException::UnexpectedError) && b == a,
            Some(sel) => match a.opnd_const(w, Opnd::Imm(w)) {
                Err(e) => r == Err::<(), EmuException>(e) && b == a,
                Ok(abs) => if call {
                    Exec::call_far_done(a, b, w, sel, abs, r)
                } else {
                    Exec::jmp_far_done(a, b, w, sel, abs, r)
                },
            },
        }
    }

    /// `call ptr16:imm` (`call_far`) or `jmp ptr16:imm`.
    pub fn far_ptr(&mut self, w: Width, call: bool) -> (r: Result<(), EmuException>)
        ensures
            Exec::far_ptr_done(*old(self), *final(self), w, call, r),
    {
        let sel = self.get_ptr16()?;
        let abs = self.get_opnd(w, Opnd::Imm(w))?;
        if call {
            self.call_far(w, sel, abs)
        } else {
            self.jmp_far(w, sel, abs)
        }
    }

    /// `b` is `a` after the string instruction (`string_op`) gave `r`.
    pub open spec fn string_op_done(a: Exec, b: Exec, op: StrOp, dw: Width, ow: Width, r: Result<(), EmuException>) -> bool {
        &&& Exec::keeps_mode(a, b)
        &&& r is Ok ==> exists|m: Exec| #[trigger] Exec::string_done(a, m, op, dw)
                && Exec::repeat_done(m, b, ow, Ok(()))
        &&& exists|m: Exec, r1: Result<(), EmuException>| #[trigger] Exec::string_attempt(a, m, op, dw, r1)
                && (r1 matches Err(e) ==> r == Err::<(), EmuException>(e) && b == m)
                && (r1 is Ok ==> r is Ok)
    }

    /// A string instruction on data of width `dw`, repeated under a prefix with a count of
    /// width `ow`.
    pub fn string_op(&mut self, op: StrOp, dw: Width, ow: Width) -> (r: Result<(), EmuException>)
        ensures
            Exec::string_op_done(*old(self), *final(self), op, dw, ow, r),
    {
        let r1 = match op {
            StrOp::Movs => self.move_str(dw),
            StrOp::Cmps => self.cmp_str(dw),
            StrOp::Stos => self.store_str(dw),
            StrOp::Lods => self.load_str(dw),
            StrOp::Scas => self.scan_str(dw),
        };
        let ghost m1 = *self;
        proof {
            assert(Exec::string_attempt(*old(self), m1, op, dw, r1));
        }
        r1?;
        let ghost m = *self;
        let r = self.repeat(ow);
        proof {
            assert(Exec::string_done(*old(self), m, op, dw));
        }
        r
    }

    /// `b` is `a` after reading the far pointer at the memory operand (`far_pointer_at`) gave `r`.
    pub open spec fn far_pointer_at_done(a: Exec, b: Exec, w: Width, r: Result<(u16, u64), EmuException>) -> bool {
        &&& Exec::same_instr(a, b)
        &&& same_config(a.ac, b.ac)
        &&& a.modrm_addr() matches Err(e) ==> r == Err::<(u16, u64), EmuException>(e) && b == a
        &&& a.modrm_addr() matches Ok((sg, adr)) ==> exists|m: Exec, r1: Result<u64, EmuException>|
                #[trigger] Exec::reads(a, m, Width::W16, Loc::Mem(sg, adr), r1) && match r1 {
                    Err(e) => r == Err::<(u16, u64), EmuException>(e) && b == m,
                    Ok(sel) => exists|r2: Result<u64, EmuException>|
                        #[trigger] Exec::reads(m, b, w, Loc::Mem(sg, vstd::wrapping::u64_specs::wrapping_add(adr, 2)), r2)
                        && r == (match r2 {
                            Ok(off) => Ok::<(u16, u64), EmuException>(((sel % 0x1_0000) as u16, off)),
                            Err(e) => Err(e),
                        }),
                }
    }

    /// The far pointer at the memory operand: a selector, then an offset of width `w`.
    fn far_pointer_at(&mut self, w: Width) -> (r: Result<(u16, u64), EmuException>)
        ensures
            Exec::far_pointer_at_done(*old(self), *final(self), w, r),
    {
        let (sg, adr) = self.get_m()?;
        let ghost a = *self;
        let r1 = self.read_loc(Width::W16, Loc::Mem(sg, adr));
        let ghost m = *self;
        let sel = r1?;
        let r2 = self.read_loc(w, Loc::Mem(sg, adr.wrapping_add(2)));
        proof {
            assert(Exec::reads(a, m, Width::W16, Loc::Mem(sg, adr), r1));
            assert(Exec::reads(m, *self, w, Loc::Mem(sg, vstd::wrapping::u64_specs::wrapping_add(adr, 2)), r2));
        }
        let abs = r2?;
        Ok(((sel % 0x1_0000) as u16, abs))
    }

    /// `b` is `a` after the opcode 0xff group (`group_ff`) gave `r`.
    pub open spec fn group_ff_done(a: Exec, b: Exec, w: Width, r: Result<(), EmuException>) -> bool {
        let k = a.idata.modrm.reg;
        &&& Exec::keeps_mode(a, b)
        &&& k == 0 ==> Exec::inc_dec_spec(a, b, true, w, Opnd::RM, r)
        &&& k == 1 ==> Exec::inc_dec_spec(a, b, false, w, Opnd::RM, r)
        &&& k > 6 || (w == Width::W64 && k > 1) ==> r == Err::<(), EmuException>(EmuException::UnexpectedError) && b == a
        &&& w != Width::W64 && (k == 2 || k == 4) ==> exists|m: Exec, v: Result<u64, EmuException>|
            #[trigger] Exec::opnd_reads(a, m, w, Opnd::RM, v) && match v {
                Err(e) => r == Err::<(), EmuException>(e) && b == m,
                Ok(x) => if k == 4 {
                    r is Ok && Access::ip_becomes(m.ac, b.ac, ip_cut(w, x))
                } else {
                    exists|m2: Access, rp: Result<(), EmuException>|
                        #[trigger] Access::pushes(m.ac, m2, w, ip_cut(w, m.ac.core.ip.0), rp)
                        && (rp matches Err(e) ==> r == Err::<(), EmuException>(e) && b.ac == m2)
                        && (rp is Ok ==> r is Ok && Access::ip_becomes(m2, b.ac, ip_cut(w, x)))
                },
            }
        &&& w != Width::W64 && (k == 3 || k == 5) ==> exists|m: Exec, rp: Result<(u16, u64), EmuException>|
            #[trigger] Exec::far_pointer_at_done(a, m, w, rp) && match rp {
                Err(e) => r == Err::<(), EmuException>(e) && b == m,
                Ok((sel, abs)) => if k == 3 { Exec::call_far_done(m, b, w, sel, abs, r) } else { Exec::jmp_far_done(m, b, w, sel, abs, r) },
            }
        &&& w != Width::W64 && k == 6 ==> Exec::push_opnd_done(a, b, w, Opnd::RM, r)
        &&& w != Width::W64 && k == 4 ==> (a.pure_value(w, Opnd::RM) matches Some(v) ==>
            r is Ok && Access::ip_becomes(a.ac, b.ac, ip_cut(w, v)))
        &&& w != Width::W64 && k == 2 ==> (a.pure_value(w, Opnd::RM) matches Some(v) ==>
            r is Ok ==> exists|m: Access| #[trigger] Access::pushes(a.ac, m, w, ip_cut(w, a.ac.core.ip.0), Ok(()))
                && Access::ip_becomes(m, b.ac, ip_cut(w, v)))
        &&& w != Width::W64 && k == 6 ==> (a.pure_value(w, Opnd::RM) matches Some(v) ==>
            Access::pushes(a.ac, b.ac, w, v, r))
    }

    /// Opcode 0xff: inc, dec, call, far call, jmp, far jmp, push of the r/m operand; in 64-bit
    /// operand size only inc and dec.
    pub fn group_ff(&mut self, w: Width) -> (r: Result<(), EmuException>)
        ensures
            Exec::group_ff_done(*old(self), *final(self), w, r),
    {
        let k = self.idata.modrm.reg;
        if k == 0 {
            return self.inc_dec(true, w, Opnd::RM);
        }
        if k == 1 {
            return self.inc_dec(false, w, Opnd::RM);
        }
        if k > 6 || w == Width::W64 {
            return Err(EmuException::UnexpectedError);
        }
        if k == 2 || k == 4 {
            let ghost a = *self;
            let rv = self.get_opnd(w, Opnd::RM);
            let ghost e1 = *self;
            proof {
                assert(Exec::opnd_reads(a, e1, w, Opnd::RM, rv));
            }
            let v = rv?;
            let ghost a1 = self.ac;
            if k == 2 {
                let ip = self.get_ip_w(w);
                proof {
                    assert(ip == ip_cut(w, a1.core.ip.0));
                }
                let rp = self.push_w(w, ip);
                proof {
                    assert(Access::pushes(e1.ac, self.ac, w, ip_cut(w, e1.ac.core.ip.0), rp));
                }
                rp?;
            }
            let ghost m = self.ac;
            let r = self.set_ip_w(w, v);
            proof {
                assert(Access::ip_becomes(m, self.ac, ip_cut(w, v)));
                if k == 2 && a.pure_value(w, Opnd::RM) is Some {
                    assert(a1 == a.ac);
                    assert(Access::pushes(a.ac, m, w, ip_cut(w, a.ac.core.ip.0), Ok(())));
                }
            }
            r
        } else if k == 3 || k == 5 {
            let ghost a = *self;
            let rp = self.far_pointer_at(w);
            proof {
                assert(Exec::far_pointer_at_done(a, *self, w, rp));
            }
            let (sel, abs) = rp?;
            if k == 3 {
                self.call_far(w, sel, abs)
            } else {
                self.jmp_far(w, sel, abs)
            }
        } else {
            self.push_opnd(w, Opnd::RM)
        }
    }

    /// `b` is `a` after the opcode 0x0f 0x00 group (`group_0f00`) gave `r`.
    pub open spec fn group_0f00_done(a: Exec, b: Exec, r: Result<(), EmuException>) -> bool {
        let k = a.idata.modrm.reg;
        &&& Exec::keeps_mode(a, b)
        &&& k != 2 && k != 3 ==> r == Err::<(), EmuException>(EmuException::NotImplementedOpcode) && b == a
        &&& (k == 2 || k == 3) ==> exists|m: Exec, v: Result<u64, EmuException>|
            #[trigger] Exec::opnd_reads(a, m, Width::W16, Opnd::RM, v) && match v {
                Err(e) => r == Err::<(), EmuException>(e) && b == m,
                Ok(x) => Exec::same_instr(m, b) && if k == 2 {
                    Access::ldtr_loaded(m.ac, b.ac, x as u16, r)
                } else {
                    Access::tr_loaded(m.ac, b.ac, x as u16, r)
                },
            }
        &&& k == 2 ==> (a.pure_value(Width::W16, Opnd::RM) matches Some(sel) ==>
            Access::ldtr_loaded(a.ac, b.ac, sel as u16, r))
        &&& k == 3 ==> (a.pure_value(Width::W16, Opnd::RM) matches Some(sel) ==>
            Access::tr_loaded(a.ac, b.ac, sel as u16, r))
    }

    /// Opcode 0x0f00: `lldt` (reg 2) and `ltr` (reg 3) from the r/m selector.
    pub fn group_0f00(&mut self) -> (r: Result<(), EmuException>)
        ensures
            Exec::group_0f00_done(*old(self), *final(self), r),
    {
        let k = self.idata.modrm.reg;
        if k != 2 && k != 3 {
            return Err(EmuException::NotImplementedOpcode);
        }
        let ghost a = *self;
        let v = self.get_opnd(Width::W16, Opnd::RM);
        let ghost m = *self;
        proof {
            assert(Exec::opnd_reads(a, m, Width::W16, Opnd::RM, v));
        }
        let sel = v? as u16;
        if k == 2 {
            self.ac.set_ldtr(sel)
        } else {
            self.ac.set_tr(sel)
        }
    }

    /// What `group_0f01` promises: `lgdt` (reg 2) and `lidt` (reg 3) need a memory operand and
    /// privilege level 0; other forms are not implemented.
    pub open spec fn group_0f01_spec(a: Exec, b: Exec, w: Width, r: Result<(), EmuException>) -> bool {
        let k = a.idata.modrm.reg;
        &&& Exec::keeps_mode(a, b)
        &&& k != 2 && k != 3 ==> r == Err::<(), EmuException>(EmuException::NotImplementedOpcode) && b == a
        &&& (k == 2 || k == 3) ==> match a.modrm_addr() {
            Err(e) => r == Err::<(), EmuException>(e) && b == a,
            Ok((sg, o)) => {
                &&& a.ac.cpl() > 0 ==> r == Err::<(), EmuException>(EmuException::CPUException(CPUException::GP(None))) && b == a
                &&& r is Ok ==> exists|m: Access, lim: u64, raw: u64|
                    #![trigger Access::loads(a.ac, m, sg, o, 2, Ok(lim)), Access::loads(m, b.ac, sg, vstd::wrapping::u64_specs::wrapping_add(o, 2), table_base_bytes(w), Ok(raw))]
                    Access::loads(a.ac, m, sg, o, 2, Ok(lim))
                    && Access::loads(m, b.ac, sg, vstd::wrapping::u64_specs::wrapping_add(o, 2), table_base_bytes(w), Ok(raw))
                    && a.ac.core.same_but_dtregs(b.ac.core)
                    && b.ac.core.dtregs == (if k == 2 {
                        crate::hardware::processor::descriptor::DTRegisters {
                            gdtr: crate::hardware::processor::descriptor::DescTbl { base: table_base(w, raw), limit: (lim % 0x1_0000) as u32 },
                            ..a.ac.core.dtregs
                        }
                    } else {
                        crate::hardware::processor::descriptor::DTRegisters {
                            idtr: crate::hardware::processor::descriptor::DescTbl { base: table_base(w, raw), limit: (lim % 0x1_0000) as u32 },
                            ..a.ac.core.dtregs
                        }
                    })
            },
        }
    }

    /// Opcode 0x0f01: loads the global (reg 2) or interrupt (reg 3) descriptor table register
    /// from a limit and a base (24 bits in 16-bit operand size) in memory.
    pub fn group_0f01(&mut self, w: Width) -> (r: Result<(), EmuException>)
        ensures
            Exec::group_0f01_spec(*old(self), *final(self), w, r),
    {
        let k = self.idata.modrm.reg;
        if k != 2 && k != 3 {
            return Err(EmuException::NotImplementedOpcode);
        }
        let ghost a = *self;
        let (sg, adr) = self.get_m()?;
        if self.ac.get_cpl()? > 0 {
            return Err(EmuException::CPUException(CPUException::GP(None)));
        }
        let limit = self.read_loc(Width::W16, Loc::Mem(sg, adr))?;
        let ghost m = self.ac;
        let raw = match w {
            Width::W64 => self.read_loc(Width::W64, Loc::Mem(sg, adr.wrapping_add(2)))?,
            _ => self.read_loc(Width::W32, Loc::Mem(sg, adr.wrapping_add(2)))?,
        };
        let ghost m2 = self.ac;
        let base = match w {
            Width::W64 | Width::W32 => raw,
            _ => raw & 0xff_ffff,
        };
        let r = if k == 2 {
            self.ac.set_gdtr(base, (limit % 0x1_0000) as u16)
        } else {
            self.ac.set_idtr(base, (limit % 0x1_0000) as u16)
        };
        proof {
            let n = table_base_bytes(w);
            assert(Access::loads(m, m2, sg, vstd::wrapping::u64_specs::wrapping_add(adr, 2), n, Ok(raw)));
            crate::emulator::access::memory::lemma_loads_core_free(m, m2, self.ac, sg, vstd::wrapping::u64_specs::wrapping_add(adr, 2), n, Ok(raw));
            assert(Access::loads(a.ac, m, sg, adr, 2, Ok(limit)));
            assert(base == table_base(w, raw));
        }
        r
    }
}

/// The ALU operation that a group's reg field names.
pub open spec fn alu_op_of(k: u8) -> Option<AluOp> {
    if k == 0 {
        Some(AluOp::Add)
    } else if k == 1 {
        Some(AluOp::Or)
    } else if k == 2 {
        Some(AluOp::Adc)
    } else if k == 3 {
        Some(AluOp::Sbb)
    } else if k == 4 {
        Some(AluOp::And)
    } else if k == 5 {
        Some(AluOp::Sub)
    } else if k == 6 {
        Some(AluOp::Xor)
    } else if k == 7 {
        Some(AluOp::Cmp)
    } else {
        None
    }
}

fn alu_op(k: u8) -> (op: Option<AluOp>)
    ensures
        op == alu_op_of(k),
{
    if k == 0 {
        Some(AluOp::Add)
    } else if k == 1 {
        Some(AluOp::Or)
    } else if k == 2 {
        Some(AluOp::Adc)
    } else if k == 3 {
        Some(AluOp::Sbb)
    } else if k == 4 {
        Some(AluOp::And)
    } else if k == 5 {
        Some(AluOp::Sub)
    } else if k == 6 {
        Some(AluOp::Xor)
    } else if k == 7 {
        Some(AluOp::Cmp)
    } else {
        None
    }
}

fn modulus_of(w: Width) -> (m: u128)
    ensures
        m == w.modulus(),
{
    match w {
        Width::W8 => 0x100,
        Width::W16 => 0x1_0000,
        Width::W32 => 0x1_0000_0000,
        Width::W64 => 0x1_0000_0000_0000_0000,
    }
}

/// What sign-extending a negative `w`-wide value to twice the width adds, modulo 2^128.
fn sign_fill(w: Width) -> (f: u128)
    ensures
        f <= 0xffff_ffff_ffff_ffff_0000_0000_0000_0000,
        f == span(w) * span(w) - span(w),
{
    match w {
        Width::W8 => {
            assert(span(w) * span(w) - span(w) == 0xff00) by (nonlinear_arith)
                requires
                    span(w) == 0x100,
            ;
            0xff00
        },
        Width::W16 => {
            assert(span(w) * span(w) - span(w) == 0xffff_0000) by (nonlinear_arith)
                requires
                    span(w) == 0x1_0000,
            ;
            0xffff_0000
        },
        Width::W32 => {
            assert(span(w) * span(w) - span(w) == 0xffff_ffff_0000_0000) by (nonlinear_arith)
                requires
                    span(w) == 0x1_0000_0000,
            ;
            0xffff_ffff_0000_0000
        },
        Width::W64 => {
            assert(span(w) * span(w) - span(w) == 0xffff_ffff_ffff_ffff_0000_0000_0000_0000) by (nonlinear_arith)
                requires
                    span(w) == 0x1_0000_0000_0000_0000,
            ;
            0xffff_ffff_ffff_ffff_0000_0000_0000_0000
        },
    }
}

impl Exec {
    /// What executing `i` does, as each operation's own contract states it.
    pub open spec fn performs(a: Exec, b: Exec, i: Instr, r: Result<(), EmuException>) -> bool {
        match i {
            Instr::Undefined => r == Err::<(), EmuException>(EmuException::UndefinedOpcode) && b == a,
            Instr::Nop => r is Ok && b == a,
            Instr::Alu(op, w, d, s) => Exec::alu_spec(a, b, op, w, d, s, r),
            Instr::AluGroup(w, s) => Exec::alu_group_spec(a, b, w, s, r),
            Instr::Inc(w, d) => Exec::inc_dec_spec(a, b, true, w, d, r),
            Instr::Dec(w, d) => Exec::inc_dec_spec(a, b, false, w, d, r),
            Instr::Imul3(w, s) => Exec::imul3_spec(a, b, w, s, r),
            Instr::Imul2(w) => Exec::imul2_spec(a, b, w, r),
            Instr::Test(w, d, s) => Exec::test_spec(a, b, w, d, s, r),
            Instr::Xchg(w, x, y) => Exec::xchg_spec(a, b, w, x, y, r),
            Instr::Mov(w, d, s) => Exec::mov_spec(a, b, w, d, s, r),
            Instr::Lea(w) => Exec::lea_spec(a, b, w, r),
            Instr::SignExtAcc(w) => Exec::sign_extend_acc_spec(a, b, w, r),
            Instr::SignExtDx(w) => Exec::sign_to_dx_spec(a, b, w, r),
            Instr::JmpRel(w) => Exec::jump_rel_spec(a, b, true, w, r),
            Instr::Jcc(c, n, w) => Exec::jump_rel_spec(a, b, cond_holds(a.ac.core.rflags, c) != n, w, r),
            Instr::Setcc(c, n) => Exec::setcc_spec(a, b, c, n, r),
            Instr::Movzx(dw, sw) => Exec::movx_spec(a, b, false, dw, sw, r),
            Instr::Movsx(dw, sw) => Exec::movx_spec(a, b, true, dw, sw, r),
            Instr::ShiftGroup(w, c) => Exec::shift_group_spec(a, b, w, c, r),
            Instr::GroupF7(w) => Exec::group_f7_spec(a, b, w, r),
            Instr::GroupFF(w) => Exec::group_ff_done(a, b, w, r),
            Instr::Group0F00 => Exec::group_0f00_done(a, b, r),
            Instr::Group0F01(w) => Exec::group_0f01_spec(a, b, w, r),
            Instr::Int3 => r == Err::<(), EmuException>(EmuException::Interrupt(3)) && b == a,
            Instr::IntImm8 => b == a && r == (match a.idata.imm {
                Some(v) => Err::<(), EmuException>(EmuException::Interrupt((v % 0x100) as u8)),
                None => Err::<(), EmuException>(EmuException::UnexpectedError),
            }),
            Instr::Into => r == Err::<(), EmuException>(EmuException::Interrupt(4)) && b == a,
            Instr::Hlt => r == Err::<(), EmuException>(EmuException::Halt) && b == a,
            Instr::Cli => r is Ok && Exec::flags_become(a, b, RFlags { IF: 0, ..a.ac.core.rflags }),
            Instr::Sti => r is Ok && Exec::flags_become(a, b, RFlags { IF: 1, ..a.ac.core.rflags }),
            Instr::Cld => r is Ok && Exec::flags_become(a, b, RFlags { DF: 0, ..a.ac.core.rflags }),
            Instr::Std => r is Ok && Exec::flags_become(a, b, RFlags { DF: 1, ..a.ac.core.rflags }),
            Instr::Push(w, src) => Exec::push_opnd_done(a, b, w, src, r),
            Instr::Pop(w, dst) => Exec::pop_opnd_done(a, b, w, dst, r),
            Instr::Pusha(w) => Exec::push_all_done(a, b, w, r),
            Instr::Popa(w) => Exec::pop_all_done(a, b, w, r),
            Instr::CallF(w) => Exec::far_ptr_done(a, b, w, true, r),
            Instr::JmpF(w) => Exec::far_ptr_done(a, b, w, false, r),
            Instr::PushF(w) => Exec::push_flags_done(a, b, w, r),
            Instr::PopF(w) => Exec::pop_flags_done(a, b, w, r),
            Instr::Str(op, dw, ow) => Exec::string_op_done(a, b, op, dw, ow, r),
            Instr::Ret(w) => Exec::ret_near_done(a, b, w, r),
            Instr::RetF(w) => Exec::ret_far_done(a, b, w, r),
            Instr::IRet(w) => Exec::int_ret_done(a, b, w, r),
            Instr::Leave(w) => Exec::leave_done(a, b, w, r),
            Instr::In(w, p) => Exec::port_input_done(a, b, w, p, r),
            Instr::Out(w, p) => Exec::port_output_done(a, b, w, p, r),
            Instr::CallRel(w) => Exec::call_rel_done(a, b, w, r),
            Instr::MovR32Cr => Exec::cr_to_reg_done(a, b, r),
            Instr::MovCrR32 => Exec::cr_from_reg_done(a, b, r),
        }
    }

    /// Executes `i`.
    pub fn perform(&mut self, i: Instr) -> (r: Result<(), EmuException>)
        ensures
            Exec::performs(*old(self), *final(self), i, r),
    {
        match i {
            Instr::Undefined => Err(EmuException::UndefinedOpcode),
            Instr::Nop => Ok(()),
            Instr::Alu(op, w, d, s) => self.alu(op, w, d, s),
            Instr::AluGroup(w, s) => self.alu_group(w, s),
            Instr::Inc(w, d) => self.inc_dec(true, w, d),
            Instr::Dec(w, d) => self.inc_dec(false, w, d),
            Instr::Push(w, s) => self.push_opnd(w, s),
            Instr::Pop(w, d) => self.pop_opnd(w, d),
            Instr::Pusha(w) => self.push_all(w),
            Instr::Popa(w) => self.pop_all(w),
            Instr::Imul3(w, s) => self.imul3(w, s),
            Instr::Imul2(w) => self.imul2(w),
            Instr::Test(w, d, s) => self.test(w, d, s),
            Instr::Xchg(w, x, y) => self.xchg(w, x, y),
            Instr::Mov(w, d, s) => self.mov(w, d, s),
            Instr::Lea(w) => self.lea(w),
            Instr::SignExtAcc(w) => self.sign_extend_acc(w),
            Instr::SignExtDx(w) => self.sign_to_dx(w),
            Instr::CallF(w) => self.far_ptr(w, true),
            Instr::JmpF(w) => self.far_ptr(w, false),
            Instr::PushF(w) => self.push_flags(w),
            Instr::PopF(w) => self.pop_flags(w),
            Instr::Str(op, dw, ow) => self.string_op(op, dw, ow),
            Instr::Ret(w) => self.ret_near(w),
            Instr::RetF(w) => self.ret_far(w),
            Instr::IRet(w) => self.int_ret(w),
            Instr::Leave(w) => self.leave(w),
            Instr::In(w, p) => self.port_input(w, p),
            Instr::Out(w, p) => self.port_output(w, p),
            Instr::CallRel(w) => self.call_rel(w),
            Instr::JmpRel(w) => self.jump_rel(true, w),
            Instr::Jcc(c, n, w) => {
                let taken = self.check_cond(c) != n;
                self.jump_rel(taken, w)
            },
            Instr::Setcc(c, n) => self.setcc(c, n),
            Instr::Movzx(dw, sw) => self.movx(false, dw, sw),
            Instr::Movsx(dw, sw) => self.movx(true, dw, sw),
            Instr::ShiftGroup(w, c) => self.shift_group(w, c),
            Instr::GroupF7(w) => self.group_f7(w),
            Instr::GroupFF(w) => self.group_ff(w),
            Instr::Group0F00 => self.group_0f00(),
            Instr::Group0F01(w) => self.group_0f01(w),
            Instr::Int3 => Err(EmuException::Interrupt(3)),
            Instr::IntImm8 => match self.get_imm8() {
                Ok(v) => Err(EmuException::Interrupt(v)),
                Err(e) => Err(e),
            },
            Instr::Into => Err(EmuException::Interrupt(4)),
            Instr::Hlt => Err(EmuException::Halt),
            Instr::Cli => {
                self.ac.core.rflags.set_interrupt(false);
                Ok(())
            },
            Instr::Sti => {
                self.ac.core.rflags.set_interrupt(true);
                Ok(())
            },
            Instr::Cld => {
                self.ac.core.rflags.set_direction(false);
                Ok(())
            },
            Instr::Std => {
                self.ac.core.rflags.set_direction(true);
                Ok(())
            },
            Instr::MovR32Cr => self.cr_to_reg(),
            Instr::MovCrR32 => self.cr_from_reg(),
        }
    }
}

/// A comparison decides the conditions: after `cmp d, s` (the flags of `d - s`), "below"
/// holds exactly when `d < s`, "zero" exactly when `d == s`, "below or equal" exactly when
/// `d <= s`, "less" exactly when `d < s` as signed numbers, "less or equal" exactly when
/// `d <= s` as signed numbers, "overflow" exactly when the signed difference does not fit the
/// width, "sign" exactly when the difference modulo the width has its top bit set, and
/// "parity" exactly when the low byte of the difference has an even number of set bits.
pub proof fn law_compare_conditions(f: RFlags, w: Width, d: u64, s: u64)
    requires
        d < w.modulus(),
        s < w.modulus(),
    ensures
        cond_holds(sub_flags(f, w, d, s), Cond::B) <==> d < s,
        cond_holds(sub_flags(f, w, d, s), Cond::Z) <==> d == s,
        cond_holds(sub_flags(f, w, d, s), Cond::BE) <==> d <= s,
        cond_holds(sub_flags(f, w, d, s), Cond::L) <==> super::flag::signed(w, d) < super::flag::signed(w, s),
        cond_holds(sub_flags(f, w, d, s), Cond::LE) <==> super::flag::signed(w, d) <= super::flag::signed(w, s),
        cond_holds(sub_flags(f, w, d, s), Cond::O) <==> !(-(w.half() as int) <= super::flag::signed(w, d) - super::flag::signed(w, s) < w.half()),
        cond_holds(sub_flags(f, w, d, s), Cond::S) <==> (d - s) % (w.modulus() as int) >= w.half(),
        cond_holds(sub_flags(f, w, d, s), Cond::P) <==> super::flag::ones(((d - s) % 0x100) as nat) % 2 == 0,
        alu_flags(AluOp::Cmp, f, w, d, s, carry_in(f)) == sub_flags(f, w, d, s),
{
    let r = wsub(w, d, s);
    let m = w.modulus() as int;
    assert(r == 0 <==> d == s);
    assert(w.half() * 2 == w.modulus());
    assert(m % 0x100 == 0);
    if d >= s {
        assert(r == d - s);
        vstd::arithmetic::div_mod::lemma_small_mod((d - s) as nat, m as nat);
    } else {
        assert(r == d - s + m);
        vstd::arithmetic::div_mod::lemma_mod_add_multiples_vanish(d - s, m);
        vstd::arithmetic::div_mod::lemma_small_mod((d - s + m) as nat, m as nat);
        let k: int = m / 0x100;
        assert(m == 0x100 * k);
        assert((d - s + m) % 0x100 == (d - s) % 0x100) by {
            vstd::arithmetic::div_mod::lemma_mod_multiples_vanish(k, d - s, 0x100);
        }
    }
}

/// Logical operations clear carry and overflow, and the zero flag tells whether the result
/// is zero.
pub proof fn law_logic_flags(op: AluOp, f: RFlags, w: Width, d: u64, s: u64, c: u64)
    requires
        op == AluOp::And || op == AluOp::Or || op == AluOp::Xor,
    ensures
        alu_flags(op, f, w, d, s, c).CF == 0,
        alu_flags(op, f, w, d, s, c).OF == 0,
        alu_flags(op, f, w, d, s, c).ZF == 1 <==> alu_value(op, w, d, s, c) == 0,
{
}

/// Subtracting what was added gives the value back: `(d + s) - s == d` at every width.
pub proof fn law_add_sub_inverse(w: Width, d: u64, s: u64)
    requires
        d < w.modulus(),
        s < w.modulus(),
    ensures
        alu_value(AluOp::Sub, w, alu_value(AluOp::Add, w, d, s, 0), s, 0) == d,
{
    let m = w.modulus();
    let t = wadd(w, d, s);
    if d + s >= m {
        assert((d + s) as nat % m == d + s - m) by {
            vstd::arithmetic::div_mod::lemma_fundamental_div_mod((d + s) as int, m as int);
        }
    } else {
        assert((d + s) as nat % m == d + s) by {
            vstd::arithmetic::div_mod::lemma_small_mod((d + s) as nat, m);
        }
    }
}

/// The width of a port access of operand width `w`: at most a doubleword.
pub open spec fn port_width(w: Width) -> Width {
    match w {
        Width::W8 => Width::W8,
        Width::W16 => Width::W16,
        _ => Width::W32,
    }
}

/// How many bytes a port access of width `w` moves: at most a doubleword.
pub open spec fn port_bytes_of(w: Width) -> nat {
    match w {
        Width::W8 => 1,
        Width::W16 => 2,
        _ => 4,
    }
}

/// What reading port `p` with width `w` gives, cut to the width.
pub open spec fn port_value(ac: Access, w: Width, p: u16) -> u64 {
    trunc(w, crate::hardware::memory::le_value(ac.dev.port_bytes(p, port_bytes_of(w)), 0, port_bytes_of(w)) as u64)
}

impl Access {
    /// `b` is `a` after pushing the values `vals` with width `w`, one after another, each
    /// push succeeding.
    pub open spec fn pushes_all(a: Access, b: Access, w: Width, vals: Seq<u64>) -> bool
        decreases vals.len(),
    {
        if vals.len() == 0 {
            b == a
        } else {
            exists|m: Access| #[trigger] Access::pushes(m, b, w, vals.last(), Ok(()))
                && Access::pushes_all(a, m, w, vals.drop_last())
        }
    }
}

impl Access {
    /// `b` is `a` after the first `vals.len()` steps of `popa`, which popped `vals` in order:
    /// step `k` (from 1) pops into register `8 - k`, but for the stack pointer's slot, which
    /// is left for the end.
    pub open spec fn popa_steps(a: Access, b: Access, w: Width, vals: Seq<u64>) -> bool
        decreases vals.len(),
    {
        if vals.len() == 0 {
            b == a
        } else {
            exists|m: Access, m1: Access| #[trigger] Access::pops(m, m1, w, Ok(vals.last()))
                && Access::popa_steps(a, m, w, vals.drop_last())
                && Access::popa_step(m1, b, w, vals)
        }
    }

    /// `b` is `m1` after the register write of the step of `popa` that popped the last of
    /// `vals`.
    pub open spec fn popa_step(m1: Access, b: Access, w: Width, vals: Seq<u64>) -> bool {
        let i = 8 - vals.len();
        if i == 4 {
            b == m1
        } else {
            Access::gpregs_become(m1, b, m1.core.gpregs@.update(i, put(w, m1.core.gpregs@[i], trunc(w, vals.last()))))
        }
    }
}

} // verus!
