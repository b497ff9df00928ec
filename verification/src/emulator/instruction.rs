pub mod parse;
pub mod opcode;
pub mod exec;

use vstd::prelude::*;
use crate::emulator::{EmuException, CPUException};
use crate::emulator::access::{Access, AcsSize, OpAdSize, same_but_core_tlb, unchanged_but_tlb};
use crate::emulator::access::register::IpAccess;
use crate::hardware::Hardware;
use crate::device::Device;
use parse::{ParseInstr, PrefixData, OverrideSize, ReadOutcome};
use opcode::{Opcode, MAX_OPCODE, exec_entry, table_entry};
use exec::Exec;

verus! {

/// The instruction unit: the opcode tables it decodes and executes with.
pub struct Instruction(pub Opcode);

/// The operand size after a REX.W prefix and an operand-size override.
pub open spec fn op_size_of(op: AcsSize, pdata: PrefixData) -> AcsSize {
    let op1 = match pdata.rex {
        Some(r) => if r.w == 1 { AcsSize::BIT64 } else { op },
        None => op,
    };
    if pdata.size.bits & OverrideSize::OP == OverrideSize::OP {
        match op1 {
            AcsSize::BIT16 => AcsSize::BIT32,
            AcsSize::BIT32 => AcsSize::BIT16,
            AcsSize::BIT64 => AcsSize::BIT64,
        }
    } else {
        op1
    }
}

/// The address size after an address-size override.
pub open spec fn ad_size_of(ad: AcsSize, pdata: PrefixData) -> AcsSize {
    if pdata.size.bits & OverrideSize::AD == OverrideSize::AD {
        match ad {
            AcsSize::BIT16 => AcsSize::BIT32,
            AcsSize::BIT32 => AcsSize::BIT16,
            AcsSize::BIT64 => AcsSize::BIT32,
        }
    } else {
        ad
    }
}

/// Decoding the instruction at the instruction pointer of `a`: its prefixes, its opcode,
/// then the operands that the opcode's entry in the table of the instruction's operand size
/// announces, read with the instruction's address size; the result, the decoded instruction
/// and the TLB afterwards.
pub open spec fn decoded(a: Access) -> ReadOutcome {
    let (r1, p1, t1) = ParseInstr::empty().prefix_read(a, a.tlb@);
    if r1 is Err {
        (r1, p1, t1)
    } else {
        let (r2, p2, t2) = p1.opcode_read(a, t1);
        if r2 is Err {
            (r2, p2, t2)
        } else {
            p2.oprand_read(a, t2, table_entry(op_size_of(a.oasz.op, p2.prefix), p2.instr.opcode as int).flag,
                ad_size_of(a.oasz.ad, p2.prefix))
        }
    }
}

/// `b` is `a` after fetching and executing one instruction gave `r`: a fault in decoding
/// (`decoded`) is the result and changes nothing but the TLB; otherwise the instruction
/// pointer moves past the decoded instruction, which is executed (`Exec::performs`) with
/// the opcode table of its operand size; its error is the result, and after a success a
/// set trap flag gives a debug exception.
pub open spec fn fetch_executes(a: Access, b: Access, r: Result<(), EmuException>) -> bool {
    let (dr, p, t) = decoded(a);
    if dr is Err {
        r == dr && unchanged_but_tlb(a, b) && b.tlb@ == t
    } else {
        exists|e: Exec, s: Exec, res: Result<(), EmuException>|
            #[trigger] Exec::performs(e, s, table_entry(op_size_of(a.oasz.op, p.prefix), p.instr.opcode as int).func, res)
            && e.idata == p.instr && e.pdata == p.prefix
            && same_but_core_tlb(a, e.ac) && a.core.same_but_ip(e.ac.core) && e.ac.tlb@ == t
            && e.ac.core.ip.0 == vstd::wrapping::u64_specs::wrapping_add_signed(a.core.ip.0, p.instr.len as i64)
            && s.ac == b
            && r == (match res {
                Ok(()) => if b.core.rflags.TF != 0 {
                    Err(EmuException::CPUException(CPUException::DB))
                } else {
                    Ok(())
                },
                Err(x) => Err(x),
            })
    }
}

impl Instruction {
    pub open spec fn wf(self) -> bool {
        self.0.wf()
    }

    pub fn new() -> (i: Self)
        ensures
            i.wf(),
    {
        Self(Opcode::new())
    }

    /// The operand and address sizes of an instruction with prefixes `pdata` under the
    /// default sizes `size`.
    pub fn opad_size(size: &OpAdSize, pdata: &PrefixData) -> (s: OpAdSize)
        ensures
            s.op == op_size_of(size.op, *pdata),
            s.ad == ad_size_of(size.ad, *pdata),
    {
        let mut op = size.op;
        let mut ad = size.ad;
        if let Some(r) = pdata.rex {
            if r.w == 1 {
                op = AcsSize::BIT64;
            }
        }
        if pdata.size.contains(OverrideSize::OP) {
            op = match op {
                AcsSize::BIT16 => AcsSize::BIT32,
                AcsSize::BIT32 => AcsSize::BIT16,
                AcsSize::BIT64 => AcsSize::BIT64,
            };
        }
        if pdata.size.contains(OverrideSize::AD) {
            ad = match ad {
                AcsSize::BIT16 => AcsSize::BIT32,
                AcsSize::BIT32 => AcsSize::BIT16,
                AcsSize::BIT64 => AcsSize::BIT32,
            };
        }
        OpAdSize { op, ad }
    }

    /// Decodes the instruction at the instruction pointer, moves the pointer past it and
    /// executes it with the table of its operand size; with the trap flag set afterwards, a
    /// debug exception.
    pub fn fetch_exec(&mut self, ac: &mut Access) -> (r: Result<(), EmuException>)
        requires
            old(self).wf(),
        ensures
            final(self).wf(),
            *final(self) == *old(self),
            r is Ok ==> final(ac).core.rflags.TF == 0,
            fetch_executes(*old(ac), *final(ac), r),
    {
        let mut parse = ParseInstr::default();
        let r1 = parse.parse_prefix(ac);
        r1?;
        let size = Instruction::opad_size(&ac.oasz, &parse.prefix);
        let op = self.0.get(size.op);
        let ghost a2 = *ac;
        let ghost p2 = parse;
        let r2 = parse.parse_opcode(ac);
        proof {
            ParseInstr::lemma_opcode_read_same(p2, *old(ac), a2, a2.tlb@);
        }
        r2?;
        let flag = op[parse.instr.opcode as usize].flag;
        let ghost a3 = *ac;
        let ghost p3 = parse;
        let r3 = parse.parse_oprand(ac, flag, size.ad);
        proof {
            ParseInstr::lemma_oprand_read_same(p3, *old(ac), a3, a3.tlb@, flag, size.ad);
            assert((r3, parse, ac.tlb@) == decoded(*old(ac)));
        }
        r3?;
        ac.update_ip(parse.instr.len as i64)?;

        let mut held = Access::new(Hardware::new(0), Device::new());
        std::mem::swap(&mut held, ac);
        let mut exe = Exec::new(held, &parse);
        let ghost e0 = exe;
        let res = exec_entry(op, &mut exe);
        let ghost s0 = exe;
        std::mem::swap(ac, &mut exe.ac);
        proof {
            assert(Exec::performs(e0, s0, table_entry(op_size_of(old(ac).oasz.op, parse.prefix), parse.instr.opcode as int).func, res));
        }
        res?;
        if ac.core.rflags.is_trap() {
            Err(EmuException::CPUException(CPUException::DB))
        } else {
            Ok(())
        }
    }
}

} // verus!
