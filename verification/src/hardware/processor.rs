pub mod ip;
pub mod general;
pub mod rflags;
pub mod segment;
pub mod control;
pub mod descriptor;
pub mod model_specific;

use vstd::prelude::*;

verus! {

/// The architectural state of one processor core.
pub struct Processor {
    pub ip: ip::InstructionPointer,
    pub gpregs: general::GpRegisters,
    pub rflags: rflags::RFlags,
    pub cregs: control::CRegisters,
    pub sgregs: segment::SgRegisters,
    pub dtregs: descriptor::DTRegisters,
    pub msr: model_specific::ModelSpecific,
}

impl Processor {
    /// The state after reset: execution starts at `rst_vct`, every register is zero except the
    /// reserved flag bit and the segment and table limits, which are 0xffff.
    pub open spec fn is_reset(self, rst_vct: u64) -> bool {
        &&& self.ip.0 == rst_vct
        &&& self.gpregs@ == Seq::new(general::GPREGS_COUNT as nat, |i: int| 0u64)
        &&& self.rflags == rflags::RFlags::zero()
        &&& self.cregs == control::CRegisters::reset()
        &&& self.sgregs@ == Seq::new(segment::SGREGS_COUNT as nat, |i: int| segment::SgRegUnit::reset())
        &&& self.dtregs == descriptor::DTRegisters::reset()
        &&& self.msr.is_reset()
    }

    /// Whether `o` agrees with `self` in every register but the general purpose ones.
    pub open spec fn same_but_gpregs(self, o: Self) -> bool {
        self.ip == o.ip && self.rflags == o.rflags && self.cregs == o.cregs && self.sgregs == o.sgregs
            && self.dtregs == o.dtregs && self.msr == o.msr
    }

    /// Whether `o` agrees with `self` in every register but the instruction pointer.
    pub open spec fn same_but_ip(self, o: Self) -> bool {
        self.gpregs == o.gpregs && self.rflags == o.rflags && self.cregs == o.cregs && self.sgregs == o.sgregs
            && self.dtregs == o.dtregs && self.msr == o.msr
    }

    /// Whether `o` agrees with `self` in every register but the flags.
    pub open spec fn same_but_rflags(self, o: Self) -> bool {
        self.ip == o.ip && self.gpregs == o.gpregs && self.cregs == o.cregs && self.sgregs == o.sgregs
            && self.dtregs == o.dtregs && self.msr == o.msr
    }

    /// Whether `o` agrees with `self` in every register but the control registers.
    pub open spec fn same_but_cregs(self, o: Self) -> bool {
        self.ip == o.ip && self.gpregs == o.gpregs && self.rflags == o.rflags && self.sgregs == o.sgregs
            && self.dtregs == o.dtregs && self.msr == o.msr
    }

    /// Whether `o` agrees with `self` in every register but the segment registers.
    pub open spec fn same_but_sgregs(self, o: Self) -> bool {
        self.ip == o.ip && self.gpregs == o.gpregs && self.rflags == o.rflags && self.cregs == o.cregs
            && self.dtregs == o.dtregs && self.msr == o.msr
    }

    /// Whether `o` agrees with `self` in every register but the descriptor table registers.
    pub open spec fn same_but_dtregs(self, o: Self) -> bool {
        self.ip == o.ip && self.gpregs == o.gpregs && self.rflags == o.rflags && self.cregs == o.cregs
            && self.sgregs == o.sgregs && self.msr == o.msr
    }

    /// Whether `o` agrees with `self` in every register but the model-specific ones.
    pub open spec fn same_but_msr(self, o: Self) -> bool {
        self.ip == o.ip && self.gpregs == o.gpregs && self.rflags == o.rflags && self.cregs == o.cregs
            && self.sgregs == o.sgregs && self.dtregs == o.dtregs
    }

    pub fn new(rst_vct: u64) -> (p: Self)
        ensures
            p.is_reset(rst_vct),
    {
        Self {
            ip: ip::InstructionPointer::new(rst_vct),
            gpregs: general::GpRegisters::new(),
            rflags: Default::default(),
            cregs: Default::default(),
            sgregs: segment::SgRegisters::new(),
            dtregs: Default::default(),
            msr: Default::default(),
        }
    }
}

impl Processor {
    /// The width in bytes of the registers as the code segment runs: 2 or 4 by CS.D outside
    /// 64-bit code, 8 for 64-bit code; `None` for a code segment that is both 64-bit and D.
    pub open spec fn code_width(self) -> Option<u8> {
        let lma = self.msr.efer.LMA;
        let cs = self.sgregs@[segment::SgReg::CS.num() as int].cache;
        if (lma == 1 && cs.L == 0 && cs.DB == 0) || (lma == 0 && cs.DB == 0) {
            Some(2)
        } else if (lma == 1 && cs.L == 0 && cs.DB == 1) || (lma == 0 && cs.DB == 1) {
            Some(4)
        } else if lma == 1 && cs.L == 1 && cs.DB == 0 {
            Some(8)
        } else {
            None
        }
    }

    /// The width of the registers that a register dump shows.
    pub fn reg_width(&self) -> (w: Option<u8>)
        ensures
            w == self.code_width(),
    {
        let lma = self.msr.efer.LMA;
        let cs = self.sgregs.get(segment::SgReg::CS).cache;
        if (lma == 1 && cs.L == 0 && cs.DB == 0) || (lma == 0 && cs.DB == 0) {
            Some(2)
        } else if (lma == 1 && cs.L == 0 && cs.DB == 1) || (lma == 0 && cs.DB == 1) {
            Some(4)
        } else if lma == 1 && cs.L == 1 && cs.DB == 0 {
            Some(8)
        } else {
            None
        }
    }
}

} // verus!
