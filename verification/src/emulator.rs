pub mod access;
pub mod instruction;
pub mod interrupt;

use vstd::prelude::*;
use crate::hardware::{self, Hardware};
use crate::hardware::memory::in_bounds;
use crate::hardware::processor::general::low32;
use crate::device::Device;
use access::Access;
use instruction::Instruction;
use interrupt::{Interrupt, IntrEvent};

verus! {

/// A fault or trap that the processor raises.
#[derive(Clone, Copy, PartialEq, Eq, Structural, Debug)]
pub enum CPUException {
    DE,
    DB,
    BP,
    OF,
    BR,
    UD,
    NM,
    DF,
    TS,
    NP,
    SS(Option<u16>),
    GP(Option<u16>),
    PF(u64),
    MF,
    AC,
    MC,
    XF,
    VE,
    SX,
}

impl CPUException {
    /// The interrupt vector of the exception.
    pub open spec fn spec_vector(self) -> u8 {
        match self {
            CPUException::DE => 0,
            CPUException::DB => 1,
            CPUException::BP => 3,
            CPUException::OF => 4,
            CPUException::BR => 5,
            CPUException::UD => 6,
            CPUException::NM => 7,
            CPUException::DF => 8,
            CPUException::TS => 10,
            CPUException::NP => 11,
            CPUException::SS(_) => 12,
            CPUException::GP(_) => 13,
            CPUException::PF(_) => 14,
            CPUException::MF => 16,
            CPUException::AC => 17,
            CPUException::MC => 18,
            CPUException::XF => 19,
            CPUException::VE => 20,
            CPUException::SX => 30,
        }
    }

    pub fn vector(&self) -> (v: u8)
        ensures
            v == self.spec_vector(),
    {
        match self {
            CPUException::DE => 0,
            CPUException::DB => 1,
            CPUException::BP => 3,
            CPUException::OF => 4,
            CPUException::BR => 5,
            CPUException::UD => 6,
            CPUException::NM => 7,
            CPUException::DF => 8,
            CPUException::TS => 10,
            CPUException::NP => 11,
            CPUException::SS(_) => 12,
            CPUException::GP(_) => 13,
            CPUException::PF(_) => 14,
            CPUException::MF => 16,
            CPUException::AC => 17,
            CPUException::MC => 18,
            CPUException::XF => 19,
            CPUException::VE => 20,
            CPUException::SX => 30,
        }
    }
}

impl From<&CPUException> for u8 {
    fn from(e: &CPUException) -> (v: u8) {
        e.vector()
    }
}

impl vstd::std_specs::convert::FromSpecImpl<&CPUException> for u8 {
    open spec fn obeys_from_spec() -> bool {
        true
    }

    open spec fn from_spec(e: &CPUException) -> u8 {
        e.spec_vector()
    }
}

/// Why the emulator stopped executing an instruction.
#[derive(Clone, Copy, PartialEq, Eq, Structural, Debug)]
pub enum EmuException {
    CPUException(CPUException),
    Interrupt(u8),
    Halt,
    UndefinedOpcode,
    NotImplementedOpcode,
    NotImplementedFunction,
    UnexpectedError,
}


/// The emulator: the machine as the instructions see it, the instruction unit, the waiting
/// interrupts, whether the processor is halted, and the addresses a debugger breaks at.
pub struct Emulator {
    pub ac: Access,
    pub inst: Instruction,
    pub intrpt: Interrupt,
    pub halt: bool,
    pub breakpoints: Vec<u32>,
}

/// What a step reports to a debugger.
#[derive(Clone, Copy, PartialEq, Eq, Structural, Debug)]
pub enum Event {
    Halted,
    Break,
    WatchWrite(u32),
    WatchRead(u32),
}

/// Whether `bps` holds `ip`.
pub open spec fn breaks_at(bps: Seq<u32>, ip: u32) -> bool {
    exists|i: int| 0 <= i < bps.len() && bps[i] == ip
}

/// The event that ends a step: a breakpoint at the instruction pointer when debugged, else
/// the halt.
pub open spec fn step_event(debugged: bool, bps: Seq<u32>, ip: u64, halt: bool) -> Option<Event> {
    if debugged && breaks_at(bps, low32(ip)) {
        Some(Event::Break)
    } else if halt {
        Some(Event::Halted)
    } else {
        None
    }
}

/// Whether a step's result is a success, forgetting what it reports.
pub open spec fn outcome_of(r: Result<(Option<Event>, bool), EmuException>) -> Result<(), EmuException> {
    match r {
        Ok(_) => Ok(()),
        Err(e) => Err(e),
    }
}

impl Emulator {
    pub open spec fn wf(self) -> bool {
        self.inst.wf()
    }

    /// An emulator of `hw` and `dev`, running, with no interrupt waiting and no breakpoint; its
    /// processor starts in real mode as `Access::new` sets it up.
    pub fn new(hw: Hardware, dev: Device) -> (e: Self)
        ensures
            e.wf(),
            e.ac.core == hw.core,
            e.ac.mem@ == hw.mem@,
            access::dev_same(e.ac.dev, dev),
            e.ac.mode == access::CpuMode::Real,
            e.ac.oasz == (access::OpAdSize { op: access::AcsSize::BIT16, ad: access::AcsSize::BIT16 }),
            e.ac.stsz == access::AcsSize::BIT16,
            e.ac.pgmd is None,
            e.ac.tlb@ == access::memory::TLBView::empty(),
            !e.ac.a20gate,
            !e.halt,
            e.intrpt.0@ == Seq::<IntrEvent>::empty(),
            e.breakpoints@ == Seq::<u32>::empty(),
    {
        Emulator {
            ac: Access::new(hw, dev),
            inst: Instruction::new(),
            intrpt: Interrupt::default(),
            halt: false,
            breakpoints: Vec::new(),
        }
    }

    /// Lets a halted processor run again.
    pub fn wake(&mut self)
        ensures
            !final(self).halt,
            final(self).ac == old(self).ac,
            final(self).inst == old(self).inst,
            final(self).intrpt.0@ == old(self).intrpt.0@,
            final(self).breakpoints@ == old(self).breakpoints@,
    {
        self.halt = false;
    }

    /// Whether the breakpoints hold `ip`.
    fn at_breakpoint(&self, ip: u32) -> (b: bool)
        ensures
            b == breaks_at(self.breakpoints@, ip),
    {
        let mut i: usize = 0;
        while i < self.breakpoints.len()
            invariant
                i <= self.breakpoints@.len(),
                forall|k: int| 0 <= k < i ==> self.breakpoints@[k] != ip,
            decreases self.breakpoints@.len() - i,
        {
            if self.breakpoints[i] == ip {
                return true;
            }
            i += 1;
        }
        false
    }

    /// `b` is `a` after settling the outcome `res` of executing an instruction: an interrupt
    /// it raises is queued first, a breakpoint exception asks for a register dump (`r` is
    /// `Ok(true)`), a page fault records its address in CR2, `hlt` halts; any other
    /// exception or error is returned and changes nothing.
    pub open spec fn settled(a: Emulator, b: Emulator, res: Result<(), EmuException>, r: Result<bool, EmuException>) -> bool {
        &&& b.inst == a.inst
        &&& b.breakpoints@ == a.breakpoints@
        &&& match res {
            Err(EmuException::Interrupt(i)) => r == Ok::<bool, EmuException>(false) && b.ac == a.ac && b.halt == a.halt
                && b.intrpt.0@ == seq![IntrEvent::Software(i)] + a.intrpt.0@,
            Err(EmuException::CPUException(CPUException::BP)) => r == Ok::<bool, EmuException>(true) && b.ac == a.ac
                && b.halt == a.halt && b.intrpt.0@ == a.intrpt.0@,
            Err(EmuException::CPUException(CPUException::PF(laddr))) => r == Ok::<bool, EmuException>(false)
                && b.ac.core.cregs == crate::hardware::processor::control::CRegisters(a.ac.core.cregs.0, a.ac.core.cregs.1,
                    crate::hardware::processor::control::CR2(laddr), a.ac.core.cregs.3, a.ac.core.cregs.4)
                && a.ac.core.same_but_cregs(b.ac.core) && access::same_but_core(a.ac, b.ac)
                && b.halt == a.halt && b.intrpt.0@ == a.intrpt.0@,
            Err(EmuException::Halt) => r == Ok::<bool, EmuException>(false) && b.ac == a.ac && b.halt
                && b.intrpt.0@ == a.intrpt.0@,
            Err(e) => r == Err::<bool, EmuException>(e) && b.ac == a.ac && b.halt == a.halt && b.intrpt.0@ == a.intrpt.0@,
            Ok(()) => r == Ok::<bool, EmuException>(false) && b.ac == a.ac && b.halt == a.halt && b.intrpt.0@ == a.intrpt.0@,
        }
    }

    /// Settles the outcome `res` of executing an instruction.
    fn settle(&mut self, res: Result<(), EmuException>) -> (r: Result<bool, EmuException>)
        ensures
            Emulator::settled(*old(self), *final(self), res, r),
    {
        match res {
            Err(EmuException::Interrupt(i)) => {
                self.intrpt.enqueue_top(IntrEvent::Software(i));
                Ok(false)
            },
            Err(EmuException::CPUException(e)) => match e {
                CPUException::BP => Ok(true),
                CPUException::PF(laddr) => {
                    self.ac.core.cregs.2.from_u64(laddr);
                    Ok(false)
                },
                _ => Err(EmuException::CPUException(e)),
            },
            Err(EmuException::Halt) => {
                self.halt = true;
                Ok(false)
            },
            Err(err) => Err(err),
            Ok(()) => Ok(false),
        }
    }

    /// `b` is `a` after a device's interrupt request, when interrupts are enabled and one is
    /// pending, was queued behind the waiting interrupts, waking the processor.
    pub open spec fn irq_queued(a: Emulator, b: Emulator) -> bool {
        &&& b.inst == a.inst
        &&& b.breakpoints@ == a.breakpoints@
        &&& b.ac.core == a.ac.core
        &&& b.ac.mem@ == a.ac.mem@
        &&& b.ac.mode == a.ac.mode
        &&& b.ac.tlb@ == a.ac.tlb@
        &&& if a.ac.core.rflags.IF != 0 && a.ac.dev.irq_queue@.len() > 0 {
            &&& b.intrpt.0@ == a.intrpt.0@.push(IntrEvent::Hardware(a.ac.dev.irq_queue@[0]))
            &&& !b.halt
            &&& b.ac.dev.irq_queue@ == a.ac.dev.irq_queue@.drop_first()
        } else {
            &&& b.intrpt.0@ == a.intrpt.0@
            &&& b.halt == a.halt
            &&& b.ac.dev.irq_queue@ == a.ac.dev.irq_queue@
        }
    }

    /// `b` is `a` after the next waiting interrupt, if any, was taken as `vector_taken`
    /// says; an exception that taking it raises is queued first, another error is returned.
    pub open spec fn intr_handled(a: Emulator, b: Emulator, r: Result<(), EmuException>) -> bool {
        &&& b.inst == a.inst
        &&& b.breakpoints@ == a.breakpoints@
        &&& b.halt == a.halt
        &&& if a.intrpt.0@.len() == 0 {
            r is Ok && b.ac == a.ac && b.intrpt.0@ == a.intrpt.0@
        } else {
            let (n, hw) = interrupt::event_vector(a.intrpt.0@[0]);
            let rest = a.intrpt.0@.drop_first();
            exists|hr: Result<(), EmuException>| #[trigger] interrupt::vector_taken(a.ac, b.ac, n, hw, hr) && match hr {
                Err(EmuException::CPUException(e)) => r is Ok && b.intrpt.0@ == seq![IntrEvent::Hardware(e.spec_vector())] + rest,
                Err(err) => r == Err::<(), EmuException>(err) && b.intrpt.0@ == rest,
                Ok(()) => r is Ok && b.intrpt.0@ == rest,
            }
        }
    }

    /// Queues a device's interrupt request, then takes the next waiting interrupt.
    fn service(&mut self, debugged: bool) -> (r: Result<(), EmuException>)
        ensures
            exists|m: Emulator| #[trigger] Emulator::irq_queued(*old(self), m) && Emulator::intr_handled(m, *final(self), r),
    {
        let ghost a = *self;
        let block = self.halt && !debugged;
        if let Some(ev) = self.ac.check_irq(block) {
            self.intrpt.enqueue(IntrEvent::Hardware(ev));
            self.halt = false;
        }
        let ghost m = *self;
        proof {
            assert(Emulator::irq_queued(a, m));
        }
        let ghost q = self.intrpt.0@;
        let res = self.intrpt.handle(&mut self.ac);
        let r = match res {
            Err(EmuException::CPUException(e)) => {
                self.intrpt.enqueue_top(IntrEvent::Hardware(e.vector()));
                Ok(())
            },
            Err(err) => Err(err),
            Ok(()) => Ok(()),
        };
        proof {
            if q.len() > 0 {
                let (n, hw) = interrupt::event_vector(q[0]);
                assert(interrupt::vector_taken(m.ac, self.ac, n, hw, res));
            }
            assert(Emulator::intr_handled(m, *self, r));
        }
        r
    }

    /// One step: unless halted, fetches and executes the instruction at the instruction
    /// pointer (see `fetch_executes`) and settles its outcome (see `settled`); then queues a device interrupt and takes the next waiting one (see
    /// `irq_queued` and `intr_handled`), and reports a breakpoint or the halt. The second
    /// part of the result asks the caller to dump the registers. An error is one the
    /// emulator cannot go on from.
    #[verifier::rlimit(40)]
    pub fn step(&mut self, debugged: bool) -> (r: Result<(Option<Event>, bool), EmuException>)
        requires
            old(self).wf(),
        ensures
            final(self).wf(),
            final(self).breakpoints@ == old(self).breakpoints@,
            r matches Ok((ev, _)) ==> ev == step_event(debugged, final(self).breakpoints@, final(self).ac.core.ip.0, final(self).halt),
            old(self).halt ==> exists|m: Emulator| #[trigger] Emulator::irq_queued(*old(self), m)
                && Emulator::intr_handled(m, *final(self), outcome_of(r))
                && (r matches Ok((_, dump)) ==> !dump),
            !old(self).halt ==> exists|e: Emulator, res: Result<(), EmuException>, d: Result<bool, EmuException>, m0: Emulator|
                #[trigger] Emulator::settled(e, m0, res, d)
                && e.breakpoints@ == old(self).breakpoints@ && e.intrpt.0@ == old(self).intrpt.0@ && e.halt == old(self).halt
                && e.inst == old(self).inst && instruction::fetch_executes(old(self).ac, e.ac, res)
                && match d {
                    Err(err) => r == Err::<(Option<Event>, bool), EmuException>(err) && *final(self) == m0,
                    Ok(dump) => (r matches Ok((_, dd)) ==> dd == dump) && exists|m: Emulator| #[trigger] Emulator::irq_queued(m0, m)
                        && Emulator::intr_handled(m, *final(self), outcome_of(r)),
                },
    {
        let ghost a = *self;
        let ghost mut e = *self;
        let ghost mut res0: Result<(), EmuException> = Ok(());
        let mut dump = false;
        if !self.halt {
            let res = self.inst.fetch_exec(&mut self.ac);
            proof {
                e = *self;
                res0 = res;
            }
            match self.settle(res) {
                Ok(d) => {
                    dump = d;
                },
                Err(err) => {
                    proof {
                        assert(e.breakpoints@ == a.breakpoints@ && e.intrpt.0@ == a.intrpt.0@ && e.halt == a.halt);
                        assert(Emulator::settled(e, *self, res0, Err::<bool, EmuException>(err)));
                    }
                    return Err(err);
                },
            }
            proof {
                assert(Emulator::settled(e, *self, res0, Ok(dump)));
            }
        }
        let ghost m0 = *self;
        let sr = self.service(debugged);
        let ghost m = choose|m: Emulator| #[trigger] Emulator::irq_queued(m0, m) && Emulator::intr_handled(m, *self, sr);
        match sr {
            Err(err) => {
                proof {
                    assert(Emulator::intr_handled(m, *self, outcome_of(Err(err))));
                    if !a.halt {
                        assert(e.breakpoints@ == a.breakpoints@ && e.intrpt.0@ == a.intrpt.0@ && e.halt == a.halt);
                        assert(Emulator::settled(e, m0, res0, Ok(dump)));
                        assert(Emulator::irq_queued(m0, m));
                    }
                }
                return Err(err);
            },
            Ok(()) => {},
        }
        let ev = if debugged && self.at_breakpoint(self.ac.core.ip.get_eip()) {
            Some(Event::Break)
        } else if self.halt {
            Some(Event::Halted)
        } else {
            None
        };
        proof {
            assert(Emulator::intr_handled(m, *self, outcome_of(Ok((ev, dump)))));
            if !a.halt {
                assert(e.breakpoints@ == a.breakpoints@ && e.intrpt.0@ == a.intrpt.0@ && e.halt == a.halt);
                assert(Emulator::settled(e, m0, res0, Ok(dump)));
                assert(Emulator::irq_queued(m0, m));
            }
        }
        Ok((ev, dump))
    }

    /// Copies `bin` into physical memory at `addr`; an error, and memory untouched, when it
    /// does not fit.
    pub fn map_binary(&mut self, addr: usize, bin: &[u8]) -> (r: Result<(), &'static str>)
        ensures
            r is Ok <==> in_bounds(old(self).ac.mem@, addr as int, bin@.len()),
            r is Ok ==> final(self).ac.mem@ == old(self).ac.mem@.subrange(0, addr as int) + bin@
                + old(self).ac.mem@.subrange(addr + bin@.len(), old(self).ac.mem@.len() as int),
            r is Err ==> final(self).ac.mem@ == old(self).ac.mem@,
            final(self).ac.core == old(self).ac.core,
            access::dev_same(old(self).ac.dev, final(self).ac.dev),
            final(self).ac.mode == old(self).ac.mode,
            final(self).ac.oasz == old(self).ac.oasz,
            final(self).ac.stsz == old(self).ac.stsz,
            final(self).ac.pgmd == old(self).ac.pgmd,
            final(self).ac.a20gate == old(self).ac.a20gate,
            final(self).ac.tlb@ == old(self).ac.tlb@,
            final(self).inst == old(self).inst,
            final(self).intrpt.0@ == old(self).intrpt.0@,
            final(self).halt == old(self).halt,
            final(self).breakpoints@ == old(self).breakpoints@,
    {
        match self.ac.mem.write_data(addr, bin, bin.len()) {
            Ok(_) => {
                assert(bin@.subrange(0, bin@.len() as int) =~= bin@);
                Ok(())
            },
            Err(e) => Err(e),
        }
    }
}

} // verus!
