use vstd::prelude::*;
use super::{IReq, PortIO};

verus! {

/// A programmable interval timer: a nonzero value in its register makes it raise its interrupt
/// every that many seconds.
#[derive(Clone, Copy, PartialEq, Eq, Structural, Debug)]
pub struct TestTimer {
    pub irq: IReq,
    /// The interval in seconds; 0 stops the timer.
    pub reg: u8,
}

/// The timer's one port.
pub const TIMER_PORT: u16 = 0x20;

impl TestTimer {
    pub open spec fn initial() -> Self {
        TestTimer { irq: IReq { irq_no: 2 }, reg: 0 }
    }

    pub fn new(irq: IReq) -> (t: Self)
        ensures
            t == (TestTimer { irq, reg: 0 }),
    {
        Self { irq, reg: 0 }
    }

    /// The interval, in seconds, at which the timer raises its interrupt; 0 when it is stopped.
    pub fn interval(&self) -> (s: u8)
        ensures
            s == self.reg,
    {
        self.reg
    }
}

/// The timer after the first `n` bytes of `data` are written to consecutive ports from `addr`.
pub open spec fn timer_ports_written(t: TestTimer, addr: u16, data: Seq<u8>, n: nat) -> TestTimer
    decreases n,
{
    if n == 0 {
        t
    } else {
        timer_ports_written(t, addr, data, (n - 1) as nat).port_written(super::port_at(addr, n - 1), data[n - 1])
    }
}

impl PortIO for TestTimer {
    open spec fn port_read(&self, addr: u16) -> u8 {
        if addr != TIMER_PORT {
            0
        } else {
            self.reg
        }
    }

    open spec fn port_written(&self, addr: u16, data: u8) -> Self {
        if addr != TIMER_PORT {
            *self
        } else {
            TestTimer { reg: data, ..*self }
        }
    }

    open spec fn ports_written(self, addr: u16, data: Seq<u8>, n: nat) -> Self {
        timer_ports_written(self, addr, data, n)
    }

    proof fn lemma_ports_written(self, addr: u16, data: Seq<u8>, n: nat) {
    }

    fn in8(&self, addr: u16) -> (v: u8) {
        if addr != TIMER_PORT {
            0
        } else {
            self.reg
        }
    }

    /// Writing the register (re)starts the timer with the new interval, or stops it with 0.
    fn out8(&mut self, addr: u16, data: u8) {
        if addr != TIMER_PORT {
            return ;
        }
        self.reg = data;
    }
}

/// The timer's port reads back what was written to it: writing `v` to port 0x20 sets the
/// interval register to `v` (keeping the interrupt line), after which reading port 0x20
/// gives `v`; writing any other port leaves the timer as it was, and reading any other port
/// gives 0.
pub proof fn law_timer_write_read(t: TestTimer, addr: u16, v: u8)
    ensures
        t.port_written(0x20, v) == (TestTimer { irq: t.irq, reg: v }),
        t.port_written(0x20, v).port_read(0x20) == v,
        addr != 0x20 ==> t.port_written(addr, v) == t,
        addr != 0x20 ==> t.port_read(addr) == 0,
{
}

} // verus!
