pub mod testdma;
pub mod testtimer;

use vstd::prelude::*;
use crate::hardware::memory::Memory;

verus! {

/// A device's connection to the interrupt controller: raising it queues interrupt line `irq_no`.
#[derive(Clone, Copy, PartialEq, Eq, Structural, Debug)]
pub struct IReq {
    pub irq_no: u8,
}

impl IReq {
    pub fn new(n: u8) -> (r: Self)
        ensures
            r.irq_no == n,
    {
        Self { irq_no: n }
    }

    /// Raises the interrupt: its line number joins the back of the pending queue.
    pub fn send_irq(&self, pending: &mut Vec<u8>)
        ensures
            final(pending)@ == old(pending)@.push(self.irq_no),
    {
        pending.push(self.irq_no);
    }
}

/// `addr + i` modulo 2^16: the port that the `i`-th byte of a wide access reaches.
pub open spec fn port_at(addr: u16, i: int) -> u16 {
    ((addr + i) % 0x1_0000) as u16
}

/// A device reached through I/O ports, one byte at a time.
pub trait PortIO: Sized {
    /// What reading `addr` returns.
    spec fn port_read(&self, addr: u16) -> u8;

    /// The device after `data` is written to `addr`.
    spec fn port_written(&self, addr: u16, data: u8) -> Self;

    fn in8(&self, addr: u16) -> (v: u8)
        ensures
            v == self.port_read(addr),
    ;

    fn out8(&mut self, addr: u16, data: u8)
        ensures
            *final(self) == old(self).port_written(addr, data),
    ;

    /// Reads `len` consecutive ports starting at `addr`.
    fn in_io(&self, addr: u16, len: usize) -> (data: Vec<u8>)
        ensures
            data@.len() == len,
            forall|i: int| 0 <= i < len ==> data@[i] == self.port_read(port_at(addr, i)),
    {
        let mut data: Vec<u8> = Vec::new();
        let mut i: usize = 0;
        while i < len
            invariant
                i <= len,
                data@.len() == i,
                forall|j: int| 0 <= j < i ==> data@[j] == self.port_read(port_at(addr, j)),
            decreases len - i,
        {
            let p = addr.wrapping_add((i % 0x1_0000) as u16);
            assert(p == port_at(addr, i as int)) by {
                vstd::arithmetic::div_mod::lemma_add_mod_noop(addr as int, i as int, 0x1_0000);
            }
            data.push(self.in8(p));
            i = i + 1;
        }
        data
    }

    /// The device after the first `n` bytes of `data` are written to consecutive ports from `addr`.
    spec fn ports_written(self, addr: u16, data: Seq<u8>, n: nat) -> Self;

    /// `ports_written` writes the bytes one after another.
    proof fn lemma_ports_written(self, addr: u16, data: Seq<u8>, n: nat)
        ensures
            self.ports_written(addr, data, 0) == self,
            n > 0 ==> self.ports_written(addr, data, n) == self.ports_written(addr, data, (n - 1) as nat).port_written(port_at(addr, n - 1), data[n - 1]),
    ;

    /// Writes `data` to consecutive ports starting at `addr`, in order.
    fn out_io(&mut self, addr: u16, data: Vec<u8>)
        ensures
            *final(self) == old(self).ports_written(addr, data@, data@.len()),
    {
        proof {
            old(self).lemma_ports_written(addr, data@, 0);
        }
        let mut i: usize = 0;
        while i < data.len()
            invariant
                i <= data@.len(),
                *self == old(self).ports_written(addr, data@, i as nat),
            decreases data@.len() - i,
        {
            let p = addr.wrapping_add((i % 0x1_0000) as u16);
            assert(p == port_at(addr, i as int)) by {
                vstd::arithmetic::div_mod::lemma_add_mod_noop(addr as int, i as int, 0x1_0000);
            }
            self.out8(p, data[i]);
            i = i + 1;
            proof {
                old(self).lemma_ports_written(addr, data@, i as nat);
            }
        }
    }
}


/// A device mapped into the physical address space, one byte at a time.
pub trait MemoryIO: Sized {
    /// What reading offset `ofs` returns.
    spec fn mem_read(&self, ofs: u64) -> u8;

    /// The device after `data` is written at offset `ofs`.
    spec fn mem_written(&self, ofs: u64, data: u8) -> Self;

    fn read8(&self, ofs: u64) -> (v: u8)
        ensures
            v == self.mem_read(ofs),
    ;

    fn write8(&mut self, ofs: u64, data: u8)
        ensures
            *final(self) == old(self).mem_written(ofs, data),
    ;

    /// Reads `len` consecutive offsets starting at `ofs`.
    fn read_io(&self, ofs: u64, len: usize) -> (data: Vec<u8>)
        ensures
            data@.len() == len,
            forall|i: int| 0 <= i < len ==> data@[i] == self.mem_read(offset_at(ofs, i)),
    {
        let mut data: Vec<u8> = Vec::new();
        let mut i: usize = 0;
        while i < len
            invariant
                i <= len,
                data@.len() == i,
                forall|j: int| 0 <= j < i ==> data@[j] == self.mem_read(offset_at(ofs, j)),
            decreases len - i,
        {
            data.push(self.read8(ofs.wrapping_add(i as u64)));
            i = i + 1;
        }
        data
    }

    /// The device after the first `n` bytes of `data` are written at consecutive offsets from `ofs`.
    spec fn mems_written(self, ofs: u64, data: Seq<u8>, n: nat) -> Self;

    /// `mems_written` writes the bytes one after another.
    proof fn lemma_mems_written(self, ofs: u64, data: Seq<u8>, n: nat)
        ensures
            self.mems_written(ofs, data, 0) == self,
            n > 0 ==> self.mems_written(ofs, data, n) == self.mems_written(ofs, data, (n - 1) as nat).mem_written(offset_at(ofs, n - 1), data[n - 1]),
    ;

    /// Writes `data` at consecutive offsets starting at `ofs`, in order.
    fn write_io(&mut self, ofs: u64, data: Vec<u8>)
        ensures
            *final(self) == old(self).mems_written(ofs, data@, data@.len()),
    {
        proof {
            old(self).lemma_mems_written(ofs, data@, 0);
        }
        let mut i: usize = 0;
        while i < data.len()
            invariant
                i <= data@.len(),
                *self == old(self).mems_written(ofs, data@, i as nat),
            decreases data@.len() - i,
        {
            self.write8(ofs.wrapping_add(i as u64), data[i]);
            i = i + 1;
            proof {
                old(self).lemma_mems_written(ofs, data@, i as nat);
            }
        }
    }
}

/// `ofs + i` modulo 2^64.
pub open spec fn offset_at(ofs: u64, i: int) -> u64 {
    ((ofs + i) % 0x1_0000_0000_0000_0000) as u64
}


/// The port range of the DMA controller's command port.
pub const DMA_PORT_START: u16 = 0x10;
pub const DMA_PORT_END: u16 = 0x11;
/// The port range of the timer.
pub const TIMER_PORT_START: u16 = 0x20;
pub const TIMER_PORT_END: u16 = 0x21;
/// The physical range of the DMA controller's address registers.
pub const DMA_MEM_START: u64 = 0x1000;
pub const DMA_MEM_END: u64 = 0x1010;
/// The physical range that memory accesses are routed to devices for.
pub const MEMIO_START: u64 = 0x1000;
pub const MEMIO_END: u64 = 0x1100;

/// The devices of the machine and the interrupts they have raised.
pub struct Device {
    /// Interrupt lines raised and not yet taken, oldest first.
    pub irq_queue: Vec<u8>,
    pub dma: testdma::TestDMA,
    pub timer: testtimer::TestTimer,
    /// The physical ranges, as `(start, end)`, that memory accesses are routed to devices for.
    pub memio_range: Vec<(u64, u64)>,
}

/// Whether some range `(start, end)` of `ranges` has `start <= addr` and
/// `addr + length - 1 < end`, the sums taken modulo 2^64.
pub open spec fn memio_hit(ranges: Seq<(u64, u64)>, addr: u64, length: u64) -> bool {
    exists|k: int| #![trigger ranges[k]]
        0 <= k < ranges.len() && ranges[k].0 <= addr && last_byte(addr, length) < ranges[k].1
}

/// `addr + length - 1` modulo 2^64.
pub open spec fn last_byte(addr: u64, length: u64) -> u64 {
    vstd::wrapping::u64_specs::wrapping_sub(vstd::wrapping::u64_specs::wrapping_add(addr, length), 1)
}

impl Device {
    pub open spec fn is_initial(self) -> bool {
        &&& self.irq_queue@ == Seq::<u8>::empty()
        &&& self.dma.is_initial()
        &&& self.timer == testtimer::TestTimer::initial()
        &&& self.memio_range@ == seq![(MEMIO_START, MEMIO_END)]
    }

    pub fn new() -> (d: Self)
        ensures
            d.is_initial(),
    {
        let mut memio_range: Vec<(u64, u64)> = Vec::new();
        memio_range.push((MEMIO_START, MEMIO_END));
        let d = Self {
            irq_queue: Vec::new(),
            dma: testdma::TestDMA::new(IReq::new(1)),
            timer: testtimer::TestTimer::new(IReq::new(2)),
            memio_range,
        };
        assert(d.memio_range@ =~= seq![(MEMIO_START, MEMIO_END)]);
        d
    }

    /// Takes the oldest pending interrupt; `None` when none is pending. (Waiting for one when
    /// `block` is set is the caller's part: the library never blocks.)
    pub fn get_interrupt_req(&mut self, block: bool) -> (r: Option<u8>)
        ensures
            old(self).irq_queue@.len() == 0 ==> r is None && *final(self) == *old(self),
            old(self).irq_queue@.len() > 0 ==> r == Some(old(self).irq_queue@[0])
                && final(self).irq_queue@ == old(self).irq_queue@.drop_first()
                && final(self).dma == old(self).dma && final(self).timer == old(self).timer
                && final(self).memio_range@ == old(self).memio_range@,
    {
        if self.irq_queue.len() > 0 {
            Some(self.irq_queue.remove(0))
        } else {
            None
        }
    }

    /// Raises the timer's interrupt when the timer runs; the caller calls this each time the
    /// timer's interval has passed.
    pub fn timer_tick(&mut self)
        ensures
            final(self).irq_queue@ == (if old(self).timer.reg > 0 {
                old(self).irq_queue@.push(old(self).timer.irq.irq_no)
            } else {
                old(self).irq_queue@
            }),
            final(self).dma == old(self).dma,
            final(self).timer == old(self).timer,
            final(self).memio_range@ == old(self).memio_range@,
    {
        if self.timer.reg > 0 {
            self.timer.irq.send_irq(&mut self.irq_queue);
        }
    }

    /// Reads `dst.len()` bytes from the port device at `addr`; with no device there, `dst` keeps
    /// its contents.
    pub fn in_portio(&self, addr: u16, dst: &mut [u8])
        ensures
            final(dst)@.len() == old(dst)@.len(),
            forall|i: int| 0 <= i < old(dst)@.len() ==> final(dst)@[i] == (
                if DMA_PORT_START <= addr < DMA_PORT_END {
                    self.dma.port_read(port_at(addr, i))
                } else if TIMER_PORT_START <= addr < TIMER_PORT_END {
                    self.timer.port_read(port_at(addr, i))
                } else {
                    old(dst)@[i]
                }),
    {
        let len = dst.len();
        if DMA_PORT_START <= addr && addr < DMA_PORT_END {
            let data = self.dma.in_io(addr, len);
            copy_into(dst, &data);
        } else if TIMER_PORT_START <= addr && addr < TIMER_PORT_END {
            let data = self.timer.in_io(addr, len);
            copy_into(dst, &data);
        }
    }

    /// The `n` bytes that reading the port device at `addr` gives; zero where no device
    /// answers.
    pub open spec fn port_bytes(self, addr: u16, n: nat) -> Seq<u8> {
        Seq::new(n, |i: int| if DMA_PORT_START <= addr < DMA_PORT_END {
            self.dma.port_read(port_at(addr, i))
        } else if TIMER_PORT_START <= addr < TIMER_PORT_END {
            self.timer.port_read(port_at(addr, i))
        } else {
            0u8
        })
    }

    /// `d2` and `m2` are the devices `d` and memory `m` after `data` is written to the port
    /// device at `addr`: a DMA command runs its transfer and raises its interrupt, a timer write
    /// sets the timer, any other port is ignored.
    pub open spec fn port_output(d: Device, m: Memory, d2: Device, m2: Memory, addr: u16, data: Seq<u8>) -> bool {
        &&& DMA_PORT_START <= addr < DMA_PORT_END ==> {
            let x = d.dma.ports_written(addr, data, data.len());
            &&& d2.dma == x.after_transfer(m)
            &&& m2@ == x.transferred(m@)
            &&& d2.irq_queue@ == d.irq_queue@ + x.transfer_irqs(m)
            &&& d2.timer == d.timer
        }
        &&& TIMER_PORT_START <= addr < TIMER_PORT_END ==> {
            &&& d2.timer == d.timer.ports_written(addr, data, data.len())
            &&& d2.dma == d.dma
            &&& d2.irq_queue@ == d.irq_queue@
            &&& m2 == m
        }
        &&& !(DMA_PORT_START <= addr < DMA_PORT_END) && !(TIMER_PORT_START <= addr < TIMER_PORT_END) ==> {
            &&& d2.dma == d.dma
            &&& d2.timer == d.timer
            &&& d2.irq_queue@ == d.irq_queue@
            &&& m2 == m
        }
        &&& d2.memio_range@ == d.memio_range@
    }

    /// Writes `src` to the port device at `addr`; a DMA command runs its transfer on `mem`.
    pub fn out_portio(&mut self, mem: &mut Memory, addr: u16, src: &[u8])
        ensures
            Device::port_output(*old(self), *old(mem), *final(self), *final(mem), addr, src@),
            DMA_PORT_START <= addr < DMA_PORT_END ==> {
                let d = old(self).dma.ports_written(addr, src@, src@.len());
                &&& final(self).dma == d.after_transfer(*old(mem))
                &&& final(mem)@ == d.transferred(old(mem)@)
                &&& final(self).irq_queue@ == old(self).irq_queue@ + d.transfer_irqs(*old(mem))
                &&& final(self).timer == old(self).timer
            },
            TIMER_PORT_START <= addr < TIMER_PORT_END ==> {
                &&& final(self).timer == old(self).timer.ports_written(addr, src@, src@.len())
                &&& final(self).dma == old(self).dma
                &&& final(self).irq_queue@ == old(self).irq_queue@
                &&& *final(mem) == *old(mem)
            },
            !(DMA_PORT_START <= addr < DMA_PORT_END) && !(TIMER_PORT_START <= addr < TIMER_PORT_END) ==> {
                &&& final(self).dma == old(self).dma
                &&& final(self).timer == old(self).timer
                &&& final(self).irq_queue@ == old(self).irq_queue@
                &&& *final(mem) == *old(mem)
            },
            final(self).memio_range@ == old(self).memio_range@,
    {
        let data = slice_to_vec(src);
        if DMA_PORT_START <= addr && addr < DMA_PORT_END {
            self.dma.out_io(addr, data);
            self.dma.run_transfer(mem, &mut self.irq_queue);
        } else if TIMER_PORT_START <= addr && addr < TIMER_PORT_END {
            self.timer.out_io(addr, data);
        }
    }

    /// Reads `dst.len()` bytes from the memory-mapped device at `addr`; with no device there,
    /// `dst` keeps its contents.
    pub fn read_memio(&self, addr: u64, dst: &mut [u8])
        ensures
            final(dst)@.len() == old(dst)@.len(),
            forall|i: int| 0 <= i < old(dst)@.len() ==> final(dst)@[i] == (
                if DMA_MEM_START <= addr < DMA_MEM_END {
                    self.dma.mem_read(offset_at((addr - DMA_MEM_START) as u64, i))
                } else {
                    old(dst)@[i]
                }),
    {
        if DMA_MEM_START <= addr && addr < DMA_MEM_END {
            let data = self.dma.read_io(addr - DMA_MEM_START, dst.len());
            copy_into(dst, &data);
        }
    }

    /// Writes `src` to the memory-mapped device at `addr`.
    pub fn write_memio(&mut self, addr: u64, src: &[u8])
        ensures
            final(self).dma == (if DMA_MEM_START <= addr < DMA_MEM_END {
                old(self).dma.mems_written((addr - DMA_MEM_START) as u64, src@, src@.len())
            } else {
                old(self).dma
            }),
            final(self).timer == old(self).timer,
            final(self).irq_queue@ == old(self).irq_queue@,
            final(self).memio_range@ == old(self).memio_range@,
    {
        if DMA_MEM_START <= addr && addr < DMA_MEM_END {
            let data = slice_to_vec(src);
            self.dma.write_io(addr - DMA_MEM_START, data);
        }
    }

    /// Whether an access at `addr` is routed to a device: some routed range holds both `addr`
    /// and `addr + length - 1` (sums modulo 2^64).
    pub fn check_memio(&self, addr: u64, length: u64) -> (b: bool)
        ensures
            b == memio_hit(self.memio_range@, addr, length),
    {
        let last = addr.wrapping_add(length).wrapping_sub(1);
        let mut i: usize = 0;
        while i < self.memio_range.len()
            invariant
                i <= self.memio_range@.len(),
                last == last_byte(addr, length),
                forall|k: int| #![trigger self.memio_range@[k]] 0 <= k < i ==> !(self.memio_range@[k].0 <= addr && last_byte(addr, length) < self.memio_range@[k].1),
            decreases self.memio_range@.len() - i,
        {
            let r = self.memio_range[i];
            if r.0 <= addr && last < r.1 {
                assert(0 <= i < self.memio_range@.len() && self.memio_range@[i as int].0 <= addr && last_byte(addr, length) < self.memio_range@[i as int].1);
                return true;
            }
            i = i + 1;
        }
        false
    }
}

fn slice_to_vec(src: &[u8]) -> (v: Vec<u8>)
    ensures
        v@ == src@,
{
    let mut v: Vec<u8> = Vec::new();
    let mut i: usize = 0;
    while i < src.len()
        invariant
            i <= src@.len(),
            v@ == src@.subrange(0, i as int),
        decreases src@.len() - i,
    {
        v.push(src[i]);
        i = i + 1;
        assert(v@ =~= src@.subrange(0, i as int));
    }
    assert(v@ =~= src@);
    v
}

/// Copies `data` into the front of `dst`, as far as both reach.
fn copy_into(dst: &mut [u8], data: &Vec<u8>)
    requires
        data@.len() == old(dst)@.len(),
    ensures
        final(dst)@ == data@,
{
    let mut i: usize = 0;
    while i < dst.len()
        invariant
            i <= dst@.len(),
            dst@.len() == data@.len(),
            forall|j: int| 0 <= j < i ==> dst@[j] == data@[j],
        decreases dst@.len() - i,
    {
        dst[i] = data[i];
        i = i + 1;
    }
    assert(dst@ =~= data@);
}

/// What `k` raises of the interrupt line `n` leave in the pending queue `q`.
pub open spec fn raised_times(q: Seq<u8>, n: u8, k: nat) -> Seq<u8>
    decreases k,
{
    if k == 0 {
        q
    } else {
        raised_times(q, n, (k - 1) as nat).push(n)
    }
}

/// Raising an interrupt `k` times queues its line number `k` times behind what was pending,
/// and nothing else.
pub proof fn law_send_irq_repeated(q: Seq<u8>, n: u8, k: nat)
    ensures
        raised_times(q, n, k) =~= q + Seq::new(k, |i: int| n),
    decreases k,
{
    if k > 0 {
        law_send_irq_repeated(q, n, (k - 1) as nat);
    }
}

/// The bytes of `data` written from offset `ofs` of the DMA address registers read back
/// from there, each at its offset, as long as they all fall among the sixteen registers.
proof fn lemma_dma_regs_prefix(d: testdma::TestDMA, ofs: u64, data: Seq<u8>, n: nat)
    requires
        n <= data.len(),
        ofs + data.len() <= 16,
    ensures
        forall|i: int| 0 <= i < n ==> #[trigger] d.mems_written(ofs, data, n).mem_read(offset_at(ofs, i)) == data[i],
        d.mems_written(ofs, data, n).irq == d.irq,
    decreases n,
{
    if n > 0 {
        lemma_dma_regs_prefix(d, ofs, data, (n - 1) as nat);
        let p = d.mems_written(ofs, data, (n - 1) as nat);
        assert forall|i: int| 0 <= i < n implies #[trigger] d.mems_written(ofs, data, n).mem_read(offset_at(ofs, i)) == data[i] by {
            assert(offset_at(ofs, i) == ofs + i);
            assert(offset_at(ofs, n - 1) == ofs + n - 1);
            if i < n - 1 {
                assert(p.mem_read(offset_at(ofs, i)) == data[i]);
            }
        }
    }
}

/// A read of the DMA address registers gives back what a write stored there: after `data`
/// is written to the device memory at `addr` (what `write_memio` does to the controller),
/// reading at `addr` (what `read_memio` returns) gives each byte of `data` back, as long as
/// all of them fall among the sixteen registers.
pub proof fn law_dma_regs_write_read(dev: Device, addr: u64, data: Seq<u8>)
    requires
        DMA_MEM_START <= addr,
        addr - DMA_MEM_START + data.len() <= 16,
    ensures
        forall|i: int| 0 <= i < data.len() ==> #[trigger] dev.dma.mems_written((addr - DMA_MEM_START) as u64, data, data.len())
            .mem_read(offset_at((addr - DMA_MEM_START) as u64, i)) == data[i],
{
    lemma_dma_regs_prefix(dev.dma, (addr - DMA_MEM_START) as u64, data, data.len());
}

/// A DMA command copies memory as its address registers say: after the sixteen bytes `regs`
/// are written to the address registers (the source address, then the destination address,
/// each little-endian) and the byte count `n` to the command port, the transfer copies the `n`
/// bytes at the source to the destination, raises the controller's interrupt line once, and
/// leaves no transfer pending, when both ranges lie in memory.
pub proof fn law_dma_transfer(d: testdma::TestDMA, m: Memory, regs: Seq<u8>, n: u8)
    requires
        regs.len() == 16,
        crate::hardware::memory::in_bounds(m@, crate::hardware::memory::le_value(regs, 0, 8) as int, n as nat),
        crate::hardware::memory::in_bounds(m@, crate::hardware::memory::le_value(regs, 8, 8) as int, n as nat),
    ensures
        ({
            let x = d.mems_written(0, regs, 16).ports_written(DMA_PORT_START, seq![n], 1);
            &&& x.transferred(m@) == testdma::copied(m@, crate::hardware::memory::le_value(regs, 0, 8) as int,
                crate::hardware::memory::le_value(regs, 8, 8) as int, n as nat)
            &&& x.transfer_irqs(m) == seq![d.irq.irq_no]
            &&& x.after_transfer(m).pending is None
        }),
{
    let w = d.mems_written(0, regs, 16);
    lemma_dma_regs_prefix(d, 0, regs, 16);
    assert forall|i: int| 0 <= i < 16 implies #[trigger] w.raw@[i] == regs[i] by {
        assert(offset_at(0, i) == i);
        assert(w.mem_read(offset_at(0, i)) == regs[i]);
    }
    assert(w.raw@ =~= regs);
    let x = w.ports_written(DMA_PORT_START, seq![n], 1);
    assert(port_at(DMA_PORT_START, 0) == DMA_PORT_START);
    assert(seq![n][0] == n);
    assert(x == testdma::dma_ports_written(w, DMA_PORT_START, seq![n], 1));
    assert(testdma::dma_ports_written(w, DMA_PORT_START, seq![n], 0) == w);
    assert(x == w.port_written(DMA_PORT_START, n));
    assert(x == testdma::TestDMA { pending: Some(n), ..w });
    assert(x.irq == d.irq);
    assert(x.src() == crate::hardware::memory::le_value(regs, 0, 8));
    assert(x.dst() == crate::hardware::memory::le_value(regs, 8, 8));
}

/// Programming the timer through its port: after the byte `v` is written to port 0x20, the
/// timer's interval register holds `v`, its interrupt line is unchanged, nothing else changes,
/// and reading port 0x20 gives `v` back; a nonzero `v` makes each tick raise the timer's line.
pub proof fn law_timer_port_program(d: Device, m: Memory, d2: Device, m2: Memory, v: u8)
    requires
        Device::port_output(d, m, d2, m2, 0x20, seq![v]),
    ensures
        d2.timer.reg == v,
        d2.timer.irq == d.timer.irq,
        d2.port_bytes(0x20, 1) == seq![v],
        d2.dma == d.dma,
        d2.irq_queue@ == d.irq_queue@,
        m2 == m,
{
    let t = d.timer;
    assert(port_at(0x20, 0) == 0x20);
    assert(seq![v][0] == v);
    assert(t.ports_written(0x20, seq![v], 1) == testtimer::timer_ports_written(t, 0x20, seq![v], 1));
    assert(testtimer::timer_ports_written(t, 0x20, seq![v], 0) == t);
    assert(d2.timer == t.port_written(0x20, v));
    assert(d2.port_bytes(0x20, 1) =~= seq![v]);
}

} // verus!
