use vstd::prelude::*;
use super::{IReq, PortIO, MemoryIO};
use crate::hardware::memory::{Memory, le_value, in_bounds};

verus! {

/// A DMA controller: two quadword address registers, source then destination, mapped into
/// memory, and a command port; writing a byte count to the port copies that many bytes from
/// source to destination and raises the controller's interrupt.
pub struct TestDMA {
    pub irq: IReq,
    /// The address registers, little-endian: bytes 0..8 the source, 8..16 the destination.
    pub raw: [u8; 16],
    /// A byte count written to the command port and not yet transferred.
    pub pending: Option<u8>,
}

/// The highest command port.
pub const DMA_CMD_PORT: u16 = 0x10;

/// Memory after copying `size` bytes from `src` to `dst`, when both ranges lie in it.
pub open spec fn copied(m: Seq<u8>, src: int, dst: int, size: nat) -> Seq<u8> {
    m.subrange(0, dst) + m.subrange(src, src + size) + m.subrange(dst + size, m.len() as int)
}

impl TestDMA {
    pub open spec fn is_initial(self) -> bool {
        &&& self.irq == IReq { irq_no: 1 }
        &&& self.raw@ == Seq::new(16, |i: int| 0u8)
        &&& self.pending is None
    }

    pub open spec fn src(self) -> nat {
        le_value(self.raw@, 0, 8)
    }

    pub open spec fn dst(self) -> nat {
        le_value(self.raw@, 8, 8)
    }

    /// Whether a transfer of `size` bytes reads and writes only memory.
    pub open spec fn transfer_fits(self, m: Seq<u8>, size: u8) -> bool {
        in_bounds(m, self.src() as int, size as nat) && in_bounds(m, self.dst() as int, size as nat)
    }

    /// The contents of memory after the pending transfer.
    pub open spec fn transferred(self, m: Seq<u8>) -> Seq<u8> {
        match self.pending {
            Some(size) => if self.transfer_fits(m, size) {
                copied(m, self.src() as int, self.dst() as int, size as nat)
            } else {
                m
            },
            None => m,
        }
    }

    /// The interrupts that the pending transfer raises: one when it runs.
    pub open spec fn transfer_irqs(self, m: Memory) -> Seq<u8> {
        match self.pending {
            Some(size) => if self.transfer_fits(m@, size) { seq![self.irq.irq_no] } else { seq![] },
            None => seq![],
        }
    }

    /// The controller after its pending transfer.
    pub open spec fn after_transfer(self, m: Memory) -> Self {
        TestDMA { pending: None, ..self }
    }

    pub fn new(irq: IReq) -> (d: Self)
        ensures
            d.irq == irq,
            d.raw@ == Seq::new(16, |i: int| 0u8),
            d.pending is None,
    {
        let d = Self { irq, raw: [0u8; 16], pending: None };
        assert(d.raw@ =~= Seq::new(16, |i: int| 0u8));
        d
    }

    fn read_quad(&self, at: usize) -> (v: u64)
        requires
            at == 0 || at == 8,
        ensures
            v == le_value(self.raw@, at as int, 8),
    {
        let mut v: u64 = 0;
        let mut i: usize = 8;
        while i > 0
            invariant
                i <= 8,
                at == 0 || at == 8,
                v == le_value(self.raw@, at + i, (8 - i) as nat),
                v < crate::hardware::memory::byte_pow((8 - i) as nat),
            decreases i,
        {
            proof {
                crate::hardware::memory::lemma_byte_pow_values();
                crate::hardware::memory::lemma_byte_pow_monotone((8 - i + 1) as nat, 8);
            }
            i = i - 1;
            v = v * 256 + self.raw[at + i] as u64;
        }
        v
    }

    /// The source address register.
    pub fn get_src(&self) -> (v: u64)
        ensures
            v == self.src(),
    {
        self.read_quad(0)
    }

    /// The destination address register.
    pub fn get_dst(&self) -> (v: u64)
        ensures
            v == self.dst(),
    {
        self.read_quad(8)
    }

    /// Runs the pending transfer, if any: copies the bytes and raises the interrupt. A transfer
    /// that would reach outside memory is dropped without an interrupt.
    pub fn run_transfer(&mut self, mem: &mut Memory, pending_irqs: &mut Vec<u8>)
        ensures
            *final(self) == old(self).after_transfer(*old(mem)),
            final(mem)@ == old(self).transferred(old(mem)@),
            final(pending_irqs)@ == old(pending_irqs)@ + old(self).transfer_irqs(*old(mem)),
    {
        if let Some(size) = self.pending {
            let src = self.get_src();
            let dst = self.get_dst();
            self.pending = None;
            let _ = mem.len();
            if src <= usize::MAX as u64 && dst <= usize::MAX as u64 {
                let mut buf: Vec<u8> = vec![0u8; size as usize];
                let r = mem.read_data(buf.as_mut_slice(), src as usize, size as usize);
                let ghost read = buf@;
                if r.is_ok() && mem.write_data(dst as usize, buf.as_slice(), size as usize).is_ok() {
                    assert(read.subrange(0, size as int) =~= old(mem)@.subrange(src as int, src + size));
                    self.irq.send_irq(pending_irqs);
                    assert(seq![self.irq.irq_no] == old(self).transfer_irqs(*old(mem)));
                    return ;
                }
            }
            assert(pending_irqs@ == old(pending_irqs)@ + seq![]);
        } else {
            assert(pending_irqs@ == old(pending_irqs)@ + seq![]);
        }
    }
}

/// The controller after the first `n` bytes of `data` are written to consecutive ports from `addr`.
pub open spec fn dma_ports_written(d: TestDMA, addr: u16, data: Seq<u8>, n: nat) -> TestDMA
    decreases n,
{
    if n == 0 {
        d
    } else {
        dma_ports_written(d, addr, data, (n - 1) as nat).port_written(super::port_at(addr, n - 1), data[n - 1])
    }
}

/// The controller after the first `n` bytes of `data` are written at consecutive offsets from `ofs`.
pub open spec fn dma_mems_written(d: TestDMA, ofs: u64, data: Seq<u8>, n: nat) -> TestDMA
    decreases n,
{
    if n == 0 {
        d
    } else {
        dma_mems_written(d, ofs, data, (n - 1) as nat).mem_written(super::offset_at(ofs, n - 1), data[n - 1])
    }
}

impl PortIO for TestDMA {
    open spec fn port_read(&self, addr: u16) -> u8 {
        0
    }

    open spec fn port_written(&self, addr: u16, data: u8) -> Self {
        if addr > DMA_CMD_PORT {
            *self
        } else {
            TestDMA { pending: Some(data), ..*self }
        }
    }

    open spec fn ports_written(self, addr: u16, data: Seq<u8>, n: nat) -> Self {
        dma_ports_written(self, addr, data, n)
    }

    proof fn lemma_ports_written(self, addr: u16, data: Seq<u8>, n: nat) {
    }

    fn in8(&self, _addr: u16) -> (v: u8) {
        0
    }

    /// A byte count written to the command port starts a transfer of that many bytes.
    fn out8(&mut self, addr: u16, val: u8) {
        if addr > DMA_CMD_PORT {
            return ;
        }
        self.pending = Some(val);
    }
}

impl MemoryIO for TestDMA {
    open spec fn mem_read(&self, ofs: u64) -> u8 {
        if ofs < 16 {
            self.raw@[ofs as int]
        } else {
            0
        }
    }

    open spec fn mem_written(&self, ofs: u64, data: u8) -> Self {
        if ofs < 16 {
            TestDMA { raw: vstd::array::spec_array_update(self.raw, ofs as int, data), ..*self }
        } else {
            *self
        }
    }

    open spec fn mems_written(self, ofs: u64, data: Seq<u8>, n: nat) -> Self {
        dma_mems_written(self, ofs, data, n)
    }

    proof fn lemma_mems_written(self, ofs: u64, data: Seq<u8>, n: nat) {
    }

    /// Reads an address register byte; offsets past the registers read 0.
    fn read8(&self, ofs: u64) -> (v: u8) {
        if ofs < 16 {
            self.raw[ofs as usize]
        } else {
            0
        }
    }

    /// Writes an address register byte; offsets past the registers are ignored.
    fn write8(&mut self, ofs: u64, val: u8) {
        if ofs < 16 {
            proof {
                broadcast use vstd::array::axiom_spec_array_update, vstd::array::axiom_array_ext_equal;
            }
            let ghost before = self.raw;
            self.raw[ofs as usize] = val;
            assert(self.raw == vstd::array::spec_array_update(before, ofs as int, val));
        }
    }
}

} // verus!
