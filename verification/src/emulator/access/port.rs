use vstd::prelude::*;
use crate::emulator::EmuException;
use crate::device::Device;
use crate::hardware::memory::{le_value, le_store, lemma_le_value_bound, lemma_byte_pow_values, lemma_le_store_len, le_from_bytes, le_to_bytes};
use super::{Access, same_but_core_tlb};

verus! {

impl Access {
    /// `b` is `a` after the `n` low bytes of `v` were written to port `addr`.
    pub open spec fn outputs(a: Access, b: Access, addr: u16, v: u64, n: nat) -> bool {
        &&& Device::port_output(a.dev, a.mem, b.dev, b.mem, addr, le_store(Seq::new(n, |i: int| 0u8), 0, v as nat, n))
        &&& a.core == b.core
        &&& a.mode == b.mode
        &&& a.oasz == b.oasz
        &&& a.stsz == b.stsz
        &&& a.pgmd == b.pgmd
        &&& a.a20gate == b.a20gate
        &&& a.tlb@ == b.tlb@
    }

    fn port_in(&self, addr: u16, n: usize) -> (v: u64)
        requires
            n <= 8,
        ensures
            v == le_value(self.dev.port_bytes(addr, n as nat), 0, n as nat),
            v < crate::hardware::memory::byte_pow(n as nat),
    {
        let mut data: Vec<u8> = vec![0; n];
        self.dev.in_portio(addr, data.as_mut_slice());
        proof {
            assert(data@ =~= self.dev.port_bytes(addr, n as nat));
            lemma_le_value_bound(data@, 0, n as nat);
        }
        le_from_bytes(data.as_slice())
    }

    fn port_out(&mut self, addr: u16, v: u64, n: usize)
        requires
            n <= 8,
        ensures
            Access::outputs(*old(self), *final(self), addr, v, n as nat),
    {
        let data = le_to_bytes(v, n);
        proof {
            lemma_le_store_len(Seq::new(n as nat, |i: int| 0u8), 0, v as nat, n as nat);
        }
        self.dev.out_portio(&mut self.mem, addr, data.as_slice());
    }

    pub fn in_8(&self, addr: u16) -> (r: Result<u8, EmuException>)
        ensures
            r == Ok::<u8, EmuException>(self.dev.port_bytes(addr, 1)[0]),
    {
        proof {
            lemma_byte_pow_values();
            reveal_with_fuel(le_value, 2);
        }
        Ok(self.port_in(addr, 1) as u8)
    }

    pub fn out_8(&mut self, addr: u16, v: u8) -> (r: Result<(), EmuException>)
        ensures
            r is Ok,
            Access::outputs(*old(self), *final(self), addr, v as u64, 1),
    {
        self.port_out(addr, v as u64, 1);
        Ok(())
    }

    pub fn in_16(&self, addr: u16) -> (r: Result<u16, EmuException>)
        ensures
            r == Ok::<u16, EmuException>(le_value(self.dev.port_bytes(addr, 2), 0, 2) as u16),
    {
        proof {
            lemma_byte_pow_values();
        }
        Ok(self.port_in(addr, 2) as u16)
    }

    pub fn out_16(&mut self, addr: u16, v: u16) -> (r: Result<(), EmuException>)
        ensures
            r is Ok,
            Access::outputs(*old(self), *final(self), addr, v as u64, 2),
    {
        self.port_out(addr, v as u64, 2);
        Ok(())
    }

    pub fn in_32(&self, addr: u16) -> (r: Result<u32, EmuException>)
        ensures
            r == Ok::<u32, EmuException>(le_value(self.dev.port_bytes(addr, 4), 0, 4) as u32),
    {
        proof {
            lemma_byte_pow_values();
        }
        Ok(self.port_in(addr, 4) as u32)
    }

    pub fn out_32(&mut self, addr: u16, v: u32) -> (r: Result<(), EmuException>)
        ensures
            r is Ok,
            Access::outputs(*old(self), *final(self), addr, v as u64, 4),
    {
        self.port_out(addr, v as u64, 4);
        Ok(())
    }
}

} // verus!
