use vstd::prelude::*;

verus! {

/// `256^n`, the number of distinct values `n` little-endian bytes can hold.
pub open spec fn byte_pow(n: nat) -> nat
    decreases n,
{
    if n == 0 {
        1
    } else {
        256 * byte_pow((n - 1) as nat)
    }
}

/// The unsigned value of the `n` bytes of `s` that start at `a`, least significant byte first.
pub open spec fn le_value(s: Seq<u8>, a: int, n: nat) -> nat
    decreases n,
{
    if n == 0 {
        0
    } else {
        s[a] as nat + 256 * le_value(s, a + 1, (n - 1) as nat)
    }
}

/// `s` with the `n` bytes that start at `a` replaced by the little-endian bytes of `v`.
pub open spec fn le_store(s: Seq<u8>, a: int, v: nat, n: nat) -> Seq<u8>
    decreases n,
{
    if n == 0 {
        s
    } else {
        le_store(s.update(a, (v % 256) as u8), a + 1, v / 256, (n - 1) as nat)
    }
}

/// Whether the `n` bytes that start at `a` all lie inside `s`.
pub open spec fn in_bounds(s: Seq<u8>, a: int, n: nat) -> bool {
    0 <= a && a + n <= s.len()
}

/// The memory size that `set_size(size)` allocates: `size` rounded up to a multiple of 4 KiB.
pub open spec fn rounded_size(size: nat) -> nat {
    ((size + 0xfff) / 0x1000) * 0x1000
}

pub proof fn lemma_byte_pow_values()
    ensures
        byte_pow(1) == 0x100,
        byte_pow(2) == 0x1_0000,
        byte_pow(4) == 0x1_0000_0000,
        byte_pow(8) == 0x1_0000_0000_0000_0000,
{
    reveal_with_fuel(byte_pow, 9);
}

pub proof fn lemma_le_value_bound(s: Seq<u8>, a: int, n: nat)
    ensures
        le_value(s, a, n) < byte_pow(n),
    decreases n,
{
    if n > 0 {
        lemma_le_value_bound(s, a + 1, (n - 1) as nat);
    }
}

pub proof fn lemma_le_store_len(s: Seq<u8>, a: int, v: nat, n: nat)
    requires
        in_bounds(s, a, n),
    ensures
        le_store(s, a, v, n).len() == s.len(),
    decreases n,
{
    if n > 0 {
        lemma_le_store_len(s.update(a, (v % 256) as u8), a + 1, v / 256, (n - 1) as nat);
    }
}

/// Bytes outside the stored range keep their value.
pub proof fn lemma_le_store_frame(s: Seq<u8>, a: int, v: nat, n: nat, i: int)
    requires
        in_bounds(s, a, n),
        0 <= i < s.len(),
        i < a || i >= a + n,
    ensures
        le_store(s, a, v, n)[i] == s[i],
    decreases n,
{
    if n > 0 {
        lemma_le_store_frame(s.update(a, (v % 256) as u8), a + 1, v / 256, (n - 1) as nat, i);
    }
}

/// Reading back a stored value gives that value.
pub proof fn lemma_le_store_value(s: Seq<u8>, a: int, v: nat, n: nat)
    requires
        in_bounds(s, a, n),
        v < byte_pow(n),
    ensures
        le_value(le_store(s, a, v, n), a, n) == v,
    decreases n,
{
    if n > 0 {
        let s1 = s.update(a, (v % 256) as u8);
        assert(v / 256 < byte_pow((n - 1) as nat));
        lemma_le_store_value(s1, a + 1, v / 256, (n - 1) as nat);
        lemma_le_store_frame(s1, a + 1, v / 256, (n - 1) as nat, a);
        lemma_le_store_len(s1, a + 1, v / 256, (n - 1) as nat);
        assert(v == v % 256 + 256 * (v / 256));
    }
}

/// The value of bytes outside a store is unchanged by it.
pub proof fn lemma_le_value_frame(s: Seq<u8>, t: Seq<u8>, a: int, n: nat)
    requires
        in_bounds(s, a, n),
        s.len() == t.len(),
        forall|i: int| a <= i < a + n ==> s[i] == t[i],
    ensures
        le_value(s, a, n) == le_value(t, a, n),
    decreases n,
{
    if n > 0 {
        lemma_le_value_frame(s, t, a + 1, (n - 1) as nat);
    }
}

/// Equal bytes give equal values, wherever they lie.
pub proof fn lemma_le_value_shift(s: Seq<u8>, a: int, t: Seq<u8>, b: int, n: nat)
    requires
        forall|i: int| 0 <= i < n ==> #[trigger] s[a + i] == t[b + i],
    ensures
        le_value(s, a, n) == le_value(t, b, n),
    decreases n,
{
    if n > 0 {
        assert(s[a + 0] == t[b + 0]);
        assert forall|i: int| 0 <= i < n - 1 implies #[trigger] s[(a + 1) + i] == t[(b + 1) + i] by {
            assert(s[a + (i + 1)] == t[b + (i + 1)]);
        }
        lemma_le_value_shift(s, a + 1, t, b + 1, (n - 1) as nat);
    }
}

/// Physical memory: a flat array of bytes, read and written in little-endian order.
pub struct Memory {
    mem: Vec<u8>,
}

impl View for Memory {
    type V = Seq<u8>;

    closed spec fn view(&self) -> Seq<u8> {
        self.mem@
    }
}

impl Memory {
    pub fn new() -> (m: Self)
        ensures
            m@ == Seq::<u8>::empty(),
    {
        Self { mem: Vec::new() }
    }

    /// Replaces the contents with zeroed memory of `size` bytes rounded up to a page multiple.
    pub fn set_size(&mut self, size: usize)
        requires
            size + 0xfff <= usize::MAX,
        ensures
            final(self)@.len() == rounded_size(size as nat),
            forall|i: int| 0 <= i < final(self)@.len() ==> final(self)@[i] == 0,
    {
        let n = (size + 0xfff) / 0x1000 * 0x1000;
        self.mem = vec![0; n];
    }

    pub fn len(&self) -> (n: usize)
        ensures
            n == self@.len(),
    {
        self.mem.len()
    }

    /// Whether the `n` bytes at `addr` lie inside memory, without overflowing.
    fn fits(&self, addr: usize, n: usize) -> (b: bool)
        ensures
            b == in_bounds(self@, addr as int, n as nat),
    {
        addr <= self.mem.len() && self.mem.len() - addr >= n
    }

    /// Reads `n` bytes at `addr` as a little-endian value; 0 where they do not lie in memory.
    fn read_le(&self, addr: usize, n: usize) -> (v: u64)
        requires
            n <= 8,
        ensures
            v == (if in_bounds(self@, addr as int, n as nat) { le_value(self@, addr as int, n as nat) } else { 0 }),
    {
        if !self.fits(addr, n) {
            return 0;
        }
        let len = self.mem.len();
        let mut v: u64 = 0;
        let mut i: usize = n;
        while i > 0
            invariant
                i <= n <= 8,
                len == self@.len(),
                in_bounds(self@, addr as int, n as nat),
                v == le_value(self@, addr + i, (n - i) as nat),
                v < byte_pow((n - i) as nat),
            decreases i,
        {
            proof {
                lemma_byte_pow_values();
                lemma_byte_pow_monotone((n - i + 1) as nat, 8);
            }
            i = i - 1;
            let b = self.mem[addr + i];
            v = v * 256 + b as u64;
        }
        v
    }

    /// Stores the low `n` bytes of `v` at `addr`, least significant first; nothing where they
    /// do not lie in memory.
    fn write_le(&mut self, addr: usize, v: u64, n: usize)
        requires
            n <= 8,
        ensures
            final(self)@ == (if in_bounds(old(self)@, addr as int, n as nat) {
                le_store(old(self)@, addr as int, v as nat, n as nat)
            } else {
                old(self)@
            }),
    {
        if !self.fits(addr, n) {
            return ;
        }
        let ghost orig = self@;
        let len = self.mem.len();
        let mut rest: u64 = v;
        let mut i: usize = 0;
        while i < n
            invariant
                i <= n <= 8,
                len == self@.len(),
                in_bounds(orig, addr as int, n as nat),
                self@.len() == orig.len(),
                le_store(self@, addr + i, rest as nat, (n - i) as nat) == le_store(orig, addr as int, v as nat, n as nat),
            decreases n - i,
        {
            self.mem.set(addr + i, (rest % 256) as u8);
            rest = rest / 256;
            i = i + 1;
        }
    }

    /// Reads the quadword at `addr`; 0 when it does not lie in memory.
    pub fn read64(&self, addr: usize) -> (v: u64)
        ensures
            v == (if in_bounds(self@, addr as int, 8) { le_value(self@, addr as int, 8) } else { 0 }),
    {
        self.read_le(addr, 8)
    }

    /// Reads the doubleword at `addr`; 0 when it does not lie in memory.
    pub fn read32(&self, addr: usize) -> (v: u32)
        ensures
            v == (if in_bounds(self@, addr as int, 4) { le_value(self@, addr as int, 4) } else { 0 }),
    {
        proof {
            lemma_le_value_bound(self@, addr as int, 4);
            lemma_byte_pow_values();
        }
        self.read_le(addr, 4) as u32
    }

    /// Reads the word at `addr`; 0 when it does not lie in memory.
    pub fn read16(&self, addr: usize) -> (v: u16)
        ensures
            v == (if in_bounds(self@, addr as int, 2) { le_value(self@, addr as int, 2) } else { 0 }),
    {
        proof {
            lemma_le_value_bound(self@, addr as int, 2);
            lemma_byte_pow_values();
        }
        self.read_le(addr, 2) as u16
    }

    /// Reads the byte at `addr`; 0 when it does not lie in memory.
    pub fn read8(&self, addr: usize) -> (v: u8)
        ensures
            v == (if addr < self@.len() { self@[addr as int] } else { 0 }),
    {
        if addr < self.mem.len() {
            self.mem[addr]
        } else {
            0
        }
    }

    pub fn write64(&mut self, addr: usize, v: u64)
        ensures
            final(self)@ == (if in_bounds(old(self)@, addr as int, 8) {
                le_store(old(self)@, addr as int, v as nat, 8)
            } else {
                old(self)@
            }),
    {
        self.write_le(addr, v, 8);
    }

    pub fn write32(&mut self, addr: usize, v: u32)
        ensures
            final(self)@ == (if in_bounds(old(self)@, addr as int, 4) {
                le_store(old(self)@, addr as int, v as nat, 4)
            } else {
                old(self)@
            }),
    {
        self.write_le(addr, v as u64, 4);
    }

    pub fn write16(&mut self, addr: usize, v: u16)
        ensures
            final(self)@ == (if in_bounds(old(self)@, addr as int, 2) {
                le_store(old(self)@, addr as int, v as nat, 2)
            } else {
                old(self)@
            }),
    {
        self.write_le(addr, v as u64, 2);
    }

    pub fn write8(&mut self, addr: usize, v: u8)
        ensures
            final(self)@ == (if addr < old(self)@.len() { old(self)@.update(addr as int, v) } else { old(self)@ }),
    {
        if addr < self.mem.len() {
            self.mem.set(addr, v);
        }
    }

    /// Copies `len` bytes of memory at `src_addr` into the front of `dst`. When they do not lie
    /// in memory, the front of `dst` is zeroed instead and an error is returned.
    pub fn read_data(&self, dst: &mut [u8], src_addr: usize, len: usize) -> (r: Result<usize, &'static str>)
        requires
            len <= old(dst)@.len(),
        ensures
            final(dst)@.len() == old(dst)@.len(),
            r is Ok <==> in_bounds(self@, src_addr as int, len as nat),
            r is Ok ==> r->Ok_0 == len,
            forall|i: int| 0 <= i < len ==> final(dst)@[i] == (if r is Ok { self@[src_addr + i] } else { 0 }),
            forall|i: int| len <= i < old(dst)@.len() ==> final(dst)@[i] == old(dst)@[i],
    {
        let ok = self.fits(src_addr, len);
        let mlen = self.mem.len();
        let mut i: usize = 0;
        while i < len
            invariant
                i <= len <= dst@.len(),
                mlen == self@.len(),
                dst@.len() == old(dst)@.len(),
                ok == in_bounds(self@, src_addr as int, len as nat),
                forall|j: int| 0 <= j < i ==> dst@[j] == (if ok { self@[src_addr + j] } else { 0 }),
                forall|j: int| i <= j < dst@.len() ==> dst@[j] == old(dst)@[j],
            decreases len - i,
        {
            let b = if ok { self.mem[src_addr + i] } else { 0 };
            dst[i] = b;
            i = i + 1;
        }
        if ok {
            Ok(len)
        } else {
            Err("src: Out of range")
        }
    }

    /// Copies the first `len` bytes of `src` into memory at `dst_addr`; an error, and memory
    /// untouched, when they do not fit there.
    pub fn write_data(&mut self, dst_addr: usize, src: &[u8], len: usize) -> (r: Result<usize, &'static str>)
        requires
            len <= src@.len(),
        ensures
            r is Ok <==> in_bounds(old(self)@, dst_addr as int, len as nat),
            r is Ok ==> r->Ok_0 == len,
            r is Ok ==> final(self)@ == old(self)@.subrange(0, dst_addr as int) + src@.subrange(0, len as int)
                + old(self)@.subrange(dst_addr + len, old(self)@.len() as int),
            r is Err ==> final(self)@ == old(self)@,
    {
        if !self.fits(dst_addr, len) {
            return Err("dst: Out of range");
        }
        let ghost orig = self@;
        let mlen = self.mem.len();
        let mut i: usize = 0;
        while i < len
            invariant
                i <= len <= src@.len(),
                mlen == self@.len(),
                in_bounds(orig, dst_addr as int, len as nat),
                self@.len() == orig.len(),
                forall|j: int| 0 <= j < dst_addr || dst_addr + len <= j < orig.len() ==> self@[j] == orig[j],
                forall|j: int| dst_addr <= j < dst_addr + i ==> self@[j] == src@[j - dst_addr],
                forall|j: int| dst_addr + i <= j < dst_addr + len ==> self@[j] == orig[j],
            decreases len - i,
        {
            self.mem.set(dst_addr + i, src[i]);
            i = i + 1;
        }
        assert(self@ =~= orig.subrange(0, dst_addr as int) + src@.subrange(0, len as int)
            + orig.subrange(dst_addr + len, orig.len() as int));
        Ok(len)
    }

    /// The bytes of memory from `addr` to its end; an error when `addr` lies past the end.
    pub fn as_ptr(&self, addr: usize) -> (r: Result<&[u8], &'static str>)
        ensures
            r is Ok <==> addr <= self@.len(),
            r is Ok ==> r->Ok_0@ == self@.subrange(addr as int, self@.len() as int),
            r is Err ==> r->Err_0@ == "as_ptr: Out of range"@,
    {
        if addr <= self.mem.len() {
            Ok(vstd::slice::slice_subrange(self.mem.as_slice(), addr, self.mem.len()))
        } else {
            Err("as_ptr: Out of range")
        }
    }

    /// The writable bytes of memory from `addr` to its end; an error when `addr` lies past the end.
    pub fn as_mut_ptr(&mut self, addr: usize) -> (r: Result<&mut [u8], &'static str>)
        ensures
            r is Ok <==> addr <= old(self)@.len(),
            r is Ok ==> r->Ok_0@ == old(self)@.subrange(addr as int, old(self)@.len() as int),
            r is Ok ==> final(self)@ == old(self)@.subrange(0, addr as int) + final(r->Ok_0)@,
            r is Err ==> final(self)@ == old(self)@ && r->Err_0@ == "as_mut_ptr: Out of range"@,
    {
        if addr <= self.mem.len() {
            let s = self.mem.as_mut_slice();
            let (_, tail) = s.split_at_mut(addr);
            Ok(tail)
        } else {
            Err("as_mut_ptr: Out of range")
        }
    }
}

/// The little-endian value of the bytes of `b`.
pub fn le_from_bytes(b: &[u8]) -> (v: u64)
    requires
        b@.len() <= 8,
    ensures
        v == le_value(b@, 0, b@.len()),
{
    let n = b.len();
    let mut v: u64 = 0;
    let mut i: usize = n;
    while i > 0
        invariant
            i <= n <= 8,
            n == b@.len(),
            v == le_value(b@, i as int, (n - i) as nat),
            v < byte_pow((n - i) as nat),
        decreases i,
    {
        proof {
            lemma_byte_pow_values();
            lemma_byte_pow_monotone((n - i + 1) as nat, 8);
        }
        i = i - 1;
        v = v * 256 + b[i] as u64;
    }
    v
}

/// The low `n` bytes of `v`, least significant first.
pub fn le_to_bytes(v: u64, n: usize) -> (b: Vec<u8>)
    requires
        n <= 8,
    ensures
        b@ == le_store(Seq::new(n as nat, |i: int| 0u8), 0, v as nat, n as nat),
{
    let ghost zero = Seq::new(n as nat, |i: int| 0u8);
    let mut b: Vec<u8> = vec![0; n];
    assert(b@ =~= zero);
    let mut rest: u64 = v;
    let mut i: usize = 0;
    while i < n
        invariant
            i <= n <= 8,
            b@.len() == n,
            in_bounds(zero, 0, n as nat),
            le_store(b@, i as int, rest as nat, (n - i) as nat) == le_store(zero, 0, v as nat, n as nat),
        decreases n - i,
    {
        b.set(i, (rest % 256) as u8);
        rest = rest / 256;
        i = i + 1;
    }
    b
}

/// The `n`-byte little-endian value at offset `off` of `buf`.
pub fn buf_get_le(buf: &[u8], off: usize, n: usize) -> (v: u64)
    requires
        n <= 8,
        off + n <= buf@.len(),
    ensures
        v == le_value(buf@, off as int, n as nat),
{
    let _len = buf.len();
    let part = vstd::slice::slice_subrange(buf, off, off + n);
    proof {
        lemma_le_value_shift(part@, 0, buf@, off as int, n as nat);
    }
    le_from_bytes(part)
}

/// Stores the low `n` bytes of `v` at offset `off` of `buf`, least significant first.
pub fn buf_put_le(buf: &mut Vec<u8>, off: usize, v: u64, n: usize)
    requires
        n <= 8,
        off + n <= old(buf)@.len(),
    ensures
        final(buf)@ == le_store(old(buf)@, off as int, v as nat, n as nat),
        final(buf)@.len() == old(buf)@.len(),
{
    proof {
        lemma_le_store_len(buf@, off as int, v as nat, n as nat);
    }
    let ghost orig = buf@;
    let len = buf.len();
    let mut rest: u64 = v;
    let mut i: usize = 0;
    while i < n
        invariant
            i <= n <= 8,
            off + n <= orig.len(),
            len == orig.len(),
            in_bounds(orig, off as int, n as nat),
            buf@.len() == orig.len(),
            le_store(buf@, off + i, rest as nat, (n - i) as nat) == le_store(orig, off as int, v as nat, n as nat),
        decreases n - i,
    {
        buf.set(off + i, (rest % 256) as u8);
        rest = rest / 256;
        i = i + 1;
    }
}

pub proof fn lemma_byte_pow_monotone(a: nat, b: nat)
    requires
        a <= b,
    ensures
        byte_pow(a) <= byte_pow(b),
    decreases b,
{
    if a < b {
        lemma_byte_pow_monotone(a, (b - 1) as nat);
    }
}

pub proof fn lemma_byte_pow_positive(n: nat)
    ensures
        byte_pow(n) > 0,
    decreases n,
{
    if n > 0 {
        lemma_byte_pow_positive((n - 1) as nat);
    }
}

pub proof fn lemma_byte_pow_le8(n: nat)
    requires
        n <= 8,
    ensures
        byte_pow(n) <= 0x1_0000_0000_0000_0000,
{
    lemma_byte_pow_monotone(n, 8);
    lemma_byte_pow_values();
}

} // verus!
