use vstd::prelude::*;

verus! {

/// A descriptor table register (GDTR, IDTR) or the cached table of a selector register.
#[derive(Clone, Copy, PartialEq, Eq, Structural, Debug)]
pub struct DescTbl {
    pub base: u64,
    pub limit: u32,
}

impl DescTbl {
    pub open spec fn reset() -> Self {
        DescTbl { base: 0, limit: 0xffff }
    }

    pub fn get(&self) -> (r: (u64, u32))
        ensures
            r == (self.base, self.limit),
    {
        (self.base, self.limit)
    }
}

impl Default for DescTbl {
    fn default() -> (r: Self)
        ensures
            r == Self::reset(),
    {
        Self { base: 0, limit: 0xffff }
    }
}

/// A selector-loaded table register (LDTR, TR): the selector and the table it designates.
#[derive(Clone, Copy, PartialEq, Eq, Structural, Debug)]
pub struct DescTblSel {
    pub selector: u16,
    pub cache: DescTbl,
}

impl Default for DescTblSel {
    fn default() -> (r: Self)
        ensures
            r == (DescTblSel { selector: 0, cache: DescTbl::reset() }),
    {
        Self { selector: 0, cache: DescTbl::default() }
    }
}

/// The descriptor table registers.
#[derive(Clone, Copy, PartialEq, Eq, Structural, Debug)]
pub struct DTRegisters {
    pub gdtr: DescTbl,
    pub idtr: DescTbl,
    pub ldtr: DescTblSel,
    pub tr: DescTblSel,
}

impl DTRegisters {
    pub open spec fn reset() -> Self {
        DTRegisters {
            gdtr: DescTbl::reset(),
            idtr: DescTbl::reset(),
            ldtr: DescTblSel { selector: 0, cache: DescTbl::reset() },
            tr: DescTblSel { selector: 0, cache: DescTbl::reset() },
        }
    }
}

impl Default for DTRegisters {
    fn default() -> (r: Self)
        ensures
            r == Self::reset(),
    {
        Self {
            gdtr: DescTbl::default(),
            idtr: DescTbl::default(),
            ldtr: DescTblSel::default(),
            tr: DescTblSel::default(),
        }
    }
}

} // verus!
