use vstd::prelude::*;

verus! {

/// A 16-bit pair formed from two 8-bit cells, high byte first.
pub open spec fn pair_of(high: u8, low: u8) -> u16 {
    (high as int * 0x100 + low as int) as u16
}

/// High byte of a 16-bit value.
pub open spec fn high_of(v: u16) -> u8 {
    (v as int / 0x100) as u8
}

/// Low byte of a 16-bit value.
pub open spec fn low_of(v: u16) -> u8 {
    (v as int % 0x100) as u8
}

/// Combines two bytes into a 16-bit value, high byte first.
pub fn combine(high: u8, low: u8) -> (r: u16)
    ensures
        r == pair_of(high, low),
        r as int == high as int * 0x100 + low as int,
{
    let r = ((high as u16) << 8u16) | (low as u16);
    assert(r == (high as u16) * 0x100 + (low as u16)) by (bit_vector)
        requires
            r == ((high as u16) << 8u16) | (low as u16),
    ;
    r
}

/// Splits a 16-bit value into its high and low bytes.
pub fn split(v: u16) -> (r: (u8, u8))
    ensures
        r.0 == high_of(v),
        r.1 == low_of(v),
        r.0 as int * 0x100 + r.1 as int == v as int,
{
    let high = ((v & 0xFF00u16) >> 8u16) as u8;
    let low = (v & 0xFFu16) as u8;
    assert(high as u16 == v / 0x100 && low as u16 == v % 0x100) by (bit_vector)
        requires
            high == ((v & 0xFF00u16) >> 8u16) as u8,
            low == (v & 0xFFu16) as u8,
    ;
    (high, low)
}

/// Eight 8-bit cells; BC, DE and HL are views over pairs of them.
#[derive(Clone, Copy, Debug, PartialEq, Eq, Structural)]
pub struct Registers {
    pub a: u8,
    pub b: u8,
    pub c: u8,
    pub d: u8,
    pub e: u8,
    pub f: u8,
    pub h: u8,
    pub l: u8,
}

impl Registers {
    /// All cells at zero.
    pub fn new() -> (r: Registers)
        ensures
            r == (Registers { a: 0, b: 0, c: 0, d: 0, e: 0, f: 0, h: 0, l: 0 }),
    {
        Registers { a: 0, b: 0, c: 0, d: 0, e: 0, f: 0, h: 0, l: 0 }
    }

    pub open spec fn with_bc(self, v: u16) -> Registers {
        Registers { b: high_of(v), c: low_of(v), ..self }
    }

    pub open spec fn with_de(self, v: u16) -> Registers {
        Registers { d: high_of(v), e: low_of(v), ..self }
    }

    pub open spec fn with_hl(self, v: u16) -> Registers {
        Registers { h: high_of(v), l: low_of(v), ..self }
    }

    pub open spec fn bc(&self) -> u16 {
        pair_of(self.b, self.c)
    }

    pub open spec fn de(&self) -> u16 {
        pair_of(self.d, self.e)
    }

    pub open spec fn hl(&self) -> u16 {
        pair_of(self.h, self.l)
    }

    pub fn get_bc(&self) -> (r: u16)
        ensures
            r == self.bc(),
    {
        combine(self.b, self.c)
    }

    pub fn set_bc(&mut self, value: u16)
        ensures
            *final(self) == old(self).with_bc(value),
    {
        let (high, low) = split(value);
        self.b = high;
        self.c = low;
    }

    pub fn get_de(&self) -> (r: u16)
        ensures
            r == self.de(),
    {
        combine(self.d, self.e)
    }

    pub fn set_de(&mut self, value: u16)
        ensures
            *final(self) == old(self).with_de(value),
    {
        let (high, low) = split(value);
        self.d = high;
        self.e = low;
    }

    pub fn get_hl(&self) -> (r: u16)
        ensures
            r == self.hl(),
    {
        combine(self.h, self.l)
    }

    pub fn set_hl(&mut self, value: u16)
        ensures
            *final(self) == old(self).with_hl(value),
    {
        let (high, low) = split(value);
        self.h = high;
        self.l = low;
    }
}

impl Default for Registers {
    fn default() -> (r: Registers)
        ensures
            r == (Registers { a: 0, b: 0, c: 0, d: 0, e: 0, f: 0, h: 0, l: 0 }),
    {
        Registers::new()
    }
}

/// Writing any 16-bit value to a pair and reading that pair back gives the value.
pub proof fn lemma_pair_set_get(r: Registers, v: u16)
    ensures
        r.with_bc(v).bc() == v,
        r.with_de(v).de() == v,
        r.with_hl(v).hl() == v,
{
}

} // verus!
