use vstd::prelude::*;

verus! {

/// The four status flags, kept as independent booleans.
#[derive(Clone, Copy, Debug, PartialEq, Eq, Structural)]
pub struct FlagsRegister {
    pub zero: bool,
    pub subtract: bool,
    pub half_carry: bool,
    pub carry: bool,
}

impl FlagsRegister {
    /// All four flags cleared.
    pub open spec fn cleared() -> FlagsRegister {
        FlagsRegister { zero: false, subtract: false, half_carry: false, carry: false }
    }

    pub fn new() -> (r: FlagsRegister)
        ensures
            r == FlagsRegister::cleared(),
    {
        FlagsRegister { zero: false, subtract: false, half_carry: false, carry: false }
    }
}

/// One of the seven 8-bit general registers.
#[derive(Clone, Copy, Debug, PartialEq, Eq, Structural)]
pub enum Reg8 {
    A,
    B,
    C,
    D,
    E,
    H,
    L,
}

/// The register file: seven 8-bit registers and the flags.
/// `BC`, `DE` and `HL` are views over the underlying bytes, not storage of their own.
#[derive(Clone, Copy, Debug, PartialEq, Eq, Structural)]
pub struct Registers {
    pub a: u8,
    pub b: u8,
    pub c: u8,
    pub d: u8,
    pub e: u8,
    pub h: u8,
    pub l: u8,
    pub f: FlagsRegister,
}

impl Registers {
    /// Every register zero and every flag false.
    pub open spec fn power_on() -> Registers {
        Registers { a: 0, b: 0, c: 0, d: 0, e: 0, h: 0, l: 0, f: FlagsRegister::cleared() }
    }

    pub open spec fn bc(self) -> int {
        self.b * 256 + self.c
    }

    pub open spec fn de(self) -> int {
        self.d * 256 + self.e
    }

    pub open spec fn hl(self) -> int {
        self.h * 256 + self.l
    }

    pub open spec fn with_bc(self, v: u16) -> Registers {
        Registers { b: (v / 256) as u8, c: (v % 256) as u8, ..self }
    }

    pub open spec fn with_de(self, v: u16) -> Registers {
        Registers { d: (v / 256) as u8, e: (v % 256) as u8, ..self }
    }

    pub open spec fn with_hl(self, v: u16) -> Registers {
        Registers { h: (v / 256) as u8, l: (v % 256) as u8, ..self }
    }

    pub open spec fn with_flags(self, f: FlagsRegister) -> Registers {
        Registers { f: f, ..self }
    }

    /// The value held by one 8-bit register.
    pub open spec fn value_of(self, r: Reg8) -> u8 {
        match r {
            Reg8::A => self.a,
            Reg8::B => self.b,
            Reg8::C => self.c,
            Reg8::D => self.d,
            Reg8::E => self.e,
            Reg8::H => self.h,
            Reg8::L => self.l,
        }
    }

    /// The register file with one 8-bit register replaced.
    pub open spec fn with_value(self, r: Reg8, v: u8) -> Registers {
        match r {
            Reg8::A => Registers { a: v, ..self },
            Reg8::B => Registers { b: v, ..self },
            Reg8::C => Registers { c: v, ..self },
            Reg8::D => Registers { d: v, ..self },
            Reg8::E => Registers { e: v, ..self },
            Reg8::H => Registers { h: v, ..self },
            Reg8::L => Registers { l: v, ..self },
        }
    }

    pub fn new() -> (r: Registers)
        ensures
            r == Registers::power_on(),
    {
        Registers { a: 0, b: 0, c: 0, d: 0, e: 0, h: 0, l: 0, f: FlagsRegister::new() }
    }

    pub fn read(&self, r: Reg8) -> (v: u8)
        ensures
            v == self.value_of(r),
    {
        match r {
            Reg8::A => self.a,
            Reg8::B => self.b,
            Reg8::C => self.c,
            Reg8::D => self.d,
            Reg8::E => self.e,
            Reg8::H => self.h,
            Reg8::L => self.l,
        }
    }

    pub fn write(&mut self, r: Reg8, v: u8)
        ensures
            *final(self) == old(self).with_value(r, v),
    {
        match r {
            Reg8::A => self.a = v,
            Reg8::B => self.b = v,
            Reg8::C => self.c = v,
            Reg8::D => self.d = v,
            Reg8::E => self.e = v,
            Reg8::H => self.h = v,
            Reg8::L => self.l = v,
        }
    }

    pub fn get_bc(&self) -> (r: u16)
        ensures
            r == self.bc(),
    {
        self.b as u16 * 256 + self.c as u16
    }

    pub fn get_de(&self) -> (r: u16)
        ensures
            r == self.de(),
    {
        self.d as u16 * 256 + self.e as u16
    }

    pub fn get_hl(&self) -> (r: u16)
        ensures
            r == self.hl(),
    {
        self.h as u16 * 256 + self.l as u16
    }

    pub fn set_bc(&mut self, v: u16)
        ensures
            *final(self) == old(self).with_bc(v),
            final(self).bc() == v,
    {
        self.b = (v / 256) as u8;
        self.c = (v % 256) as u8;
    }

    pub fn set_de(&mut self, v: u16)
        ensures
            *final(self) == old(self).with_de(v),
            final(self).de() == v,
    {
        self.d = (v / 256) as u8;
        self.e = (v % 256) as u8;
    }

    pub fn set_hl(&mut self, v: u16)
        ensures
            *final(self) == old(self).with_hl(v),
            final(self).hl() == v,
    {
        self.h = (v / 256) as u8;
        self.l = (v % 256) as u8;
    }
}

/// Writing a 16-bit value into a register pair and reading the pair back gives the value,
/// and writing back what a pair holds changes nothing.
pub proof fn lemma_pair_round_trip(r: Registers, v: u16)
    ensures
        r.with_bc(v).bc() == v,
        r.with_de(v).de() == v,
        r.with_hl(v).hl() == v,
        r.with_bc(r.bc() as u16) == r,
        r.with_de(r.de() as u16) == r,
        r.with_hl(r.hl() as u16) == r,
{
}

} // verus!
