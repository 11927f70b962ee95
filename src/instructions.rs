use crate::registers::Reg8;
use vstd::prelude::*;

verus! {

/// Operand of the 8-bit arithmetic and logic instructions.
#[derive(Clone, Copy, Debug, PartialEq, Eq, Structural)]
pub enum ArithmeticTarget {
    A,
    B,
    C,
    D,
    E,
    H,
    L,
    HLI,
}

impl ArithmeticTarget {
    /// The register named, or `None` for the memory-indirect arm.
    pub open spec fn spec_register(self) -> Option<Reg8> {
        match self {
            ArithmeticTarget::A => Some(Reg8::A),
            ArithmeticTarget::B => Some(Reg8::B),
            ArithmeticTarget::C => Some(Reg8::C),
            ArithmeticTarget::D => Some(Reg8::D),
            ArithmeticTarget::E => Some(Reg8::E),
            ArithmeticTarget::H => Some(Reg8::H),
            ArithmeticTarget::L => Some(Reg8::L),
            ArithmeticTarget::HLI => None,
        }
    }

    pub fn register(&self) -> (r: Option<Reg8>)
        ensures
            r == self.spec_register(),
    {
        match self {
            ArithmeticTarget::A => Some(Reg8::A),
            ArithmeticTarget::B => Some(Reg8::B),
            ArithmeticTarget::C => Some(Reg8::C),
            ArithmeticTarget::D => Some(Reg8::D),
            ArithmeticTarget::E => Some(Reg8::E),
            ArithmeticTarget::H => Some(Reg8::H),
            ArithmeticTarget::L => Some(Reg8::L),
            ArithmeticTarget::HLI => None,
        }
    }
}

/// Operand of `INC` and `DEC`: an 8-bit register, a register pair, memory at `HL`,
/// or the stack pointer.
#[derive(Clone, Copy, Debug, PartialEq, Eq, Structural)]
pub enum IncDecTarget {
    A,
    B,
    C,
    D,
    E,
    H,
    L,
    BC,
    DE,
    HL,
    HLI,
    SP,
}

impl IncDecTarget {
    /// The 8-bit register named, or `None` for the other arms.
    pub open spec fn spec_register(self) -> Option<Reg8> {
        match self {
            IncDecTarget::A => Some(Reg8::A),
            IncDecTarget::B => Some(Reg8::B),
            IncDecTarget::C => Some(Reg8::C),
            IncDecTarget::D => Some(Reg8::D),
            IncDecTarget::E => Some(Reg8::E),
            IncDecTarget::H => Some(Reg8::H),
            IncDecTarget::L => Some(Reg8::L),
            _ => None,
        }
    }

    pub fn register(&self) -> (r: Option<Reg8>)
        ensures
            r == self.spec_register(),
    {
        match self {
            IncDecTarget::A => Some(Reg8::A),
            IncDecTarget::B => Some(Reg8::B),
            IncDecTarget::C => Some(Reg8::C),
            IncDecTarget::D => Some(Reg8::D),
            IncDecTarget::E => Some(Reg8::E),
            IncDecTarget::H => Some(Reg8::H),
            IncDecTarget::L => Some(Reg8::L),
            _ => None,
        }
    }
}

/// Operand of `ADDHL`.
#[derive(Clone, Copy, Debug, PartialEq, Eq, Structural)]
pub enum ADDHLTarget {
    BC,
    DE,
    HL,
    SP,
}

/// Operand of the bit, swap and rotate instructions.
#[derive(Clone, Copy, Debug, PartialEq, Eq, Structural)]
pub enum PrefixTarget {
    A,
    B,
    C,
    D,
    E,
    H,
    L,
    HLI,
}

impl PrefixTarget {
    /// The register named, or `None` for the memory-indirect arm.
    pub open spec fn spec_register(self) -> Option<Reg8> {
        match self {
            PrefixTarget::A => Some(Reg8::A),
            PrefixTarget::B => Some(Reg8::B),
            PrefixTarget::C => Some(Reg8::C),
            PrefixTarget::D => Some(Reg8::D),
            PrefixTarget::E => Some(Reg8::E),
            PrefixTarget::H => Some(Reg8::H),
            PrefixTarget::L => Some(Reg8::L),
            PrefixTarget::HLI => None,
        }
    }

    pub fn register(&self) -> (r: Option<Reg8>)
        ensures
            r == self.spec_register(),
    {
        match self {
            PrefixTarget::A => Some(Reg8::A),
            PrefixTarget::B => Some(Reg8::B),
            PrefixTarget::C => Some(Reg8::C),
            PrefixTarget::D => Some(Reg8::D),
            PrefixTarget::E => Some(Reg8::E),
            PrefixTarget::H => Some(Reg8::H),
            PrefixTarget::L => Some(Reg8::L),
            PrefixTarget::HLI => None,
        }
    }
}

/// A bit index within a byte.
#[derive(Clone, Copy, Debug, PartialEq, Eq, Structural)]
pub enum BitPosition {
    B0,
    B1,
    B2,
    B3,
    B4,
    B5,
    B6,
    B7,
}

impl BitPosition {
    /// The bit index, `0` to `7`.
    pub open spec fn index(self) -> u8 {
        match self {
            BitPosition::B0 => 0,
            BitPosition::B1 => 1,
            BitPosition::B2 => 2,
            BitPosition::B3 => 3,
            BitPosition::B4 => 4,
            BitPosition::B5 => 5,
            BitPosition::B6 => 6,
            BitPosition::B7 => 7,
        }
    }
}

impl From<BitPosition> for u8 {
    fn from(value: BitPosition) -> u8 {
        match value {
            BitPosition::B0 => 0,
            BitPosition::B1 => 1,
            BitPosition::B2 => 2,
            BitPosition::B3 => 3,
            BitPosition::B4 => 4,
            BitPosition::B5 => 5,
            BitPosition::B6 => 6,
            BitPosition::B7 => 7,
        }
    }
}

impl vstd::std_specs::convert::FromSpecImpl<BitPosition> for u8 {
    open spec fn obeys_from_spec() -> bool {
        true
    }

    open spec fn from_spec(v: BitPosition) -> u8 {
        v.index()
    }
}

/// Destination of an 8-bit load.
#[derive(Clone, Copy, Debug, PartialEq, Eq, Structural)]
pub enum LoadByteTarget {
    A,
    B,
    C,
    D,
    E,
    H,
    L,
    HLI,
}

impl LoadByteTarget {
    /// The register named, or `None` for the memory-indirect arm.
    pub open spec fn spec_register(self) -> Option<Reg8> {
        match self {
            LoadByteTarget::A => Some(Reg8::A),
            LoadByteTarget::B => Some(Reg8::B),
            LoadByteTarget::C => Some(Reg8::C),
            LoadByteTarget::D => Some(Reg8::D),
            LoadByteTarget::E => Some(Reg8::E),
            LoadByteTarget::H => Some(Reg8::H),
            LoadByteTarget::L => Some(Reg8::L),
            LoadByteTarget::HLI => None,
        }
    }

    pub fn register(&self) -> (r: Option<Reg8>)
        ensures
            r == self.spec_register(),
    {
        match self {
            LoadByteTarget::A => Some(Reg8::A),
            LoadByteTarget::B => Some(Reg8::B),
            LoadByteTarget::C => Some(Reg8::C),
            LoadByteTarget::D => Some(Reg8::D),
            LoadByteTarget::E => Some(Reg8::E),
            LoadByteTarget::H => Some(Reg8::H),
            LoadByteTarget::L => Some(Reg8::L),
            LoadByteTarget::HLI => None,
        }
    }
}

/// Source of an 8-bit load.
#[derive(Clone, Copy, Debug, PartialEq, Eq, Structural)]
pub enum LoadByteSource {
    A,
    B,
    C,
    D,
    E,
    H,
    L,
    HLI,
}

impl LoadByteSource {
    /// The register named, or `None` for the memory-indirect arm.
    pub open spec fn spec_register(self) -> Option<Reg8> {
        match self {
            LoadByteSource::A => Some(Reg8::A),
            LoadByteSource::B => Some(Reg8::B),
            LoadByteSource::C => Some(Reg8::C),
            LoadByteSource::D => Some(Reg8::D),
            LoadByteSource::E => Some(Reg8::E),
            LoadByteSource::H => Some(Reg8::H),
            LoadByteSource::L => Some(Reg8::L),
            LoadByteSource::HLI => None,
        }
    }

    pub fn register(&self) -> (r: Option<Reg8>)
        ensures
            r == self.spec_register(),
    {
        match self {
            LoadByteSource::A => Some(Reg8::A),
            LoadByteSource::B => Some(Reg8::B),
            LoadByteSource::C => Some(Reg8::C),
            LoadByteSource::D => Some(Reg8::D),
            LoadByteSource::E => Some(Reg8::E),
            LoadByteSource::H => Some(Reg8::H),
            LoadByteSource::L => Some(Reg8::L),
            LoadByteSource::HLI => None,
        }
    }
}

/// Destination of a 16-bit load.
#[derive(Clone, Copy, Debug, PartialEq, Eq, Structural)]
pub enum LoadWordTarget {
    BC,
    DE,
    HL,
}

/// The kinds of load. `BYTE` carries its source, then its destination.
#[derive(Clone, Copy, Debug, PartialEq, Eq, Structural)]
pub enum LoadType {
    BYTE(LoadByteSource, LoadByteTarget),
}

/// The fixed addresses that a restart call jumps to.
#[derive(Clone, Copy, Debug, PartialEq, Eq, Structural)]
pub enum RSTVector {
    X00,
    X08,
    X10,
    X18,
    X20,
    X28,
    X30,
    X38,
}

/// The interrupt sources.
#[derive(Clone, Copy, Debug, PartialEq, Eq, Structural)]
pub enum Interrupts {
    VBLANK,
    STAT,
    TIMER,
    SERIAL,
    JOYPAD,
}

/// One instruction with its operands.
#[derive(Clone, Copy, Debug, PartialEq, Eq, Structural)]
pub enum Instruction {
    ADD(ArithmeticTarget),
    ADC(ArithmeticTarget),
    AND(ArithmeticTarget),
    CP(ArithmeticTarget),
    DEC(IncDecTarget),
    INC(IncDecTarget),
    OR(ArithmeticTarget),
    SBC(ArithmeticTarget),
    SUB(ArithmeticTarget),
    XOR(ArithmeticTarget),
    ADDHL(ADDHLTarget),
    BIT(PrefixTarget, BitPosition),
    SET(PrefixTarget, BitPosition),
    SWAP(PrefixTarget),
    RL(PrefixTarget),
    RLA,
    RLC(PrefixTarget),
    RLCA,
    RR(PrefixTarget),
    RRA,
    RRC(PrefixTarget),
    RRCA,
    LD(LoadType),
    CCF,
    CPL,
    SCF,
}

} // verus!
