//! What each operation computes and which flags it writes, over mathematical integers.
//! Each function gives the result byte and the flags after the operation; flags that an
//! operation leaves alone are taken from `f`, the flags before it.
use crate::registers::FlagsRegister;
use vstd::prelude::*;

verus! {

/// The carry flag as the number `0` or `1`.
pub open spec fn carry_in(f: FlagsRegister) -> int {
    if f.carry {
        1
    } else {
        0
    }
}

pub open spec fn add_spec(a: u8, x: u8) -> (u8, FlagsRegister) {
    let r = ((a + x) % 256) as u8;
    (r, FlagsRegister {
        zero: r == 0,
        subtract: false,
        half_carry: (a % 16) + (x % 16) > 0xF,
        carry: a + x > 0xFF,
    })
}

pub open spec fn adc_spec(a: u8, x: u8, f: FlagsRegister) -> (u8, FlagsRegister) {
    let r = ((a + x + carry_in(f)) % 256) as u8;
    (r, FlagsRegister {
        zero: r == 0,
        subtract: false,
        half_carry: (a % 16) + (x % 16) + carry_in(f) > 0xF,
        carry: a + x + carry_in(f) > 0xFF,
    })
}

pub open spec fn sub_spec(a: u8, x: u8) -> (u8, FlagsRegister) {
    let r = ((a - x) % 256) as u8;
    (r, FlagsRegister {
        zero: r == 0,
        subtract: true,
        half_carry: (x % 16) > (a % 16),
        carry: x > a,
    })
}

pub open spec fn sbc_spec(a: u8, x: u8, f: FlagsRegister) -> (u8, FlagsRegister) {
    let r = ((a - x - carry_in(f)) % 256) as u8;
    (r, FlagsRegister {
        zero: r == 0,
        subtract: true,
        half_carry: (x % 16) + carry_in(f) > (a % 16),
        carry: x + carry_in(f) > a,
    })
}

pub open spec fn and_spec(a: u8, x: u8) -> (u8, FlagsRegister) {
    let r = a & x;
    (r, FlagsRegister { zero: r == 0, subtract: false, half_carry: true, carry: false })
}

pub open spec fn or_spec(a: u8, x: u8) -> (u8, FlagsRegister) {
    let r = a | x;
    (r, FlagsRegister { zero: r == 0, subtract: false, half_carry: false, carry: false })
}

pub open spec fn xor_spec(a: u8, x: u8) -> (u8, FlagsRegister) {
    let r = a ^ x;
    (r, FlagsRegister { zero: r == 0, subtract: false, half_carry: false, carry: false })
}

/// Compare: the flags of `a - x`; the accumulator keeps its value.
pub open spec fn cp_flags(a: u8, x: u8) -> FlagsRegister {
    sub_spec(a, x).1
}

pub open spec fn inc_spec(v: u8, f: FlagsRegister) -> (u8, FlagsRegister) {
    let r = ((v + 1) % 256) as u8;
    (r, FlagsRegister { zero: r == 0, subtract: false, half_carry: (v % 16) == 0xF, ..f })
}

pub open spec fn dec_spec(v: u8, f: FlagsRegister) -> (u8, FlagsRegister) {
    let r = ((v - 1) % 256) as u8;
    (r, FlagsRegister { zero: r == 0, subtract: true, half_carry: (v % 16) == 0, ..f })
}

pub open spec fn inc16_spec(v: u16) -> u16 {
    ((v + 1) % 0x10000) as u16
}

pub open spec fn dec16_spec(v: u16) -> u16 {
    ((v - 1) % 0x10000) as u16
}

/// 16-bit add into `HL`: half carry out of bit 11, carry out of bit 15; zero untouched.
pub open spec fn add_hl_spec(hl: u16, x: u16, f: FlagsRegister) -> (u16, FlagsRegister) {
    let r = ((hl + x) % 0x10000) as u16;
    (r, FlagsRegister {
        subtract: false,
        half_carry: (x % 0x800) + (hl % 0x800) > 0x7FF,
        carry: hl + x > 0xFFFF,
        ..f
    })
}

/// Bit test: zero tells whether the bit at `pos` is clear.
pub open spec fn bit_flags(v: u8, pos: u8, f: FlagsRegister) -> FlagsRegister {
    FlagsRegister { zero: (v >> pos) & 1 == 0, subtract: false, half_carry: true, ..f }
}

pub open spec fn set_spec(v: u8, pos: u8) -> u8 {
    v | (1u8 << pos)
}

/// High and low nibbles exchanged.
pub open spec fn swap_spec(v: u8) -> (u8, FlagsRegister) {
    let r = ((v % 16) * 16 + v / 16) as u8;
    (r, FlagsRegister { zero: r == 0, subtract: false, half_carry: false, carry: false })
}

/// Flags of a shift or rotate: zero from the result, carry from the bit shifted out.
pub open spec fn shift_flags(r: u8, out: bool) -> FlagsRegister {
    FlagsRegister { zero: r == 0, subtract: false, half_carry: false, carry: out }
}

/// Rotate left through the carry.
pub open spec fn rl_spec(v: u8, f: FlagsRegister) -> (u8, FlagsRegister) {
    let r = ((v * 2) % 256 + carry_in(f)) as u8;
    (r, shift_flags(r, v >= 0x80))
}

/// Rotate left, bit 7 coming round into bit 0.
pub open spec fn rlc_spec(v: u8) -> (u8, FlagsRegister) {
    let r = ((v * 2) % 256 + v / 128) as u8;
    (r, shift_flags(r, v >= 0x80))
}

/// Rotate right, bit 0 coming round into bit 7.
pub open spec fn rr_spec(v: u8) -> (u8, FlagsRegister) {
    let r = ((v % 2) * 128 + v / 2) as u8;
    (r, shift_flags(r, v % 2 == 1))
}

/// Shift right: bit 0 goes to the carry and is not brought round to bit 7.
pub open spec fn rrc_spec(v: u8) -> (u8, FlagsRegister) {
    let r = (v / 2) as u8;
    (r, shift_flags(r, v % 2 == 1))
}

/// The accumulator forms of the shifts: the same result, with zero always cleared.
pub open spec fn clear_zero(res: (u8, FlagsRegister)) -> (u8, FlagsRegister) {
    (res.0, FlagsRegister { zero: false, ..res.1 })
}

pub open spec fn ccf_flags(f: FlagsRegister) -> FlagsRegister {
    FlagsRegister { subtract: false, half_carry: false, carry: !f.carry, ..f }
}

pub open spec fn cpl_spec(v: u8, f: FlagsRegister) -> (u8, FlagsRegister) {
    (!v, FlagsRegister { subtract: true, half_carry: true, ..f })
}

pub open spec fn scf_flags(f: FlagsRegister) -> FlagsRegister {
    FlagsRegister { subtract: false, half_carry: false, carry: true, ..f }
}

} // verus!
