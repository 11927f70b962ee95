use crate::alu::{
    adc_spec, add_hl_spec, add_spec, and_spec, bit_flags, carry_in, ccf_flags, clear_zero,
    cp_flags, cpl_spec, dec16_spec, dec_spec, inc16_spec, inc_spec, or_spec, rl_spec, rlc_spec,
    rr_spec, rrc_spec, sbc_spec, scf_flags, set_spec, sub_spec, swap_spec, xor_spec,
};
use crate::instructions::{
    ADDHLTarget, ArithmeticTarget, BitPosition, IncDecTarget, Instruction, LoadType,
    PrefixTarget,
};
use crate::memory::{Memory, MemoryError};
use crate::registers::{FlagsRegister, Reg8, Registers};
use vstd::prelude::*;

verus! {

/// Why an instruction was not executed.
#[derive(Clone, Copy, Debug, PartialEq, Eq, Structural)]
pub enum ExecuteError {
    /// An operand names memory at `HL` or the stack pointer, which this core does not
    /// address yet.
    UnsupportedOperand,
}

/// The register file with a result byte in register `s` and the flags that came with it.
pub open spec fn write_result(r: Registers, s: Reg8, res: (u8, FlagsRegister)) -> Registers {
    r.with_value(s, res.0).with_flags(res.1)
}

/// The register file after `i`, or `None` when an operand is one this core does not
/// address (memory at `HL`, the stack pointer).
pub open spec fn execute_spec(r: Registers, i: Instruction) -> Option<Registers> {
    match i {
        Instruction::ADD(t) => match t.spec_register() {
            Some(s) => Some(write_result(r, Reg8::A, add_spec(r.a, r.value_of(s)))),
            None => None,
        },
        Instruction::ADC(t) => match t.spec_register() {
            Some(s) => Some(write_result(r, Reg8::A, adc_spec(r.a, r.value_of(s), r.f))),
            None => None,
        },
        Instruction::AND(t) => match t.spec_register() {
            Some(s) => Some(write_result(r, Reg8::A, and_spec(r.a, r.value_of(s)))),
            None => None,
        },
        Instruction::CP(t) => match t.spec_register() {
            Some(s) => Some(r.with_flags(cp_flags(r.a, r.value_of(s)))),
            None => None,
        },
        Instruction::OR(t) => match t.spec_register() {
            Some(s) => Some(write_result(r, Reg8::A, or_spec(r.a, r.value_of(s)))),
            None => None,
        },
        Instruction::SBC(t) => match t.spec_register() {
            Some(s) => Some(write_result(r, Reg8::A, sbc_spec(r.a, r.value_of(s), r.f))),
            None => None,
        },
        Instruction::SUB(t) => match t.spec_register() {
            Some(s) => Some(write_result(r, Reg8::A, sub_spec(r.a, r.value_of(s)))),
            None => None,
        },
        Instruction::XOR(t) => match t.spec_register() {
            Some(s) => Some(write_result(r, Reg8::A, xor_spec(r.a, r.value_of(s)))),
            None => None,
        },
        Instruction::INC(t) => match t.spec_register() {
            Some(s) => Some(write_result(r, s, inc_spec(r.value_of(s), r.f))),
            None => match t {
                IncDecTarget::BC => Some(r.with_bc(inc16_spec(r.bc() as u16))),
                IncDecTarget::DE => Some(r.with_de(inc16_spec(r.de() as u16))),
                IncDecTarget::HL => Some(r.with_hl(inc16_spec(r.hl() as u16))),
                _ => None,
            },
        },
        Instruction::DEC(t) => match t.spec_register() {
            Some(s) => Some(write_result(r, s, dec_spec(r.value_of(s), r.f))),
            None => match t {
                IncDecTarget::BC => Some(r.with_bc(dec16_spec(r.bc() as u16))),
                IncDecTarget::DE => Some(r.with_de(dec16_spec(r.de() as u16))),
                IncDecTarget::HL => Some(r.with_hl(dec16_spec(r.hl() as u16))),
                _ => None,
            },
        },
        Instruction::ADDHL(t) => {
            let x = match t {
                ADDHLTarget::BC => r.bc(),
                ADDHLTarget::DE => r.de(),
                ADDHLTarget::HL => r.hl(),
                ADDHLTarget::SP => 0,
            };
            let res = add_hl_spec(r.hl() as u16, x as u16, r.f);
            if t is SP {
                None
            } else {
                Some(r.with_hl(res.0).with_flags(res.1))
            }
        },
        Instruction::BIT(t, p) => match t.spec_register() {
            Some(s) => Some(r.with_flags(bit_flags(r.value_of(s), p.index(), r.f))),
            None => None,
        },
        Instruction::SET(t, p) => match t.spec_register() {
            Some(s) => Some(r.with_value(s, set_spec(r.value_of(s), p.index()))),
            None => None,
        },
        Instruction::SWAP(t) => match t.spec_register() {
            Some(s) => Some(write_result(r, s, swap_spec(r.value_of(s)))),
            None => None,
        },
        Instruction::RL(t) => match t.spec_register() {
            Some(s) => Some(write_result(r, s, rl_spec(r.value_of(s), r.f))),
            None => None,
        },
        Instruction::RLC(t) => match t.spec_register() {
            Some(s) => Some(write_result(r, s, rlc_spec(r.value_of(s)))),
            None => None,
        },
        Instruction::RR(t) => match t.spec_register() {
            Some(s) => Some(write_result(r, s, rr_spec(r.value_of(s)))),
            None => None,
        },
        Instruction::RRC(t) => match t.spec_register() {
            Some(s) => Some(write_result(r, s, rrc_spec(r.value_of(s)))),
            None => None,
        },
        Instruction::RLA => Some(write_result(r, Reg8::A, clear_zero(rl_spec(r.a, r.f)))),
        Instruction::RLCA => Some(write_result(r, Reg8::A, clear_zero(rlc_spec(r.a)))),
        Instruction::RRA => Some(write_result(r, Reg8::A, clear_zero(rr_spec(r.a)))),
        Instruction::RRCA => Some(write_result(r, Reg8::A, clear_zero(rrc_spec(r.a)))),
        Instruction::LD(LoadType::BYTE(src, dst)) => match (
            src.spec_register(),
            dst.spec_register(),
        ) {
            (Some(s), Some(d)) => Some(r.with_value(d, r.value_of(s))),
            _ => None,
        },
        Instruction::CCF => Some(r.with_flags(ccf_flags(r.f))),
        Instruction::CPL => Some(write_result(r, Reg8::A, cpl_spec(r.a, r.f))),
        Instruction::SCF => Some(r.with_flags(scf_flags(r.f))),
    }
}

/// `n` differs from `r` at most in the accumulator and the flags.
pub open spec fn only_a_and_flags(r: Registers, n: Registers) -> bool {
    n == r.with_value(Reg8::A, n.a).with_flags(n.f)
}

/// Incrementing an 8-bit register or a register pair and then decrementing it, or the
/// reverse, gives every register back its value; only the flags may differ.
pub proof fn lemma_inc_dec_restores(r: Registers, t: IncDecTarget)
    requires
        t !is HLI,
        t !is SP,
    ensures
        execute_spec(r, Instruction::INC(t)) is Some,
        execute_spec(r, Instruction::DEC(t)) is Some,
        execute_spec(execute_spec(r, Instruction::INC(t))->0, Instruction::DEC(t)) matches Some(n)
            && n == r.with_flags(n.f),
        execute_spec(execute_spec(r, Instruction::DEC(t))->0, Instruction::INC(t)) matches Some(n)
            && n == r.with_flags(n.f),
{
    match t {
        IncDecTarget::BC => lemma_pair_inc_dec(r, r.bc() as u16),
        IncDecTarget::DE => lemma_pair_inc_dec(r, r.de() as u16),
        IncDecTarget::HL => lemma_pair_inc_dec(r, r.hl() as u16),
        IncDecTarget::A => lemma_byte_inc_dec(r.a, r.f),
        IncDecTarget::B => lemma_byte_inc_dec(r.b, r.f),
        IncDecTarget::C => lemma_byte_inc_dec(r.c, r.f),
        IncDecTarget::D => lemma_byte_inc_dec(r.d, r.f),
        IncDecTarget::E => lemma_byte_inc_dec(r.e, r.f),
        IncDecTarget::H => lemma_byte_inc_dec(r.h, r.f),
        IncDecTarget::L => lemma_byte_inc_dec(r.l, r.f),
        IncDecTarget::HLI | IncDecTarget::SP => {},
    }
}

/// A byte stepped up and then down by one, or down and then up, is back where it was.
proof fn lemma_byte_inc_dec(v: u8, f: FlagsRegister)
    ensures
        forall|g: FlagsRegister| #[trigger] dec_spec(inc_spec(v, f).0, g).0 == v,
        forall|g: FlagsRegister| #[trigger] inc_spec(dec_spec(v, f).0, g).0 == v,
{
}

/// Facts on a register pair stepped up or down by one and set back.
proof fn lemma_pair_inc_dec(r: Registers, v: u16)
    ensures
        dec16_spec(inc16_spec(v)) == v,
        inc16_spec(dec16_spec(v)) == v,
        r.with_bc(inc16_spec(v)).bc() == inc16_spec(v),
        r.with_de(inc16_spec(v)).de() == inc16_spec(v),
        r.with_hl(inc16_spec(v)).hl() == inc16_spec(v),
        r.with_bc(dec16_spec(v)).bc() == dec16_spec(v),
        r.with_de(dec16_spec(v)).de() == dec16_spec(v),
        r.with_hl(dec16_spec(v)).hl() == dec16_spec(v),
        r.with_bc(inc16_spec(v)).with_bc(v) == r.with_bc(v),
        r.with_de(inc16_spec(v)).with_de(v) == r.with_de(v),
        r.with_hl(inc16_spec(v)).with_hl(v) == r.with_hl(v),
        r.with_bc(dec16_spec(v)).with_bc(v) == r.with_bc(v),
        r.with_de(dec16_spec(v)).with_de(v) == r.with_de(v),
        r.with_hl(dec16_spec(v)).with_hl(v) == r.with_hl(v),
{
}

/// `RLA`, `RLCA`, `RRA` and `RRCA` always clear the zero flag, even when the result
/// is zero.
pub proof fn lemma_accumulator_rotates_clear_zero(r: Registers)
    ensures
        execute_spec(r, Instruction::RLA) matches Some(n) && !n.f.zero,
        execute_spec(r, Instruction::RLCA) matches Some(n) && !n.f.zero,
        execute_spec(r, Instruction::RRA) matches Some(n) && !n.f.zero,
        execute_spec(r, Instruction::RRCA) matches Some(n) && !n.f.zero,
{
}

/// `RLA`, `RLCA`, `RRA`, `RRCA` and `CPL` change no register but the accumulator and
/// the flags.
pub proof fn lemma_accumulator_ops_isolated(r: Registers)
    ensures
        execute_spec(r, Instruction::RLA) matches Some(n) && only_a_and_flags(r, n),
        execute_spec(r, Instruction::RLCA) matches Some(n) && only_a_and_flags(r, n),
        execute_spec(r, Instruction::RRA) matches Some(n) && only_a_and_flags(r, n),
        execute_spec(r, Instruction::RRCA) matches Some(n) && only_a_and_flags(r, n),
        execute_spec(r, Instruction::CPL) matches Some(n) && only_a_and_flags(r, n),
{
}

/// `BIT` changes the flags only, never a register's value; `SET` changes the register's
/// value and never the flags.
pub proof fn lemma_bit_set_effects(r: Registers, t: PrefixTarget, p: BitPosition)
    requires
        t !is HLI,
    ensures
        execute_spec(r, Instruction::BIT(t, p)) matches Some(n) && n == r.with_flags(n.f),
        execute_spec(r, Instruction::SET(t, p)) matches Some(n) && n.f == r.f,
{
}

/// The processor: registers, program counter, stack pointer and memory bus.
pub struct CPU {
    pub pc: u16,
    pub sp: u16,
    pub registers: Registers,
    pub memory: Memory,
}

/// `new` differs from `old` in its flags at most.
pub open spec fn flags_only(old: CPU, new: CPU) -> bool {
    &&& new.pc == old.pc
    &&& new.sp == old.sp
    &&& new.memory == old.memory
    &&& new.registers == old.registers.with_flags(new.registers.f)
}

/// `new` is the processor after `i` was executed on `old` with outcome `res`: the
/// register file as `execute_spec` gives it, or unchanged with `UnsupportedOperand`
/// when `i` names an operand this core does not address. The program counter, the stack
/// pointer and memory never change.
pub open spec fn executed(old: CPU, new: CPU, i: Instruction, res: Result<(), ExecuteError>) -> bool {
    &&& res is Ok <==> execute_spec(old.registers, i) is Some
    &&& match execute_spec(old.registers, i) {
        Some(r) => new.registers == r,
        None => res == Err::<(), ExecuteError>(ExecuteError::UnsupportedOperand)
            && new.registers == old.registers,
    }
    &&& new.pc == old.pc
    &&& new.sp == old.sp
    &&& new.memory == old.memory
}

/// The flag register as the number `0` or `1`.
fn carry_value(f: &FlagsRegister) -> (r: u8)
    ensures
        r == carry_in(*f),
{
    if f.carry {
        1
    } else {
        0
    }
}

impl CPU {
    pub fn new(boot_rom: Option<Vec<u8>>, rom: Vec<u8>) -> (r: Result<CPU, MemoryError>)
        ensures
            r is Ok <==> rom@.len() <= crate::memory::ROM_SIZE,
            match r {
                Ok(cpu) => {
                    &&& cpu.pc == 0
                    &&& cpu.sp == 0
                    &&& cpu.registers == Registers::power_on()
                    &&& cpu.memory@ == crate::memory::power_on_image(rom@)
                },
                Err(e) => e == MemoryError::RomTooLarge(rom@.len() as usize),
            },
    {
        let memory = Memory::new(boot_rom, rom)?;
        Ok(CPU { pc: 0, sp: 0, registers: Registers::new(), memory })
    }

    /// Executes one instruction on the register file. An operand that names memory at
    /// `HL` or the stack pointer is refused and nothing changes.
    pub fn execute_instruction(&mut self, instruction: Instruction) -> (res: Result<(), ExecuteError>)
        ensures
            executed(*old(self), *final(self), instruction, res),
    {
        match instruction {
            Instruction::ADD(_)
            | Instruction::ADC(_)
            | Instruction::AND(_)
            | Instruction::CP(_)
            | Instruction::OR(_)
            | Instruction::SBC(_)
            | Instruction::SUB(_)
            | Instruction::XOR(_) => {
                return self.execute_arithmetic(instruction);
            },
            Instruction::INC(_)
            | Instruction::DEC(_)
            | Instruction::ADDHL(_) => {
                return self.execute_inc_dec(instruction);
            },
            Instruction::BIT(..)
            | Instruction::SET(..)
            | Instruction::SWAP(_)
            | Instruction::RL(_)
            | Instruction::RLC(_)
            | Instruction::RR(_)
            | Instruction::RRC(_) => {
                return self.execute_prefix(instruction);
            },
            Instruction::RLA => {
                let v = self.registers.a;
                self.registers.a = self.rla(v);
            },
            Instruction::RLCA => {
                let v = self.registers.a;
                self.registers.a = self.rlca(v);
            },
            Instruction::RRA => {
                let v = self.registers.a;
                self.registers.a = self.rra(v);
            },
            Instruction::RRCA => {
                let v = self.registers.a;
                self.registers.a = self.rrca(v);
            },
            Instruction::LD(LoadType::BYTE(source, target)) => match (
                source.register(),
                target.register(),
            ) {
                (Some(s), Some(d)) => {
                    let v = self.registers.read(s);
                    self.registers.write(d, v);
                },
                _ => return Err(ExecuteError::UnsupportedOperand),
            },
            Instruction::CCF => self.ccf(),
            Instruction::CPL => {
                let v = self.registers.a;
                self.registers.a = self.complement(v);
            },
            Instruction::SCF => self.scf(),
        }
        Ok(())
    }

    /// The 8-bit arithmetic and logic instructions, on the accumulator.
    fn execute_arithmetic(&mut self, instruction: Instruction) -> (res: Result<(), ExecuteError>)
        requires
            instruction is ADD || instruction is ADC || instruction is AND || instruction is CP || instruction is OR || instruction is SBC || instruction is SUB || instruction is XOR,
        ensures
            executed(*old(self), *final(self), instruction, res),
    {
        let unsupported = Err(ExecuteError::UnsupportedOperand);
        match instruction {
            Instruction::ADD(t) => match t.register() {
                Some(s) => {
                    let v = self.registers.read(s);
                    self.registers.a = self.add(v);
                },
                None => return unsupported,
            },
            Instruction::ADC(t) => match t.register() {
                Some(s) => {
                    let v = self.registers.read(s);
                    self.registers.a = self.adc(v);
                },
                None => return unsupported,
            },
            Instruction::AND(t) => match t.register() {
                Some(s) => {
                    let v = self.registers.read(s);
                    self.registers.a = self.and(v);
                },
                None => return unsupported,
            },
            Instruction::CP(t) => match t.register() {
                Some(s) => {
                    let v = self.registers.read(s);
                    self.compare(v);
                },
                None => return unsupported,
            },
            Instruction::OR(t) => match t.register() {
                Some(s) => {
                    let v = self.registers.read(s);
                    self.registers.a = self.or(v);
                },
                None => return unsupported,
            },
            Instruction::SBC(t) => match t.register() {
                Some(s) => {
                    let v = self.registers.read(s);
                    self.registers.a = self.sbc(v);
                },
                None => return unsupported,
            },
            Instruction::SUB(t) => match t.register() {
                Some(s) => {
                    let v = self.registers.read(s);
                    self.registers.a = self.sub(v);
                },
                None => return unsupported,
            },
            Instruction::XOR(t) => match t.register() {
                Some(s) => {
                    let v = self.registers.read(s);
                    self.registers.a = self.xor(v);
                },
                None => return unsupported,
            },
            _ => return unsupported,
        }
        Ok(())
    }

    /// Increments, decrements and the 16-bit add into `HL`.
    fn execute_inc_dec(&mut self, instruction: Instruction) -> (res: Result<(), ExecuteError>)
        requires
            instruction is INC || instruction is DEC || instruction is ADDHL,
        ensures
            executed(*old(self), *final(self), instruction, res),
    {
        let unsupported = Err(ExecuteError::UnsupportedOperand);
        match instruction {
            Instruction::INC(t) => match t.register() {
                Some(s) => {
                    let v = self.registers.read(s);
                    let n = self.inc(v);
                    self.registers.write(s, n);
                },
                None => match t {
                    IncDecTarget::BC => {
                        let n = self.inc_16bit(self.registers.get_bc());
                        self.registers.set_bc(n);
                    },
                    IncDecTarget::DE => {
                        let n = self.inc_16bit(self.registers.get_de());
                        self.registers.set_de(n);
                    },
                    IncDecTarget::HL => {
                        let n = self.inc_16bit(self.registers.get_hl());
                        self.registers.set_hl(n);
                    },
                    _ => return unsupported,
                },
            },
            Instruction::DEC(t) => match t.register() {
                Some(s) => {
                    let v = self.registers.read(s);
                    let n = self.dec(v);
                    self.registers.write(s, n);
                },
                None => match t {
                    IncDecTarget::BC => {
                        let n = self.dec_16bit(self.registers.get_bc());
                        self.registers.set_bc(n);
                    },
                    IncDecTarget::DE => {
                        let n = self.dec_16bit(self.registers.get_de());
                        self.registers.set_de(n);
                    },
                    IncDecTarget::HL => {
                        let n = self.dec_16bit(self.registers.get_hl());
                        self.registers.set_hl(n);
                    },
                    _ => return unsupported,
                },
            },
            Instruction::ADDHL(t) => {
                let value = match t {
                    ADDHLTarget::BC => self.registers.get_bc(),
                    ADDHLTarget::DE => self.registers.get_de(),
                    ADDHLTarget::HL => self.registers.get_hl(),
                    ADDHLTarget::SP => return unsupported,
                };
                let n = self.add_hl(value);
                self.registers.set_hl(n);
            },
            _ => return unsupported,
        }
        Ok(())
    }

    /// The bit, swap and rotate instructions on any 8-bit register.
    fn execute_prefix(&mut self, instruction: Instruction) -> (res: Result<(), ExecuteError>)
        requires
            instruction is BIT || instruction is SET || instruction is SWAP || instruction is RL || instruction is RLC || instruction is RR || instruction is RRC,
        ensures
            executed(*old(self), *final(self), instruction, res),
    {
        let unsupported = Err(ExecuteError::UnsupportedOperand);
        match instruction {
            Instruction::BIT(t, p) => match t.register() {
                Some(s) => {
                    let v = self.registers.read(s);
                    self.bit(v, p);
                },
                None => return unsupported,
            },
            Instruction::SET(t, p) => match t.register() {
                Some(s) => {
                    let v = self.registers.read(s);
                    let n = self.set(v, p);
                    self.registers.write(s, n);
                },
                None => return unsupported,
            },
            Instruction::SWAP(t) => match t.register() {
                Some(s) => {
                    let v = self.registers.read(s);
                    let n = self.swap(v);
                    self.registers.write(s, n);
                },
                None => return unsupported,
            },
            Instruction::RL(t) => match t.register() {
                Some(s) => {
                    let v = self.registers.read(s);
                    let n = self.rl(v);
                    self.registers.write(s, n);
                },
                None => return unsupported,
            },
            Instruction::RLC(t) => match t.register() {
                Some(s) => {
                    let v = self.registers.read(s);
                    let n = self.rlc(v);
                    self.registers.write(s, n);
                },
                None => return unsupported,
            },
            Instruction::RR(t) => match t.register() {
                Some(s) => {
                    let v = self.registers.read(s);
                    let n = self.rr(v);
                    self.registers.write(s, n);
                },
                None => return unsupported,
            },
            Instruction::RRC(t) => match t.register() {
                Some(s) => {
                    let v = self.registers.read(s);
                    let n = self.rrc(v);
                    self.registers.write(s, n);
                },
                None => return unsupported,
            },
            _ => return unsupported,
        }
        Ok(())
    }

    // 8-bit arithmetic and logic: each takes the operand, writes the flags and returns
    // the result for the caller to store.

    fn add(&mut self, value: u8) -> (r: u8)
        ensures
            (r, final(self).registers.f) == add_spec(old(self).registers.a, value),
            flags_only(*old(self), *final(self)),
    {
        let a = self.registers.a;
        let sum: u16 = a as u16 + value as u16;
        let new_value = (sum % 256) as u8;
        self.registers.f.zero = new_value == 0;
        self.registers.f.subtract = false;
        self.registers.f.half_carry = (a % 16) as u16 + (value % 16) as u16 > 0xF;
        self.registers.f.carry = sum > 0xFF;
        new_value
    }

    fn adc(&mut self, value: u8) -> (r: u8)
        ensures
            (r, final(self).registers.f) == adc_spec(
                old(self).registers.a,
                value,
                old(self).registers.f,
            ),
            flags_only(*old(self), *final(self)),
    {
        let a = self.registers.a;
        let carry = carry_value(&self.registers.f);
        let sum: u16 = a as u16 + value as u16 + carry as u16;
        let new_value = (sum % 256) as u8;
        self.registers.f.zero = new_value == 0;
        self.registers.f.subtract = false;
        self.registers.f.half_carry = (a % 16) as u16 + (value % 16) as u16 + carry as u16 > 0xF;
        self.registers.f.carry = sum > 0xFF;
        new_value
    }

    fn and(&mut self, value: u8) -> (r: u8)
        ensures
            (r, final(self).registers.f) == and_spec(old(self).registers.a, value),
            flags_only(*old(self), *final(self)),
    {
        let new_value = self.registers.a & value;
        self.registers.f.zero = new_value == 0;
        self.registers.f.subtract = false;
        self.registers.f.half_carry = true;
        self.registers.f.carry = false;
        new_value
    }

    fn compare(&mut self, value: u8)
        ensures
            final(self).registers.f == cp_flags(old(self).registers.a, value),
            flags_only(*old(self), *final(self)),
    {
        let a = self.registers.a;
        let new_value = a.wrapping_sub(value);
        self.registers.f.zero = new_value == 0;
        self.registers.f.subtract = true;
        // A borrow from bit 4 happens exactly when the operand's low nibble is the larger.
        self.registers.f.half_carry = (value % 16) > (a % 16);
        self.registers.f.carry = value > a;
    }

    fn dec(&mut self, value: u8) -> (r: u8)
        ensures
            (r, final(self).registers.f) == dec_spec(value, old(self).registers.f),
            flags_only(*old(self), *final(self)),
    {
        let new_value = value.wrapping_sub(1);
        self.registers.f.zero = new_value == 0;
        self.registers.f.subtract = true;
        self.registers.f.half_carry = value % 16 == 0;
        new_value
    }

    fn inc(&mut self, value: u8) -> (r: u8)
        ensures
            (r, final(self).registers.f) == inc_spec(value, old(self).registers.f),
            flags_only(*old(self), *final(self)),
    {
        let new_value = value.wrapping_add(1);
        self.registers.f.zero = new_value == 0;
        self.registers.f.subtract = false;
        self.registers.f.half_carry = value % 16 == 0xF;
        new_value
    }

    fn or(&mut self, value: u8) -> (r: u8)
        ensures
            (r, final(self).registers.f) == or_spec(old(self).registers.a, value),
            flags_only(*old(self), *final(self)),
    {
        let new_value = self.registers.a | value;
        self.registers.f.zero = new_value == 0;
        self.registers.f.subtract = false;
        self.registers.f.half_carry = false;
        self.registers.f.carry = false;
        new_value
    }

    fn sbc(&mut self, value: u8) -> (r: u8)
        ensures
            (r, final(self).registers.f) == sbc_spec(
                old(self).registers.a,
                value,
                old(self).registers.f,
            ),
            flags_only(*old(self), *final(self)),
    {
        let a = self.registers.a;
        let carry = carry_value(&self.registers.f);
        let difference: u16 = a as u16 + 256 - value as u16 - carry as u16;
        let new_value = (difference % 256) as u8;
        self.registers.f.zero = new_value == 0;
        self.registers.f.subtract = true;
        self.registers.f.half_carry = (value % 16) as u16 + carry as u16 > (a % 16) as u16;
        self.registers.f.carry = value as u16 + carry as u16 > a as u16;
        new_value
    }

    fn sub(&mut self, value: u8) -> (r: u8)
        ensures
            (r, final(self).registers.f) == sub_spec(old(self).registers.a, value),
            flags_only(*old(self), *final(self)),
    {
        let a = self.registers.a;
        let new_value = a.wrapping_sub(value);
        self.registers.f.zero = new_value == 0;
        self.registers.f.subtract = true;
        self.registers.f.half_carry = (value % 16) > (a % 16);
        self.registers.f.carry = value > a;
        new_value
    }

    fn xor(&mut self, value: u8) -> (r: u8)
        ensures
            (r, final(self).registers.f) == xor_spec(old(self).registers.a, value),
            flags_only(*old(self), *final(self)),
    {
        let new_value = self.registers.a ^ value;
        self.registers.f.zero = new_value == 0;
        self.registers.f.subtract = false;
        self.registers.f.half_carry = false;
        self.registers.f.carry = false;
        new_value
    }

    // 16-bit arithmetic

    fn add_hl(&mut self, value: u16) -> (r: u16)
        ensures
            (r, final(self).registers.f) == add_hl_spec(
                old(self).registers.hl() as u16,
                value,
                old(self).registers.f,
            ),
            flags_only(*old(self), *final(self)),
    {
        let hl = self.registers.get_hl();
        let sum: u32 = hl as u32 + value as u32;
        self.registers.f.subtract = false;
        self.registers.f.carry = sum > 0xFFFF;
        // A carry out of bit 11: the low eleven bits of the two operands overflow.
        self.registers.f.half_carry = (value % 0x800) as u32 + (hl % 0x800) as u32 > 0x7FF;
        (sum % 0x10000) as u16
    }

    fn inc_16bit(&mut self, value: u16) -> (r: u16)
        ensures
            r == inc16_spec(value),
            *final(self) == *old(self),
    {
        value.wrapping_add(1)
    }

    fn dec_16bit(&mut self, value: u16) -> (r: u16)
        ensures
            r == dec16_spec(value),
            *final(self) == *old(self),
    {
        value.wrapping_sub(1)
    }

    // Bit instructions

    fn bit(&mut self, value: u8, bit_position: BitPosition)
        ensures
            final(self).registers.f == bit_flags(
                value,
                bit_position.index(),
                old(self).registers.f,
            ),
            flags_only(*old(self), *final(self)),
    {
        let position = u8::from(bit_position);
        self.registers.f.zero = ((value >> position) & 1) == 0;
        self.registers.f.subtract = false;
        self.registers.f.half_carry = true;
    }

    fn set(&mut self, value: u8, bit_position: BitPosition) -> (r: u8)
        ensures
            r == set_spec(value, bit_position.index()),
            *final(self) == *old(self),
    {
        let position = u8::from(bit_position);
        value | (1u8 << position)
    }

    fn swap(&mut self, value: u8) -> (r: u8)
        ensures
            (r, final(self).registers.f) == swap_spec(value),
            flags_only(*old(self), *final(self)),
    {
        let new_value = (value % 16) * 16 + value / 16;
        self.registers.f.zero = new_value == 0;
        self.registers.f.subtract = false;
        self.registers.f.half_carry = false;
        self.registers.f.carry = false;
        new_value
    }

    // Shifts and rotates

    fn rl(&mut self, value: u8) -> (r: u8)
        ensures
            (r, final(self).registers.f) == rl_spec(value, old(self).registers.f),
            flags_only(*old(self), *final(self)),
    {
        let carry = carry_value(&self.registers.f);
        let new_value = (value % 128) * 2 + carry;
        self.registers.f.zero = new_value == 0;
        self.registers.f.subtract = false;
        self.registers.f.half_carry = false;
        self.registers.f.carry = value >= 0x80;
        new_value
    }

    fn rla(&mut self, value: u8) -> (r: u8)
        ensures
            (r, final(self).registers.f) == clear_zero(rl_spec(value, old(self).registers.f)),
            flags_only(*old(self), *final(self)),
    {
        let new_value = self.rl(value);
        self.registers.f.zero = false;
        new_value
    }

    fn rlc(&mut self, value: u8) -> (r: u8)
        ensures
            (r, final(self).registers.f) == rlc_spec(value),
            flags_only(*old(self), *final(self)),
    {
        let highest_bit = value / 128;
        let new_value = (value % 128) * 2 + highest_bit;
        self.registers.f.zero = new_value == 0;
        self.registers.f.subtract = false;
        self.registers.f.half_carry = false;
        self.registers.f.carry = highest_bit == 1;
        new_value
    }

    fn rlca(&mut self, value: u8) -> (r: u8)
        ensures
            (r, final(self).registers.f) == clear_zero(rlc_spec(value)),
            flags_only(*old(self), *final(self)),
    {
        let new_value = self.rlc(value);
        self.registers.f.zero = false;
        new_value
    }

    fn rr(&mut self, value: u8) -> (r: u8)
        ensures
            (r, final(self).registers.f) == rr_spec(value),
            flags_only(*old(self), *final(self)),
    {
        let lowest_bit = value % 2;
        let new_value = lowest_bit * 128 + value / 2;
        self.registers.f.zero = new_value == 0;
        self.registers.f.subtract = false;
        self.registers.f.half_carry = false;
        self.registers.f.carry = lowest_bit == 1;
        new_value
    }

    fn rra(&mut self, value: u8) -> (r: u8)
        ensures
            (r, final(self).registers.f) == clear_zero(rr_spec(value)),
            flags_only(*old(self), *final(self)),
    {
        let new_value = self.rr(value);
        self.registers.f.zero = false;
        new_value
    }

    fn rrc(&mut self, value: u8) -> (r: u8)
        ensures
            (r, final(self).registers.f) == rrc_spec(value),
            flags_only(*old(self), *final(self)),
    {
        let lowest_bit = value % 2;
        let new_value = value / 2;
        self.registers.f.zero = new_value == 0;
        self.registers.f.subtract = false;
        self.registers.f.half_carry = false;
        self.registers.f.carry = lowest_bit == 1;
        new_value
    }

    fn rrca(&mut self, value: u8) -> (r: u8)
        ensures
            (r, final(self).registers.f) == clear_zero(rrc_spec(value)),
            flags_only(*old(self), *final(self)),
    {
        let new_value = self.rrc(value);
        self.registers.f.zero = false;
        new_value
    }

    // Flag instructions

    fn ccf(&mut self)
        ensures
            final(self).registers.f == ccf_flags(old(self).registers.f),
            flags_only(*old(self), *final(self)),
    {
        self.registers.f.subtract = false;
        self.registers.f.half_carry = false;
        self.registers.f.carry = !self.registers.f.carry;
    }

    fn complement(&mut self, value: u8) -> (r: u8)
        ensures
            (r, final(self).registers.f) == cpl_spec(value, old(self).registers.f),
            flags_only(*old(self), *final(self)),
    {
        let new_value = !value;
        self.registers.f.subtract = true;
        self.registers.f.half_carry = true;
        new_value
    }

    fn scf(&mut self)
        ensures
            final(self).registers.f == scf_flags(old(self).registers.f),
            flags_only(*old(self), *final(self)),
    {
        self.registers.f.subtract = false;
        self.registers.f.half_carry = false;
        self.registers.f.carry = true;
    }
}

} // verus!
