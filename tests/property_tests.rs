use gameboy_core::memory::ROM_SIZE;
use gameboy_core::{
    ADDHLTarget, ArithmeticTarget, BitPosition, ExecuteError, IncDecTarget, Instruction,
    LoadByteSource, LoadByteTarget, LoadType, PrefixTarget, Registers, CPU,
};

fn cpu() -> CPU {
    CPU::new(None, vec![0; ROM_SIZE]).unwrap()
}

fn flags(cpu: &CPU) -> (bool, bool, bool, bool) {
    let f = cpu.registers.f;
    (f.zero, f.subtract, f.half_carry, f.carry)
}

fn alu(instruction: Instruction, a: u8, b: u8, carry: bool) -> (u8, (bool, bool, bool, bool)) {
    let mut c = cpu();
    c.registers.a = a;
    c.registers.b = b;
    c.registers.f.carry = carry;
    assert_eq!(c.execute_instruction(instruction), Ok(()));
    (c.registers.a, flags(&c))
}

#[test]
fn add_boundaries() {
    let add = Instruction::ADD(ArithmeticTarget::B);
    assert_eq!(alu(add, 0xFF, 0x01, false), (0x00, (true, false, true, true)));
    assert_eq!(alu(add, 0x0F, 0x01, false), (0x10, (false, false, true, false)));
    assert_eq!(alu(add, 0x7F, 0x01, false), (0x80, (false, false, true, false)));
    assert_eq!(alu(add, 0x80, 0x80, false), (0x00, (true, false, false, true)));
    assert_eq!(alu(add, 0x10, 0x10, true), (0x20, (false, false, false, false)));
}

#[test]
fn adc_boundaries() {
    let adc = Instruction::ADC(ArithmeticTarget::B);
    assert_eq!(alu(adc, 0x0F, 0x00, true), (0x10, (false, false, true, false)));
    assert_eq!(alu(adc, 0xFF, 0x00, true), (0x00, (true, false, true, true)));
    assert_eq!(alu(adc, 0x7F, 0x80, false), (0xFF, (false, false, false, false)));
}

#[test]
fn sub_boundaries() {
    let sub = Instruction::SUB(ArithmeticTarget::B);
    assert_eq!(alu(sub, 0x10, 0x01, false), (0x0F, (false, true, true, false)));
    assert_eq!(alu(sub, 0x00, 0xFF, false), (0x01, (false, true, true, true)));
    assert_eq!(alu(sub, 0x80, 0x80, false), (0x00, (true, true, false, false)));
}

#[test]
fn sbc_boundaries() {
    let sbc = Instruction::SBC(ArithmeticTarget::B);
    assert_eq!(alu(sbc, 0x10, 0x0F, true), (0x00, (true, true, true, false)));
    assert_eq!(alu(sbc, 0x00, 0x00, true), (0xFF, (false, true, true, true)));
    assert_eq!(alu(sbc, 0x7F, 0x0F, false), (0x70, (false, true, false, false)));
    assert_eq!(alu(sbc, 0x80, 0x7F, true), (0x00, (true, true, true, false)));
}

#[test]
fn logic_boundaries() {
    assert_eq!(
        alu(Instruction::AND(ArithmeticTarget::B), 0xF0, 0x0F, true),
        (0x00, (true, false, true, false))
    );
    assert_eq!(
        alu(Instruction::OR(ArithmeticTarget::B), 0xF0, 0x0F, true),
        (0xFF, (false, false, false, false))
    );
    assert_eq!(
        alu(Instruction::XOR(ArithmeticTarget::B), 0xFF, 0xFF, true),
        (0x00, (true, false, false, false))
    );
}

#[test]
fn compare_keeps_accumulator() {
    assert_eq!(
        alu(Instruction::CP(ArithmeticTarget::B), 0x7F, 0x80, false),
        (0x7F, (false, true, false, true))
    );
    assert_eq!(
        alu(Instruction::CP(ArithmeticTarget::B), 0x10, 0x0F, false),
        (0x10, (false, true, true, false))
    );
}

#[test]
fn inc_dec_keep_carry() {
    let mut c = cpu();
    c.registers.f.carry = true;
    c.registers.b = 0x0F;
    c.execute_instruction(Instruction::INC(IncDecTarget::B)).unwrap();
    assert_eq!(c.registers.b, 0x10);
    assert_eq!(flags(&c), (false, false, true, true));
    c.execute_instruction(Instruction::DEC(IncDecTarget::B)).unwrap();
    assert_eq!(c.registers.b, 0x0F);
    assert_eq!(flags(&c), (false, true, true, true));
}

#[test]
fn inc_then_dec_restores_registers() {
    let mut c = cpu();
    c.registers.e = 0xFF;
    c.registers.set_bc(0xFFFF);
    c.execute_instruction(Instruction::INC(IncDecTarget::E)).unwrap();
    c.execute_instruction(Instruction::DEC(IncDecTarget::E)).unwrap();
    assert_eq!(c.registers.e, 0xFF);
    c.execute_instruction(Instruction::INC(IncDecTarget::BC)).unwrap();
    assert_eq!(c.registers.get_bc(), 0);
    c.execute_instruction(Instruction::DEC(IncDecTarget::BC)).unwrap();
    assert_eq!(c.registers.get_bc(), 0xFFFF);
    c.registers.set_de(0);
    c.execute_instruction(Instruction::DEC(IncDecTarget::DE)).unwrap();
    assert_eq!(c.registers.get_de(), 0xFFFF);
    c.execute_instruction(Instruction::INC(IncDecTarget::DE)).unwrap();
    assert_eq!(c.registers.get_de(), 0);
}

#[test]
fn sixteen_bit_inc_dec_leave_flags() {
    let mut c = cpu();
    c.registers.f.zero = true;
    c.registers.f.half_carry = true;
    c.registers.set_hl(0xFFFF);
    c.execute_instruction(Instruction::INC(IncDecTarget::HL)).unwrap();
    assert_eq!(c.registers.get_hl(), 0);
    assert_eq!(flags(&c), (true, false, true, false));
}

#[test]
fn pair_round_trip() {
    let mut r = Registers::new();
    r.set_hl(0xBEEF);
    assert_eq!(r.get_hl(), 0xBEEF);
    assert_eq!((r.h, r.l), (0xBE, 0xEF));
    r.set_bc(0x1234);
    assert_eq!(r.get_bc(), 0x1234);
    assert_eq!((r.b, r.c), (0x12, 0x34));
    r.set_de(0x00FF);
    assert_eq!(r.get_de(), 0x00FF);
    assert_eq!((r.d, r.e), (0x00, 0xFF));
    let hl = r.get_hl();
    r.set_hl(hl);
    assert_eq!((r.h, r.l), (0xBE, 0xEF));
}

#[test]
fn add_hl_half_carry_at_bit_eleven() {
    let mut c = cpu();
    c.registers.f.zero = true;
    c.registers.set_hl(0x7FF);
    c.registers.set_bc(0x001);
    c.execute_instruction(Instruction::ADDHL(ADDHLTarget::BC)).unwrap();
    assert_eq!(c.registers.get_hl(), 0x800);
    assert_eq!(flags(&c), (true, false, true, false));

    let mut c = cpu();
    c.registers.set_hl(0xFFF);
    c.registers.set_de(0x001);
    c.execute_instruction(Instruction::ADDHL(ADDHLTarget::DE)).unwrap();
    assert_eq!(c.registers.get_hl(), 0x1000);
    assert_eq!(flags(&c), (false, false, true, false));
}

#[test]
fn bit_tests_without_changing_value() {
    let mut c = cpu();
    c.registers.d = 0b1000_0000;
    c.registers.f.carry = true;
    c.execute_instruction(Instruction::BIT(PrefixTarget::D, BitPosition::B7)).unwrap();
    assert_eq!(c.registers.d, 0b1000_0000);
    assert_eq!(flags(&c), (false, false, true, true));
    c.execute_instruction(Instruction::BIT(PrefixTarget::D, BitPosition::B0)).unwrap();
    assert_eq!(c.registers.d, 0b1000_0000);
    assert_eq!(flags(&c), (true, false, true, true));
}

#[test]
fn set_leaves_flags() {
    let mut c = cpu();
    c.registers.f.zero = true;
    c.registers.f.subtract = true;
    c.registers.e = 0;
    c.execute_instruction(Instruction::SET(PrefixTarget::E, BitPosition::B0)).unwrap();
    assert_eq!(c.registers.e, 1);
    assert_eq!(flags(&c), (true, true, false, false));
}

#[test]
fn flag_instructions() {
    let mut c = cpu();
    c.registers.f.zero = true;
    c.registers.f.subtract = true;
    c.registers.f.half_carry = true;
    c.execute_instruction(Instruction::SCF).unwrap();
    assert_eq!(flags(&c), (true, false, false, true));
    c.execute_instruction(Instruction::CCF).unwrap();
    assert_eq!(flags(&c), (true, false, false, false));
    c.registers.a = 0xFF;
    c.execute_instruction(Instruction::CPL).unwrap();
    assert_eq!(c.registers.a, 0x00);
    assert_eq!(flags(&c), (true, true, true, false));
}

#[test]
fn rotate_accumulator_leaves_other_registers() {
    let mut c = cpu();
    c.registers.a = 0x81;
    c.registers.b = 0x12;
    c.registers.h = 0x34;
    c.registers.set_de(0x5678);
    let before = c.registers;
    for instruction in [Instruction::RLA, Instruction::RLCA, Instruction::RRA, Instruction::RRCA, Instruction::CPL] {
        c.execute_instruction(instruction).unwrap();
        assert_eq!((c.registers.b, c.registers.c), (before.b, before.c));
        assert_eq!((c.registers.d, c.registers.e), (before.d, before.e));
        assert_eq!((c.registers.h, c.registers.l), (before.h, before.l));
    }
}

#[test]
fn memory_indirect_operands_are_refused() {
    let refused = [
        Instruction::ADD(ArithmeticTarget::HLI),
        Instruction::CP(ArithmeticTarget::HLI),
        Instruction::INC(IncDecTarget::HLI),
        Instruction::DEC(IncDecTarget::SP),
        Instruction::ADDHL(ADDHLTarget::SP),
        Instruction::BIT(PrefixTarget::HLI, BitPosition::B1),
        Instruction::RL(PrefixTarget::HLI),
        Instruction::LD(LoadType::BYTE(LoadByteSource::HLI, LoadByteTarget::A)),
        Instruction::LD(LoadType::BYTE(LoadByteSource::A, LoadByteTarget::HLI)),
    ];
    for instruction in refused {
        let mut c = cpu();
        c.registers.a = 0x42;
        c.registers.f.carry = true;
        let before = c.registers;
        assert_eq!(c.execute_instruction(instruction), Err(ExecuteError::UnsupportedOperand));
        assert_eq!(c.registers, before);
    }
}

#[test]
fn bit_position_index() {
    assert_eq!(u8::from(BitPosition::B0), 0);
    assert_eq!(u8::from(BitPosition::B5), 5);
    assert_eq!(u8::from(BitPosition::B7), 7);
}

#[test]
fn cpu_starts_cleared() {
    let c = cpu();
    assert_eq!((c.pc, c.sp), (0, 0));
    assert_eq!(c.registers, Registers::new());
    assert_eq!(flags(&c), (false, false, false, false));
}
