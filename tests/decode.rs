use tx8_core::{
    parse_instruction, parse_par_mode, parse_parameter, AbsoluteAddress, Comparison, Cpu,
    Instruction, Memory, Parameter, ParameterMode, Register, RegisterAddress, RelativeAddress,
    Size, Tx8Error, Type, Value, Writable, Write,
};

fn memory_with(code: &[u8]) -> Memory {
    Memory::load_rom(code).unwrap()
}

fn decode(code: &[u8]) -> Result<(Instruction, u32), Tx8Error> {
    let cpu = Cpu::new();
    parse_instruction(&cpu, &memory_with(code), 0x400000)
}

#[test]
fn instructions_without_operands_take_one_byte() {
    assert_eq!(decode(&[0x00]), Ok((Instruction::Halt, 1)));
    assert_eq!(decode(&[0x01]), Ok((Instruction::Nop, 1)));
    assert_eq!(decode(&[0x0d]), Ok((Instruction::Return, 1)));
}

#[test]
fn length_is_opcode_mode_byte_and_operands() {
    // register and 32-bit constant: 1 + 1 + 1 + 4
    assert_eq!(decode(&[0x10, 0x63, 0x00, 1, 0, 0, 0]).unwrap().1, 7);
    // absolute address and 16-bit constant: 1 + 1 + 3 + 2
    assert_eq!(decode(&[0x10, 0x42, 0, 0x10, 0, 0x34, 0x12]).unwrap().1, 7);
    // relative address and register address: 1 + 1 + 3 + 1
    assert_eq!(decode(&[0x10, 0x57, 0, 0, 0, 0x01]).unwrap().1, 6);
    // one register, unused second operand: 1 + 1 + 1
    assert_eq!(decode(&[0x1d, 0x60, 0x00]).unwrap().1, 3);
    // 8-bit constant only: 1 + 1 + 1
    assert_eq!(decode(&[0x1d, 0x10, 0x05]).unwrap().1, 3);
}

#[test]
fn decodes_resolved_operands() {
    let (i, _) = decode(&[0x22, 0x61, 0x10, 0xff]).unwrap();
    assert_eq!(
        i,
        Instruction::Add(
            Writable::Register(Register(0x10)),
            Value::new(0, Size::Byte),
            Value::new(0xffff_ffff, Size::Byte),
            Type::Signed,
        )
    );
    let (i, _) = decode(&[0x04, 0x30, 0x10, 0x00, 0x40, 0x00]).unwrap();
    assert_eq!(i, Instruction::Jump(Value::new(0x400010, Size::Int), Comparison::NotEqual));
    let (i, _) = decode(&[0x20, 0x60, 0x02]).unwrap();
    assert_eq!(
        i,
        Instruction::Add(Writable::Register(Register(2)), Value::new(0, Size::Int), Value::new(1, Size::Int), Type::Unsigned)
    );
    let (i, _) = decode(&[0x40, 0x60, 0x02]).unwrap();
    assert_eq!(
        i,
        Instruction::Add(Writable::Register(Register(2)), Value::new(0, Size::Int), Value::new(0x3f80_0000, Size::Int), Type::Float)
    );
}

#[test]
fn unknown_mode_nibble_is_an_instruction_error() {
    assert_eq!(decode(&[0x10, 0x68, 0x00, 0x00]), Err(Tx8Error::InstructionError));
    assert_eq!(decode(&[0x10, 0x96, 0x00, 0x00]), Err(Tx8Error::InstructionError));
}

#[test]
fn unknown_opcode_is_reported_with_its_byte() {
    assert_eq!(decode(&[0x58]), Err(Tx8Error::InvalidOpCode(0x58)));
    assert_eq!(decode(&[0x76]), Err(Tx8Error::InvalidOpCode(0x76)));
}

#[test]
fn missing_operand_is_an_instruction_error() {
    assert_eq!(decode(&[0x22, 0x60, 0x00]), Err(Tx8Error::InstructionError));
}

#[test]
fn decoding_above_the_limit_fails() {
    let cpu = Cpu::new();
    let mem = memory_with(&[]);
    assert_eq!(parse_instruction(&cpu, &mem, 0xff_fff1), Err(Tx8Error::InstructionError));
    assert_eq!(parse_instruction(&cpu, &mem, 0xff_fff0), Ok((Instruction::Halt, 1)));
}

#[test]
fn parameter_modes() {
    assert_eq!(parse_par_mode(0), Ok(ParameterMode::Unused));
    assert_eq!(parse_par_mode(5), Ok(ParameterMode::RelativeAddress));
    assert_eq!(parse_par_mode(7), Ok(ParameterMode::RegisterAddress));
    assert_eq!(parse_par_mode(8), Err(Tx8Error::InstructionError));
}

#[test]
fn parameters_and_their_footprints() {
    let mem = memory_with(&[0x11, 0x22, 0x33, 0x44]);
    let p = 0x400000;
    assert_eq!(parse_parameter(&mem, p, ParameterMode::Unused), (Parameter::Unused, 0));
    assert_eq!(parse_parameter(&mem, p, ParameterMode::Constant8), (Parameter::Constant8(0x11), 1));
    assert_eq!(parse_parameter(&mem, p, ParameterMode::Constant16), (Parameter::Constant16(0x2211), 2));
    assert_eq!(parse_parameter(&mem, p, ParameterMode::Constant32), (Parameter::Constant32(0x4433_2211), 4));
    assert_eq!(parse_parameter(&mem, p, ParameterMode::AbsoluteAddress), (Parameter::AbsoluteAddress(0x33_2211), 3));
    assert_eq!(parse_parameter(&mem, p, ParameterMode::RelativeAddress), (Parameter::RelativeAddress(0x33_2211), 3));
    assert_eq!(parse_parameter(&mem, p, ParameterMode::Register), (Parameter::Register(0x11), 1));
    assert_eq!(parse_parameter(&mem, p, ParameterMode::RegisterAddress), (Parameter::RegisterAddress(0x11), 1));
}

#[test]
fn values_resolve_against_the_machine() {
    let mut mem = memory_with(&[]);
    mem.write_int(0x100, 0x0000_80f0);
    let mut cpu = Cpu::new();
    cpu.o = 0x80;
    cpu.c = 0xabcd_0100;
    assert_eq!(Value::from_par(Parameter::AbsoluteAddress(0x100), &cpu, &mem, Size::Short), Ok(Value::new(0x80f0, Size::Short)));
    assert_eq!(Value::from_par_signed(Parameter::AbsoluteAddress(0x100), &cpu, &mem, Size::Short), Ok(Value::new(0xffff_80f0, Size::Short)));
    assert_eq!(Value::from_par(Parameter::RelativeAddress(0x80), &cpu, &mem, Size::Byte), Ok(Value::new(0xf0, Size::Byte)));
    assert_eq!(Value::from_par(Parameter::Register(0x22), &cpu, &mem, Size::Byte), Ok(Value::new(0x0100, Size::Short)));
    assert_eq!(Value::from_par_signed(Parameter::Register(0x12), &cpu, &mem, Size::Byte), Ok(Value::new(0, Size::Byte)));
    assert_eq!(Value::from_par(Parameter::RegisterAddress(0x22), &cpu, &mem, Size::Int), Ok(Value::new(0x80f0, Size::Int)));
    assert_eq!(Value::from_par(Parameter::Constant16(0x8000), &cpu, &mem, Size::Byte), Ok(Value::new(0x8000, Size::Short)));
    assert_eq!(Value::from_par_signed(Parameter::Constant16(0x8000), &cpu, &mem, Size::Byte), Ok(Value::new(0xffff_8000, Size::Short)));
    assert_eq!(Value::from_par(Parameter::Unused, &cpu, &mem, Size::Byte), Err(Tx8Error::InstructionError));
    assert_eq!(Value::from_par(Parameter::Register(0x09), &cpu, &mem, Size::Byte), Err(Tx8Error::InvalidRegister));
}

#[test]
fn writable_locations() {
    assert_eq!(Writable::from_par(Parameter::Constant8(1)), Err(Tx8Error::InstructionError));
    assert_eq!(Writable::from_par(Parameter::Unused), Err(Tx8Error::InstructionError));
    assert_eq!(Writable::from_par(Parameter::Register(0x13)), Ok(Writable::Register(Register(0x13))));
    assert_eq!(Writable::Register(Register(0x13)).size(), Size::Byte);
    assert_eq!(Writable::Register(Register(0x23)).size(), Size::Short);
    assert_eq!(Writable::AbsoluteAddress(AbsoluteAddress(0)).size(), Size::Int);
    assert_eq!(Size::Short.bytes(), 2);

    let mut mem = memory_with(&[]);
    let mut cpu = Cpu::new();
    cpu.o = 0x10;
    cpu.b = 0x200;
    RelativeAddress(0x100).write(&mut mem, &mut cpu, 0x1122_3344).unwrap();
    assert_eq!(mem.read_int(0x110), 0x1122_3344);
    RegisterAddress(0x01).write_size(&mut mem, &mut cpu, 0xaabb, Size::Short).unwrap();
    assert_eq!(mem.read_int(0x200), 0xaabb);
    AbsoluteAddress(0x300).write_size(&mut mem, &mut cpu, 0x1ff, Size::Byte).unwrap();
    assert_eq!(mem.read_int(0x300), 0xff);
    Register(0x13).write(&mut mem, &mut cpu, 0x1234).unwrap();
    assert_eq!(cpu.d, 0x34);
    assert_eq!(Register(0x43).write(&mut mem, &mut cpu, 1), Err(Tx8Error::InvalidRegister));
    assert_eq!(RegisterAddress(0x0a).write(&mut mem, &mut cpu, 1), Err(Tx8Error::InvalidRegister));
    assert_eq!(cpu.d, 0x34);
}
