use tx8_core::{
    hash, Effect, Execution, FloatOp, FloatRequest, FloatResult, Instruction, Print, Size,
    Tx8Error, Type, Value, Writable,
};

const BASE: u32 = 0x400000;

/// Load register byte `reg` with a 32-bit constant.
fn load32(reg: u8, v: u32) -> Vec<u8> {
    let mut code = vec![0x10, 0x63, reg];
    code.extend_from_slice(&v.to_le_bytes());
    code
}

/// An instruction whose first operand is a register and whose second is an 8-bit constant.
fn reg_const8(op: u8, reg: u8, c: u8) -> Vec<u8> {
    vec![op, 0x61, reg, c]
}

fn syscall(name: &str) -> Vec<u8> {
    let mut code = vec![0x0e, 0x30];
    code.extend_from_slice(&hash(name).to_le_bytes());
    code
}

fn machine(parts: &[Vec<u8>]) -> Execution {
    machine_with_input(parts, Vec::new())
}

fn machine_with_input(parts: &[Vec<u8>], input: Vec<u8>) -> Execution {
    let mut code = Vec::new();
    for p in parts {
        code.extend_from_slice(p);
    }
    Execution::new_with_rom(&code, input).unwrap()
}

fn evaluate(req: FloatRequest) -> FloatResult {
    let a = f32::from_bits(req.lhs);
    let b = f32::from_bits(req.rhs);
    let value = match req.op {
        FloatOp::Add => (a + b).to_bits(),
        FloatOp::Sub => (a - b).to_bits(),
        FloatOp::Mul => (a * b).to_bits(),
        FloatOp::DivRem => (a / b).to_bits(),
        FloatOp::Compare => (a - b).signum() as i32 as u32,
        FloatOp::Sqrt => a.sqrt().to_bits(),
        FloatOp::IntToFloat => (req.lhs as i32 as f32).to_bits(),
        FloatOp::UintToFloat => (req.lhs as f32).to_bits(),
        FloatOp::FloatToInt => a as i32 as u32,
        FloatOp::FloatToUint => a as u32,
        FloatOp::Normalize => (req.lhs as f32 / 32767.0).to_bits(),
        _ => panic!("not used in these tests"),
    };
    let remainder = if req.op == FloatOp::DivRem { (a % b).to_bits() } else { 0 };
    FloatResult { value, remainder }
}

/// Steps until the program halts, answering binary32 requests; gives the prints.
fn run(exec: &mut Execution) -> Result<Vec<Print>, Tx8Error> {
    let mut out = Vec::new();
    for _ in 0..1000 {
        let mut effect = exec.next_step()?;
        if let Effect::Float(req) = effect {
            effect = exec.resume_float(evaluate(req))?;
        }
        match effect {
            Effect::Halted => return Ok(out),
            Effect::Print(p) => out.push(p),
            _ => {}
        }
    }
    panic!("program did not halt");
}

#[test]
fn halt_terminates_immediately() {
    let mut exec = machine(&[vec![0x00]]);
    assert_eq!(exec.next_step(), Ok(Effect::Halted));
    assert_eq!(exec.cpu().p, BASE);
    assert_eq!(run(&mut exec), Ok(vec![]));
}

#[test]
fn load_push_print() {
    let mut exec = machine(&[load32(0x00, 5), vec![0x1d, 0x60, 0x00], syscall("print_u32"), vec![0x00]]);
    assert_eq!(run(&mut exec), Ok(vec![Print::Unsigned(5)]));
    assert_eq!(exec.cpu().a, 5);
    assert_eq!(exec.cpu().s, 0xc02000 - 4);
}

#[test]
fn unsigned_add_overflow() {
    let mut exec = machine(&[load32(0x00, 0xffff_ffff), reg_const8(0x60, 0x00, 1), vec![0x00]]);
    run(&mut exec).unwrap();
    assert_eq!(exec.cpu().a, 0);
    assert_eq!(exec.cpu().r & 1, 1);
    assert_eq!(exec.cpu().r, 1);
}

#[test]
fn signed_add_overflow() {
    let mut exec = machine(&[load32(0x00, 0x7fff_ffff), reg_const8(0x22, 0x00, 1), vec![0x00]]);
    run(&mut exec).unwrap();
    assert_eq!(exec.cpu().a, 0x8000_0000);
    assert_eq!(exec.cpu().r, 2);
}

#[test]
fn byte_add_overflows_at_the_alias_width() {
    // a.low8 = 0xff, then add 1 to the 8-bit alias: both flags, upper bits kept
    let mut exec = machine(&[load32(0x00, 0x1234_56ff), reg_const8(0x60, 0x10, 1), vec![0x00]]);
    run(&mut exec).unwrap();
    assert_eq!(exec.cpu().a, 0x1234_5600);
    assert_eq!(exec.cpu().r, 1);
    let mut exec = machine(&[load32(0x00, 0x7f), reg_const8(0x22, 0x10, 1), vec![0x00]]);
    run(&mut exec).unwrap();
    assert_eq!(exec.cpu().a, 0x80);
    assert_eq!(exec.cpu().r, 2);
}

#[test]
fn sub_borrows() {
    let mut exec = machine(&[load32(0x00, 0), reg_const8(0x61, 0x00, 1), vec![0x00]]);
    run(&mut exec).unwrap();
    assert_eq!(exec.cpu().a, 0xffff_ffff);
    assert_eq!(exec.cpu().r, 1);
    let mut exec = machine(&[load32(0x00, 0x8000_0000), reg_const8(0x23, 0x00, 1), vec![0x00]]);
    run(&mut exec).unwrap();
    assert_eq!(exec.cpu().a, 0x7fff_ffff);
    assert_eq!(exec.cpu().r, 2);
}

#[test]
fn inc_and_dec() {
    let mut exec = machine(&[load32(0x01, 41), vec![0x20, 0x60, 0x01], vec![0x20, 0x60, 0x01], vec![0x21, 0x60, 0x01], vec![0x00]]);
    run(&mut exec).unwrap();
    assert_eq!(exec.cpu().b, 42);
}

fn jump_ne(target: u32) -> Vec<u8> {
    let mut code = vec![0x04, 0x30];
    code.extend_from_slice(&target.to_le_bytes());
    code
}

#[test]
fn jump_not_equal_taken_and_not_taken() {
    let mut exec = machine(&[load32(0x04, 1), jump_ne(0x400100)]);
    exec.next_step().unwrap();
    exec.next_step().unwrap();
    assert_eq!(exec.cpu().p, 0x400100);

    let mut exec = machine(&[load32(0x04, 0), jump_ne(0x400100)]);
    exec.next_step().unwrap();
    exec.next_step().unwrap();
    assert_eq!(exec.cpu().p, BASE + 7 + 6);
}

#[test]
fn conditional_jumps_read_r_as_signed() {
    for (op, r, taken) in [
        (0x03u8, 0u32, true),
        (0x03, 5, false),
        (0x05, 0xffff_ffff, false),
        (0x05, 1, true),
        (0x06, 0, true),
        (0x07, 0xffff_ffff, true),
        (0x07, 0, false),
        (0x08, 0, true),
        (0x08, 1, false),
        (0x02, 7, true),
    ] {
        let mut code = vec![op, 0x30];
        code.extend_from_slice(&0x400200u32.to_le_bytes());
        let mut exec = machine(&[load32(0x04, r), code]);
        exec.next_step().unwrap();
        exec.next_step().unwrap();
        let expected = if taken { 0x400200 } else { BASE + 13 };
        assert_eq!(exec.cpu().p, expected, "opcode {:x} with r = {:x}", op, r);
    }
}

#[test]
fn division_by_zero_changes_nothing() {
    let mut exec = machine(&[load32(0x00, 10), reg_const8(0x25, 0x00, 0)]);
    exec.next_step().unwrap();
    let before = exec.cpu();
    assert_eq!(exec.next_step(), Err(Tx8Error::DivisionByZero));
    assert_eq!(exec.cpu(), before);
    assert_eq!(exec.cpu().p, BASE + 7);
}

#[test]
fn signed_division_truncates_toward_zero() {
    // -7 / 2: quotient -3 to a, remainder -1 to r
    let mut exec = machine(&[load32(0x00, (-7i32) as u32), reg_const8(0x25, 0x00, 2), vec![0x00]]);
    run(&mut exec).unwrap();
    assert_eq!(exec.cpu().a as i32, -3);
    assert_eq!(exec.cpu().r as i32, -1);
    assert_eq!((exec.cpu().a as i32) * 2 + exec.cpu().r as i32, -7);
    // mod: remainder to a, quotient to r; the constant is sign-extended
    let mut exec = machine(&[load32(0x00, 7), reg_const8(0x26, 0x00, 0xfe), vec![0x00]]);
    run(&mut exec).unwrap();
    assert_eq!(exec.cpu().a as i32, 1);
    assert_eq!(exec.cpu().r as i32, -3);
}

#[test]
fn signed_division_overflow_wraps() {
    let mut exec = machine(&[load32(0x00, 0x8000_0000), reg_const8(0x25, 0x00, 0xff), vec![0x00]]);
    run(&mut exec).unwrap();
    assert_eq!(exec.cpu().a, 0x8000_0000);
    assert_eq!(exec.cpu().r, 0);
}

#[test]
fn unsigned_division_pairs_quotient_and_remainder() {
    let mut exec = machine(&[load32(0x00, 0xffff_fff1), reg_const8(0x63, 0x00, 16), vec![0x00]]);
    run(&mut exec).unwrap();
    assert_eq!(exec.cpu().a, 0x0fff_ffff);
    assert_eq!(exec.cpu().r, 1);
    assert_eq!(exec.cpu().a as u64 * 16 + exec.cpu().r as u64, 0xffff_fff1);
    let mut exec = machine(&[load32(0x00, 100), reg_const8(0x64, 0x00, 7), vec![0x00]]);
    run(&mut exec).unwrap();
    assert_eq!(exec.cpu().a, 2);
    assert_eq!(exec.cpu().r, 14);
}

#[test]
fn multiplication_gives_both_words() {
    let mut exec = machine(&[load32(0x00, (-3i32) as u32), reg_const8(0x24, 0x00, 5), vec![0x00]]);
    run(&mut exec).unwrap();
    assert_eq!(exec.cpu().a as i32, -15);
    assert_eq!(exec.cpu().r, 0xffff_ffff);
    let mut exec = machine(&[load32(0x00, 0xffff_ffff), reg_const8(0x62, 0x00, 2), vec![0x00]]);
    run(&mut exec).unwrap();
    assert_eq!(exec.cpu().a, 0xffff_fffe);
    assert_eq!(exec.cpu().r, 1);
    let mut exec = machine(&[load32(0x00, 0x8000_0000), load32(0x01, 0x8000_0000), vec![0x24, 0x66, 0x00, 0x01], vec![0x00]]);
    run(&mut exec).unwrap();
    assert_eq!(exec.cpu().a, 0);
    assert_eq!(exec.cpu().r, 0x4000_0000);
}

#[test]
fn compare_sets_signum() {
    for (op, x, y, expected) in [
        (0x09u8, 3u32, 5u8, 0xffff_ffffu32),
        (0x09, 5, 5, 0),
        (0x09, 0xffff_ffff, 0xfe, 0xffff_ffff),
        (0x0b, 0xffff_ffff, 5, 1),
        (0x0b, 4, 5, 0xffff_ffff),
        (0x0b, 5, 5, 0),
    ] {
        let mut exec = machine(&[load32(0x00, x), reg_const8(op, 0x00, y), vec![0x00]]);
        run(&mut exec).unwrap();
        assert_eq!(exec.cpu().r, expected, "opcode {:x}: {:x} against {:x}", op, x, y);
    }
}

#[test]
fn signed_compare_at_byte_width_does_not_wrap() {
    // 100 - (-100) overflows a byte; the sign of the true difference is kept
    let mut exec = machine(&[load32(0x00, 100), vec![0x09, 0x61, 0x10, 0x9c], vec![0x00]]);
    run(&mut exec).unwrap();
    assert_eq!(exec.cpu().r, 1);
}

#[test]
fn max_and_min() {
    let mut exec = machine(&[load32(0x00, (-4i32) as u32), reg_const8(0x27, 0x00, 3), vec![0x00]]);
    run(&mut exec).unwrap();
    assert_eq!(exec.cpu().a, 3);
    assert_eq!(exec.cpu().r as i32, -4);
    let mut exec = machine(&[load32(0x00, 0xffff_fffc), reg_const8(0x66, 0x00, 3), vec![0x00]]);
    run(&mut exec).unwrap();
    assert_eq!(exec.cpu().a, 3);
    assert_eq!(exec.cpu().r, 0xffff_fffc);
}

#[test]
fn abs_and_sign() {
    let mut exec = machine(&[load32(0x00, (-5i32) as u32), vec![0x29, 0x60, 0x00], vec![0x00]]);
    run(&mut exec).unwrap();
    assert_eq!(exec.cpu().a, 5);
    assert_eq!(exec.cpu().r, 0xffff_ffff);
    let mut exec = machine(&[load32(0x00, 9), vec![0x2a, 0x60, 0x00], vec![0x00]]);
    run(&mut exec).unwrap();
    assert_eq!(exec.cpu().a, 1);
    assert_eq!(exec.cpu().r, 9);
    let mut exec = machine(&[load32(0x00, 0), vec![0x2a, 0x60, 0x00], vec![0x00]]);
    run(&mut exec).unwrap();
    assert_eq!(exec.cpu().a, 0);
}

#[test]
fn unsigned_abs_is_refused() {
    let mut exec = machine(&[vec![0x00]]);
    let instr = Instruction::AbsSign(Writable::Register(tx8_core::Register(0)), Value::new(1, Size::Int), Type::Unsigned, true);
    assert_eq!(exec.execute_instruction(instr, 3), Err(Tx8Error::InstructionError));
}

#[test]
fn bitwise_operations() {
    for (op, expected) in [(0x30u8, 0x0000_00f0u32 & 0x3c), (0x31, 0xf0 | 0x3c), (0x33, !(0xf0u32 & 0x3c)), (0x34, 0xf0 ^ 0x3c)] {
        let mut exec = machine(&[load32(0x00, 0xf0), reg_const8(op, 0x00, 0x3c), vec![0x00]]);
        run(&mut exec).unwrap();
        assert_eq!(exec.cpu().a, expected, "opcode {:x}", op);
    }
    let mut exec = machine(&[load32(0x00, 0xf0), vec![0x32, 0x60, 0x00], vec![0x00]]);
    run(&mut exec).unwrap();
    assert_eq!(exec.cpu().a, !0xf0u32);
}

#[test]
fn shifts_report_bits_shifted_out() {
    let mut exec = machine(&[load32(0x00, 0x1234), reg_const8(0x35, 0x00, 4), vec![0x00]]);
    run(&mut exec).unwrap();
    assert_eq!(exec.cpu().a, 0x123);
    assert_eq!(exec.cpu().r, 0x4);
    let mut exec = machine(&[load32(0x00, 0x8000_0010), reg_const8(0x36, 0x00, 4), vec![0x00]]);
    run(&mut exec).unwrap();
    assert_eq!(exec.cpu().a, 0xf800_0001);
    assert_eq!(exec.cpu().r, 0);
    // shift amounts are masked by the width: 33 shifts a word by 1
    let mut exec = machine(&[load32(0x00, 0x8000_0001), reg_const8(0x37, 0x00, 33), vec![0x00]]);
    run(&mut exec).unwrap();
    assert_eq!(exec.cpu().a, 2);
    assert_eq!(exec.cpu().r, 1);
}

#[test]
fn arithmetic_shift_of_a_byte_alias() {
    let mut exec = machine(&[load32(0x00, 0xaaaa_aa80), reg_const8(0x36, 0x10, 2), vec![0x00]]);
    run(&mut exec).unwrap();
    assert_eq!(exec.cpu().a, 0xaaaa_aae0);
}

#[test]
fn rotations_at_width() {
    let mut exec = machine(&[load32(0x00, 0xffff_ff81), reg_const8(0x38, 0x10, 1), vec![0x00]]);
    run(&mut exec).unwrap();
    assert_eq!(exec.cpu().a, 0xffff_ffc0);
    let mut exec = machine(&[load32(0x00, 0x8000_0001), reg_const8(0x39, 0x00, 4), vec![0x00]]);
    run(&mut exec).unwrap();
    assert_eq!(exec.cpu().a, 0x18);
    let mut exec = machine(&[load32(0x00, 0x1234), reg_const8(0x38, 0x20, 20), vec![0x00]]);
    run(&mut exec).unwrap();
    assert_eq!(exec.cpu().a, 0x4123);
}

#[test]
fn single_bit_operations() {
    let mut exec = machine(&[load32(0x00, 0b1000), reg_const8(0x3a, 0x00, 1), vec![0x00]]);
    run(&mut exec).unwrap();
    assert_eq!((exec.cpu().a, exec.cpu().r), (0b1010, 0));
    let mut exec = machine(&[load32(0x00, 0b1000), reg_const8(0x3b, 0x00, 3), vec![0x00]]);
    run(&mut exec).unwrap();
    assert_eq!((exec.cpu().a, exec.cpu().r), (0, 1));
    let mut exec = machine(&[load32(0x00, 0b1000), reg_const8(0x3c, 0x00, 35), vec![0x00]]);
    run(&mut exec).unwrap();
    assert_eq!((exec.cpu().a, exec.cpu().r), (0, 1));
    let mut exec = machine(&[load32(0x00, 0b1000), reg_const8(0x3d, 0x00, 3), vec![0x00]]);
    run(&mut exec).unwrap();
    assert_eq!((exec.cpu().a, exec.cpu().r), (0b1000, 1));
}

#[test]
fn register_alias_writes_keep_upper_bits() {
    let mut exec = machine(&[load32(0x00, 0x1234_5678), reg_const8(0x10, 0x10, 0xab), vec![0x00]]);
    run(&mut exec).unwrap();
    assert_eq!(exec.cpu().a, 0x1234_56ab);
    let mut exec = machine(&[load32(0x00, 0x1234_5678), vec![0x10, 0x62, 0x20, 0xcd, 0xab], vec![0x00]]);
    run(&mut exec).unwrap();
    assert_eq!(exec.cpu().a, 0x1234_abcd);
}

#[test]
fn load_writes_at_the_value_width() {
    let mut exec = machine(&[load32(0x00, 0x1234_5678), vec![0x11, 0x61, 0x00, 0x80], vec![0x00]]);
    run(&mut exec).unwrap();
    assert_eq!(exec.cpu().a, 0x1234_5680);
    let mut exec = machine(&[load32(0x00, 0x1234_5678), vec![0x10, 0x62, 0x00, 0x80, 0xff], vec![0x00]]);
    run(&mut exec).unwrap();
    assert_eq!(exec.cpu().a, 0x1234_ff80);
}

#[test]
fn push_then_pop_restores_stack() {
    let mut exec = machine(&[vec![0x1d, 0x20, 0xef, 0xbe], vec![0x1e, 0x60, 0x21], vec![0x00]]);
    run(&mut exec).unwrap();
    assert_eq!(exec.cpu().b, 0xbeef);
    assert_eq!(exec.cpu().s, 0xc02000);
}

#[test]
fn call_and_return() {
    // call 0x400010; halt; ... at 0x400010: load b, 7; ret
    let mut code = vec![0x0c, 0x30];
    code.extend_from_slice(&0x400010u32.to_le_bytes());
    code.push(0x00);
    code.resize(0x10, 0x01);
    let mut exec = machine(&[code, load32(0x01, 7), vec![0x0d]]);
    run(&mut exec).unwrap();
    assert_eq!(exec.cpu().b, 7);
    assert_eq!(exec.cpu().p, BASE + 6);
    assert_eq!(exec.cpu().s, 0xc02000);
}

#[test]
fn store_and_zero() {
    let mut exec = machine(&[load32(0x00, 0xdead_beef), vec![0x15, 0x40, 0x00, 0x10, 0x00], vec![0x1c, 0x60, 0x00], vec![0x00]]);
    run(&mut exec).unwrap();
    assert_eq!(exec.cpu().a, 0);
    assert_eq!(exec.memory().read_int(0x1000), 0xdead_beef);
}

#[test]
fn word_load_reads_four_bytes() {
    let mut exec = machine(&[load32(0x00, 0x0102_0304), vec![0x15, 0x40, 0x00, 0x10, 0x00], vec![0x12, 0x64, 0x01, 0x00, 0x10, 0x00], vec![0x10, 0x64, 0x02, 0x00, 0x10, 0x00], vec![0x00]]);
    run(&mut exec).unwrap();
    assert_eq!(exec.cpu().b, 0x0102_0304);
    assert_eq!(exec.cpu().c, 0x04);
}

#[test]
fn print_calls() {
    let mut exec = machine(&[load32(0x00, 0xffff_ff41), vec![0x1d, 0x60, 0x00], syscall("print_i32"), syscall("print_char"), syscall("print_u8"), syscall("test_au"), syscall("test_ri"), vec![0x00]]);
    assert_eq!(
        run(&mut exec),
        Ok(vec![Print::Signed(0xffff_ff41), Print::Char(0x41), Print::Byte(0x41), Print::HexLine(0xffff_ff41), Print::SignedLine(0)])
    );
}

#[test]
fn read_char_consumes_input() {
    let mut exec = machine_with_input(&[syscall("read_char"), syscall("read_char"), vec![0x00]], vec![b'x', b'y']);
    run(&mut exec).unwrap();
    assert_eq!(exec.cpu().o, b'y' as u32);
}

#[test]
fn read_char_without_input_fails() {
    let mut exec = machine(&[syscall("read_char")]);
    assert_eq!(exec.next_step(), Err(Tx8Error::NoInputGiven));
}

#[test]
fn unknown_sys_call_fails() {
    let mut exec = machine(&[syscall("print_u64")]);
    assert_eq!(exec.next_step(), Err(Tx8Error::InvalidSysCall));
}

#[test]
fn invalid_opcode_fails() {
    let mut exec = machine(&[vec![0xff]]);
    assert_eq!(exec.next_step(), Err(Tx8Error::InvalidOpCode(0xff)));
    let mut exec = machine(&[vec![0x0f]]);
    assert_eq!(exec.next_step(), Err(Tx8Error::InvalidOpCode(0x0f)));
}

#[test]
fn invalid_register_fails() {
    let mut exec = machine(&[reg_const8(0x60, 0x08, 1)]);
    assert_eq!(exec.next_step(), Err(Tx8Error::InvalidRegister));
    let mut exec = machine(&[reg_const8(0x60, 0x30, 1)]);
    assert_eq!(exec.next_step(), Err(Tx8Error::InvalidRegister));
    let mut exec = machine(&[reg_const8(0x10, 0x35, 1)]);
    assert_eq!(exec.next_step(), Err(Tx8Error::InvalidRegister));
}

#[test]
fn writing_to_a_constant_fails() {
    let mut exec = machine(&[vec![0x10, 0x11, 0x05, 0x06]]);
    assert_eq!(exec.next_step(), Err(Tx8Error::InstructionError));
}

#[test]
fn float_addition_is_requested() {
    let x = 1.5f32.to_bits();
    let mut code = vec![0x42, 0x63, 0x00];
    code.extend_from_slice(&2.25f32.to_bits().to_le_bytes());
    let mut exec = machine(&[load32(0x00, x), code, vec![0x00]]);
    exec.next_step().unwrap();
    let before = exec.cpu();
    let effect = exec.next_step().unwrap();
    assert_eq!(effect, Effect::Float(FloatRequest { op: FloatOp::Add, lhs: x, rhs: 2.25f32.to_bits() }));
    assert_eq!(exec.cpu(), before);
    assert_eq!(exec.resume_float(FloatResult { value: 3.75f32.to_bits(), remainder: 0 }), Ok(Effect::Continue));
    assert_eq!(f32::from_bits(exec.cpu().a), 3.75);
    assert_eq!(exec.cpu().p, BASE + 7 + 7);
}

#[test]
fn float_division_splits_quotient_and_remainder() {
    let mut code = vec![0x45, 0x63, 0x00];
    code.extend_from_slice(&2.0f32.to_bits().to_le_bytes());
    let mut exec = machine(&[load32(0x00, 7.0f32.to_bits()), code, vec![0x00]]);
    run(&mut exec).unwrap();
    assert_eq!(f32::from_bits(exec.cpu().a), 3.5);
    assert_eq!(f32::from_bits(exec.cpu().r), 1.0);
}

#[test]
fn float_max_min_compare_values() {
    let mut code = vec![0x47, 0x63, 0x00];
    code.extend_from_slice(&(-2.0f32).to_bits().to_le_bytes());
    let mut exec = machine(&[load32(0x00, (-3.0f32).to_bits()), code, vec![0x00]]);
    run(&mut exec).unwrap();
    assert_eq!(f32::from_bits(exec.cpu().a), -2.0);
    assert_eq!(f32::from_bits(exec.cpu().r), -3.0);
}

#[test]
fn float_abs_and_sign() {
    let mut exec = machine(&[load32(0x00, (-3.5f32).to_bits()), vec![0x49, 0x60, 0x00], vec![0x00]]);
    run(&mut exec).unwrap();
    assert_eq!(exec.cpu().a, 0x4060_0000);
    assert_eq!(f32::from_bits(exec.cpu().r), -1.0);
    let mut exec = machine(&[load32(0x00, 2.0f32.to_bits()), vec![0x4a, 0x60, 0x00], vec![0x00]]);
    run(&mut exec).unwrap();
    assert_eq!(f32::from_bits(exec.cpu().a), 1.0);
}

#[test]
fn float_increment_and_compare() {
    let mut exec = machine(&[load32(0x00, 1.0f32.to_bits()), vec![0x40, 0x60, 0x00], vec![0x0a, 0x66, 0x00, 0x01], vec![0x00]]);
    run(&mut exec).unwrap();
    assert_eq!(f32::from_bits(exec.cpu().a), 2.0);
    assert_eq!(exec.cpu().r, 1);
}

#[test]
fn conversions_are_requested() {
    let mut exec = machine(&[load32(0x00, (-7i32) as u32), vec![0x72, 0x60, 0x00], vec![0x00]]);
    run(&mut exec).unwrap();
    assert_eq!(f32::from_bits(exec.cpu().a), -7.0);
    let mut exec = machine(&[load32(0x00, 2.75f32.to_bits()), vec![0x73, 0x60, 0x00], vec![0x00]]);
    run(&mut exec).unwrap();
    assert_eq!(exec.cpu().a, 2);
}

#[test]
fn rand_draws_from_the_generator() {
    let mut exec = machine(&[vec![0x70, 0x60, 0x00], vec![0x00]]);
    let effect = exec.next_step().unwrap();
    assert_eq!(effect, Effect::Float(FloatRequest { op: FloatOp::Normalize, lhs: 13289, rhs: 0 }));
    exec.resume_float(evaluate(FloatRequest { op: FloatOp::Normalize, lhs: 13289, rhs: 0 })).unwrap();
    assert_eq!(exec.cpu().r, 13289);
    assert_eq!(f32::from_bits(exec.cpu().a), 13289.0 / 32767.0);
}

#[test]
fn reseeding_restarts_the_generator() {
    let mut exec = machine(&[vec![0x71, 0x30, 0x78, 0x56, 0x34, 0x12], vec![0x70, 0x60, 0x00], vec![0x70, 0x60, 0x00], vec![0x00]]);
    run(&mut exec).unwrap();
    assert_eq!(exec.cpu().r, 23247);
}

#[test]
fn decoding_near_the_top_fails() {
    let mut exec = machine(&[vec![0x02, 0x30, 0xf1, 0xff, 0xff, 0x00]]);
    exec.next_step().unwrap();
    assert_eq!(exec.cpu().p, 0xff_fff1);
    assert_eq!(exec.next_step(), Err(Tx8Error::InstructionError));
}

#[test]
fn pop_advances_the_program_counter() {
    let mut exec = machine(&[vec![0x1d, 0x60, 0x00], vec![0x1e, 0x60, 0x01], vec![0x00]]);
    exec.next_step().unwrap();
    exec.next_step().unwrap();
    assert_eq!(exec.cpu().p, BASE + 6);
}

#[test]
fn pop_into_memory_restores_stack() {
    let mut exec = machine(&[vec![0x1d, 0x30, 0xbe, 0xba, 0xfe, 0xca], vec![0x1e, 0x40, 0x00, 0x10, 0x00], vec![0x00]]);
    run(&mut exec).unwrap();
    assert_eq!(exec.memory().read_int(0x1000), 0xcafe_babe);
    assert_eq!(exec.cpu().s, 0xc02000);
}
