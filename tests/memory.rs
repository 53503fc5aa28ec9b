use tx8_core::hardware::MEMORY_SIZE;
use tx8_core::{Cpu, Memory, Tx8Error};

fn blank() -> Memory {
    Memory::load_rom(&[]).unwrap()
}

#[test]
fn cpu_starts_at_rom_base() {
    let cpu = Cpu::new();
    assert_eq!((cpu.a, cpu.b, cpu.c, cpu.d, cpu.r, cpu.o), (0, 0, 0, 0, 0, 0));
    assert_eq!(cpu.s, 0xc02000);
    assert_eq!(cpu.p, 0x400000);
}

#[test]
fn rom_is_loaded_at_four_mib() {
    let mem = Memory::load_rom(&[1, 2, 3]).unwrap();
    assert_eq!(mem.read_byte(0x3f_ffff), 0);
    assert_eq!(mem.read_byte(0x40_0000), 1);
    assert_eq!(mem.read_byte(0x40_0002), 3);
    assert_eq!(mem.read_byte(0x40_0003), 0);
}

#[test]
fn oversized_rom_is_refused() {
    let data = vec![0u8; 0x80_0001];
    assert!(matches!(Memory::load_rom(&data), Err(Tx8Error::ParseError)));
    let data = vec![7u8; 0x80_0000];
    let mem = Memory::load_rom(&data).unwrap();
    assert_eq!(mem.read_byte(0xbf_ffff), 7);
}

#[test]
fn word_round_trip() {
    let mut mem = blank();
    for ptr in [0u32, 0x1234, 0xff_fffc, 0x0100_0010] {
        mem.write_int(ptr, 0xdead_beef);
        assert_eq!(mem.read_int(ptr), 0xdead_beef);
    }
}

#[test]
fn multi_byte_values_are_little_endian() {
    let mut mem = blank();
    mem.write_int(0x100, 0x0403_0201);
    assert_eq!(mem.read_byte(0x100), 1);
    assert_eq!(mem.read_byte(0x103), 4);
    assert_eq!(mem.read_short(0x101), 0x0302);
    assert_eq!(mem.read_24bit(0x100), 0x03_0201);
    mem.write_short(0x200, 0xbeef);
    assert_eq!(mem.read(0x200), 0xef);
    assert_eq!(mem.read(0x201), 0xbe);
    mem.write_byte(0x300, 0x7f);
    assert_eq!(mem.read_int(0x300), 0x7f);
}

#[test]
fn pointers_are_truncated_to_24_bits() {
    let mut mem = blank();
    mem.write(0xff00_0010, 0x55);
    assert_eq!(mem.read_byte(0x10), 0x55);
    assert_eq!(mem.read_byte(0x0100_0010), 0x55);
    mem.write_int(0x0300_0020, 0x1122_3344);
    assert_eq!(mem.read_int(0x20), 0x1122_3344);
}

#[test]
fn reads_past_the_end_give_zero() {
    let mut mem = blank();
    mem.write_byte(0xff_ffff, 0xaa);
    mem.write_byte(0, 0xbb);
    assert_eq!(mem.read_short(0xff_ffff), 0x00aa);
    assert_eq!(mem.read_int(0xff_fffe), 0x0000_aa00);
    assert_eq!(mem.read_24bit(0xff_ffff), 0xaa);
}

#[test]
fn writes_past_the_end_wrap() {
    let mut mem = blank();
    mem.write_int(0xff_fffe, 0x4433_2211);
    assert_eq!(mem.read_byte(0xff_fffe), 0x11);
    assert_eq!(mem.read_byte(0xff_ffff), 0x22);
    assert_eq!(mem.read_byte(0), 0x33);
    assert_eq!(mem.read_byte(1), 0x44);
    assert_eq!(MEMORY_SIZE, 1 << 24);
}
