use tx8_core::{hash, parse_rom, Rand, Tx8Error};

fn rom(name: &[u8], description: &[u8], payload: &[u8]) -> Vec<u8> {
    let mut data = vec![0u8; 64];
    data[0..4].copy_from_slice(b"TX8\0");
    data[4] = name.len() as u8;
    data[5..7].copy_from_slice(&(description.len() as u16).to_le_bytes());
    data[7..11].copy_from_slice(&(payload.len() as u32).to_le_bytes());
    data.extend_from_slice(name);
    data.extend_from_slice(description);
    data.extend_from_slice(payload);
    data
}

#[test]
fn rom_is_split_into_its_parts() {
    let data = rom(b"demo", "prints f\u{fc}nf".as_bytes(), &[0x10, 0x00]);
    let parsed = parse_rom(&data).unwrap();
    assert_eq!(parsed.name, "demo");
    assert_eq!(parsed.description, "prints f\u{fc}nf");
    assert_eq!(parsed.payload, vec![0x10, 0x00]);
}

#[test]
fn empty_parts_are_accepted() {
    let parsed = parse_rom(&rom(b"", b"", b"")).unwrap();
    assert_eq!(parsed.name, "");
    assert!(parsed.payload.is_empty());
}

#[test]
fn bad_magic_is_refused() {
    let mut data = rom(b"x", b"", &[0]);
    data[2] = b'9';
    assert!(matches!(parse_rom(&data), Err(Tx8Error::ParseError)));
}

#[test]
fn short_file_is_refused() {
    assert!(matches!(parse_rom(&b"TX8\0".to_vec()), Err(Tx8Error::ParseError)));
}

#[test]
fn length_must_match_exactly() {
    let mut data = rom(b"x", b"y", &[1, 2, 3]);
    data.push(0);
    assert!(matches!(parse_rom(&data), Err(Tx8Error::ParseError)));
    data.pop();
    data.pop();
    assert!(matches!(parse_rom(&data), Err(Tx8Error::ParseError)));
}

#[test]
fn invalid_utf8_is_refused() {
    assert!(matches!(parse_rom(&rom(&[0xff, 0xfe], b"", &[0])), Err(Tx8Error::ParseError)));
    assert!(matches!(parse_rom(&rom(b"ok", &[0xc3], &[0])), Err(Tx8Error::ParseError)));
}

#[test]
fn name_hash() {
    assert_eq!(hash(""), 0);
    assert_eq!(hash("a"), 97);
    assert_eq!(hash("ab"), 97 * 31 + 98);
    assert_eq!(hash("print_u32"), 0x94e9_8102);
    assert_eq!(hash("read_char"), 0xbd9a_805f);
}

#[test]
fn generator_sequence() {
    let mut rand = Rand::new();
    assert_eq!(rand.next(), 13289);
    assert_eq!(rand.next(), 23247);
    assert_eq!(rand.next(), 24381);
    rand.set_seed(0x12345678);
    assert_eq!(rand.peek(), 13289);
    assert_eq!(rand.next(), 13289);
}
