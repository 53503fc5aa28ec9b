//! The ROM container: a 64-byte header, the program's name and description, then the
//! payload that is loaded into the address space.
use crate::errors::Tx8Error;
use vstd::prelude::*;
use vstd::utf8::{decode_utf8, valid_utf8};

verus! {

/// Size of the header, which the name follows.
pub const HEADER_SIZE: usize = 64;

/// A parsed ROM file.
pub struct Rom {
    pub name: String,
    pub description: String,
    pub payload: Vec<u8>,
}

pub open spec fn rom_name_len(d: Seq<u8>) -> int {
    d[4] as int
}

pub open spec fn rom_description_len(d: Seq<u8>) -> int {
    d[5] + 256 * d[6]
}

pub open spec fn rom_payload_len(d: Seq<u8>) -> int {
    d[7] + 0x100 * d[8] + 0x10000 * d[9] + 0x1000000 * d[10]
}

/// The file starts with the magic bytes "TX8\0" and its length is exactly the header's
/// 64 bytes plus the three lengths it states.
pub open spec fn rom_well_formed(d: Seq<u8>) -> bool {
    &&& d.len() >= HEADER_SIZE
    &&& d[0] == 0x54 && d[1] == 0x58 && d[2] == 0x38 && d[3] == 0
    &&& d.len() == HEADER_SIZE + rom_name_len(d) + rom_description_len(d) + rom_payload_len(d)
}

pub open spec fn rom_name_bytes(d: Seq<u8>) -> Seq<u8> {
    d.subrange(HEADER_SIZE as int, HEADER_SIZE + rom_name_len(d))
}

pub open spec fn rom_description_bytes(d: Seq<u8>) -> Seq<u8> {
    d.subrange(HEADER_SIZE + rom_name_len(d), HEADER_SIZE + rom_name_len(d) + rom_description_len(d))
}

pub open spec fn rom_payload_bytes(d: Seq<u8>) -> Seq<u8> {
    d.subrange(HEADER_SIZE + rom_name_len(d) + rom_description_len(d), d.len() as int)
}

/// A ROM file is accepted when it is well formed and its name and description are UTF-8.
pub open spec fn rom_accepted(d: Seq<u8>) -> bool {
    rom_well_formed(d) && valid_utf8(rom_name_bytes(d)) && valid_utf8(rom_description_bytes(d))
}

/// Relies on `std::str::from_utf8`: it accepts exactly the byte sequences that are valid
/// UTF-8, and the text it gives back holds the characters they encode.
#[verifier::external_body]
fn utf8_text(bytes: &[u8]) -> (r: Option<String>)
    ensures
        r is Some <==> valid_utf8(bytes@),
        r matches Some(s) ==> s@ == decode_utf8(bytes@),
{
    match std::str::from_utf8(bytes) {
        Ok(s) => Some(s.to_owned()),
        Err(_) => None,
    }
}

/// The bytes of `data` from `from` up to `to`.
fn copy_range(data: &Vec<u8>, from: usize, to: usize) -> (r: Vec<u8>)
    requires
        from <= to <= data@.len(),
    ensures
        r@ == data@.subrange(from as int, to as int),
{
    let mut r: Vec<u8> = Vec::new();
    let mut i = from;
    while i < to
        invariant
            from <= i <= to <= data@.len(),
            r@ == data@.subrange(from as int, i as int),
        decreases to - i,
    {
        r.push(data[i]);
        i = i + 1;
        assert(r@ =~= data@.subrange(from as int, i as int));
    }
    r
}

/// Splits a ROM file into its name, description and payload. Every violation of the
/// format is a `ParseError`.
pub fn parse_rom(data: &Vec<u8>) -> (r: Result<Rom, Tx8Error>)
    ensures
        match r {
            Ok(rom) => {
                &&& rom_accepted(data@)
                &&& rom.name@ == decode_utf8(rom_name_bytes(data@))
                &&& rom.description@ == decode_utf8(rom_description_bytes(data@))
                &&& rom.payload@ == rom_payload_bytes(data@)
            },
            Err(e) => e == Tx8Error::ParseError && !rom_accepted(data@),
        },
{
    if data.len() < HEADER_SIZE || data[0] != 0x54 || data[1] != 0x58 || data[2] != 0x38 || data[3]
        != 0 {
        return Err(Tx8Error::ParseError);
    }
    let name_len = data[4] as u64;
    let description_len = data[5] as u64 + data[6] as u64 * 0x100;
    let payload_len = data[7] as u64 + data[8] as u64 * 0x100 + data[9] as u64 * 0x10000
        + data[10] as u64 * 0x1000000;
    let name_end = HEADER_SIZE as u64 + name_len;
    let description_end = name_end + description_len;
    let data_end = description_end + payload_len;
    if data.len() as u64 != data_end {
        return Err(Tx8Error::ParseError);
    }
    let name_bytes = copy_range(data, HEADER_SIZE, name_end as usize);
    let description_bytes = copy_range(data, name_end as usize, description_end as usize);
    let name = match utf8_text(name_bytes.as_slice()) {
        Some(s) => s,
        None => return Err(Tx8Error::ParseError),
    };
    let description = match utf8_text(description_bytes.as_slice()) {
        Some(s) => s,
        None => return Err(Tx8Error::ParseError),
    };
    let payload = copy_range(data, description_end as usize, data.len());
    Ok(Rom { name, description, payload })
}

} // verus!
