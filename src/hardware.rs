use crate::errors::Tx8Error;
use vstd::prelude::*;

verus! {

/// Size of the address space: 16 MiB.
pub const MEMORY_SIZE: usize = 0x1000000;

/// Largest payload that fits into the address space above the load base: 8 MiB.
pub const MAX_ROM_SIZE: usize = 0x800000;

/// Address at which the payload is loaded and execution starts.
pub const ROM_BASE: usize = 0x400000;

/// Initial stack pointer.
pub const STACK_START: u32 = 0xc02000;

/// The index in the address space that a 32-bit pointer designates: its low 24 bits.
pub open spec fn addr(ptr: u32) -> int {
    ptr as int % MEMORY_SIZE as int
}

/// The address space right after loading `data`: the payload at `ROM_BASE`, zero elsewhere.
pub open spec fn rom_image(data: Seq<u8>) -> Seq<u8> {
    Seq::new(
        MEMORY_SIZE as nat,
        |i: int|
            if ROM_BASE <= i < ROM_BASE + data.len() {
                data[i - ROM_BASE]
            } else {
                0u8
            },
    )
}

/// The byte at index `i`, or 0 past the end of the address space.
pub open spec fn byte_at(m: Seq<u8>, i: int) -> u8 {
    if 0 <= i < m.len() {
        m[i]
    } else {
        0
    }
}

/// The index of the `k`-th byte written at `ptr`, wrapping at the end of the address space.
pub open spec fn write_index(ptr: u32, k: int) -> int {
    (addr(ptr) + k) % MEMORY_SIZE as int
}

pub open spec fn spec_read_byte(m: Seq<u8>, ptr: u32) -> u8 {
    byte_at(m, addr(ptr))
}

pub open spec fn spec_read_short(m: Seq<u8>, ptr: u32) -> u16 {
    (byte_at(m, addr(ptr)) + 256 * byte_at(m, addr(ptr) + 1)) as u16
}

pub open spec fn spec_read_24bit(m: Seq<u8>, ptr: u32) -> u32 {
    (byte_at(m, addr(ptr)) + 256 * byte_at(m, addr(ptr) + 1) + 0x10000 * byte_at(
        m,
        addr(ptr) + 2,
    )) as u32
}

pub open spec fn spec_read_int(m: Seq<u8>, ptr: u32) -> u32 {
    (byte_at(m, addr(ptr)) + 256 * byte_at(m, addr(ptr) + 1) + 0x10000 * byte_at(
        m,
        addr(ptr) + 2,
    ) + 0x1000000 * byte_at(m, addr(ptr) + 3)) as u32
}

pub open spec fn spec_write_byte(m: Seq<u8>, ptr: u32, val: u8) -> Seq<u8> {
    m.update(write_index(ptr, 0), val)
}

pub open spec fn spec_write_short(m: Seq<u8>, ptr: u32, val: u16) -> Seq<u8> {
    m.update(write_index(ptr, 0), (val % 256) as u8).update(
        write_index(ptr, 1),
        (val / 256) as u8,
    )
}

pub open spec fn spec_write_int(m: Seq<u8>, ptr: u32, val: u32) -> Seq<u8> {
    m.update(write_index(ptr, 0), (val % 256) as u8).update(
        write_index(ptr, 1),
        (val / 0x100 % 256) as u8,
    ).update(write_index(ptr, 2), (val / 0x10000 % 256) as u8).update(
        write_index(ptr, 3),
        (val / 0x1000000) as u8,
    )
}

/// The eight registers of the machine.
#[derive(Clone, Copy, Debug, PartialEq, Eq, Structural)]
pub struct Cpu {
    pub a: u32,
    pub b: u32,
    pub c: u32,
    pub d: u32,
    pub r: u32,
    pub o: u32,
    pub s: u32,
    pub p: u32,
}

impl Cpu {
    /// Register number `i` in the order of the register encoding: a, b, c, d, r, o, p, s.
    pub open spec fn reg(self, i: int) -> u32 {
        if i == 0 {
            self.a
        } else if i == 1 {
            self.b
        } else if i == 2 {
            self.c
        } else if i == 3 {
            self.d
        } else if i == 4 {
            self.r
        } else if i == 5 {
            self.o
        } else if i == 6 {
            self.p
        } else {
            self.s
        }
    }

    /// This CPU with register number `i` set to `v`.
    pub open spec fn with_reg(self, i: int, v: u32) -> Cpu {
        if i == 0 {
            Cpu { a: v, ..self }
        } else if i == 1 {
            Cpu { b: v, ..self }
        } else if i == 2 {
            Cpu { c: v, ..self }
        } else if i == 3 {
            Cpu { d: v, ..self }
        } else if i == 4 {
            Cpu { r: v, ..self }
        } else if i == 5 {
            Cpu { o: v, ..self }
        } else if i == 6 {
            Cpu { p: v, ..self }
        } else {
            Cpu { s: v, ..self }
        }
    }

    /// All registers zero but the stack pointer and the program counter.
    pub fn new() -> (cpu: Cpu)
        ensures
            cpu == (Cpu { a: 0, b: 0, c: 0, d: 0, r: 0, o: 0, s: STACK_START, p: ROM_BASE as u32 }),
    {
        Cpu { a: 0, b: 0, c: 0, d: 0, r: 0, o: 0, s: STACK_START, p: ROM_BASE as u32 }
    }

    pub fn get_reg(&self, i: u8) -> (v: u32)
        requires
            i < 8,
        ensures
            v == self.reg(i as int),
    {
        match i {
            0 => self.a,
            1 => self.b,
            2 => self.c,
            3 => self.d,
            4 => self.r,
            5 => self.o,
            6 => self.p,
            _ => self.s,
        }
    }

    pub fn set_reg(&mut self, i: u8, v: u32)
        requires
            i < 8,
        ensures
            *final(self) == old(self).with_reg(i as int, v),
    {
        match i {
            0 => self.a = v,
            1 => self.b = v,
            2 => self.c = v,
            3 => self.d = v,
            4 => self.r = v,
            5 => self.o = v,
            6 => self.p = v,
            _ => self.s = v,
        }
    }
}

/// The 16 MiB address space.
#[derive(Clone, Debug)]
pub struct Memory {
    array: Vec<u8>,
}

impl View for Memory {
    type V = Seq<u8>;

    closed spec fn view(&self) -> Seq<u8> {
        self.array@
    }
}

/// The index that a pointer designates: its low 24 bits.
pub fn truncate_ptr(ptr: u32) -> (r: usize)
    ensures
        r == addr(ptr),
        r == ptr & 0xffffff,
{
    assert(ptr & 0xffffff == ptr % 0x1000000) by (bit_vector);
    (ptr & 0xffffff) as usize
}

impl Memory {
    pub open spec fn wf(&self) -> bool {
        self@.len() == MEMORY_SIZE
    }

    /// An address space that holds `data` at `ROM_BASE` and zero elsewhere; a payload larger
    /// than `MAX_ROM_SIZE` is refused.
    pub fn load_rom(data: &[u8]) -> (r: Result<Memory, Tx8Error>)
        ensures
            data@.len() > MAX_ROM_SIZE ==> r == Err::<Memory, Tx8Error>(Tx8Error::ParseError),
            data@.len() <= MAX_ROM_SIZE ==> (r matches Ok(m) && m@ == rom_image(data@)),
    {
        if data.len() > MAX_ROM_SIZE {
            return Err(Tx8Error::ParseError);
        }
        let mut array: Vec<u8> = vec![0u8; MEMORY_SIZE];
        let mut k: usize = 0;
        while k < data.len()
            invariant
                data@.len() <= MAX_ROM_SIZE,
                k <= data@.len(),
                array@.len() == MEMORY_SIZE,
                forall|i: int|
                    0 <= i < MEMORY_SIZE ==> #[trigger] array@[i] == if ROM_BASE <= i < ROM_BASE
                        + k {
                        data@[i - ROM_BASE]
                    } else {
                        0u8
                    },
            decreases data@.len() - k,
        {
            array.set(ROM_BASE + k, data[k]);
            k = k + 1;
        }
        assert(array@ =~= rom_image(data@));
        Ok(Memory { array })
    }

    /// The byte at index `i`, or 0 past the end of the address space.
    fn byte_or_zero(&self, i: usize) -> (r: u8)
        ensures
            r == byte_at(self@, i as int),
    {
        if i < self.array.len() {
            self.array[i]
        } else {
            0
        }
    }

    pub fn read_byte(&self, ptr: u32) -> (r: u8)
        requires
            self.wf(),
        ensures
            r == spec_read_byte(self@, ptr),
    {
        self.read(ptr)
    }

    pub fn read(&self, ptr: u32) -> (r: u8)
        requires
            self.wf(),
        ensures
            r == spec_read_byte(self@, ptr),
    {
        let i = truncate_ptr(ptr);
        self.array[i]
    }

    pub fn read_short(&self, ptr: u32) -> (r: u16)
        requires
            self.wf(),
        ensures
            r == spec_read_short(self@, ptr),
    {
        let i = truncate_ptr(ptr);
        let b0 = self.byte_or_zero(i);
        let b1 = self.byte_or_zero(i + 1);
        b0 as u16 + b1 as u16 * 256
    }

    pub fn read_24bit(&self, ptr: u32) -> (r: u32)
        requires
            self.wf(),
        ensures
            r == spec_read_24bit(self@, ptr),
    {
        let i = truncate_ptr(ptr);
        let b0 = self.byte_or_zero(i);
        let b1 = self.byte_or_zero(i + 1);
        let b2 = self.byte_or_zero(i + 2);
        b0 as u32 + b1 as u32 * 0x100 + b2 as u32 * 0x10000
    }

    pub fn read_int(&self, ptr: u32) -> (r: u32)
        requires
            self.wf(),
        ensures
            r == spec_read_int(self@, ptr),
    {
        let i = truncate_ptr(ptr);
        let b0 = self.byte_or_zero(i);
        let b1 = self.byte_or_zero(i + 1);
        let b2 = self.byte_or_zero(i + 2);
        let b3 = self.byte_or_zero(i + 3);
        b0 as u32 + b1 as u32 * 0x100 + b2 as u32 * 0x10000 + b3 as u32 * 0x1000000
    }

    /// Stores `val` at the `k`-th index after the one `ptr` designates, wrapping at the end.
    fn write_at(&mut self, ptr: u32, k: usize, val: u8)
        requires
            old(self).wf(),
            k < 4,
        ensures
            final(self).wf(),
            final(self)@ == old(self)@.update(write_index(ptr, k as int), val),
    {
        let i = truncate_ptr(ptr) + k;
        let i = if i < MEMORY_SIZE {
            i
        } else {
            i - MEMORY_SIZE
        };
        self.array.set(i, val);
    }

    pub fn write(&mut self, ptr: u32, val: u8)
        requires
            old(self).wf(),
        ensures
            final(self).wf(),
            final(self)@ == spec_write_byte(old(self)@, ptr, val),
    {
        self.write_at(ptr, 0, val);
    }

    pub fn write_byte(&mut self, ptr: u32, val: u8)
        requires
            old(self).wf(),
        ensures
            final(self).wf(),
            final(self)@ == spec_write_byte(old(self)@, ptr, val),
    {
        self.write(ptr, val)
    }

    pub fn write_short(&mut self, ptr: u32, val: u16)
        requires
            old(self).wf(),
        ensures
            final(self).wf(),
            final(self)@ == spec_write_short(old(self)@, ptr, val),
    {
        self.write_at(ptr, 0, (val % 256) as u8);
        self.write_at(ptr, 1, (val / 256) as u8);
    }

    pub fn write_int(&mut self, ptr: u32, val: u32)
        requires
            old(self).wf(),
        ensures
            final(self).wf(),
            final(self)@ == spec_write_int(old(self)@, ptr, val),
    {
        self.write_at(ptr, 0, (val % 256) as u8);
        self.write_at(ptr, 1, (val / 0x100 % 256) as u8);
        self.write_at(ptr, 2, (val / 0x10000 % 256) as u8);
        self.write_at(ptr, 3, (val / 0x1000000) as u8);
    }
}

} // verus!
