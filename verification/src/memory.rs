//! The byte-addressable 64 KiB memory image behind the bus interface:
//! total over the whole 16-bit address range, no error path.

use vstd::prelude::*;

verus! {

/// A 64 KiB memory image.  Every 16-bit address is in range, so reads
/// and writes are total.
pub struct Memory {
    memory: Vec<u8>,
}

impl View for Memory {
    type V = Seq<u8>;

    closed spec fn view(&self) -> Seq<u8> {
        self.memory@
    }
}

impl Memory {
    /// The image covers the whole 16-bit address space.
    pub open spec fn wf(self) -> bool {
        self@.len() == 0x10000
    }

    /// A fresh image, all bytes zero.
    pub fn new() -> (m: Memory)
        ensures
            m.wf(),
            forall|i: int| 0 <= i < 0x10000 ==> m@[i] == 0u8,
    {
        Memory { memory: vec![0u8; 0x10000] }
    }

    /// Reads the byte at `address`.
    pub fn read(&self, address: u16) -> (v: u8)
        requires
            self.wf(),
        ensures
            v == self@[address as int],
    {
        self.memory[address as usize]
    }

    /// Writes `value` at `address`.
    pub fn write(&mut self, address: u16, value: u8)
        requires
            old(self).wf(),
        ensures
            final(self).wf(),
            final(self)@ == old(self)@.update(address as int, value),
    {
        self.memory[address as usize] = value;
    }

    /// Copies a program image into the low 32 KiB of the address
    /// space.  An image longer than 32 KiB contributes only its
    /// leading 32 KiB; the rest of memory is untouched.
    pub fn load_rom_into_memory(&mut self, rom: &[u8])
        requires
            old(self).wf(),
        ensures
            final(self).wf(),
            forall|i: int|
                0 <= i < 0x10000 ==> final(self)@[i] == (if i < rom@.len() && i < 0x8000 {
                    rom@[i]
                } else {
                    old(self)@[i]
                }),
    {
        let safe_rom_length: usize = if rom.len() < 0x8000 {
            rom.len()
        } else {
            0x8000
        };
        let mut i: usize = 0;
        while i < safe_rom_length
            invariant
                i <= safe_rom_length,
                safe_rom_length <= rom@.len(),
                safe_rom_length <= 0x8000,
                safe_rom_length == (if rom@.len() < 0x8000 {
                    rom@.len() as int
                } else {
                    0x8000int
                }),
                self@.len() == 0x10000,
                forall|j: int|
                    0 <= j < 0x10000 ==> self@[j] == (if j < i {
                        rom@[j]
                    } else {
                        old(self)@[j]
                    }),
            decreases safe_rom_length - i,
        {
            let b = rom[i];
            self.memory[i] = b;
            i = i + 1;
        }
    }
}

} // verus!
