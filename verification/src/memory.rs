//! The flat 4096-byte memory: font sprites at a fixed base offset, the
//! loaded program from 0x200 upward.

use vstd::prelude::*;

verus! {

/// Number of addressable bytes.
pub const MEMORY_SIZE: usize = 4096;

/// Base offset of the 80-byte font sprite table.
pub const FONT_BEGIN_INDEX: usize = 0x50;

/// First address of a loaded program.
pub const ROM_BEGIN_INDEX: usize = 0x200;

/// The built-in sprites for the hex digits 0–F, five bytes per glyph.
pub const FONT_SET: [u8; 80] = [
    0xF0, 0x90, 0x90, 0x90, 0xF0, // 0
    0x20, 0x60, 0x20, 0x20, 0x70, // 1
    0xF0, 0x10, 0xF0, 0x80, 0xF0, // 2
    0xF0, 0x10, 0xF0, 0x10, 0xF0, // 3
    0x90, 0x90, 0xF0, 0x10, 0x10, // 4
    0xF0, 0x80, 0xF0, 0x10, 0xF0, // 5
    0xF0, 0x80, 0xF0, 0x90, 0xF0, // 6
    0xF0, 0x10, 0x20, 0x40, 0x40, // 7
    0xF0, 0x90, 0xF0, 0x90, 0xF0, // 8
    0xF0, 0x90, 0xF0, 0x10, 0xF0, // 9
    0xF0, 0x90, 0xF0, 0x90, 0x90, // A
    0xE0, 0x90, 0xE0, 0x90, 0xE0, // B
    0xF0, 0x80, 0x80, 0x80, 0xF0, // C
    0xE0, 0x90, 0x90, 0x90, 0xE0, // D
    0xF0, 0x80, 0xF0, 0x80, 0xF0, // E
    0xF0, 0x80, 0xF0, 0x80, 0x80, // F
];

/// The byte store. Its view is the sequence of all 4096 bytes.
#[derive(Debug)]
pub struct Memory {
    pub data: Vec<u8>,
}

impl View for Memory {
    type V = Seq<u8>;

    open spec fn view(&self) -> Seq<u8> {
        self.data@
    }
}

impl Memory {
    /// A memory is well formed when it spans the whole address space.
    pub open spec fn wf(&self) -> bool {
        self@.len() == MEMORY_SIZE
    }

    /// All-zero memory.
    pub fn init() -> (m: Memory)
        ensures
            m.wf(),
            forall|j: int| 0 <= j < MEMORY_SIZE ==> m@[j] == 0u8,
    {
        let mut data: Vec<u8> = Vec::new();
        let mut k: usize = 0;
        while k < MEMORY_SIZE
            invariant
                k <= MEMORY_SIZE,
                data@.len() == k,
                forall|j: int| 0 <= j < k ==> data@[j] == 0u8,
            decreases MEMORY_SIZE - k,
        {
            data.push(0);
            k = k + 1;
        }
        Memory { data }
    }

    /// Writes the font table at its fixed base offset; no other byte moves.
    pub fn load_fonts(&mut self)
        requires
            old(self).wf(),
        ensures
            final(self).wf(),
            forall|j: int|
                0 <= j < 80 ==> final(self)@[FONT_BEGIN_INDEX + j] == FONT_SET@[j],
            forall|j: int|
                0 <= j < MEMORY_SIZE && !(FONT_BEGIN_INDEX <= j < FONT_BEGIN_INDEX + 80)
                    ==> final(self)@[j] == old(self)@[j],
    {
        let mut k: usize = 0;
        while k < 80
            invariant
                k <= 80,
                self@.len() == MEMORY_SIZE,
                forall|j: int| 0 <= j < k ==> self@[FONT_BEGIN_INDEX + j] == FONT_SET@[j],
                forall|j: int|
                    0 <= j < MEMORY_SIZE && !(FONT_BEGIN_INDEX <= j < FONT_BEGIN_INDEX + k)
                        ==> self@[j] == old(self)@[j],
            decreases 80 - k,
        {
            self.data.set(FONT_BEGIN_INDEX + k, FONT_SET[k]);
            k = k + 1;
        }
    }

    /// Writes `rom` from the program base upward; no other byte moves.
    ///
    /// A program longer than the space above the base does not fit and is
    /// rejected by the precondition; the processor never truncates one.
    pub fn load_rom(&mut self, rom: Vec<u8>)
        requires
            old(self).wf(),
            rom@.len() + ROM_BEGIN_INDEX <= MEMORY_SIZE,
        ensures
            final(self).wf(),
            forall|j: int|
                0 <= j < rom@.len() ==> final(self)@[ROM_BEGIN_INDEX + j] == rom@[j],
            forall|j: int|
                0 <= j < MEMORY_SIZE && !(ROM_BEGIN_INDEX <= j < ROM_BEGIN_INDEX + rom@.len())
                    ==> final(self)@[j] == old(self)@[j],
    {
        let mut k: usize = 0;
        while k < rom.len()
            invariant
                k <= rom@.len(),
                rom@.len() + ROM_BEGIN_INDEX <= MEMORY_SIZE,
                self@.len() == MEMORY_SIZE,
                forall|j: int| 0 <= j < k ==> self@[ROM_BEGIN_INDEX + j] == rom@[j],
                forall|j: int|
                    0 <= j < MEMORY_SIZE && !(ROM_BEGIN_INDEX <= j < ROM_BEGIN_INDEX + k)
                        ==> self@[j] == old(self)@[j],
            decreases rom@.len() - k,
        {
            self.data.set(ROM_BEGIN_INDEX + k, rom[k]);
            k = k + 1;
        }
    }
}

} // verus!
