//! A flat byte-addressed memory covering the whole 32-bit address space.
use vstd::prelude::*;

use crate::ppu::{le16, le32, le16_of, le32_of};

verus! {

pub const MEMORY_SIZE: usize = 0xffff_ffff;

/// `s` with `data` copied in at offset `at`.
pub open spec fn splice(s: Seq<u8>, at: int, data: Seq<u8>) -> Seq<u8> {
    s.take(at) + data + s.skip(at + data.len())
}

/// A flat memory: one byte for every address below `MEMORY_SIZE`.
pub struct MemoryBus {
    memory: Vec<u8>,
}

impl View for MemoryBus {
    type V = Seq<u8>;

    closed spec fn view(&self) -> Seq<u8> {
        self.memory@
    }
}

impl MemoryBus {
    /// A memory of zeros.
    pub fn new() -> (r: Self)
        ensures
            r@ == Seq::new(MEMORY_SIZE as nat, |i: int| 0u8),
    {
        let r = Self { memory: vec![0u8; MEMORY_SIZE] };
        proof {
            assert(r@ =~= Seq::new(MEMORY_SIZE as nat, |i: int| 0u8));
        }
        r
    }

    pub fn read_8(&self, address: u32) -> (r: u8)
        requires
            self@.len() == MEMORY_SIZE,
            address < MEMORY_SIZE,
        ensures
            r == self@[address as int],
    {
        self.memory[address as usize]
    }

    pub fn write_8(&mut self, address: u32, value: u8)
        requires
            old(self)@.len() == MEMORY_SIZE,
            address < MEMORY_SIZE,
        ensures
            final(self)@ == old(self)@.update(address as int, value),
    {
        self.memory[address as usize] = value;
    }

    /// The little-endian half-word at `address`.
    pub fn read_16(&self, address: u32) -> (r: u16)
        requires
            self@.len() == MEMORY_SIZE,
            address as int + 1 < MEMORY_SIZE,
        ensures
            r == le16(self@[address as int], self@[address + 1]),
    {
        let a = address as usize;
        le16_of(self.memory[a], self.memory[a + 1])
    }

    pub fn write_16(&mut self, address: u32, value: u16)
        requires
            old(self)@.len() == MEMORY_SIZE,
            address as int + 1 < MEMORY_SIZE,
        ensures
            final(self)@ == old(self)@.update(address as int, value as u8).update(
                address + 1,
                (value >> 8) as u8,
            ),
    {
        let a = address as usize;
        self.memory[a] = value as u8;
        self.memory[a + 1] = (value >> 8) as u8;
    }

    /// The little-endian word at `address`.
    pub fn read_32(&self, address: u32) -> (r: u32)
        requires
            self@.len() == MEMORY_SIZE,
            address as int + 3 < MEMORY_SIZE,
        ensures
            r == le32(self@[address as int], self@[address + 1], self@[address + 2], self@[address + 3]),
    {
        let a = address as usize;
        le32_of(self.memory[a], self.memory[a + 1], self.memory[a + 2], self.memory[a + 3])
    }

    pub fn write_32(&mut self, address: u32, value: u32)
        requires
            old(self)@.len() == MEMORY_SIZE,
            address as int + 3 < MEMORY_SIZE,
        ensures
            final(self)@ == old(self)@.update(address as int, value as u8).update(
                address + 1,
                (value >> 8) as u8,
            ).update(address + 2, (value >> 16) as u8).update(address + 3, (value >> 24) as u8),
    {
        let a = address as usize;
        self.memory[a] = value as u8;
        self.memory[a + 1] = (value >> 8) as u8;
        self.memory[a + 2] = (value >> 16) as u8;
        self.memory[a + 3] = (value >> 24) as u8;
    }

    fn copy_in(&mut self, at: usize, data: &[u8])
        requires
            old(self)@.len() == MEMORY_SIZE,
            at + data@.len() <= MEMORY_SIZE,
        ensures
            final(self)@ == splice(old(self)@, at as int, data@),
    {
        let mut i: usize = 0;
        while i < data.len()
            invariant
                i <= data@.len(),
                at + data@.len() <= MEMORY_SIZE,
                self@.len() == MEMORY_SIZE,
                forall|j: int| 0 <= j < MEMORY_SIZE && (j < at || j >= at + i) ==> #[trigger] self@[j]
                    == old(self)@[j],
                forall|j: int| at <= j < at + i ==> #[trigger] self@[j] == data@[j - at],
            decreases data@.len() - i,
        {
            self.memory[at + i] = data[i];
            i = i + 1;
        }
        proof {
            assert(self@ =~= splice(old(self)@, at as int, data@));
        }
    }

    /// Load BIOS ROM into memory (a 16 KiB image at address 0).
    pub fn load_bios(&mut self, bios: &[u8])
        requires
            old(self)@.len() == MEMORY_SIZE,
            bios@.len() == 0x4000,
        ensures
            final(self)@ == splice(old(self)@, 0, bios@),
    {
        self.copy_in(0, bios);
    }

    /// Load Cartridge ROM into memory: at 0x0800_0000, 0x0A00_0000 and
    /// 0x0E01_0000, in that order.
    pub fn load_cartridge(&mut self, rom: &[u8])
        requires
            old(self)@.len() == MEMORY_SIZE,
            0x0E01_0000 + rom@.len() <= MEMORY_SIZE,
        ensures
            final(self)@ == splice(
                splice(splice(old(self)@, 0x0800_0000, rom@), 0x0A00_0000, rom@),
                0x0E01_0000,
                rom@,
            ),
    {
        // Mirrored twice in hardware
        self.copy_in(0x0800_0000, rom);
        self.copy_in(0x0A00_0000, rom);
        self.copy_in(0x0E01_0000, rom);
    }
}

/// A byte written reads back, and no other byte changes.
pub proof fn lemma_memory_read_after_write(m: Seq<u8>, a: int, b: int, v: u8)
    requires
        0 <= a < m.len(),
        0 <= b < m.len(),
    ensures
        m.update(a, v)[a] == v,
        a != b ==> m.update(a, v)[b] == m[b],
{
}

/// After copying an image in, the image is found at its offset and the
/// rest of the memory is unchanged.
pub proof fn lemma_splice(s: Seq<u8>, at: int, data: Seq<u8>, i: int)
    requires
        0 <= at,
        at + data.len() <= s.len(),
        0 <= i < s.len(),
    ensures
        splice(s, at, data).len() == s.len(),
        at <= i < at + data.len() ==> splice(s, at, data)[i] == data[i - at],
        (i < at || i >= at + data.len()) ==> splice(s, at, data)[i] == s[i],
{
}

} // verus!
