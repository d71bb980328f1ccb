use vstd::prelude::*;

verus! {

/// Number of addressable bytes: the full 16-bit address space.
pub const MEMORY_SIZE: usize = 0x10000;

/// The address that follows `addr`, wrapping from 0xFFFF to 0x0000.
pub open spec fn next_address(addr: u16) -> u16 {
    ((addr as int + 1) % 0x10000) as u16
}

/// The 16-bit value whose low byte is `lo` and high byte is `hi`.
pub open spec fn word_of(lo: u8, hi: u8) -> u16 {
    (lo as int + 256 * hi as int) as u16
}

/// Little-endian word stored at `addr` and the following address.
pub open spec fn word_at(mem: Seq<u8>, addr: u16) -> u16 {
    word_of(mem[addr as int], mem[next_address(addr) as int])
}

/// `mem` after storing `value` little-endian at `addr`: low byte first, then the
/// high byte at the following address.
pub open spec fn with_word(mem: Seq<u8>, addr: u16, value: u16) -> Seq<u8> {
    mem.update(addr as int, (value % 256) as u8).update(
        next_address(addr) as int,
        (value / 256) as u8,
    )
}

/// A flat, zero-initialised 64 KiB byte store addressed by `u16`.
pub struct Memory {
    bytes: [u8; 0x10000],
}

impl View for Memory {
    type V = Seq<u8>;

    closed spec fn view(&self) -> Seq<u8> {
        self.bytes@
    }
}

impl Memory {
    /// A memory holds exactly one byte per address.
    pub proof fn lemma_size(m: Memory)
        ensures
            m@.len() == MEMORY_SIZE,
    {
    }

    /// A memory with every byte zero.
    pub fn new() -> (m: Memory)
        ensures
            m@ == Seq::new(MEMORY_SIZE as nat, |i: int| 0u8),
    {
        let m = Memory { bytes: [0u8; 0x10000] };
        assert(m@ =~= Seq::new(MEMORY_SIZE as nat, |i: int| 0u8));
        m
    }

    /// The byte at `addr`.
    pub fn read_byte(&self, addr: u16) -> (r: u8)
        ensures
            r == self@[addr as int],
    {
        self.bytes[addr as usize]
    }

    /// Stores `value` at `addr`.
    pub fn write_byte(&mut self, addr: u16, value: u8)
        ensures
            final(self)@ == old(self)@.update(addr as int, value),
    {
        self.bytes[addr as usize] = value;
    }

    /// The little-endian word at `addr`; at 0xFFFF the high byte comes from
    /// 0x0000.
    pub fn read_word(&self, addr: u16) -> (r: u16)
        ensures
            r == word_at(self@, addr),
    {
        let lo = self.read_byte(addr);
        let hi = self.read_byte(addr.wrapping_add(1));
        lo as u16 + (hi as u16) * 256
    }

    /// Stores `value` little-endian at `addr` and the following address.
    pub fn write_word(&mut self, addr: u16, value: u16)
        ensures
            final(self)@ == with_word(old(self)@, addr, value),
    {
        self.write_byte(addr, (value % 256) as u8);
        self.write_byte(addr.wrapping_add(1), (value / 256) as u8);
    }
}

/// Storing a word and reading it back at the same address gives the word again,
/// also at 0xFFFF, where the high byte wraps to address 0x0000.
pub proof fn lemma_word_round_trip(mem: Seq<u8>, addr: u16, value: u16)
    requires
        mem.len() == MEMORY_SIZE,
    ensures
        word_at(with_word(mem, addr, value), addr) == value,
{
}

} // verus!
