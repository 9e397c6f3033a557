use vstd::prelude::*;

verus! {

/// Flat byte-addressable memory of 64 KiB: every 16-bit address names one cell, so
/// reads and writes cannot fail.
pub struct Bus {
    pub memory: [u8; 65536],
}

impl View for Bus {
    type V = Seq<u8>;

    open spec fn view(&self) -> Seq<u8> {
        self.memory@
    }
}

impl Bus {
    /// A memory in which every cell holds zero.
    pub fn new() -> (bus: Self)
        ensures
            bus@.len() == 65536,
            forall|a: int| 0 <= a < 65536 ==> bus@[a] == 0,
    {
        Bus { memory: [0; 65536] }
    }

    /// The byte stored at `address`.
    pub fn read(&self, address: u16) -> (data: u8)
        ensures
            data == self@[address as int],
    {
        self.memory[address as usize]
    }

    /// Stores `data` at `address`, leaving every other cell as it was.
    pub fn write(&mut self, address: u16, data: u8)
        ensures
            final(self)@ == old(self)@.update(address as int, data),
    {
        self.memory[address as usize] = data;
    }
}

} // verus!
