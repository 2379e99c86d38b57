//! A 64 KiB block of memory that backs the whole address space.
use vstd::prelude::*;

use crate::{Addressable, Byte, Word, SPACE_SIZE};

verus! {

/// `bytes` cut or padded with zeros to the size of the address space.
pub open spec fn fitted(bytes: Seq<Byte>) -> Seq<Byte> {
    Seq::new(SPACE_SIZE as nat, |i: int| if i < bytes.len() { bytes[i] } else { 0u8 })
}

/// A byte array with one byte for every 16-bit address.
pub struct Memory(Vec<Byte>);

impl View for Memory {
    type V = Seq<Byte>;

    closed spec fn view(&self) -> Seq<Byte> {
        self.0@
    }
}

impl Memory {
    /// A zero-filled memory.
    pub fn new() -> (r: Memory)
        ensures
            r@ == fitted(Seq::empty()),
    {
        Memory::fill_from(&[])
    }

    /// A memory that holds `data` from address 0 on, and zeros after it.
    pub fn using(data: Vec<Byte>) -> (r: Memory)
        requires
            data@.len() <= SPACE_SIZE,
        ensures
            r@ == fitted(data@),
    {
        let mut data = data;
        let ghost given = data@;
        while data.len() < SPACE_SIZE
            invariant
                given.len() <= data@.len() <= SPACE_SIZE,
                forall|i: int| 0 <= i < data@.len() ==> data@[i] == fitted(given)[i],
            decreases SPACE_SIZE - data.len(),
        {
            data.push(0);
        }
        assert(data@ == fitted(given));
        Memory(data)
    }

    /// A memory that holds the first bytes of `bytes`, as many as fit, from
    /// address 0 on, and zeros after them.
    pub fn fill_from(bytes: &[Byte]) -> (r: Memory)
        ensures
            r@ == fitted(bytes@),
    {
        let mut data: Vec<Byte> = Vec::new();
        let mut i: usize = 0;
        while i < SPACE_SIZE
            invariant
                i <= SPACE_SIZE,
                data@.len() == i,
                forall|j: int| 0 <= j < i ==> data@[j] == fitted(bytes@)[j],
            decreases SPACE_SIZE - i,
        {
            if i < bytes.len() {
                data.push(bytes[i]);
            } else {
                data.push(0);
            }
            i = i + 1;
        }
        assert(data@ == fitted(bytes@));
        Memory(data)
    }
}

impl Default for Memory {
    fn default() -> (r: Memory)
        ensures
            r@ == fitted(Seq::empty()),
    {
        Memory::new()
    }
}

impl Addressable for Memory {
    open spec fn contents(&self) -> Map<Word, Byte> {
        Map::new(|a: Word| (a as int) < self@.len(), |a: Word| self@[a as int])
    }

    open spec fn image(&self) -> Seq<Byte> {
        self@
    }

    fn inside_bounds(&self, addr: Word) -> (r: bool) {
        (addr as usize) < self.0.len()
    }

    fn read(&self, addr: Word) -> (r: Byte) {
        self.0[addr as usize]
    }

    fn write(&mut self, addr: Word, value: Byte) {
        self.0.set(addr as usize, value);
        assert(self.contents() =~= old(self).contents().insert(addr, value));
    }

    fn snapshot(&self) -> (r: Vec<Byte>) {
        self.0.clone()
    }
}

} // verus!
