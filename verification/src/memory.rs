//! The memory: a flat store of 65,536 addressable 16-bit words. Addresses
//! are themselves 16-bit words, so the address space exactly spans the
//! store and no read or write can be out of range.

use vstd::prelude::*;
use vstd::pervasive::VecAdditionalExecFns;

verus! {

/// Number of addressable words: the full 16-bit address space.
pub const MEMORY_SIZE: usize = 65536;

/// A flat, zero-initialized store of 65,536 16-bit words, exclusively
/// owned by one machine instance.
pub struct Memory {
    data: Vec<u16>,
}

impl View for Memory {
    type V = Seq<u16>;

    closed spec fn view(&self) -> Seq<u16> {
        self.data@
    }
}

impl Memory {
    /// Well-formed: one word for every 16-bit address.
    pub open spec fn wf(&self) -> bool {
        self@.len() == MEMORY_SIZE
    }

    /// A memory with every cell zero.
    pub fn new() -> (m: Memory)
        ensures
            m.wf(),
            forall|i: int| 0 <= i < MEMORY_SIZE ==> m@[i] == 0,
    {
        Memory { data: zero_words() }
    }

    /// The word at `address`. Total over the whole address range.
    pub fn read(&self, address: u16) -> (value: u16)
        requires
            self.wf(),
        ensures
            value == self@[address as int],
    {
        self.data[address as usize]
    }

    /// Replaces the word at `address`; every other cell keeps its value.
    pub fn write(&mut self, address: u16, value: u16)
        requires
            old(self).wf(),
        ensures
            final(self).wf(),
            final(self)@ == old(self)@.update(address as int, value),
    {
        self.data.set(address as usize, value);
    }

    /// Resets every cell to zero.
    pub fn clear(&mut self)
        requires
            old(self).wf(),
        ensures
            final(self).wf(),
            forall|i: int| 0 <= i < MEMORY_SIZE ==> final(self)@[i] == 0,
    {
        self.data = zero_words();
    }
}

/// A vector of 65,536 zero words.
fn zero_words() -> (v: Vec<u16>)
    ensures
        v@.len() == MEMORY_SIZE,
        forall|i: int| 0 <= i < MEMORY_SIZE ==> v@[i] == 0,
{
    let mut v: Vec<u16> = Vec::new();
    let mut count: usize = 0;
    while count < MEMORY_SIZE
        invariant
            count <= MEMORY_SIZE,
            v@.len() == count,
            forall|i: int| 0 <= i < count ==> v@[i] == 0,
        decreases MEMORY_SIZE - count,
    {
        v.push(0);
        count = count + 1;
    }
    v
}

/// Law: memory access is total and consistent over the full address range —
/// a write is read back at the same address, and every other address keeps
/// its value, for all 65,536 addresses including those produced by wrapping
/// arithmetic.
pub proof fn lemma_memory_consistent(m: Seq<u16>, address: u16, value: u16, other: u16)
    requires
        m.len() == MEMORY_SIZE,
    ensures
        m.update(address as int, value)[address as int] == value,
        other != address ==> m.update(address as int, value)[other as int] == m[other as int],
        m.update(address as int, value).len() == MEMORY_SIZE,
{
}

} // verus!
