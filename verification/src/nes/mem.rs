//! A memory that hands out its cells as a slice, and whose writes hand back
//! what was written.

use vstd::prelude::*;
use crate::consts::MEMORY_SIZE;
use crate::error::ExecError;
use crate::mem::{in_bounds, overlay, store_word, word_at};

verus! {

/// An address space of 65536 cells.
pub struct MemoryMapping {
    inner: Vec<u8>,
}

impl MemoryMapping {
    /// The cells, indexed by address.
    pub closed spec fn view(&self) -> Seq<u8> {
        self.inner@
    }

    /// The mapping has one cell for each address. It is so when made, and
    /// every operation keeps it so; writes through
    /// [`global_mut`](Self::global_mut) keep it so as well, since a slice
    /// keeps its length.
    pub open spec fn wf(&self) -> bool {
        self@.len() == MEMORY_SIZE
    }

    /// All cells, in address order, open to writing.
    pub fn global_mut(&mut self) -> (cells: &mut [u8])
        ensures
            cells@ == old(self)@,
            final(cells)@ == final(self)@,
    {
        self.inner.as_mut_slice()
    }

    /// All cells, in address order.
    pub fn global(&self) -> (cells: &[u8])
        ensures
            cells@ == self@,
    {
        self.inner.as_slice()
    }

    /// The byte in the cell at `addr`.
    pub fn read(&self, addr: u16) -> (value: u8)
        requires
            self.wf(),
        ensures
            value == self@[addr as int],
    {
        self.inner[addr as usize]
    }

    /// Puts `value` in the cell at `addr` and hands it back.
    pub fn write(&mut self, addr: u16, value: u8) -> (written: u8)
        requires
            old(self).wf(),
        ensures
            final(self)@ == old(self)@.update(addr as int, value),
            final(self).wf(),
            written == value,
    {
        self.inner[addr as usize] = value;
        value
    }

    /// Reads a little-endian word; at the last cell the high byte comes
    /// from address 0.
    pub fn read_u16(&self, addr: u16) -> (word: u16)
        requires
            self.wf(),
        ensures
            word == word_at(self@, addr),
    {
        let lhs = self.read(addr);
        let rhs = self.read(addr.wrapping_add(1));

        (rhs as u16) * 0x100 + (lhs as u16)
    }

    /// Stores a little-endian word; at the last cell the high byte goes to
    /// address 0.
    pub fn write_u16(&mut self, addr: u16, value: u16) -> (written: u16)
        requires
            old(self).wf(),
        ensures
            final(self)@ == store_word(old(self)@, addr, value),
            final(self).wf(),
            written == value,
    {
        self.inner[addr as usize] = (value % 0x100) as u8;
        self.inner[addr.wrapping_add(1) as usize] = (value / 0x100) as u8;

        value
    }

    /// Lays `bulk` over the cells from `addr` on and returns its length, or
    /// reports `OutOfBounds` and changes nothing when `bulk` would reach
    /// past the last cell.
    pub fn bulk_write(&mut self, addr: u16, bulk: &[u8]) -> (res: Result<usize, ExecError>)
        requires
            old(self).wf(),
        ensures
            res == if in_bounds(addr, bulk@.len()) {
                Ok::<usize, ExecError>(bulk@.len() as usize)
            } else {
                Err::<usize, ExecError>(ExecError::OutOfBounds)
            },
            res is Ok ==> final(self)@ == overlay(old(self)@, addr as int, bulk@),
            res is Err ==> final(self)@ == old(self)@,
            final(self).wf(),
    {
        let len = bulk.len();
        let abs = addr as usize;
        if len > MEMORY_SIZE - abs {
            return Err(ExecError::OutOfBounds);
        }
        let mut i: usize = 0;
        while i < len
            invariant
                i <= len,
                len == bulk@.len(),
                abs == addr as usize,
                abs + len <= MEMORY_SIZE,
                self.inner@.len() == MEMORY_SIZE,
                forall|k: int|
                    0 <= k < MEMORY_SIZE ==> self.inner@[k] == if abs <= k < abs + i {
                        bulk@[k - abs]
                    } else {
                        old(self).inner@[k]
                    },
            decreases len - i,
        {
            self.inner[abs + i] = bulk[i];
            i += 1;
        }
        assert(self@ =~= overlay(old(self)@, addr as int, bulk@));
        Ok(len)
    }

    /// A mapping whose cells are all 0.
    pub fn new() -> (memory: Self)
        ensures
            memory@ == Seq::new(MEMORY_SIZE as nat, |i: int| 0u8),
            memory.wf(),
    {
        let inner = vec![0u8; MEMORY_SIZE];
        assert(inner@ =~= Seq::new(MEMORY_SIZE as nat, |i: int| 0u8));
        Self { inner }
    }
}

} // verus!
