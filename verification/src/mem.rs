//! The memory bus: a fixed address space of 65536 byte cells.

use vstd::prelude::*;
use crate::consts::MEMORY_SIZE;
use crate::error::ExecError;

verus! {

/// A value of one memory cell or eight-bit register.
pub type Byte = u8;

/// An address, or a value of sixteen bits.
pub type Word = u16;

/// A value as wide as two cells.
pub type DWord = u16;

/// How an instruction finds its operand.
#[derive(Debug, Clone, Copy, PartialEq, Eq, Structural)]
pub enum AddrMode {
    Immediate,
    ZeroPage,
    ZeroPageX,
    ZeroPageY,
    Relative,
    Absolute,
    AbsoluteX,
    AbsoluteY,
    Indirect,
    IndirectX,
    IndirectY,
    Accumulator,
}

/// The integer `v` reduced modulo 256.
pub open spec fn wrap_byte(v: int) -> Byte {
    (v % 0x100) as Byte
}

/// The integer `v` reduced modulo 65536.
pub open spec fn wrap_word(v: int) -> Word {
    (v % 0x1_0000) as Word
}

/// The word whose low byte is `lo` and whose high byte is `hi`.
pub open spec fn make_word(lo: Byte, hi: Byte) -> Word {
    (lo as int + 0x100 * (hi as int)) as Word
}

/// The low byte of `w`.
pub open spec fn low_byte(w: Word) -> Byte {
    (w as int % 0x100) as Byte
}

/// The high byte of `w`.
pub open spec fn high_byte(w: Word) -> Byte {
    (w as int / 0x100) as Byte
}

/// The little-endian word stored at `addr`: low byte at `addr`, high byte at
/// the next address, which is 0 when `addr` is the last cell.
pub open spec fn word_at(cells: Seq<u8>, addr: Word) -> Word {
    make_word(cells[addr as int], cells[wrap_word(addr + 1) as int])
}

/// `cells` after the little-endian word `data` is stored at `addr`.
pub open spec fn store_word(cells: Seq<u8>, addr: Word, data: Word) -> Seq<u8> {
    cells.update(addr as int, low_byte(data)).update(wrap_word(addr + 1) as int, high_byte(data))
}

/// `cells` with `data` laid over the positions from `at` on.
pub open spec fn overlay(cells: Seq<u8>, at: int, data: Seq<u8>) -> Seq<u8> {
    Seq::new(
        cells.len(),
        |i: int|
            if at <= i < at + data.len() {
                data[i - at]
            } else {
                cells[i]
            },
    )
}

/// Whether `len` bytes from `addr` on lie inside the address space.
pub open spec fn in_bounds(addr: Word, len: nat) -> bool {
    addr as int + len <= MEMORY_SIZE
}

/// Reading back a word that was just stored gives that word, also across the
/// top of the address space.
pub proof fn lemma_store_then_load(cells: Seq<u8>, addr: Word, data: Word)
    requires
        cells.len() == MEMORY_SIZE,
    ensures
        word_at(store_word(cells, addr, data), addr) == data,
        store_word(cells, addr, data).len() == MEMORY_SIZE,
{
}

/// What was laid over the cells reads back from them, and the cells before
/// and after it are as they were.
pub proof fn lemma_overlay_reads_back(cells: Seq<u8>, at: int, data: Seq<u8>)
    requires
        0 <= at,
        at + data.len() <= cells.len(),
    ensures
        overlay(cells, at, data).len() == cells.len(),
        overlay(cells, at, data).subrange(at, at + data.len()) == data,
        forall|i: int|
            0 <= i < cells.len() && !(at <= i < at + data.len()) ==> overlay(cells, at, data)[i]
                == cells[i],
{
    assert(overlay(cells, at, data).subrange(at, at + data.len()) =~= data);
}

/// Splitting a word into its bytes and joining them again changes nothing.
pub proof fn lemma_split_join(w: Word)
    ensures
        make_word(low_byte(w), high_byte(w)) == w,
{
}

/// The address space: 65536 cells of one byte, addressed by a word.
#[derive(Debug)]
pub struct Memory {
    inner: Vec<Byte>,
}

impl Memory {
    /// Every memory has exactly `MEMORY_SIZE` cells.
    #[verifier::type_invariant]
    pub open spec fn well_formed(&self) -> bool {
        self@.len() == MEMORY_SIZE
    }

    /// The cells, indexed by address.
    pub closed spec fn view(&self) -> Seq<u8> {
        self.inner@
    }

    /// Reads a little-endian word; at the last cell the high byte comes from
    /// address 0.
    pub fn read_word(&self, addr: Word) -> (word: Word)
        ensures
            word == word_at(self@, addr),
    {
        let lo = self.read(addr);
        let hi = self.read(addr.wrapping_add(1));
        (hi as Word) * 0x100 + (lo as Word)
    }

    /// Stores a little-endian word; at the last cell the high byte goes to
    /// address 0.
    pub fn write_word(&mut self, addr: Word, data: Word)
        ensures
            final(self)@ == store_word(old(self)@, addr, data),
    {
        self.write(addr, (data % 0x100) as u8);
        self.write(addr.wrapping_add(1), (data / 0x100) as u8);
    }

    /// The byte in the cell at `addr`.
    #[inline(always)]
    pub fn read(&self, addr: Word) -> (data: Byte)
        ensures
            data == self@[addr as int],
    {
        proof {
            use_type_invariant(self);
        }
        self.inner[addr as usize]
    }

    /// Puts `data` in the cell at `addr`; every other cell stays.
    #[inline(always)]
    pub fn write(&mut self, addr: Word, data: Byte)
        ensures
            final(self)@ == old(self)@.update(addr as int, data),
    {
        proof {
            use_type_invariant(&*self);
        }
        self.inner[addr as usize] = data;
    }

    /// Copies the `out.len()` cells from `addr` on into `out`, or reports
    /// `OutOfBounds` and leaves `out` alone when they do not all exist.
    pub fn copy_from(&self, addr: Word, out: &mut [u8]) -> (res: Result<(), ExecError>)
        ensures
            res == if in_bounds(addr, old(out)@.len()) {
                Ok::<(), ExecError>(())
            } else {
                Err::<(), ExecError>(ExecError::OutOfBounds)
            },
            res is Ok ==> final(out)@ == self@.subrange(
                addr as int,
                addr as int + old(out)@.len(),
            ),
            res is Err ==> final(out)@ == old(out)@,
    {
        proof {
            use_type_invariant(self);
        }
        let len = out.len();
        let abs = addr as usize;
        if len > MEMORY_SIZE - abs {
            return Err(ExecError::OutOfBounds);
        }
        let mut i: usize = 0;
        while i < len
            invariant
                i <= len,
                len == out@.len(),
                abs == addr as usize,
                abs + len <= MEMORY_SIZE,
                self.inner@.len() == MEMORY_SIZE,
                forall|k: int| 0 <= k < i ==> out@[k] == self.inner@[abs + k],
            decreases len - i,
        {
            out[i] = self.inner[abs + i];
            i += 1;
        }
        assert(out@ =~= self@.subrange(addr as int, addr as int + len));
        Ok(())
    }

    /// Lays `data` over the cells from `addr` on, or reports `OutOfBounds`
    /// and changes nothing when `data` would reach past the last cell.
    pub fn copy_to(&mut self, addr: Word, data: &[u8]) -> (res: Result<(), ExecError>)
        ensures
            res == if in_bounds(addr, data@.len()) {
                Ok::<(), ExecError>(())
            } else {
                Err::<(), ExecError>(ExecError::OutOfBounds)
            },
            res is Ok ==> final(self)@ == overlay(old(self)@, addr as int, data@),
            res is Err ==> final(self)@ == old(self)@,
    {
        proof {
            use_type_invariant(&*self);
        }
        let len = data.len();
        let abs = addr as usize;
        if len > MEMORY_SIZE - abs {
            return Err(ExecError::OutOfBounds);
        }
        let mut i: usize = 0;
        while i < len
            invariant
                i <= len,
                len == data@.len(),
                abs == addr as usize,
                abs + len <= MEMORY_SIZE,
                self.inner@.len() == MEMORY_SIZE,
                forall|k: int|
                    0 <= k < MEMORY_SIZE ==> self.inner@[k] == if abs <= k < abs + i {
                        data@[k - abs]
                    } else {
                        old(self).inner@[k]
                    },
            decreases len - i,
        {
            self.inner[abs + i] = data[i];
            i += 1;
        }
        assert(self@ =~= overlay(old(self)@, addr as int, data@));
        Ok(())
    }

    /// All cells, in address order.
    pub fn cells(&self) -> (cells: &[u8])
        ensures
            cells@ == self@,
    {
        self.inner.as_slice()
    }

    /// Wraps a full image of the address space.
    pub fn new(mem: Vec<u8>) -> (memory: Self)
        requires
            mem@.len() == MEMORY_SIZE,
        ensures
            memory@ == mem@,
    {
        Self { inner: mem }
    }

    /// A memory whose cells are all 0.
    pub fn zeroed() -> (memory: Self)
        ensures
            memory@ == Seq::new(MEMORY_SIZE as nat, |i: int| 0u8),
    {
        let inner = vec![0u8; MEMORY_SIZE];
        assert(inner@ =~= Seq::new(MEMORY_SIZE as nat, |i: int| 0u8));
        Self { inner }
    }
}

impl Clone for Memory {
    fn clone(&self) -> (copy: Self)
        ensures
            copy@ == self@,
    {
        proof {
            use_type_invariant(self);
        }
        let inner = self.inner.clone();
        assert(inner@ =~= self.inner@);
        Self { inner }
    }
}

} // verus!
