//! The opcode table: which instruction each of the 256 opcode bytes stands for.

use vstd::prelude::*;
use crate::addressing::operand_length;
use crate::mem::{AddrMode, Byte, Word};

verus! {

/// What a call of [`try_init`] found.
#[derive(Debug, Clone, Copy, PartialEq, Eq, Structural)]
pub enum InitializeState {
    /// The table had been built before; nothing was done.
    AlreadyInitialized,
    /// This call built the table.
    Initialized,
}

/// A decoded instruction. Where an instruction takes an operand from memory,
/// it carries its addressing mode and the number of operand bytes.
#[derive(Debug, Clone, Copy)]
pub enum Opcode {
    /// The byte stands for no instruction.
    Uninitialized,
    Brk,
    Inx,
    Iny,
    Tax,
    Tay,
    Bcs,
    Bcc,
    Beq,
    Bne,
    Asl(AddrMode, Word),
    And(AddrMode, Word),
    Stx(AddrMode, Word),
    Sty(AddrMode, Word),
    Sta(AddrMode, Word),
    Adc(AddrMode, Word),
    Lda(AddrMode, Word),
}

/// Number of opcode bytes, and so of table entries.
pub const TABLE_SIZE: usize = 256;

/// The instruction that the opcode byte `code` stands for.
pub open spec fn decode(code: Byte) -> Opcode {
    match code {
        0x00 => Opcode::Brk,
        0x90 => Opcode::Bcc,
        0xB0 => Opcode::Bcs,
        0xF0 => Opcode::Beq,
        0xD0 => Opcode::Bne,
        0x0A => Opcode::Asl(AddrMode::Accumulator, 0),
        0x06 => Opcode::Asl(AddrMode::ZeroPage, 1),
        0x16 => Opcode::Asl(AddrMode::ZeroPageX, 1),
        0x0E => Opcode::Asl(AddrMode::Absolute, 2),
        0x1E => Opcode::Asl(AddrMode::AbsoluteX, 2),
        0x29 => Opcode::And(AddrMode::Immediate, 1),
        0x25 => Opcode::And(AddrMode::ZeroPage, 1),
        0x35 => Opcode::And(AddrMode::ZeroPageX, 1),
        0x2D => Opcode::And(AddrMode::Absolute, 2),
        0x3D => Opcode::And(AddrMode::AbsoluteX, 2),
        0x39 => Opcode::And(AddrMode::AbsoluteY, 2),
        0x21 => Opcode::And(AddrMode::IndirectX, 1),
        0x31 => Opcode::And(AddrMode::IndirectY, 1),
        0x69 => Opcode::Adc(AddrMode::Immediate, 1),
        0x65 => Opcode::Adc(AddrMode::ZeroPage, 1),
        0x75 => Opcode::Adc(AddrMode::ZeroPageX, 1),
        0x6D => Opcode::Adc(AddrMode::Absolute, 2),
        0x7D => Opcode::Adc(AddrMode::AbsoluteX, 2),
        0x79 => Opcode::Adc(AddrMode::AbsoluteY, 2),
        0x61 => Opcode::Adc(AddrMode::IndirectX, 1),
        0x71 => Opcode::Adc(AddrMode::IndirectY, 1),
        0x85 => Opcode::Sta(AddrMode::ZeroPage, 1),
        0x95 => Opcode::Sta(AddrMode::ZeroPageX, 1),
        0x8D => Opcode::Sta(AddrMode::Absolute, 2),
        0x9D => Opcode::Sta(AddrMode::AbsoluteX, 2),
        0x99 => Opcode::Sta(AddrMode::AbsoluteY, 2),
        0x81 => Opcode::Sta(AddrMode::IndirectX, 1),
        0x91 => Opcode::Sta(AddrMode::IndirectY, 1),
        0x84 => Opcode::Sty(AddrMode::ZeroPage, 1),
        0x94 => Opcode::Sty(AddrMode::ZeroPageY, 1),
        0x8C => Opcode::Sty(AddrMode::Absolute, 2),
        0x86 => Opcode::Stx(AddrMode::ZeroPage, 1),
        0x96 => Opcode::Stx(AddrMode::ZeroPageY, 1),
        0x8E => Opcode::Stx(AddrMode::Absolute, 2),
        0xAA => Opcode::Tax,
        0xA8 => Opcode::Tay,
        0xE8 => Opcode::Inx,
        0xC8 => Opcode::Iny,
        0xA9 => Opcode::Lda(AddrMode::Immediate, 1),
        0xA5 => Opcode::Lda(AddrMode::ZeroPage, 1),
        0xB5 => Opcode::Lda(AddrMode::ZeroPageX, 1),
        0xAD => Opcode::Lda(AddrMode::Absolute, 2),
        0xBD => Opcode::Lda(AddrMode::AbsoluteX, 2),
        0xB9 => Opcode::Lda(AddrMode::AbsoluteY, 2),
        0xA1 => Opcode::Lda(AddrMode::IndirectX, 1),
        0xB1 => Opcode::Lda(AddrMode::IndirectY, 1),
        _ => Opcode::Uninitialized,
    }
}

impl Opcode {
    /// Whether the instruction carries what its kind asks for: an operand in
    /// memory with as many operand bytes as its mode has, or, for the shift
    /// alone, the accumulator with none.
    pub open spec fn well_formed(self) -> bool {
        match self {
            Opcode::Asl(mode, length) => mode != AddrMode::Relative && length == operand_length(
                mode,
            ),
            Opcode::And(mode, length)
            | Opcode::Stx(mode, length)
            | Opcode::Sty(mode, length)
            | Opcode::Sta(mode, length)
            | Opcode::Adc(mode, length)
            | Opcode::Lda(mode, length) => mode != AddrMode::Relative && mode
                != AddrMode::Accumulator && length == operand_length(mode),
            _ => true,
        }
    }
}

/// Every entry of the table is well formed: each addressing mode comes with
/// its fixed number of operand bytes.
pub proof fn lemma_table_is_well_formed(code: Byte)
    ensures
        decode(code).well_formed(),
{
}

/// The opcode table, built once and read-only from then on.
#[derive(Debug)]
pub struct OpcodeTable {
    entries: Vec<Opcode>,
}

impl OpcodeTable {
    /// A table holds one entry for each opcode byte, and the entry is the
    /// instruction that the byte decodes to.
    #[verifier::type_invariant]
    closed spec fn well_formed(&self) -> bool {
        &&& self.entries@.len() == TABLE_SIZE
        &&& forall|code: Byte| #[trigger] self.entries@[code as int] == decode(code)
    }

    /// The table's entry for the opcode byte `code`.
    pub closed spec fn entry(&self, code: Byte) -> Opcode {
        self.entries@[code as int]
    }

    /// Builds the table: every opcode byte gets the instruction that it
    /// decodes to, and a byte that stands for none gets `Uninitialized`.
    pub fn new() -> (table: Self)
        ensures
            forall|code: Byte| #[trigger] table.entry(code) == decode(code),
    {
        let mut entries = vec![Opcode::Uninitialized; TABLE_SIZE];
        init(&mut entries);
        Self { entries }
    }
}

impl Clone for OpcodeTable {
    fn clone(&self) -> (copy: Self)
        ensures
            forall|code: Byte| #[trigger] copy.entry(code) == self.entry(code),
    {
        proof {
            use_type_invariant(self);
        }
        let entries = self.entries.clone();
        assert(entries@ =~= self.entries@);
        Self { entries }
    }
}

/// The instruction that `code` stands for, read from the table in constant time.
#[inline(always)]
pub fn lookup_opcode(table: &OpcodeTable, code: Byte) -> (opcode: Opcode)
    ensures
        opcode == table.entry(code),
        opcode == decode(code),
{
    proof {
        use_type_invariant(table);
    }
    table.entries[code as usize]
}

/// Assigns every instruction its opcode byte in a table that stands for no
/// instruction yet.
#[verifier::rlimit(30)]
fn init(entries: &mut Vec<Opcode>)
    requires
        old(entries)@.len() == TABLE_SIZE,
        forall|i: int| 0 <= i < TABLE_SIZE ==> old(entries)@[i] == Opcode::Uninitialized,
    ensures
        final(entries)@.len() == TABLE_SIZE,
        forall|code: Byte| #[trigger] final(entries)@[code as int] == decode(code),
{
    entries[0x00] = Opcode::Brk;

    entries[0x90] = Opcode::Bcc;
    entries[0xB0] = Opcode::Bcs;
    entries[0xF0] = Opcode::Beq;
    entries[0xD0] = Opcode::Bne;

    entries[0x0A] = Opcode::Asl(AddrMode::Accumulator, 0);
    entries[0x06] = Opcode::Asl(AddrMode::ZeroPage, 1);
    entries[0x16] = Opcode::Asl(AddrMode::ZeroPageX, 1);
    entries[0x0E] = Opcode::Asl(AddrMode::Absolute, 2);
    entries[0x1E] = Opcode::Asl(AddrMode::AbsoluteX, 2);

    entries[0x29] = Opcode::And(AddrMode::Immediate, 1);
    entries[0x25] = Opcode::And(AddrMode::ZeroPage, 1);
    entries[0x35] = Opcode::And(AddrMode::ZeroPageX, 1);
    entries[0x2D] = Opcode::And(AddrMode::Absolute, 2);
    entries[0x3D] = Opcode::And(AddrMode::AbsoluteX, 2);
    entries[0x39] = Opcode::And(AddrMode::AbsoluteY, 2);
    entries[0x21] = Opcode::And(AddrMode::IndirectX, 1);
    entries[0x31] = Opcode::And(AddrMode::IndirectY, 1);

    entries[0x69] = Opcode::Adc(AddrMode::Immediate, 1);
    entries[0x65] = Opcode::Adc(AddrMode::ZeroPage, 1);
    entries[0x75] = Opcode::Adc(AddrMode::ZeroPageX, 1);
    entries[0x6D] = Opcode::Adc(AddrMode::Absolute, 2);
    entries[0x7D] = Opcode::Adc(AddrMode::AbsoluteX, 2);
    entries[0x79] = Opcode::Adc(AddrMode::AbsoluteY, 2);
    entries[0x61] = Opcode::Adc(AddrMode::IndirectX, 1);
    entries[0x71] = Opcode::Adc(AddrMode::IndirectY, 1);

    entries[0x85] = Opcode::Sta(AddrMode::ZeroPage, 1);
    entries[0x95] = Opcode::Sta(AddrMode::ZeroPageX, 1);
    entries[0x8D] = Opcode::Sta(AddrMode::Absolute, 2);
    entries[0x9D] = Opcode::Sta(AddrMode::AbsoluteX, 2);
    entries[0x99] = Opcode::Sta(AddrMode::AbsoluteY, 2);
    entries[0x81] = Opcode::Sta(AddrMode::IndirectX, 1);
    entries[0x91] = Opcode::Sta(AddrMode::IndirectY, 1);

    entries[0x84] = Opcode::Sty(AddrMode::ZeroPage, 1);
    entries[0x94] = Opcode::Sty(AddrMode::ZeroPageY, 1);
    entries[0x8C] = Opcode::Sty(AddrMode::Absolute, 2);

    entries[0x86] = Opcode::Stx(AddrMode::ZeroPage, 1);
    entries[0x96] = Opcode::Stx(AddrMode::ZeroPageY, 1);
    entries[0x8E] = Opcode::Stx(AddrMode::Absolute, 2);

    entries[0xAA] = Opcode::Tax;
    entries[0xA8] = Opcode::Tay;
    entries[0xE8] = Opcode::Inx;
    entries[0xC8] = Opcode::Iny;

    entries[0xA9] = Opcode::Lda(AddrMode::Immediate, 1);
    entries[0xA5] = Opcode::Lda(AddrMode::ZeroPage, 1);
    entries[0xB5] = Opcode::Lda(AddrMode::ZeroPageX, 1);
    entries[0xAD] = Opcode::Lda(AddrMode::Absolute, 2);
    entries[0xBD] = Opcode::Lda(AddrMode::AbsoluteX, 2);
    entries[0xB9] = Opcode::Lda(AddrMode::AbsoluteY, 2);
    entries[0xA1] = Opcode::Lda(AddrMode::IndirectX, 1);
    entries[0xB1] = Opcode::Lda(AddrMode::IndirectY, 1);
}

/// Builds the table in `slot` unless one is there already. The first call
/// on an empty slot builds it; every later call leaves it as it is.
pub fn try_init(slot: &mut Option<OpcodeTable>) -> (state: InitializeState)
    ensures
        *final(slot) matches Some(table) && forall|code: Byte| #[trigger]
            table.entry(code) == decode(code),
        state == if *old(slot) is Some {
            InitializeState::AlreadyInitialized
        } else {
            InitializeState::Initialized
        },
        *old(slot) is Some ==> *final(slot) == *old(slot),
{
    if let Some(table) = slot.as_ref() {
        proof {
            use_type_invariant(table);
        }
        return InitializeState::AlreadyInitialized;
    }
    *slot = Some(OpcodeTable::new());
    InitializeState::Initialized
}

} // verus!
