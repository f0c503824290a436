//! The status register and the states of a run.

use vstd::prelude::*;
use crate::error::ExecError;

verus! {

/// Bit 7 of a byte: set exactly in the bytes that read as negative.
pub const NEG_MASK: u8 = 0b1000_0000;

/// What one step reports.
#[derive(Debug, Clone, Copy, PartialEq, Eq, Structural)]
pub enum ExecStatus {
    /// The instruction ran and the machine goes on.
    Executing,
    /// The halt instruction was reached.
    Exit,
}

/// Where a machine stands in its run. `Halted` and `Faulted` are terminal:
/// only a reset leaves them.
#[derive(Debug, Clone, Copy, PartialEq, Eq, Structural)]
pub enum RunState {
    Running,
    Halted,
    Faulted(ExecError),
}

impl RunState {
    /// What a step reports of a machine in this state.
    pub open spec fn report(self) -> Result<ExecStatus, ExecError> {
        match self {
            RunState::Running => Ok(ExecStatus::Executing),
            RunState::Halted => Ok(ExecStatus::Exit),
            RunState::Faulted(reason) => Err(reason),
        }
    }

    /// What a finished run reports: nothing after a halt, the reason after a
    /// fault.
    pub open spec fn fault(self) -> Option<ExecError> {
        match self {
            RunState::Faulted(reason) => Some(reason),
            _ => None,
        }
    }

    /// Whether the machine goes on.
    pub fn is_running(&self) -> (running: bool)
        ensures
            running == (*self == RunState::Running),
    {
        match self {
            RunState::Running => true,
            _ => false,
        }
    }

    /// What a step reports of a machine in this state.
    pub fn to_report(&self) -> (res: Result<ExecStatus, ExecError>)
        ensures
            res == self.report(),
    {
        match self {
            RunState::Running => Ok(ExecStatus::Executing),
            RunState::Halted => Ok(ExecStatus::Exit),
            RunState::Faulted(reason) => Err(*reason),
        }
    }
}

/// Whether every bit of `mask` is set in `bits`.
pub open spec fn flag_set(bits: u8, mask: u8) -> bool {
    bits & mask == mask
}

/// `bits` with the bits of `mask` all set or all cleared.
pub open spec fn with_flag(bits: u8, mask: u8, on: bool) -> u8 {
    if on {
        bits | mask
    } else {
        bits & !mask
    }
}

/// A flag that was just written reads back as written.
pub proof fn lemma_flag_written(bits: u8, mask: u8, on: bool)
    requires
        mask != 0,
    ensures
        flag_set(with_flag(bits, mask, on), mask) == on,
{
    assert((bits | mask) & mask == mask) by (bit_vector);
    assert(mask != 0 ==> (bits & !mask) & mask != mask) by (bit_vector);
}

/// Writing one flag leaves every flag that shares no bit with it as it was.
pub proof fn lemma_flag_kept(bits: u8, mask: u8, on: bool, other: u8)
    requires
        mask & other == 0,
    ensures
        flag_set(with_flag(bits, mask, on), other) == flag_set(bits, other),
{
    assert(mask & other == 0 ==> (bits | mask) & other == bits & other) by (bit_vector);
    assert(mask & other == 0 ==> (bits & !mask) & other == bits & other) by (bit_vector);
}

/// The status register: eight flag bits.
#[derive(Debug)]
pub struct CpuStatus {
    flags: u8,
}

impl CpuStatus {
    /// Mask of the Carry flag.
    pub const CARRY: u8 = 0b1000_0000;

    /// Mask of the Zero flag.
    pub const ZERO: u8 = 0b0100_0000;

    /// Mask of the Interrupt-disable flag.
    pub const INTERRUPT: u8 = 0b0010_0000;

    /// Mask of the Decimal flag.
    pub const DECIMAL: u8 = 0b0001_0000;

    /// Mask of the Break flag.
    pub const BREAK: u8 = 0b0000_1000;

    /// Mask of the Overflow flag.
    pub const OVERFLOW: u8 = 0b0000_0010;

    /// Mask of the Negative flag.
    pub const NEGATIVE: u8 = 0b0000_0001;

    /// The register's eight bits.
    pub closed spec fn view(&self) -> u8 {
        self.flags
    }

    /// Whether every flag under `mask` is set.
    #[inline(always)]
    pub fn fetch(&self, mask: u8) -> (set: bool)
        ensures
            set == flag_set(self@, mask),
    {
        (self.flags & mask) == mask
    }

    /// Sets the flags under `mask`; the other flags stay.
    #[inline(always)]
    pub fn set_on(&mut self, mask: u8)
        ensures
            final(self)@ == with_flag(old(self)@, mask, true),
    {
        self.flags |= mask;
    }

    /// Clears the flags under `mask`; the other flags stay.
    #[inline(always)]
    pub fn set_off(&mut self, mask: u8)
        ensures
            final(self)@ == with_flag(old(self)@, mask, false),
    {
        self.flags &= !mask;
    }

    /// A register with the given bits.
    pub fn new(flags: u8) -> (status: Self)
        ensures
            status@ == flags,
    {
        Self { flags }
    }
}

impl Default for CpuStatus {
    fn default() -> (status: Self)
        ensures
            status@ == 0,
    {
        Self::new(0)
    }
}

} // verus!
