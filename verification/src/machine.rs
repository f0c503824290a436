//! The mathematical model of the machine: its state, the effect of every
//! instruction, one step of the fetch-decode-execute loop, and a run.

use vstd::prelude::*;
use crate::addressing::{effective_address, has_address};
use crate::alu::{
    adc_carry, adc_overflow, adc_value, asl_carry, asl_value, branch_target, lemma_zero_negative,
    signed, with_zero_negative,
};
use crate::consts::{MEMORY_SIZE, ROM_ENTRYPOINT};
use crate::error::ExecError;
use crate::mem::{in_bounds, overlay, wrap_byte, wrap_word, AddrMode, Byte, Word};
use crate::opcode::{decode, Opcode};
use crate::status::{flag_set, with_flag, CpuStatus, RunState};

verus! {

/// Everything that an instruction can read or change.
pub struct State {
    pub pc: Word,
    pub x: Byte,
    pub y: Byte,
    pub acc: Byte,
    pub flags: u8,
    pub mem: Seq<u8>,
    pub run: RunState,
}

impl State {
    /// The memory has one cell for each address.
    pub open spec fn wf(self) -> bool {
        self.mem.len() == MEMORY_SIZE
    }

    /// Whether the Carry flag is set.
    pub open spec fn carry(self) -> bool {
        flag_set(self.flags, CpuStatus::CARRY)
    }

    /// Whether the Zero flag is set.
    pub open spec fn zero(self) -> bool {
        flag_set(self.flags, CpuStatus::ZERO)
    }

    /// Whether the Overflow flag is set.
    pub open spec fn overflow(self) -> bool {
        flag_set(self.flags, CpuStatus::OVERFLOW)
    }

    /// Whether the Negative flag is set.
    pub open spec fn negative(self) -> bool {
        flag_set(self.flags, CpuStatus::NEGATIVE)
    }

    /// The effective address of an operand in `mode` whose first byte is at
    /// the program counter.
    pub open spec fn address(self, mode: AddrMode) -> Word {
        effective_address(mode, self.pc, self.x, self.y, self.mem)
    }

    /// The byte at that address.
    pub open spec fn operand(self, mode: AddrMode) -> Byte {
        self.mem[self.address(mode) as int]
    }

    /// The state with the program counter moved forward by `len`, wrapping
    /// at the end of the address space.
    pub open spec fn advance(self, len: Word) -> State {
        State { pc: wrap_word(self.pc + len), ..self }
    }

    /// The state with the Zero and Negative flags recomputed from `value`.
    pub open spec fn flagged(self, value: Byte) -> State {
        State { flags: with_zero_negative(self.flags, value), ..self }
    }

    /// The state with the flags under `mask` set or cleared.
    pub open spec fn with_flag(self, mask: u8, on: bool) -> State {
        State { flags: with_flag(self.flags, mask, on), ..self }
    }

    /// The state after the run has ended with `reason`.
    pub open spec fn faulted(self, reason: ExecError) -> State {
        State { run: RunState::Faulted(reason), ..self }
    }
}

/// Increment X: X plus one modulo 256, with Zero and Negative from the result.
pub open spec fn inx(s: State) -> State {
    State { x: wrap_byte(s.x + 1), ..s }.flagged(wrap_byte(s.x + 1))
}

/// Increment Y: Y plus one modulo 256, with Zero and Negative from the result.
pub open spec fn iny(s: State) -> State {
    State { y: wrap_byte(s.y + 1), ..s }.flagged(wrap_byte(s.y + 1))
}

/// Transfer the accumulator to X, with Zero and Negative from the value.
pub open spec fn tax(s: State) -> State {
    State { x: s.acc, ..s }.flagged(s.acc)
}

/// Transfer the accumulator to Y, with Zero and Negative from the value.
pub open spec fn tay(s: State) -> State {
    State { y: s.acc, ..s }.flagged(s.acc)
}

/// Load the accumulator from the operand, with Zero and Negative from the
/// value.
pub open spec fn lda(s: State, mode: AddrMode) -> State {
    State { acc: s.operand(mode), ..s }.flagged(s.operand(mode))
}

/// Store the accumulator at the operand's address.
pub open spec fn sta(s: State, mode: AddrMode) -> State {
    State { mem: s.mem.update(s.address(mode) as int, s.acc), ..s }
}

/// Store X at the operand's address.
pub open spec fn stx(s: State, mode: AddrMode) -> State {
    State { mem: s.mem.update(s.address(mode) as int, s.x), ..s }
}

/// Store Y at the operand's address.
pub open spec fn sty(s: State, mode: AddrMode) -> State {
    State { mem: s.mem.update(s.address(mode) as int, s.y), ..s }
}

/// Bitwise AND of the accumulator with the operand, with Zero and Negative
/// from the result.
pub open spec fn and(s: State, mode: AddrMode) -> State {
    State { acc: s.acc & s.operand(mode), ..s }.flagged(s.acc & s.operand(mode))
}

/// Add-with-carry: the accumulator takes the low eight bits of the sum of
/// itself, the operand and the Carry flag; Carry takes bit 8 of the sum and
/// Overflow tells whether the signed addition overflowed.
pub open spec fn adc(s: State, mode: AddrMode) -> State {
    let operand = s.operand(mode);
    let carry = s.carry();
    let value = adc_value(s.acc, operand, carry);
    State { acc: value, ..s }.with_flag(
        CpuStatus::CARRY,
        adc_carry(s.acc, operand, carry),
    ).with_flag(CpuStatus::OVERFLOW, adc_overflow(s.acc, operand, carry)).flagged(value)
}

/// Shift left by one bit, of the accumulator or of a memory cell; the bit
/// that falls out goes to Carry.
pub open spec fn asl(s: State, mode: AddrMode) -> State {
    if has_address(mode) {
        let value = s.operand(mode);
        State { mem: s.mem.update(s.address(mode) as int, asl_value(value)), ..s }.with_flag(
            CpuStatus::CARRY,
            asl_carry(value),
        ).flagged(asl_value(value))
    } else {
        State { acc: asl_value(s.acc), ..s }.with_flag(CpuStatus::CARRY, asl_carry(s.acc)).flagged(
            asl_value(s.acc),
        )
    }
}

/// A conditional branch: the program counter steps over the displacement
/// byte, and where the branch is taken it then moves by the displacement.
pub open spec fn branch(s: State, taken: bool) -> State {
    let displacement = s.mem[s.pc as int];
    let next = wrap_word(s.pc + 1);
    State {
        pc: if taken {
            branch_target(next, displacement)
        } else {
            next
        },
        ..s
    }
}

/// The effect of the instruction `op` on a running machine whose program
/// counter stands right after the opcode byte.
pub open spec fn execute(op: Opcode, s: State) -> State {
    match op {
        Opcode::Uninitialized => s.faulted(ExecError::InvalidInstruction),
        Opcode::Brk => State { run: RunState::Halted, ..s },
        Opcode::Inx => inx(s),
        Opcode::Iny => iny(s),
        Opcode::Tax => tax(s),
        Opcode::Tay => tay(s),
        Opcode::Bcs => branch(s, s.carry()),
        Opcode::Bcc => branch(s, !s.carry()),
        Opcode::Beq => branch(s, s.zero()),
        Opcode::Bne => branch(s, !s.zero()),
        Opcode::Asl(mode, length) => asl(s, mode).advance(length),
        Opcode::And(mode, length) => if has_address(mode) {
            and(s, mode).advance(length)
        } else {
            s.faulted(ExecError::Unimplemented)
        },
        Opcode::Stx(mode, length) => if has_address(mode) {
            stx(s, mode).advance(length)
        } else {
            s.faulted(ExecError::Unimplemented)
        },
        Opcode::Sty(mode, length) => if has_address(mode) {
            sty(s, mode).advance(length)
        } else {
            s.faulted(ExecError::Unimplemented)
        },
        Opcode::Sta(mode, length) => if has_address(mode) {
            sta(s, mode).advance(length)
        } else {
            s.faulted(ExecError::Unimplemented)
        },
        Opcode::Adc(mode, length) => if has_address(mode) {
            adc(s, mode).advance(length)
        } else {
            s.faulted(ExecError::Unimplemented)
        },
        Opcode::Lda(mode, length) => if has_address(mode) {
            lda(s, mode).advance(length)
        } else {
            s.faulted(ExecError::Unimplemented)
        },
    }
}

/// What executing `op` does to a machine in any state: a machine that is
/// not running stays as it is.
pub open spec fn dispatch(op: Opcode, s: State) -> State {
    if s.run is Running {
        execute(op, s)
    } else {
        s
    }
}

/// One step: fetch the byte at the program counter, step over it, decode it
/// and execute the instruction. A machine that is not running stays as it is.
#[verifier::opaque]
pub open spec fn step(s: State) -> State {
    if s.run is Running {
        execute(decode(s.mem[s.pc as int]), s.advance(1))
    } else {
        s
    }
}

/// The state after `n` steps.
pub open spec fn steps(s: State, n: nat) -> State
    decreases n,
{
    if n == 0 {
        s
    } else {
        steps(step(s), (n - 1) as nat)
    }
}

/// Whether the machine has left the running state after `n` steps.
pub open spec fn halts_within(s: State, n: nat) -> bool {
    !(steps(s, n).run is Running)
}

/// Whether the machine ever leaves the running state.
pub open spec fn halts(s: State) -> bool {
    exists|n: nat| halts_within(s, n)
}

/// The state in which a run from `s` ends, for a machine that halts.
pub open spec fn outcome(s: State) -> State
    recommends
        halts(s),
{
    steps(s, choose|n: nat| halts_within(s, n))
}

/// The state after a reset: registers zero, running; memory and flags stay.
pub open spec fn reset(s: State) -> State {
    State { pc: 0, x: 0, y: 0, acc: 0, run: RunState::Running, ..s }
}

/// The state after a program image was placed at the entry point and the
/// program counter set to it.
pub open spec fn with_rom(s: State, rom: Seq<u8>) -> State {
    State { pc: ROM_ENTRYPOINT, mem: overlay(s.mem, ROM_ENTRYPOINT as int, rom), ..s }
}

/// After a reset and a load, execution starts at the program: the program
/// counter stands at the entry point, the program lies from there on, and
/// the memory has kept its size.
pub proof fn lemma_rom_is_entered(s: State, rom: Seq<u8>)
    requires
        s.wf(),
        in_bounds(ROM_ENTRYPOINT, rom.len()),
    ensures
        with_rom(reset(s), rom).wf(),
        with_rom(reset(s), rom).pc == ROM_ENTRYPOINT,
        with_rom(reset(s), rom).run is Running,
        forall|i: int| 0 <= i < rom.len() ==> with_rom(reset(s), rom).mem[ROM_ENTRYPOINT + i] == rom[i],
{
}

/// A machine that is not running stays as it is, however many steps are
/// asked of it.
pub proof fn lemma_terminal_is_final(s: State, n: nat)
    requires
        !(s.run is Running),
    ensures
        steps(s, n) == s,
    decreases n,
{
    reveal(step);
    if n > 0 {
        lemma_terminal_is_final(step(s), (n - 1) as nat);
    }
}

/// Steps compose: `n + m` steps are `n` steps followed by `m` steps.
pub proof fn lemma_steps_compose(s: State, n: nat, m: nat)
    ensures
        steps(s, n + m) == steps(steps(s, n), m),
    decreases n,
{
    if n > 0 {
        lemma_steps_compose(step(s), (n - 1) as nat, m);
    }
}

/// A run has one end: once the machine has left the running state after `n`
/// steps, that state is the outcome, and more steps change nothing.
pub proof fn lemma_outcome(s: State, n: nat)
    requires
        halts_within(s, n),
    ensures
        halts(s),
        outcome(s) == steps(s, n),
        !(outcome(s).run is Running),
        forall|m: nat| m >= n ==> steps(s, m) == steps(s, n),
{
    let chosen = choose|k: nat| halts_within(s, k);
    assert forall|m: nat| m >= n implies steps(s, m) == steps(s, n) by {
        lemma_steps_compose(s, n, (m - n) as nat);
        lemma_terminal_is_final(steps(s, n), (m - n) as nat);
    }
    if chosen <= n {
        lemma_steps_compose(s, chosen, (n - chosen) as nat);
        lemma_terminal_is_final(steps(s, chosen), (n - chosen) as nat);
    }
}

/// What one more step does to a run that ends within `fuel` steps: while the
/// machine still runs after the step, the rest of the run is shorter by one;
/// once it does not, the run has ended in that state.
pub proof fn lemma_run_step(s: State, fuel: nat)
    requires
        halts_within(s, fuel),
    ensures
        step(s).run is Running ==> fuel > 0 && halts_within(step(s), (fuel - 1) as nat) && steps(
            step(s),
            (fuel - 1) as nat,
        ) == steps(s, fuel),
        !(step(s).run is Running) ==> steps(s, fuel) == step(s),
{
    if fuel == 0 {
        assert(step(s) == s) by {
            reveal(step);
        }
    } else {
        assert(steps(s, fuel) == steps(step(s), (fuel - 1) as nat));
        if !(step(s).run is Running) {
            lemma_terminal_is_final(step(s), (fuel - 1) as nat);
        }
    }
}

/// Whether the Zero and Negative flags of `s` are those of the result byte
/// `result`: Zero tells whether it is 0, Negative whether its bit 7 is set.
pub open spec fn flags_match(s: State, result: Byte) -> bool {
    &&& s.zero() == (result == 0)
    &&& s.negative() == ((result & 0x80) != 0)
}

/// After every instruction that recomputes the flags, the Zero and Negative
/// flags are those of the byte that the instruction produced.
pub proof fn lemma_flags_follow_result(s: State, mode: AddrMode)
    requires
        s.wf(),
    ensures
        flags_match(inx(s), inx(s).x),
        flags_match(iny(s), iny(s).y),
        flags_match(tax(s), tax(s).x),
        flags_match(tay(s), tay(s).y),
        flags_match(lda(s, mode), lda(s, mode).acc),
        flags_match(and(s, mode), and(s, mode).acc),
        flags_match(adc(s, mode), adc(s, mode).acc),
        flags_match(
            asl(s, mode),
            if has_address(mode) {
                asl(s, mode).mem[s.address(mode) as int]
            } else {
                asl(s, mode).acc
            },
        ),
{
    lemma_zero_negative(s.flags, inx(s).x);
    lemma_zero_negative(s.flags, iny(s).y);
    lemma_zero_negative(s.flags, s.acc);
    lemma_zero_negative(s.flags, lda(s, mode).acc);
    lemma_zero_negative(s.flags, and(s, mode).acc);
    let operand = s.operand(mode);
    lemma_zero_negative(
        with_flag(
            with_flag(s.flags, CpuStatus::CARRY, adc_carry(s.acc, operand, s.carry())),
            CpuStatus::OVERFLOW,
            adc_overflow(s.acc, operand, s.carry()),
        ),
        adc(s, mode).acc,
    );
    lemma_zero_negative(
        with_flag(s.flags, CpuStatus::CARRY, asl_carry(operand)),
        asl_value(operand),
    );
    lemma_zero_negative(with_flag(s.flags, CpuStatus::CARRY, asl_carry(s.acc)), asl_value(s.acc));
}

/// The effective address depends on nothing but the mode, the program
/// counter, the index registers and the memory: two states that agree on
/// these resolve every operand to the same address.
pub proof fn lemma_resolution_is_pure(mode: AddrMode, a: State, b: State)
    requires
        a.pc == b.pc,
        a.x == b.x,
        a.y == b.y,
        a.mem == b.mem,
    ensures
        a.address(mode) == b.address(mode),
{
}

/// A taken branch lands at the position right after its operand byte, moved
/// by the displacement read as a signed number; with the displacement 0xFB
/// that is five bytes back. A branch not taken goes on after the operand byte.
pub proof fn lemma_branch_lands(s: State)
    ensures
        branch(s, true).pc == wrap_word(s.pc + 1 + signed(s.mem[s.pc as int])),
        branch(s, false).pc == wrap_word(s.pc + 1),
        s.mem[s.pc as int] == 0xFB ==> branch(s, true).pc == wrap_word(s.pc + 1 - 5),
{
}

/// An opcode byte that stands for no instruction ends the run with
/// `InvalidInstruction`: the step over the byte is the last thing that
/// happens, and no later step changes anything.
pub proof fn lemma_illegal_opcode_faults(s: State, n: nat)
    requires
        s.run is Running,
        decode(s.mem[s.pc as int]) is Uninitialized,
        n >= 1,
    ensures
        step(s) == s.advance(1).faulted(ExecError::InvalidInstruction),
        steps(s, n) == step(s),
        halts(s),
        outcome(s) == step(s),
{
    reveal(step);
    assert(steps(s, 1) == steps(step(s), 0));
    lemma_terminal_is_final(step(s), (n - 1) as nat);
    lemma_outcome(s, 1);
}

/// Every instruction keeps the memory at its size.
pub proof fn lemma_step_keeps_wf(s: State)
    requires
        s.wf(),
    ensures
        step(s).wf(),
{
    reveal(step);
}

} // verus!
