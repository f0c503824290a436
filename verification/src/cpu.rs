//! The processor: registers, status flags, memory, and the engine that
//! fetches, decodes and executes instructions.

use vstd::prelude::*;
use crate::addressing::{has_address, is_addressed, resolve};
use crate::alu::{add_with_carry, branch_to, shift_left};
use crate::consts::ROM_ENTRYPOINT;
use crate::error::ExecError;
use crate::machine;
use crate::machine::{dispatch, halts, halts_within, outcome, step, steps, with_rom, State};
use crate::mem::{in_bounds, wrap_byte, AddrMode, Byte, Memory, Word};
use crate::opcode::{decode, lookup_opcode, Opcode, OpcodeTable};
use crate::status::{CpuStatus, ExecStatus, RunState, NEG_MASK};

verus! {

/// `num::Zero::is_zero` on a 16-bit word. For the built-in integers num
/// compares the value with the literal 0, so the answer is true exactly for 0.
#[verifier::external_body]
fn is_zero(value: Word) -> (zero: bool)
    ensures
        zero == (value == 0),
{
    num::Zero::is_zero(&value)
}

/// `num::Zero::zero` for 16-bit words. For the built-in integers num returns
/// the literal 0.
#[verifier::external_body]
fn zero() -> (nothing: Word)
    ensures
        nothing == 0,
{
    num::Zero::zero()
}

/// The processor with its memory. Every field is open to inspection.
pub struct Cpu {
    pub pc: Word,
    pub x: Byte,
    pub y: Byte,
    pub acc: Byte,
    pub mem: Memory,
    pub status: CpuStatus,
    pub state: RunState,
    pub table: OpcodeTable,
}

impl Cpu {
    /// The machine state that this processor holds.
    pub open spec fn view(&self) -> State {
        State {
            pc: self.pc,
            x: self.x,
            y: self.y,
            acc: self.acc,
            flags: self.status@,
            mem: self.mem@,
            run: self.state,
        }
    }

    /// Increments X, wrapping at 255, and recomputes Zero and Negative.
    pub fn inx(&mut self)
        ensures
            final(self)@ == machine::inx(old(self)@),
    {
        self.inc_x();
        self.chk_zero_neg_b(self.x);
    }

    /// Copies the accumulator to X and recomputes Zero and Negative.
    pub fn tax(&mut self)
        ensures
            final(self)@ == machine::tax(old(self)@),
    {
        self.x = self.acc;
        self.chk_zero_neg_b(self.x);
    }

    /// Copies the accumulator to Y and recomputes Zero and Negative.
    pub fn tay(&mut self)
        ensures
            final(self)@ == machine::tay(old(self)@),
    {
        self.y = self.acc;
        self.chk_zero_neg_b(self.y);
    }

    /// Increments Y, wrapping at 255, and recomputes Zero and Negative.
    pub fn iny(&mut self)
        ensures
            final(self)@ == machine::iny(old(self)@),
    {
        self.inc_y();
        self.chk_zero_neg_b(self.y);
    }

    /// Loads the accumulator from the operand and recomputes Zero and Negative.
    pub fn lda(&mut self, mode: AddrMode)
        requires
            has_address(mode),
        ensures
            final(self)@ == machine::lda(old(self)@, mode),
    {
        let target = self.translate(mode);
        let data = self.mem.read(target);

        self.acc = data;
        self.chk_zero_neg_b(data);
    }

    /// Stores X at the operand's address. No flag changes.
    pub fn stx(&mut self, mode: AddrMode)
        requires
            has_address(mode),
        ensures
            final(self)@ == machine::stx(old(self)@, mode),
    {
        let target = self.translate(mode);
        self.mem.write(target, self.x);
    }

    /// Stores Y at the operand's address. No flag changes.
    pub fn sty(&mut self, mode: AddrMode)
        requires
            has_address(mode),
        ensures
            final(self)@ == machine::sty(old(self)@, mode),
    {
        let target = self.translate(mode);
        self.mem.write(target, self.y);
    }

    /// Stores the accumulator at the operand's address. No flag changes.
    pub fn sta(&mut self, mode: AddrMode)
        requires
            has_address(mode),
        ensures
            final(self)@ == machine::sta(old(self)@, mode),
    {
        let target = self.translate(mode);
        self.mem.write(target, self.acc);
    }

    /// Replaces the accumulator by its bitwise AND with the operand and
    /// recomputes Zero and Negative.
    pub fn and(&mut self, mode: AddrMode)
        requires
            has_address(mode),
        ensures
            final(self)@ == machine::and(old(self)@, mode),
    {
        let target = self.translate(mode);
        let data = self.mem.read(target);

        self.acc = self.acc & data;
        self.chk_zero_neg_b(self.acc);
    }

    /// Adds the operand and the Carry flag to the accumulator, and sets Carry,
    /// Overflow, Zero and Negative from the sum.
    pub fn adc(&mut self, mode: AddrMode)
        requires
            has_address(mode),
        ensures
            final(self)@ == machine::adc(old(self)@, mode),
    {
        let contents = self.mem.read(self.translate(mode));
        let carry = self.status.fetch(CpuStatus::CARRY);
        let sum = add_with_carry(self.acc, contents, carry);

        if sum.carry {
            self.status.set_on(CpuStatus::CARRY);
        } else {
            self.status.set_off(CpuStatus::CARRY);
        }

        self.acc = sum.value;
        self.set_overflow(sum.overflow);
        self.chk_zero_neg_b(self.acc);
    }

    /// Shifts the accumulator, or the cell that `mode` names, left by one bit.
    pub fn asl(&mut self, mode: AddrMode)
        ensures
            final(self)@ == machine::asl(old(self)@, mode),
    {
        if is_addressed(mode) {
            let target = self.translate(mode);
            let (value, carry) = shift_left(self.mem.read(target));
            self.mem.write(target, value);
            self.set_carry(carry);
            self.chk_zero_neg_b(value);
        } else {
            let (value, carry) = shift_left(self.acc);
            self.acc = value;
            self.set_carry(carry);
            self.chk_zero_neg_b(value);
        }
    }

    /// Steps over the displacement byte and, where `taken`, moves the
    /// program counter by the displacement.
    pub fn branch(&mut self, taken: bool)
        ensures
            final(self)@ == machine::branch(old(self)@, taken),
    {
        let displacement = self.mem.read(self.pc);
        self.inc_pc();
        if taken {
            self.pc = branch_to(self.pc, displacement);
        }
    }
}

impl Cpu {
    /// Executes one decoded instruction. A processor that has halted or
    /// faulted does nothing and reports its state again.
    #[inline]
    pub fn exec(&mut self, opcode: Opcode) -> (res: Result<ExecStatus, ExecError>)
        ensures
            final(self)@ == dispatch(opcode, old(self)@),
            res == final(self)@.run.report(),
    {
        if !self.state.is_running() {
            return self.state.to_report();
        }
        match opcode {
            Opcode::Tax => self.tax(),
            Opcode::Tay => self.tay(),
            Opcode::Inx => self.inx(),
            Opcode::Iny => self.iny(),

            Opcode::Bcs => self.branch(self.status.fetch(CpuStatus::CARRY)),
            Opcode::Bcc => self.branch(!self.status.fetch(CpuStatus::CARRY)),
            Opcode::Beq => self.branch(self.status.fetch(CpuStatus::ZERO)),
            Opcode::Bne => self.branch(!self.status.fetch(CpuStatus::ZERO)),

            Opcode::Asl(mode, length) => {
                self.asl(mode);
                self.add_pc(length);
            },

            Opcode::And(mode, length) => {
                if !is_addressed(mode) {
                    return self.fail(ExecError::Unimplemented);
                }
                self.and(mode);
                self.add_pc(length);
            },

            Opcode::Adc(mode, length) => {
                if !is_addressed(mode) {
                    return self.fail(ExecError::Unimplemented);
                }
                self.adc(mode);
                self.add_pc(length);
            },

            Opcode::Sta(mode, length) => {
                if !is_addressed(mode) {
                    return self.fail(ExecError::Unimplemented);
                }
                self.sta(mode);
                self.add_pc(length);
            },

            Opcode::Stx(mode, length) => {
                if !is_addressed(mode) {
                    return self.fail(ExecError::Unimplemented);
                }
                self.stx(mode);
                self.add_pc(length);
            },

            Opcode::Sty(mode, length) => {
                if !is_addressed(mode) {
                    return self.fail(ExecError::Unimplemented);
                }
                self.sty(mode);
                self.add_pc(length);
            },

            Opcode::Lda(mode, length) => {
                if !is_addressed(mode) {
                    return self.fail(ExecError::Unimplemented);
                }
                self.lda(mode);
                self.add_pc(length);
            },

            Opcode::Brk => {
                self.state = RunState::Halted;
                return Ok(ExecStatus::Exit);
            },
            Opcode::Uninitialized => return self.fail(ExecError::InvalidInstruction),
        }

        Ok(ExecStatus::Executing)
    }

    /// Ends the run with `reason`.
    fn fail(&mut self, reason: ExecError) -> (res: Result<ExecStatus, ExecError>)
        ensures
            final(self)@ == old(self)@.faulted(reason),
            res == Err::<ExecStatus, ExecError>(reason),
    {
        self.state = RunState::Faulted(reason);
        Err(reason)
    }

    /// Steps until the processor halts or faults, and tells the fault if
    /// there was one. The run is that of a program that ends: nothing here
    /// bounds the number of steps.
    pub fn exec_until_brk(&mut self) -> (res: Option<ExecError>)
        requires
            halts(old(self)@),
        ensures
            final(self)@ == outcome(old(self)@),
            !(final(self)@.run is Running),
            res == final(self)@.run.fault(),
    {
        let ghost start = self@;
        let ghost total = choose|n: nat| halts_within(start, n);
        let ghost mut fuel = total;
        loop
            invariant
                start == old(self)@,
                halts(start),
                halts_within(self@, fuel),
                steps(self@, fuel) == outcome(start),
            decreases fuel,
        {
            proof {
                machine::lemma_run_step(self@, fuel);
            }
            match self.exec_next() {
                Ok(ExecStatus::Exit) => {
                    return None;
                },
                Err(e) => {
                    return Some(e);
                },
                Ok(ExecStatus::Executing) => {
                    proof {
                        fuel = (fuel - 1) as nat;
                    }
                },
            }
        }
    }

    /// Steps until the processor halts or faults, but `limit` times at most,
    /// and reports the state in which it stopped: the way to run a program
    /// of which nobody knows that it ends.
    pub fn exec_steps(&mut self, limit: usize) -> (res: Result<ExecStatus, ExecError>)
        ensures
            final(self)@ == steps(old(self)@, limit as nat),
            res == final(self)@.run.report(),
    {
        let mut done: usize = 0;
        while done < limit && self.state.is_running()
            invariant
                done <= limit,
                self@ == steps(old(self)@, done as nat),
            decreases limit - done,
        {
            proof {
                machine::lemma_steps_compose(old(self)@, done as nat, 1);
                assert(steps(self@, 1) == steps(step(self@), 0));
            }
            let _ = self.exec_next();
            done += 1;
        }
        proof {
            if done < limit {
                machine::lemma_steps_compose(old(self)@, done as nat, (limit - done) as nat);
                machine::lemma_terminal_is_final(self@, (limit - done) as nat);
            }
        }
        self.state.to_report()
    }

    /// Fetches, decodes and executes the instruction at the program counter.
    #[inline(always)]
    pub fn exec_next(&mut self) -> (res: Result<ExecStatus, ExecError>)
        ensures
            final(self)@ == step(old(self)@),
            res == final(self)@.run.report(),
    {
        proof {
            reveal(step);
        }
        if !self.state.is_running() {
            return self.state.to_report();
        }
        let opcode = self.next();
        self.exec(opcode)
    }

    /// Reads the opcode byte at the program counter, steps over it and
    /// decodes it.
    #[inline(always)]
    pub fn next(&mut self) -> (opcode: Opcode)
        ensures
            opcode == decode(old(self)@.mem[old(self)@.pc as int]),
            final(self)@ == old(self)@.advance(1),
    {
        let opcode = self.mem.read(self.pc);
        self.inc_pc();

        lookup_opcode(&self.table, opcode)
    }

    /// Resets the processor, loads `code` at the entry point and runs it to
    /// its end. A program that does not fit is not run.
    pub fn try_interpret(&mut self, code: &[u8]) -> (res: Option<ExecError>)
        requires
            in_bounds(ROM_ENTRYPOINT, code@.len()) ==> halts(
                with_rom(machine::reset(old(self)@), code@),
            ),
        ensures
            in_bounds(ROM_ENTRYPOINT, code@.len()) ==> {
                &&& final(self)@ == outcome(with_rom(machine::reset(old(self)@), code@))
                &&& !(final(self)@.run is Running)
                &&& res == final(self)@.run.fault()
            },
            !in_bounds(ROM_ENTRYPOINT, code@.len()) ==> {
                &&& final(self)@ == machine::reset(old(self)@)
                &&& res == Some(ExecError::OutOfBounds)
            },
    {
        match self.reset_load_rom(code) {
            Err(e) => Some(e),
            Ok(()) => self.exec_until_brk(),
        }
    }

    /// Runs a program that fits and that ends in the halt instruction.
    pub fn interpret(&mut self, code: &[u8])
        requires
            in_bounds(ROM_ENTRYPOINT, code@.len()),
            halts(with_rom(machine::reset(old(self)@), code@)),
            outcome(with_rom(machine::reset(old(self)@), code@)).run is Halted,
        ensures
            final(self)@ == outcome(with_rom(machine::reset(old(self)@), code@)),
    {
        let _ = self.try_interpret(code);
    }

    /// Resets the processor, then loads `rom`. When `rom` does not fit the
    /// processor is reset and nothing is loaded.
    pub fn reset_load_rom(&mut self, rom: &[u8]) -> (res: Result<(), ExecError>)
        ensures
            res == if in_bounds(ROM_ENTRYPOINT, rom@.len()) {
                Ok::<(), ExecError>(())
            } else {
                Err::<(), ExecError>(ExecError::OutOfBounds)
            },
            res is Ok ==> final(self)@ == with_rom(machine::reset(old(self)@), rom@),
            res is Err ==> final(self)@ == machine::reset(old(self)@),
    {
        self.reset();
        self.load_rom(rom)
    }

    /// Places `rom` at the entry point and sets the program counter to it,
    /// or reports `OutOfBounds` and changes nothing when `rom` does not fit.
    pub fn load_rom(&mut self, rom: &[u8]) -> (res: Result<(), ExecError>)
        ensures
            res == if in_bounds(ROM_ENTRYPOINT, rom@.len()) {
                Ok::<(), ExecError>(())
            } else {
                Err::<(), ExecError>(ExecError::OutOfBounds)
            },
            res is Ok ==> final(self)@ == with_rom(old(self)@, rom@),
            res is Err ==> final(self)@ == old(self)@,
    {
        match self.mem.copy_to(ROM_ENTRYPOINT, rom) {
            Err(e) => Err(e),
            Ok(()) => {
                self.pc = ROM_ENTRYPOINT;
                Ok(())
            },
        }
    }

    /// Zeroes the registers and makes the processor run again. Memory and
    /// flags stay.
    pub fn reset(&mut self)
        ensures
            final(self)@ == machine::reset(old(self)@),
    {
        self.pc = 0;
        self.x = 0;
        self.y = 0;
        self.acc = 0;
        self.state = RunState::Running;
    }

    /// A running processor with the given registers, memory and flags.
    pub fn new(pc: Word, x: Byte, y: Byte, acc: Byte, mem: Memory, status: CpuStatus) -> (cpu:
        Self)
        ensures
            cpu@ == (State {
                pc,
                x,
                y,
                acc,
                flags: status@,
                mem: mem@,
                run: RunState::Running,
            }),
    {
        Self { x, y, mem, status, pc, acc, state: RunState::Running, table: OpcodeTable::new() }
    }
}

impl Default for Cpu {
    fn default() -> (cpu: Self)
        ensures
            cpu@ == (State {
                pc: 0,
                x: 0,
                y: 0,
                acc: 0,
                flags: 0,
                mem: Seq::new(crate::consts::MEMORY_SIZE as nat, |i: int| 0u8),
                run: RunState::Running,
            }),
    {
        Self::new(0, 0, 0, 0, Memory::zeroed(), CpuStatus::default())
    }
}

impl Cpu {
    /// Moves the program counter forward by one, wrapping at the end of the
    /// address space.
    #[inline(always)]
    pub fn inc_pc(&mut self)
        ensures
            final(self)@ == old(self)@.advance(1),
    {
        self.add_pc(1);
    }

    /// Adds one to X, wrapping at 255. No flag changes.
    #[inline(always)]
    pub fn inc_x(&mut self)
        ensures
            final(self)@ == (State { x: wrap_byte(old(self)@.x + 1), ..old(self)@ }),
    {
        self.add_x(1);
    }

    /// Adds one to Y, wrapping at 255. No flag changes.
    #[inline(always)]
    pub fn inc_y(&mut self)
        ensures
            final(self)@ == (State { y: wrap_byte(old(self)@.y + 1), ..old(self)@ }),
    {
        self.add_y(1);
    }

    /// Adds `x` to X modulo 256. No flag changes.
    #[inline(always)]
    pub fn add_x(&mut self, x: Byte)
        ensures
            final(self)@ == (State { x: wrap_byte(old(self)@.x + x), ..old(self)@ }),
    {
        self.x = self.x.wrapping_add(x);
    }

    /// Adds `y` to Y modulo 256. No flag changes.
    #[inline(always)]
    pub fn add_y(&mut self, y: Byte)
        ensures
            final(self)@ == (State { y: wrap_byte(old(self)@.y + y), ..old(self)@ }),
    {
        self.y = self.y.wrapping_add(y);
    }

    /// Moves the program counter forward by `acc`, wrapping at the end of the
    /// address space.
    #[inline(always)]
    pub fn add_pc(&mut self, acc: Word)
        ensures
            final(self)@ == old(self)@.advance(acc),
    {
        self.pc = self.pc.wrapping_add(acc);
    }

    /// Recomputes the Zero and Negative flags from a result byte.
    #[inline(always)]
    pub fn chk_zero_neg_b(&mut self, value: Byte)
        ensures
            final(self)@ == old(self)@.flagged(value),
    {
        proof {
            assert(((value as u16) & (0x80u8 as u16) != 0) <==> (value & 0x80 != 0))
                by (bit_vector);
        }
        self.chk_zero_neg(value as Word, NEG_MASK as Word);
    }

    /// Sets or clears the Overflow flag.
    #[inline(always)]
    pub fn set_overflow(&mut self, to: bool)
        ensures
            final(self)@ == old(self)@.with_flag(CpuStatus::OVERFLOW, to),
    {
        if to {
            self.status.set_on(CpuStatus::OVERFLOW);
        } else {
            self.status.set_off(CpuStatus::OVERFLOW);
        }
    }

    /// Sets or clears the Carry flag.
    #[inline(always)]
    pub fn set_carry(&mut self, to: bool)
        ensures
            final(self)@ == old(self)@.with_flag(CpuStatus::CARRY, to),
    {
        if to {
            self.status.set_on(CpuStatus::CARRY);
        } else {
            self.status.set_off(CpuStatus::CARRY);
        }
    }

    /// Recomputes the Zero and Negative flags from a result word, whose sign
    /// is read from bit 7.
    #[inline(always)]
    pub fn chk_zero_neg_w(&mut self, value: Word)
        ensures
            final(self)@ == old(self)@.with_flag(
                CpuStatus::NEGATIVE,
                value & (NEG_MASK as Word) != 0,
            ).with_flag(CpuStatus::ZERO, value == 0),
    {
        self.chk_zero_neg(value, NEG_MASK as Word);
    }

    /// Sets Negative where `value` has a bit of `mask`, and Zero where
    /// `value` is 0.
    #[inline(always)]
    pub fn chk_zero_neg(&mut self, value: Word, mask: Word)
        ensures
            final(self)@ == old(self)@.with_flag(CpuStatus::NEGATIVE, value & mask != 0).with_flag(
                CpuStatus::ZERO,
                value == 0,
            ),
    {
        self.chk_neg(value, mask);
        self.chk_zero(value);
    }

    /// Sets Negative where `value` has a bit of `mask`, and clears it where not.
    #[inline(always)]
    pub fn chk_neg(&mut self, value: Word, mask: Word)
        ensures
            final(self)@ == old(self)@.with_flag(CpuStatus::NEGATIVE, value & mask != 0),
    {
        if value & mask != zero() {
            self.status.set_on(CpuStatus::NEGATIVE);
        } else {
            self.status.set_off(CpuStatus::NEGATIVE);
        }
    }

    /// Sets Zero where `value` is 0, and clears it where not.
    #[inline(always)]
    pub fn chk_zero(&mut self, value: Word)
        ensures
            final(self)@ == old(self)@.with_flag(CpuStatus::ZERO, value == 0),
    {
        if is_zero(value) {
            self.status.set_on(CpuStatus::ZERO);
        } else {
            self.status.set_off(CpuStatus::ZERO);
        }
    }
}

impl Cpu {
    /// The effective address of the operand at the program counter. Reads
    /// the processor, changes nothing.
    pub fn translate(&self, mode: AddrMode) -> (addr: Word)
        requires
            has_address(mode),
        ensures
            addr == self@.address(mode),
    {
        resolve(mode, self.pc, self.x, self.y, &self.mem)
    }
}

} // verus!
