//! The processor behind the record interface.

use vstd::prelude::*;
use crate::addressing::resolve;
use crate::alu::{add_with_carry, branch_target, branch_to, shift_left, sign_bit};
use crate::error::ExecError;
use crate::machine;
use crate::machine::{halts, halts_within, outcome, step, steps, State};
use crate::mem::{in_bounds, overlay, store_word, word_at, wrap_word, AddrMode};
use crate::nes::cpu_registers::CpuRegisters;
use crate::nes::cpu_status::{lemma_bit_masks, CpuStatus};
use crate::nes::decoder::{decode, decoded};
use crate::nes::memory::{AddressingMode, NesMemory};
use crate::nes::opcode::{Opcode, OpcodeType};
use crate::opcode::OpcodeTable;
use crate::status::{ExecStatus, RunState, NEG_MASK};

verus! {

/// Address at which a program image is placed.
pub const LOAD_ADDRESS: u16 = 0x8000;

/// Address of the word from which a reset reads the program counter.
pub const RESET_VECTOR: u16 = 0xFFC;

/// The processor with its memory. Every field is open to inspection.
#[derive(Debug, Clone)]
pub struct NesCpu {
    pub mem: NesMemory,
    pub regs: CpuRegisters,
    pub status: CpuStatus,
    pub state: RunState,
    pub table: OpcodeTable,
}

/// A conditional branch whose displacement is the operand that `mode`
/// names: the program counter steps over `length` operand bytes, and where
/// the branch is taken it then moves by the displacement.
pub open spec fn branch_by(s: State, mode: AddrMode, length: u16, taken: bool) -> State {
    let next = wrap_word(s.pc + length);
    State {
        pc: if taken {
            branch_target(next, s.operand(mode))
        } else {
            next
        },
        ..s
    }
}

/// The effect of the instruction that the record `op` describes on a running
/// machine whose program counter stands right after the opcode byte. A
/// record without operand bytes works on registers alone.
pub open spec fn perform(op: Opcode, s: State) -> State {
    let mode = op.mode.addr_mode();
    match op.opcode {
        OpcodeType::Brk => State { run: RunState::Halted, ..s },
        OpcodeType::Lda => machine::lda(s, mode).advance(op.pc_offset),
        OpcodeType::Sta => machine::sta(s, mode).advance(op.pc_offset),
        OpcodeType::Stx => machine::stx(s, mode).advance(op.pc_offset),
        OpcodeType::Sty => machine::sty(s, mode).advance(op.pc_offset),
        OpcodeType::And => machine::and(s, mode).advance(op.pc_offset),
        OpcodeType::Adc => machine::adc(s, mode).advance(op.pc_offset),
        OpcodeType::Asl => machine::asl(
            s,
            if op.pc_offset == 0 {
                AddrMode::Accumulator
            } else {
                mode
            },
        ).advance(op.pc_offset),
        OpcodeType::Inx => machine::inx(s).advance(op.pc_offset),
        OpcodeType::Iny => machine::iny(s).advance(op.pc_offset),
        OpcodeType::Tax => machine::tax(s).advance(op.pc_offset),
        OpcodeType::Tay => machine::tay(s).advance(op.pc_offset),
        OpcodeType::Bcs => branch_by(s, mode, op.pc_offset, s.carry()),
        OpcodeType::Bcc => branch_by(s, mode, op.pc_offset, !s.carry()),
        OpcodeType::Beq => branch_by(s, mode, op.pc_offset, s.zero()),
        OpcodeType::Bne => branch_by(s, mode, op.pc_offset, !s.zero()),
    }
}

/// The state after a program image was placed at the load address and the
/// reset vector pointed at it.
pub open spec fn loaded(s: State, program: Seq<u8>) -> State {
    State {
        mem: store_word(overlay(s.mem, LOAD_ADDRESS as int, program), RESET_VECTOR, LOAD_ADDRESS),
        ..s
    }
}

/// The state after a reset: the program counter read from the reset
/// vector, the other registers zero, running; memory and flags stay.
pub open spec fn restarted(s: State) -> State {
    State { pc: word_at(s.mem, RESET_VECTOR), x: 0, y: 0, acc: 0, run: RunState::Running, ..s }
}

/// After a program was loaded and the processor reset, execution starts at
/// the program: the program counter stands at the load address, the program
/// lies from there on, and the memory has kept its size.
pub proof fn lemma_reset_enters_program(s: State, program: Seq<u8>)
    requires
        s.wf(),
        in_bounds(LOAD_ADDRESS, program.len()),
    ensures
        restarted(loaded(s, program)).wf(),
        restarted(loaded(s, program)).pc == LOAD_ADDRESS,
        restarted(loaded(s, program)).run is Running,
        forall|i: int|
            0 <= i < program.len() ==> restarted(loaded(s, program)).mem[LOAD_ADDRESS + i]
                == program[i],
{
    let placed = overlay(s.mem, LOAD_ADDRESS as int, program);
    crate::mem::lemma_store_then_load(placed, RESET_VECTOR, LOAD_ADDRESS);
}

/// For every opcode byte, the record of its instruction has the effect of
/// the instruction itself: both interfaces drive one machine.
pub proof fn lemma_same_machine(hex: u8, s: State)
    ensures
        match decoded(hex) {
            Some(op) => perform(op, s) == machine::execute(crate::opcode::decode(hex), s),
            None => crate::opcode::decode(hex) is Uninitialized,
        },
{
    crate::opcode::lemma_table_is_well_formed(hex);
    crate::nes::decoder::lemma_record_exists(hex, crate::opcode::decode(hex));
    lemma_record_has_same_effect(hex, crate::opcode::decode(hex), s);
}

/// The record of a well-formed instruction has the effect of the instruction.
#[verifier::rlimit(30)]
pub proof fn lemma_record_has_same_effect(hex: u8, instr: crate::opcode::Opcode, s: State)
    requires
        instr.well_formed(),
    ensures
        crate::nes::decoder::record_of(hex, instr) matches Some(op) ==> perform(op, s)
            == machine::execute(instr, s),
{
}

impl NesCpu {
    /// The machine state that this processor holds. The stack pointer is
    /// no part of it: no instruction reads or changes it.
    pub open spec fn view(&self) -> State {
        State {
            pc: self.regs.pc,
            x: self.regs.x,
            y: self.regs.y,
            acc: self.regs.acc,
            flags: self.status@,
            mem: self.mem@,
            run: self.state,
        }
    }

    /// Loads the accumulator from the operand and recomputes Zero and Negative.
    pub fn lda(&mut self, mode: AddressingMode)
        ensures
            final(self)@ == machine::lda(old(self)@, mode.addr_mode()),
            final(self).regs.sp == old(self).regs.sp,
    {
        let addr = self.translate_addr(mode);
        let value = self.mem.read(addr);

        self.regs.acc = value;
        self.check_zero_neg(value);
    }

    fn check_zero_neg(&mut self, value: u8)
        ensures
            final(self)@ == old(self)@.flagged(value),
            final(self).regs.sp == old(self).regs.sp,
    {
        proof {
            lemma_bit_masks();
        }
        let negative = || -> (on: bool)
            ensures
                on == sign_bit(value),
            {
                let signed = (value & NEG_MASK) != 0;
                signed
            };
        let zero = || -> (on: bool)
            ensures
                on == (value == 0),
            {
                let nothing = value == 0;
                nothing
            };
        self.status.turn(CpuStatus::NEGATIVE, negative);
        self.status.turn(CpuStatus::ZERO, zero);
    }

    fn set_flag(&mut self, index: u8, on: bool)
        requires
            index < 8,
        ensures
            final(self)@ == old(self)@.with_flag(crate::nes::cpu_status::bit_mask(index), on),
            final(self).regs.sp == old(self).regs.sp,
    {
        if on {
            self.status.turn_on(index);
        } else {
            self.status.turn_off(index);
        }
    }
}

impl NesCpu {
    /// The effective address of the operand at the program counter. Reads
    /// the processor, changes nothing.
    pub fn translate_addr(&self, mode: AddressingMode) -> (addr: u16)
        ensures
            addr == self@.address(mode.addr_mode()),
    {
        resolve(mode.to_addr_mode(), self.regs.pc, self.regs.x, self.regs.y, &self.mem.bus)
    }

    /// Loads `program`, resets the processor and runs the program to its
    /// end. A program that does not fit is not run.
    pub fn interpret(&mut self, program: &[u8]) -> (res: Option<ExecError>)
        requires
            in_bounds(LOAD_ADDRESS, program@.len()) ==> halts(
                restarted(loaded(old(self)@, program@)),
            ),
        ensures
            in_bounds(LOAD_ADDRESS, program@.len()) ==> {
                &&& final(self)@ == outcome(restarted(loaded(old(self)@, program@)))
                &&& final(self).regs.sp == 0
                &&& !(final(self)@.run is Running)
                &&& res == final(self)@.run.fault()
            },
            !in_bounds(LOAD_ADDRESS, program@.len()) ==> {
                &&& final(self)@ == old(self)@
                &&& final(self).regs.sp == old(self).regs.sp
                &&& res == Some(ExecError::OutOfBounds)
            },
    {
        match self.load_reset(program) {
            Err(e) => Some(e),
            Ok(()) => {
                self.run();
                match self.state {
                    RunState::Faulted(reason) => Some(reason),
                    _ => None,
                }
            },
        }
    }

    /// Steps until the processor halts or faults. The run is that of a
    /// program that ends: nothing here bounds the number of steps.
    pub fn run(&mut self) -> (this: &mut Self)
        requires
            halts(old(self)@),
        ensures
            this@ == outcome(old(self)@),
            !(this@.run is Running),
            this.regs.sp == old(self).regs.sp,
            *final(self) == *final(this),
    {
        let ghost start = self@;
        let ghost mut fuel = choose|n: nat| halts_within(start, n);
        while self.state.is_running()
            invariant
                start == old(self)@,
                halts(start),
                halts_within(self@, fuel),
                steps(self@, fuel) == outcome(start),
                self.regs.sp == old(self).regs.sp,
            decreases fuel,
        {
            proof {
                machine::lemma_run_step(self@, fuel);
            }
            let _ = self.step();
            proof {
                fuel = (fuel - 1) as nat;
            }
        }
        proof {
            machine::lemma_terminal_is_final(self@, fuel);
        }
        self
    }

    /// Fetches, decodes and executes the instruction at the program counter.
    /// A processor that has halted or faulted does nothing and reports its
    /// state again.
    pub fn step(&mut self) -> (res: Result<ExecStatus, ExecError>)
        ensures
            final(self)@ == step(old(self)@),
            final(self).regs.sp == old(self).regs.sp,
            res == final(self)@.run.report(),
    {
        proof {
            reveal(step);
        }
        if !self.state.is_running() {
            return self.state.to_report();
        }
        let opcode_hex = self.fetch();
        proof {
            lemma_same_machine(opcode_hex, self@);
        }
        match decode(&self.table, opcode_hex) {
            Some(opcode) => self.dispatch_opcode(&opcode),
            None => {
                self.state = RunState::Faulted(ExecError::InvalidInstruction);
                Err(ExecError::InvalidInstruction)
            },
        }
    }

    /// Executes the instruction that `opcode` describes.
    #[verifier::rlimit(30)]
    fn dispatch_opcode(&mut self, opcode: &Opcode) -> (res: Result<ExecStatus, ExecError>)
        ensures
            final(self)@ == if old(self)@.run is Running {
                perform(*opcode, old(self)@)
            } else {
                old(self)@
            },
            final(self).regs.sp == old(self).regs.sp,
            res == final(self)@.run.report(),
    {
        if !self.state.is_running() {
            return self.state.to_report();
        }
        proof {
            lemma_bit_masks();
        }
        match opcode.opcode {
            OpcodeType::Lda => self.lda(opcode.mode),
            OpcodeType::Sta => self.store(opcode.mode, self.regs.acc),
            OpcodeType::Stx => self.store(opcode.mode, self.regs.x),
            OpcodeType::Sty => self.store(opcode.mode, self.regs.y),
            OpcodeType::And => self.and(opcode.mode),
            OpcodeType::Adc => self.adc(opcode.mode),
            OpcodeType::Asl => {
                if opcode.pc_offset == 0 {
                    self.asl_acc();
                } else {
                    self.asl(opcode.mode);
                }
            },
            OpcodeType::Inx => self.set_x(self.regs.x.wrapping_add(1)),
            OpcodeType::Iny => self.set_y(self.regs.y.wrapping_add(1)),
            OpcodeType::Tax => self.set_x(self.regs.acc),
            OpcodeType::Tay => self.set_y(self.regs.acc),
            OpcodeType::Bcs => {
                let taken = self.status.by_index(CpuStatus::CARRY);
                self.branch(opcode.mode, opcode.pc_offset, taken);
                return Ok(ExecStatus::Executing);
            },
            OpcodeType::Bcc => {
                let taken = !self.status.by_index(CpuStatus::CARRY);
                self.branch(opcode.mode, opcode.pc_offset, taken);
                return Ok(ExecStatus::Executing);
            },
            OpcodeType::Beq => {
                let taken = self.status.by_index(CpuStatus::ZERO);
                self.branch(opcode.mode, opcode.pc_offset, taken);
                return Ok(ExecStatus::Executing);
            },
            OpcodeType::Bne => {
                let taken = !self.status.by_index(CpuStatus::ZERO);
                self.branch(opcode.mode, opcode.pc_offset, taken);
                return Ok(ExecStatus::Executing);
            },
            OpcodeType::Brk => {
                self.state = RunState::Halted;
                return Ok(ExecStatus::Exit);
            },
        }

        self.regs.add_pc(opcode.pc_offset);

        Ok(ExecStatus::Executing)
    }

    fn set_x(&mut self, value: u8)
        ensures
            final(self)@ == (State { x: value, ..old(self)@ }).flagged(value),
            final(self).regs.sp == old(self).regs.sp,
    {
        self.regs.x = value;
        self.check_zero_neg(value);
    }

    fn set_y(&mut self, value: u8)
        ensures
            final(self)@ == (State { y: value, ..old(self)@ }).flagged(value),
            final(self).regs.sp == old(self).regs.sp,
    {
        self.regs.y = value;
        self.check_zero_neg(value);
    }

    fn store(&mut self, mode: AddressingMode, value: u8)
        ensures
            final(self)@ == (State {
                mem: old(self)@.mem.update(old(self)@.address(mode.addr_mode()) as int, value),
                ..old(self)@
            }),
            final(self).regs.sp == old(self).regs.sp,
    {
        let addr = self.translate_addr(mode);
        self.mem.write(addr, value);
    }

    fn and(&mut self, mode: AddressingMode)
        ensures
            final(self)@ == machine::and(old(self)@, mode.addr_mode()),
            final(self).regs.sp == old(self).regs.sp,
    {
        let addr = self.translate_addr(mode);
        let value = self.regs.acc & self.mem.read(addr);

        self.regs.acc = value;
        self.check_zero_neg(value);
    }

    fn adc(&mut self, mode: AddressingMode)
        ensures
            final(self)@ == machine::adc(old(self)@, mode.addr_mode()),
            final(self).regs.sp == old(self).regs.sp,
    {
        proof {
            lemma_bit_masks();
        }
        let addr = self.translate_addr(mode);
        let carry = self.status.by_index(CpuStatus::CARRY);
        let sum = add_with_carry(self.regs.acc, self.mem.read(addr), carry);

        self.regs.acc = sum.value;
        self.set_flag(CpuStatus::CARRY, sum.carry);
        self.set_flag(CpuStatus::OVERFLOW, sum.overflow);
        self.check_zero_neg(sum.value);
    }

    fn asl(&mut self, mode: AddressingMode)
        ensures
            final(self)@ == machine::asl(old(self)@, mode.addr_mode()),
            final(self).regs.sp == old(self).regs.sp,
    {
        proof {
            lemma_bit_masks();
        }
        let addr = self.translate_addr(mode);
        let (value, carry) = shift_left(self.mem.read(addr));

        self.mem.write(addr, value);
        self.set_flag(CpuStatus::CARRY, carry);
        self.check_zero_neg(value);
    }

    fn asl_acc(&mut self)
        ensures
            final(self)@ == machine::asl(old(self)@, AddrMode::Accumulator),
            final(self).regs.sp == old(self).regs.sp,
    {
        proof {
            lemma_bit_masks();
        }
        let (value, carry) = shift_left(self.regs.acc);

        self.regs.acc = value;
        self.set_flag(CpuStatus::CARRY, carry);
        self.check_zero_neg(value);
    }

    fn branch(&mut self, mode: AddressingMode, length: u16, taken: bool)
        ensures
            final(self)@ == branch_by(old(self)@, mode.addr_mode(), length, taken),
            final(self).regs.sp == old(self).regs.sp,
    {
        let displacement = self.mem.read(self.translate_addr(mode));

        self.regs.add_pc(length);
        if taken {
            self.regs.pc = branch_to(self.regs.pc, displacement);
        }
    }

    /// Loads `program` and resets the processor, or reports `OutOfBounds`
    /// and changes nothing when the program does not fit.
    pub fn load_reset(&mut self, program: &[u8]) -> (res: Result<(), ExecError>)
        ensures
            res == if in_bounds(LOAD_ADDRESS, program@.len()) {
                Ok::<(), ExecError>(())
            } else {
                Err::<(), ExecError>(ExecError::OutOfBounds)
            },
            res is Ok ==> final(self)@ == restarted(loaded(old(self)@, program@)),
            res is Ok ==> final(self).regs.sp == 0,
            res is Err ==> final(self)@ == old(self)@ && final(self).regs.sp == old(self).regs.sp,
    {
        match self.load(program) {
            Err(e) => Err(e),
            Ok(()) => {
                self.reset();
                Ok(())
            },
        }
    }

    /// Places `program` at the load address and points the reset vector at
    /// it, or reports `OutOfBounds` and changes nothing when the program
    /// does not fit.
    pub fn load(&mut self, program: &[u8]) -> (res: Result<(), ExecError>)
        ensures
            res == if in_bounds(LOAD_ADDRESS, program@.len()) {
                Ok::<(), ExecError>(())
            } else {
                Err::<(), ExecError>(ExecError::OutOfBounds)
            },
            res is Ok ==> final(self)@ == loaded(old(self)@, program@),
            res is Ok ==> final(self).regs.sp == old(self).regs.sp,
            res is Err ==> final(self)@ == old(self)@ && final(self).regs.sp == old(self).regs.sp,
    {
        match self.mem.bulk_write(LOAD_ADDRESS, program) {
            Err(e) => Err(e),
            Ok(()) => {
                self.mem.write_u16(RESET_VECTOR, LOAD_ADDRESS);
                Ok(())
            },
        }
    }

    /// Reads the program counter from the reset vector, zeroes the other
    /// registers and makes the processor run again. Memory and flags stay.
    pub fn reset(&mut self) -> (this: &mut Self)
        ensures
            this@ == restarted(old(self)@),
            this.regs.sp == 0,
            *final(self) == *final(this),
    {
        self.regs.acc = 0;
        self.regs.pc = self.mem.read_u16(RESET_VECTOR);
        self.regs.sp = 0;
        self.regs.x = 0;
        self.regs.y = 0;
        self.state = RunState::Running;

        self
    }

    /// Reads the byte at the program counter and steps over it.
    pub fn fetch(&mut self) -> (value: u8)
        ensures
            value == old(self)@.mem[old(self)@.pc as int],
            final(self)@ == old(self)@.advance(1),
            final(self).regs.sp == old(self).regs.sp,
    {
        let value = self.mem.read(self.regs.pc);
        self.regs.inc_pc();

        value
    }

    /// Reads the word at the program counter and steps over it.
    pub fn fetch_u16(&mut self) -> (value: u16)
        ensures
            value == word_at(old(self)@.mem, old(self)@.pc),
            final(self)@ == old(self)@.advance(2),
            final(self).regs.sp == old(self).regs.sp,
    {
        let value = self.mem.read_u16(self.regs.pc);
        self.regs.add_pc(2);

        value
    }

    /// A running processor with zeroed registers, flags and memory.
    pub fn new() -> (cpu: Self)
        ensures
            cpu@ == (State {
                pc: 0,
                x: 0,
                y: 0,
                acc: 0,
                flags: 0,
                mem: Seq::new(crate::consts::MEMORY_SIZE as nat, |i: int| 0u8),
                run: RunState::Running,
            }),
            cpu.regs.sp == 0,
    {
        Self {
            mem: NesMemory::new(),
            regs: CpuRegisters::new(),
            status: CpuStatus::new(),
            state: RunState::Running,
            table: OpcodeTable::new(),
        }
    }
}

} // verus!
