use emu::addressing::{is_addressed, resolve};
use emu::alu::{add_with_carry, branch_to, shift_left, Sum};
use emu::consts::ROM_ENTRYPOINT;
use emu::cpu::Cpu;
use emu::error::ExecError;
use emu::mem::{AddrMode, Memory};
use emu::opcode::{lookup_opcode, try_init, InitializeState, Opcode, OpcodeTable};
use emu::status::{CpuStatus, ExecStatus, RunState};

#[test]
fn increment_wraps_to_zero() {
    let mut cpu = Cpu::default();
    cpu.x = 0xFF;
    cpu.inx();
    assert_eq!(cpu.x, 0x00);
    assert!(cpu.status.fetch(CpuStatus::ZERO));
    assert!(!cpu.status.fetch(CpuStatus::NEGATIVE));

    cpu.y = 0xFF;
    cpu.iny();
    assert_eq!(cpu.y, 0x00);
    assert!(cpu.status.fetch(CpuStatus::ZERO));
}

#[test]
fn increment_into_negative() {
    let mut cpu = Cpu::default();
    cpu.x = 0x7F;
    cpu.inx();
    assert_eq!(cpu.x, 0x80);
    assert!(!cpu.status.fetch(CpuStatus::ZERO));
    assert!(cpu.status.fetch(CpuStatus::NEGATIVE));
}

#[test]
fn flags_follow_every_result_byte() {
    let mut cpu = Cpu::default();
    for value in 0..=255u8 {
        cpu.chk_zero_neg_b(value);
        assert_eq!(cpu.status.fetch(CpuStatus::ZERO), value == 0);
        assert_eq!(cpu.status.fetch(CpuStatus::NEGATIVE), (value & 0x80) != 0);
    }
}

#[test]
fn flag_checks_on_words() {
    let mut cpu = Cpu::default();
    cpu.chk_zero(0);
    assert!(cpu.status.fetch(CpuStatus::ZERO));
    cpu.chk_zero(0x0100);
    assert!(!cpu.status.fetch(CpuStatus::ZERO));

    cpu.chk_neg(0x0080, 0x0080);
    assert!(cpu.status.fetch(CpuStatus::NEGATIVE));
    cpu.chk_neg(0x0100, 0x0080);
    assert!(!cpu.status.fetch(CpuStatus::NEGATIVE));

    cpu.chk_zero_neg_w(0x0180);
    assert!(cpu.status.fetch(CpuStatus::NEGATIVE));
    assert!(!cpu.status.fetch(CpuStatus::ZERO));
    cpu.chk_zero_neg(0, 0xFFFF);
    assert!(!cpu.status.fetch(CpuStatus::NEGATIVE));
    assert!(cpu.status.fetch(CpuStatus::ZERO));
}

#[test]
fn flags_keep_their_neighbours() {
    let mut status = CpuStatus::new(0);
    status.set_on(CpuStatus::CARRY);
    status.set_on(CpuStatus::OVERFLOW);
    assert!(status.fetch(CpuStatus::CARRY));
    assert!(status.fetch(CpuStatus::OVERFLOW));
    assert!(!status.fetch(CpuStatus::ZERO));
    status.set_off(CpuStatus::CARRY);
    assert!(!status.fetch(CpuStatus::CARRY));
    assert!(status.fetch(CpuStatus::OVERFLOW));
    assert!(CpuStatus::default().fetch(0));
    assert!(!CpuStatus::default().fetch(CpuStatus::BREAK));
}

#[test]
fn add_with_carry_out_and_in() {
    let mut cpu = Cpu::default();
    cpu.load_rom(&[0xFF, 0x01]).unwrap();
    cpu.acc = 0x01;
    cpu.adc(AddrMode::Immediate);
    assert_eq!(cpu.acc, 0x00);
    assert!(cpu.status.fetch(CpuStatus::CARRY));
    assert!(cpu.status.fetch(CpuStatus::ZERO));

    cpu.inc_pc();
    cpu.adc(AddrMode::Immediate);
    assert_eq!(cpu.acc, 0x02);
    assert!(!cpu.status.fetch(CpuStatus::CARRY));
    assert!(!cpu.status.fetch(CpuStatus::ZERO));
}

#[test]
fn add_with_signed_overflow() {
    let mut cpu = Cpu::default();
    cpu.load_rom(&[0x01]).unwrap();
    cpu.acc = 0x7F;
    cpu.adc(AddrMode::Immediate);
    assert_eq!(cpu.acc, 0x80);
    assert!(cpu.status.fetch(CpuStatus::OVERFLOW));
    assert!(cpu.status.fetch(CpuStatus::NEGATIVE));
    assert!(!cpu.status.fetch(CpuStatus::CARRY));
}

#[test]
fn sums_on_plain_bytes() {
    assert_eq!(add_with_carry(0x01, 0xFF, false), Sum { value: 0x00, carry: true, overflow: false });
    assert_eq!(add_with_carry(0x00, 0x01, true), Sum { value: 0x02, carry: false, overflow: false });
    assert_eq!(add_with_carry(0x7F, 0x01, false), Sum { value: 0x80, carry: false, overflow: true });
    assert_eq!(add_with_carry(0x80, 0x80, false), Sum { value: 0x00, carry: true, overflow: true });
    assert_eq!(add_with_carry(0x7F, 0x7F, true), Sum { value: 0xFF, carry: false, overflow: true });
    assert_eq!(add_with_carry(0xFF, 0xFF, true), Sum { value: 0xFF, carry: true, overflow: false });
    assert_eq!(add_with_carry(0x80, 0xFF, false), Sum { value: 0x7F, carry: true, overflow: true });
    assert_eq!(add_with_carry(0x50, 0xD0, false), Sum { value: 0x20, carry: true, overflow: false });
}

#[test]
fn overflow_is_signed_overflow_for_all_bytes() {
    for acc in 0..=255u8 {
        for operand in 0..=255u8 {
            for carry in [false, true] {
                let sum = add_with_carry(acc, operand, carry);
                let wide = acc as u16 + operand as u16 + carry as u16;
                let signed = acc as i8 as i16 + operand as i8 as i16 + carry as i16;
                assert_eq!(sum.value, wide as u8);
                assert_eq!(sum.carry, wide > 0xFF);
                assert_eq!(sum.overflow, !(-128..=127).contains(&signed));
            }
        }
    }
}

#[test]
fn shifts_on_plain_bytes() {
    assert_eq!(shift_left(0x05), (0x0A, false));
    assert_eq!(shift_left(0x80), (0x00, true));
    assert_eq!(shift_left(0xFF), (0xFE, true));
    assert_eq!(shift_left(0x40), (0x80, false));
}

#[test]
fn shift_sets_carry_and_flags() {
    let mut cpu = Cpu::default();
    cpu.acc = 0x80;
    cpu.asl(AddrMode::Accumulator);
    assert_eq!(cpu.acc, 0x00);
    assert!(cpu.status.fetch(CpuStatus::CARRY));
    assert!(cpu.status.fetch(CpuStatus::ZERO));
    assert!(!cpu.status.fetch(CpuStatus::NEGATIVE));

    cpu.acc = 0x41;
    cpu.asl(AddrMode::Accumulator);
    assert_eq!(cpu.acc, 0x82);
    assert!(!cpu.status.fetch(CpuStatus::CARRY));
    assert!(cpu.status.fetch(CpuStatus::NEGATIVE));
}

#[test]
fn branch_targets() {
    assert_eq!(branch_to(0x8009, 0xFB), 0x8004);
    assert_eq!(branch_to(0x8004, 0x03), 0x8007);
    assert_eq!(branch_to(0x0002, 0xFB), 0xFFFD);
    assert_eq!(branch_to(0xFFFF, 0x02), 0x0001);
    assert_eq!(branch_to(0x1000, 0x80), 0x0F80);
    assert_eq!(branch_to(0x1000, 0x7F), 0x107F);
    assert_eq!(branch_to(0x1000, 0x00), 0x1000);
}

#[test]
fn backward_branch_closes_a_loop() {
    let mut cpu = Cpu::default();
    let fault = cpu.try_interpret(&[
        0xA9, 0xFC,  // lda 0xFC (imm)
        0xAA,        // tax
        0xA9, 0x00,  // lda 0x00 (imm)

        0x69, 0x01,  // adc 0x01 (imm)
        0xE8,        // inx
        0xD0, 0xFB,  // bne 0xFB (-5)

        0x00,        // brk
    ]);

    assert_eq!(fault, None);
    assert_eq!(cpu.x, 0x00);
    assert_eq!(cpu.acc, 0x04);
    assert_eq!(cpu.pc, ROM_ENTRYPOINT + 11);
}

#[test]
fn branch_steps_back_five() {
    let mut cpu = Cpu::default();
    cpu.load_rom(&[0xEA, 0xEA, 0xEA, 0xEA, 0xEA, 0xFB]).unwrap();
    cpu.pc = ROM_ENTRYPOINT + 5;
    cpu.branch(true);
    assert_eq!(cpu.pc, ROM_ENTRYPOINT + 1);

    cpu.pc = ROM_ENTRYPOINT + 5;
    cpu.branch(false);
    assert_eq!(cpu.pc, ROM_ENTRYPOINT + 6);
}

#[test]
fn illegal_opcode_faults_and_stops() {
    let mut cpu = Cpu::default();
    let fault = cpu.try_interpret(&[
        0xA9, 0x07,  // lda 0x07 (imm)
        0x02,        // no instruction
        0xA9, 0x01,  // lda 0x01 (imm)
        0x00,        // brk
    ]);

    assert_eq!(fault, Some(ExecError::InvalidInstruction));
    assert_eq!(cpu.state, RunState::Faulted(ExecError::InvalidInstruction));
    assert_eq!(cpu.acc, 0x07);
    assert_eq!(cpu.pc, ROM_ENTRYPOINT + 3);

    assert_eq!(cpu.exec_next(), Err(ExecError::InvalidInstruction));
    assert_eq!(cpu.exec(Opcode::Inx), Err(ExecError::InvalidInstruction));
    assert_eq!(cpu.exec_until_brk(), Some(ExecError::InvalidInstruction));
    assert_eq!(cpu.acc, 0x07);
    assert_eq!(cpu.x, 0x00);
    assert_eq!(cpu.pc, ROM_ENTRYPOINT + 3);

    cpu.reset();
    assert_eq!(cpu.state, RunState::Running);
    assert_eq!(cpu.pc, 0);
    assert_eq!(cpu.acc, 0);
}

#[test]
fn halted_processor_stays_halted() {
    let mut cpu = Cpu::default();
    assert_eq!(cpu.try_interpret(&[0xE8, 0x00, 0xE8, 0x00]), None);
    assert_eq!(cpu.state, RunState::Halted);
    assert_eq!(cpu.x, 1);
    assert_eq!(cpu.exec_next(), Ok(ExecStatus::Exit));
    assert_eq!(cpu.x, 1);
    assert_eq!(cpu.pc, ROM_ENTRYPOINT + 2);
}

#[test]
fn load_add_add_halt() {
    let mut cpu = Cpu::default();
    cpu.reset_load_rom(&[0xA9, 0x01, 0x69, 0xFF, 0x69, 0x01, 0x00]).unwrap();

    assert_eq!(cpu.exec_next(), Ok(ExecStatus::Executing));
    assert_eq!(cpu.acc, 0x01);
    assert_eq!(cpu.exec_next(), Ok(ExecStatus::Executing));
    assert_eq!(cpu.acc, 0x00);
    assert!(cpu.status.fetch(CpuStatus::CARRY));
    assert_eq!(cpu.exec_next(), Ok(ExecStatus::Executing));
    assert_eq!(cpu.acc, 0x02);
    assert!(!cpu.status.fetch(CpuStatus::CARRY));
    assert_eq!(cpu.exec_next(), Ok(ExecStatus::Exit));
    assert_eq!(cpu.state, RunState::Halted);

    let mut whole = Cpu::default();
    assert_eq!(whole.try_interpret(&[0xA9, 0x01, 0x69, 0xFF, 0x69, 0x01, 0x00]), None);
    assert_eq!(whole.state, RunState::Halted);
    assert_eq!(whole.acc, 0x02);
}

#[test]
fn program_that_does_not_fit_is_refused() {
    let mut cpu = Cpu::default();
    cpu.acc = 9;
    let image = vec![0xE8u8; 0x8001];
    assert_eq!(cpu.try_interpret(&image), Some(ExecError::OutOfBounds));
    assert_eq!(cpu.acc, 0);
    assert_eq!(cpu.x, 0);
    assert_eq!(cpu.mem.read(ROM_ENTRYPOINT), 0);
    assert_eq!(cpu.load_rom(&image), Err(ExecError::OutOfBounds));
    assert_eq!(cpu.reset_load_rom(&image), Err(ExecError::OutOfBounds));

    let mut full = vec![0xE8u8; 0x8000];
    full[0x7FFF] = 0x00;
    full[0x7FFE] = 0x00;
    assert_eq!(cpu.reset_load_rom(&full), Ok(()));
    assert_eq!(cpu.mem.read(0xFFFD), 0xE8);
    assert_eq!(cpu.pc, ROM_ENTRYPOINT);
}

#[test]
fn instruction_without_address_is_unimplemented() {
    let mut cpu = Cpu::default();
    assert_eq!(cpu.exec(Opcode::Lda(AddrMode::Accumulator, 0)), Err(ExecError::Unimplemented));
    assert_eq!(cpu.state, RunState::Faulted(ExecError::Unimplemented));
    cpu.reset();
    assert_eq!(cpu.exec(Opcode::Sta(AddrMode::Accumulator, 0)), Err(ExecError::Unimplemented));
    cpu.reset();
    assert_eq!(cpu.exec(Opcode::Uninitialized), Err(ExecError::InvalidInstruction));
    cpu.reset();
    assert_eq!(cpu.exec(Opcode::Brk), Ok(ExecStatus::Exit));
    cpu.reset();
    assert_eq!(cpu.exec(Opcode::Asl(AddrMode::Accumulator, 0)), Ok(ExecStatus::Executing));
    assert!(!is_addressed(AddrMode::Accumulator));
    assert!(is_addressed(AddrMode::Relative));
}

#[test]
fn exec_advances_by_operand_length() {
    let mut cpu = Cpu::default();
    cpu.load_rom(&[0x34, 0x12]).unwrap();
    cpu.mem.write(0x1234, 0x99);
    assert_eq!(cpu.exec(Opcode::Lda(AddrMode::Absolute, 2)), Ok(ExecStatus::Executing));
    assert_eq!(cpu.acc, 0x99);
    assert_eq!(cpu.pc, ROM_ENTRYPOINT + 2);

    cpu.pc = 0xFFFF;
    cpu.add_pc(2);
    assert_eq!(cpu.pc, 0x0001);
    cpu.add_x(0xFF);
    cpu.add_x(0x02);
    assert_eq!(cpu.x, 0x01);
    cpu.add_y(0x80);
    cpu.add_y(0x80);
    assert_eq!(cpu.y, 0x00);
    cpu.inc_y();
    cpu.inc_x();
    assert_eq!((cpu.x, cpu.y), (2, 1));
}

#[test]
fn next_fetches_and_decodes() {
    let mut cpu = Cpu::default();
    cpu.load_rom(&[0xB1, 0x02]).unwrap();
    assert!(matches!(cpu.next(), Opcode::Lda(AddrMode::IndirectY, 1)));
    assert_eq!(cpu.pc, ROM_ENTRYPOINT + 1);
    assert!(matches!(cpu.next(), Opcode::Uninitialized));
    assert_eq!(cpu.pc, ROM_ENTRYPOINT + 2);
}

#[test]
fn resolver_by_mode() {
    let mut mem = Memory::zeroed();
    mem.write(0x0200, 0xF0);
    mem.write(0x0201, 0x12);
    mem.write_word(0x12F0, 0xBEEF);
    mem.write_word(0x00F0, 0x4000);
    mem.write_word(0x0000, 0x5000);
    let (pc, x, y) = (0x0200, 0x10, 0x20);

    assert_eq!(resolve(AddrMode::Immediate, pc, x, y, &mem), 0x0200);
    assert_eq!(resolve(AddrMode::ZeroPage, pc, x, y, &mem), 0x00F0);
    assert_eq!(resolve(AddrMode::ZeroPageX, pc, x, y, &mem), 0x0000);
    assert_eq!(resolve(AddrMode::ZeroPageY, pc, x, y, &mem), 0x0010);
    assert_eq!(resolve(AddrMode::Relative, pc, x, y, &mem), 0x00F0);
    assert_eq!(resolve(AddrMode::Absolute, pc, x, y, &mem), 0x12F0);
    assert_eq!(resolve(AddrMode::AbsoluteX, pc, x, y, &mem), 0x1300);
    assert_eq!(resolve(AddrMode::AbsoluteY, pc, x, y, &mem), 0x1310);
    assert_eq!(resolve(AddrMode::Indirect, pc, x, y, &mem), 0xBEEF);
    assert_eq!(resolve(AddrMode::IndirectX, pc, x, y, &mem), 0x5000);
    assert_eq!(resolve(AddrMode::IndirectY, pc, x, y, &mem), 0x4020);

    assert_eq!(resolve(AddrMode::IndirectY, pc, x, y, &mem), 0x4020);
    assert_eq!(mem.read(0x0200), 0xF0);
}

#[test]
fn resolver_wraps_across_the_address_space() {
    let mut mem = Memory::zeroed();
    mem.write_word(0x0300, 0xFFF0);
    assert_eq!(resolve(AddrMode::AbsoluteX, 0x0300, 0x20, 0, &mem), 0x0010);
    assert_eq!(resolve(AddrMode::AbsoluteY, 0x0300, 0, 0x10, &mem), 0x0000);

    let mut cpu = Cpu::default();
    cpu.mem.write_word(0x0300, 0xFFF0);
    cpu.pc = 0x0300;
    cpu.x = 0x20;
    assert_eq!(cpu.translate(AddrMode::AbsoluteX), 0x0010);
    assert_eq!(cpu.translate(AddrMode::AbsoluteX), 0x0010);
}

#[test]
fn stores_and_transfers() {
    let mut cpu = Cpu::default();
    cpu.load_rom(&[0x40, 0x41, 0x42]).unwrap();
    cpu.acc = 0x81;
    cpu.tax();
    cpu.tay();
    assert_eq!((cpu.x, cpu.y), (0x81, 0x81));
    assert!(cpu.status.fetch(CpuStatus::NEGATIVE));
    cpu.acc = 1;
    cpu.x = 2;
    cpu.y = 3;
    cpu.sta(AddrMode::ZeroPage);
    cpu.inc_pc();
    cpu.stx(AddrMode::ZeroPage);
    cpu.inc_pc();
    cpu.sty(AddrMode::ZeroPage);
    assert_eq!(cpu.mem.read(0x40), 1);
    assert_eq!(cpu.mem.read(0x41), 2);
    assert_eq!(cpu.mem.read(0x42), 3);
    assert!(cpu.status.fetch(CpuStatus::NEGATIVE));

    cpu.acc = 0xF0;
    cpu.pc = ROM_ENTRYPOINT;
    cpu.and(AddrMode::Immediate);
    assert_eq!(cpu.acc, 0x40);
    cpu.lda(AddrMode::ZeroPage);
    assert_eq!(cpu.acc, 1);
    cpu.set_overflow(true);
    cpu.set_carry(true);
    assert!(cpu.status.fetch(CpuStatus::OVERFLOW));
    assert!(cpu.status.fetch(CpuStatus::CARRY));
    cpu.set_overflow(false);
    assert!(!cpu.status.fetch(CpuStatus::OVERFLOW));
    assert!(cpu.status.fetch(CpuStatus::CARRY));
}

#[test]
fn reset_keeps_memory_and_flags() {
    let mut cpu = Cpu::new(0x1234, 1, 2, 3, Memory::zeroed(), CpuStatus::new(CpuStatus::CARRY));
    cpu.mem.write(0x10, 0x55);
    assert_eq!(cpu.state, RunState::Running);
    cpu.reset();
    assert_eq!((cpu.pc, cpu.x, cpu.y, cpu.acc), (0, 0, 0, 0));
    assert_eq!(cpu.mem.read(0x10), 0x55);
    assert!(cpu.status.fetch(CpuStatus::CARRY));
}

#[test]
fn table_is_built_once() {
    let mut slot: Option<OpcodeTable> = None;
    assert_eq!(try_init(&mut slot), InitializeState::Initialized);
    assert_eq!(try_init(&mut slot), InitializeState::AlreadyInitialized);
    assert_eq!(try_init(&mut slot), InitializeState::AlreadyInitialized);
    let table = slot.unwrap();
    assert!(matches!(lookup_opcode(&table, 0x00), Opcode::Brk));
    assert!(matches!(lookup_opcode(&table, 0xF0), Opcode::Beq));
    assert!(matches!(lookup_opcode(&table, 0xD0), Opcode::Bne));
    assert!(matches!(lookup_opcode(&table, 0x0A), Opcode::Asl(AddrMode::Accumulator, 0)));
    assert!(matches!(lookup_opcode(&table, 0x1E), Opcode::Asl(AddrMode::AbsoluteX, 2)));
    assert!(matches!(lookup_opcode(&table, 0x96), Opcode::Stx(AddrMode::ZeroPageY, 1)));
    assert!(matches!(lookup_opcode(&table, 0x71), Opcode::Adc(AddrMode::IndirectY, 1)));
    assert!(matches!(lookup_opcode(&table, 0x02), Opcode::Uninitialized));
    assert!(matches!(lookup_opcode(&table, 0xFF), Opcode::Uninitialized));
}

#[test]
fn table_has_every_instruction() {
    let table = OpcodeTable::new();
    let mut known = 0;
    for code in 0..=255u8 {
        if !matches!(lookup_opcode(&table, code), Opcode::Uninitialized) {
            known += 1;
        }
    }
    assert_eq!(known, 51);
}

#[test]
fn run_states_report() {
    assert_eq!(RunState::Running.to_report(), Ok(ExecStatus::Executing));
    assert_eq!(RunState::Halted.to_report(), Ok(ExecStatus::Exit));
    assert_eq!(
        RunState::Faulted(ExecError::Unimplemented).to_report(),
        Err(ExecError::Unimplemented)
    );
    assert!(RunState::Running.is_running());
    assert!(!RunState::Halted.is_running());
}

#[test]
fn bounded_run_stops_at_the_limit() {
    let mut cpu = Cpu::default();
    // inx; bcc -3: a loop without end
    cpu.reset_load_rom(&[0xE8, 0x90, 0xFD]).unwrap();
    assert_eq!(cpu.exec_steps(0), Ok(ExecStatus::Executing));
    assert_eq!(cpu.x, 0);
    assert_eq!(cpu.exec_steps(7), Ok(ExecStatus::Executing));
    assert_eq!(cpu.x, 4);
    assert_eq!(cpu.pc, ROM_ENTRYPOINT + 1);
    assert_eq!(cpu.state, RunState::Running);

    let mut short = Cpu::default();
    short.reset_load_rom(&[0xE8, 0xE8, 0x00, 0xE8]).unwrap();
    assert_eq!(short.exec_steps(100), Ok(ExecStatus::Exit));
    assert_eq!(short.x, 2);
    assert_eq!(short.pc, ROM_ENTRYPOINT + 3);
    assert_eq!(short.exec_steps(usize::MAX), Ok(ExecStatus::Exit));
    assert_eq!(short.x, 2);
}

#[test]
fn copies_are_independent() {
    let mut mem = Memory::zeroed();
    mem.write(0x10, 1);
    let mut copy = mem.clone();
    copy.write(0x10, 2);
    assert_eq!(mem.read(0x10), 1);
    assert_eq!(copy.read(0x10), 2);
    let table = OpcodeTable::new();
    assert!(matches!(lookup_opcode(&table.clone(), 0xA9), Opcode::Lda(AddrMode::Immediate, 1)));
}
